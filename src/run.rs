//! One extraction run of a page set, as a step machine: the caller performs
//! each action (read or write a sidecar, call the provider) and reports what
//! came of it as the next event.

use vstd::prelude::*;
use crate::cache::{
    combine_fragments, document_envelope, document_xml_of, envelope_of, plan_cache, spec_plan, CachePlan,
};
use crate::error::PipelineError;
use crate::prompts::{naming_prompt, replace_all, FILE_NAME_GENERATION_PROMPT, XML_PLACEHOLDER};
use crate::text::views;
use crate::xml_format::{canonical_xml, format_xml};

verus! {

/// Where a run stands.
#[derive(Debug, Clone, Copy, PartialEq, Eq, Structural)]
pub enum RunStage {
    /// Waiting to learn which sidecars exist.
    Start,
    /// Waiting for the stored XML.
    ReadingXml,
    /// Waiting for the fragment of the page last asked for.
    Extracting,
    /// Waiting for the normalized XML to be stored.
    SavingXml,
    /// Waiting for the provider's naming reply.
    Naming,
    /// Nothing more to do.
    Done,
}

/// What the caller reports.
pub enum RunEvent {
    /// Which sidecar files exist.
    Sidecars { xml_exists: bool, json_exists: bool },
    /// The stored XML was read.
    XmlRead(String),
    /// The page last asked for was extracted into this fragment.
    PageExtracted(String),
    /// The normalized XML was stored.
    XmlSaved,
    /// The provider's naming reply.
    NameReceived(String),
}

/// What the caller is to do next.
#[derive(Debug)]
pub enum RunAction {
    /// Read the record sidecar and return it: the page set is done.
    ReturnRecord,
    /// Read the XML sidecar.
    ReadXml,
    /// Extract the page with this index.
    ExtractPage(usize),
    /// Store this XML in the XML sidecar.
    SaveXml(String),
    /// Send this naming request.
    RequestName(String),
    /// Turn this document envelope into the record and store it.
    BuildRecord(String),
    /// Stop with this error.
    Fail(PipelineError),
}

/// The state of one run.
pub struct DocumentRun {
    /// The page images, in order.
    pub paths: Vec<String>,
    /// Where the record sidecar is stored.
    pub json_path: String,
    pub stage: RunStage,
    /// The fragments of the pages extracted so far.
    pub fragments: Vec<String>,
    /// The document's normalized XML, once known.
    pub xml: String,
}

/// The stages that may follow `stage` on `event`.
pub open spec fn may_follow(stage: RunStage, event: RunEvent, next: RunStage) -> bool {
    match stage {
        RunStage::Start => match event {
            RunEvent::Sidecars { xml_exists, json_exists } => match spec_plan(xml_exists, json_exists) {
                CachePlan::ReadRecord => next == RunStage::Done,
                CachePlan::ResumeFromXml => next == RunStage::ReadingXml,
                CachePlan::ExtractAll => next == RunStage::Extracting || next == RunStage::SavingXml
                    || next == RunStage::Done,
            },
            _ => next == RunStage::Done,
        },
        RunStage::ReadingXml => next == if event is XmlRead { RunStage::Naming } else { RunStage::Done },
        RunStage::Extracting => if event is PageExtracted {
            next == RunStage::Extracting || next == RunStage::SavingXml || next == RunStage::Done
        } else {
            next == RunStage::Done
        },
        RunStage::SavingXml => next == if event is XmlSaved { RunStage::Naming } else { RunStage::Done },
        RunStage::Naming => next == RunStage::Done,
        RunStage::Done => next == RunStage::Done,
    }
}

/// After the last page: the normalized document XML of the fragments is to
/// be stored, or the run fails with a format error where it does not
/// normalize.
pub open spec fn saves_normalized(fragments: Seq<String>, r: RunAction, after: DocumentRun) -> bool {
    match canonical_xml(document_xml_of(views(fragments))) {
        Some(x) => r is SaveXml && r->SaveXml_0@ == x && after.stage == RunStage::SavingXml && after.xml
            == r->SaveXml_0,
        None => r is Fail && r->Fail_0 is Format && after.stage == RunStage::Done,
    }
}

pub open spec fn naming_request_for(xml: Seq<char>) -> Seq<char> {
    replace_all(FILE_NAME_GENERATION_PROMPT@, XML_PLACEHOLDER@, xml)
}

impl DocumentRun {
    pub fn new(paths: Vec<String>, json_path: String) -> (r: DocumentRun)
        ensures
            r.paths == paths,
            r.json_path == json_path,
            r.stage == RunStage::Start,
            r.fragments@.len() == 0,
    {
        DocumentRun { paths, json_path, stage: RunStage::Start, fragments: Vec::new(), xml: String::new() }
    }

    fn next_page_or_xml(&mut self) -> (r: RunAction)
        requires
            old(self).stage == RunStage::Extracting,
        ensures
            final(self).paths == old(self).paths,
            final(self).json_path == old(self).json_path,
            final(self).fragments == old(self).fragments,
            old(self).fragments@.len() < old(self).paths@.len() ==> final(self).stage == RunStage::Extracting
                && r is ExtractPage && r->ExtractPage_0 == old(self).fragments@.len(),
            old(self).fragments@.len() >= old(self).paths@.len() ==> saves_normalized(
                old(self).fragments@,
                r,
                *final(self),
            ),
    {
        if self.fragments.len() < self.paths.len() {
            RunAction::ExtractPage(self.fragments.len())
        } else {
            match format_xml(combine_fragments(&self.fragments).as_str()) {
                Ok(x) => {
                    self.stage = RunStage::SavingXml;
                    self.xml = x.clone();
                    RunAction::SaveXml(x)
                },
                Err(e) => {
                    self.stage = RunStage::Done;
                    RunAction::Fail(e)
                },
            }
        }
    }

    /// Takes the next event. With both sidecars present the run only returns
    /// the record; with the XML alone it reads it and asks for a name; with
    /// neither it extracts each page in order, stores the normalized XML and
    /// asks for a name. The naming reply ends the run with the envelope.
    pub fn step(&mut self, event: RunEvent) -> (r: RunAction)
        ensures
            may_follow(old(self).stage, event, final(self).stage),
            final(self).paths == old(self).paths,
            final(self).json_path == old(self).json_path,
            r is ExtractPage ==> final(self).stage == RunStage::Extracting,
            r is ExtractPage ==> r->ExtractPage_0 < final(self).paths@.len(),
            r is ExtractPage ==> r->ExtractPage_0 == final(self).fragments@.len(),
            r is RequestName ==> final(self).stage == RunStage::Naming,
            r is ReturnRecord ==> final(self).stage == RunStage::Done,
            r is BuildRecord ==> final(self).stage == RunStage::Done,
            old(self).stage == RunStage::Start ==> match event {
                RunEvent::Sidecars { xml_exists, json_exists } => match spec_plan(xml_exists, json_exists) {
                    CachePlan::ReadRecord => r is ReturnRecord,
                    CachePlan::ResumeFromXml => r is ReadXml,
                    CachePlan::ExtractAll => if old(self).paths@.len() > 0 {
                        r is ExtractPage && r->ExtractPage_0 == 0
                    } else {
                        saves_normalized(Seq::empty(), r, *final(self))
                    },
                },
                _ => r is Fail,
            },
            old(self).stage == RunStage::ReadingXml ==> match event {
                RunEvent::XmlRead(x) => r is RequestName && r->RequestName_0@ == naming_request_for(x@)
                    && final(self).xml == x,
                _ => r is Fail,
            },
            old(self).stage == RunStage::Extracting ==> match event {
                RunEvent::PageExtracted(f) => final(self).fragments@ == old(self).fragments@.push(f)
                    && (final(self).fragments@.len() < old(self).paths@.len() ==> r is ExtractPage
                    && r->ExtractPage_0 == final(self).fragments@.len())
                    && (final(self).fragments@.len() >= old(self).paths@.len() ==> saves_normalized(
                    final(self).fragments@,
                    r,
                    *final(self),
                )),
                _ => r is Fail,
            },
            old(self).stage == RunStage::SavingXml ==> match event {
                RunEvent::XmlSaved => r is RequestName && r->RequestName_0@ == naming_request_for(old(self).xml@),
                _ => r is Fail,
            },
            old(self).stage == RunStage::Naming ==> match event {
                RunEvent::NameReceived(reply) => r is BuildRecord && r->BuildRecord_0@ == envelope_of(
                    old(self).json_path@,
                    views(old(self).paths@),
                    reply@,
                ),
                _ => r is Fail,
            },
            old(self).stage == RunStage::Done ==> r is Fail,
    {
        let stage = self.stage;
        match stage {
            RunStage::Start => match event {
                RunEvent::Sidecars { xml_exists, json_exists } => match plan_cache(xml_exists, json_exists) {
                    CachePlan::ReadRecord => {
                        self.stage = RunStage::Done;
                        RunAction::ReturnRecord
                    },
                    CachePlan::ResumeFromXml => {
                        self.stage = RunStage::ReadingXml;
                        RunAction::ReadXml
                    },
                    CachePlan::ExtractAll => {
                        self.stage = RunStage::Extracting;
                        self.fragments = Vec::new();
                        self.next_page_or_xml()
                    },
                },
                _ => self.unexpected(),
            },
            RunStage::ReadingXml => match event {
                RunEvent::XmlRead(x) => {
                    let prompt = naming_prompt(x.as_str());
                    self.xml = x;
                    self.stage = RunStage::Naming;
                    RunAction::RequestName(prompt)
                },
                _ => self.unexpected(),
            },
            RunStage::Extracting => match event {
                RunEvent::PageExtracted(f) => {
                    self.fragments.push(f);
                    self.next_page_or_xml()
                },
                _ => self.unexpected(),
            },
            RunStage::SavingXml => match event {
                RunEvent::XmlSaved => {
                    self.stage = RunStage::Naming;
                    RunAction::RequestName(naming_prompt(self.xml.as_str()))
                },
                _ => self.unexpected(),
            },
            RunStage::Naming => match event {
                RunEvent::NameReceived(reply) => {
                    self.stage = RunStage::Done;
                    RunAction::BuildRecord(document_envelope(self.json_path.as_str(), &self.paths, reply.as_str()))
                },
                _ => self.unexpected(),
            },
            RunStage::Done => self.unexpected(),
        }
    }

    fn unexpected(&mut self) -> (r: RunAction)
        ensures
            final(self).stage == RunStage::Done,
            final(self).paths == old(self).paths,
            final(self).json_path == old(self).json_path,
            final(self).fragments == old(self).fragments,
            final(self).xml == old(self).xml,
            r is Fail,
    {
        self.stage = RunStage::Done;
        RunAction::Fail(PipelineError::Config(String::from_str("the run got an event it was not waiting for")))
    }
}

/// A run whose first event finds the XML sidecar never extracts a page: no
/// later stage is `Extracting`. Where the record sidecar is there too, every
/// later stage is `Done`, so no provider call of any kind is made.
pub proof fn lemma_cached_run_does_not_extract(stages: Seq<RunStage>, events: Seq<RunEvent>)
    requires
        stages.len() == events.len() + 1,
        stages[0] == RunStage::Start,
        events.len() > 0,
        events[0] matches RunEvent::Sidecars { xml_exists: true, .. },
        forall|i: int| 1 <= i < stages.len() ==> may_follow(stages[i - 1], events[i - 1], #[trigger] stages[i]),
    ensures
        forall|i: int| 1 <= i < stages.len() ==> stages[i] != RunStage::Extracting && stages[i] != RunStage::Start,
        events[0] matches RunEvent::Sidecars { json_exists: true, .. } ==> forall|i: int|
            1 <= i < stages.len() ==> stages[i] == RunStage::Done,
{
    lemma_cached_prefix(stages, events, stages.len() - 1);
}

proof fn lemma_cached_prefix(stages: Seq<RunStage>, events: Seq<RunEvent>, n: int)
    requires
        stages.len() == events.len() + 1,
        stages[0] == RunStage::Start,
        events.len() > 0,
        events[0] matches RunEvent::Sidecars { xml_exists: true, .. },
        forall|i: int| 1 <= i < stages.len() ==> may_follow(stages[i - 1], events[i - 1], #[trigger] stages[i]),
        1 <= n < stages.len(),
    ensures
        forall|i: int| 1 <= i <= n ==> stages[i] != RunStage::Extracting && stages[i] != RunStage::Start,
        events[0] matches RunEvent::Sidecars { json_exists: true, .. } ==> forall|i: int|
            1 <= i <= n ==> stages[i] == RunStage::Done,
    decreases n,
{
    assert(may_follow(stages[1 - 1], events[1 - 1], stages[1]));
    if n > 1 {
        lemma_cached_prefix(stages, events, n - 1);
        assert(may_follow(stages[n - 1], events[n - 1], stages[n]));
    }
}

} // verus!
