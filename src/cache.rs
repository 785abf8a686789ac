//! The document cache: the stem that names a page set's sidecar files, what
//! a run does given which sidecars exist, and the texts it assembles.

use vstd::prelude::*;
use crate::page_key::{extract_page_number, page_key};
use crate::text::{join, joined, views};

verus! {

pub open spec fn keys_of(paths: Seq<Seq<char>>) -> Seq<Seq<char>> {
    paths.map_values(|p: Seq<char>| page_key(p))
}

/// The page key of each path, in order.
pub fn page_keys(paths: &Vec<String>) -> (r: Vec<String>)
    ensures
        views(r@) == keys_of(views(paths@)),
{
    let mut r: Vec<String> = Vec::new();
    let mut i: usize = 0;
    while i < paths.len()
        invariant
            i <= paths.len(),
            r@.len() == i,
            views(r@) =~= keys_of(views(paths@)).take(i as int),
        decreases paths.len() - i,
    {
        let k = extract_page_number(paths[i].as_str());
        let ghost before = r@;
        r.push(k);
        assert(r@ == before.push(k));
        assert forall|j: int| 0 <= j <= i implies #[trigger] views(r@)[j] == keys_of(
            views(paths@),
        )[j] by {
            assert(views(paths@)[j] == paths@[j]@);
            if j < i {
                assert(r@[j] == before[j]);
                assert(views(before)[j] == keys_of(views(paths@)).take(i as int)[j]);
            }
        }
        assert(views(r@) =~= keys_of(views(paths@)).take(i as int + 1));
        i = i + 1;
    }
    assert(keys_of(views(paths@)).take(paths.len() as int) =~= keys_of(views(paths@)));
    r
}

pub open spec fn stem_of(paths: Seq<Seq<char>>) -> Seq<char> {
    "document_page_"@ + joined(keys_of(paths), "_"@)
}

/// The stem shared by a page set's two sidecar files: `document_page_`
/// followed by the page keys joined by `_`.
pub fn document_stem(paths: &Vec<String>) -> (r: String)
    ensures
        r@ == stem_of(views(paths@)),
{
    let keys = page_keys(paths);
    let joined_keys = join(&keys, "_");
    String::from_str("document_page_").concat(joined_keys.as_str())
}

/// The name of the XML sidecar, `<stem>.xml`.
pub fn xml_sidecar_name(stem: &str) -> (r: String)
    ensures
        r@ == stem@ + ".xml"@,
{
    String::from_str(stem).concat(".xml")
}

/// The name of the record sidecar, `<stem>.json`.
pub fn json_sidecar_name(stem: &str) -> (r: String)
    ensures
        r@ == stem@ + ".json"@,
{
    String::from_str(stem).concat(".json")
}

/// What a run does, given the sidecars that exist.
#[derive(Debug, Clone, Copy, PartialEq, Eq, Structural)]
pub enum CachePlan {
    /// Both sidecars exist: read the record and return it.
    ReadRecord,
    /// Only the XML exists: read it and go on to naming.
    ResumeFromXml,
    /// Extract every page, store the XML, and go on to naming.
    ExtractAll,
}

impl CachePlan {
    /// Whether the plan sends pages to the extraction client.
    pub open spec fn extracts(self) -> bool {
        self == CachePlan::ExtractAll
    }

    /// Whether the plan asks the provider for a name.
    pub open spec fn names(self) -> bool {
        self != CachePlan::ReadRecord
    }
}

pub open spec fn spec_plan(xml_exists: bool, json_exists: bool) -> CachePlan {
    if xml_exists && json_exists {
        CachePlan::ReadRecord
    } else if xml_exists {
        CachePlan::ResumeFromXml
    } else {
        CachePlan::ExtractAll
    }
}

pub fn plan_cache(xml_exists: bool, json_exists: bool) -> (r: CachePlan)
    ensures
        r == spec_plan(xml_exists, json_exists),
{
    if xml_exists && json_exists {
        CachePlan::ReadRecord
    } else if xml_exists {
        CachePlan::ResumeFromXml
    } else {
        CachePlan::ExtractAll
    }
}

/// The XML of all pages before normalization: one `document` element whose
/// children are the fragments, joined by newlines.
pub open spec fn document_xml_of(fragments: Seq<Seq<char>>) -> Seq<char> {
    "<document>"@ + joined(fragments, "\n"@) + "</document>"@
}

pub fn combine_fragments(fragments: &Vec<String>) -> (r: String)
    ensures
        r@ == document_xml_of(views(fragments@)),
{
    let body = join(fragments, "\n");
    String::from_str("<document>").concat(body.as_str()).concat("</document>")
}

pub open spec fn envelope_of(json_path: Seq<char>, pages: Seq<Seq<char>>, reply: Seq<char>) -> Seq<char> {
    "<document><json_file_path>"@ + json_path + "</json_file_path><pages_paths>"@ + joined(
        pages,
        ","@,
    ) + "</pages_paths>"@ + reply + "</document>"@
}

/// The document envelope: the record's own path, its pages joined by commas,
/// and the elements of the naming reply, in one `document` element.
pub fn document_envelope(json_path: &str, pages: &Vec<String>, reply: &str) -> (r: String)
    ensures
        r@ == envelope_of(json_path@, views(pages@), reply@),
{
    let joined_pages = join(pages, ",");
    String::from_str("<document><json_file_path>").concat(json_path).concat(
        "</json_file_path><pages_paths>",
    ).concat(joined_pages.as_str()).concat("</pages_paths>").concat(reply).concat("</document>")
}

} // verus!
