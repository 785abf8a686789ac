//! Final assembly: where the source PDF and the output lie, the arguments of
//! the page-selection and OCR utilities, and the order in which they run.

use vstd::prelude::*;
use crate::cache::{keys_of, page_keys};
use crate::text::{join, joined, views};

verus! {

/// A directory that holds extracted pages is named `<doc>-data`; this strips
/// the suffix where the name before it is not empty.
pub open spec fn without_data_suffix(s: Seq<char>) -> Seq<char> {
    if s.len() >= 6 && s.subrange(s.len() - 5, s.len() as int) == "-data"@ && s[s.len() - 6] != '\n' {
        s.subrange(0, s.len() - 5)
    } else {
        s
    }
}

/// Relies on regex::Regex::replace with the pattern `(.+)-data$` and the
/// replacement `$1`: a match needs a non-empty run of characters other than a
/// newline before the suffix at the end, and keeps that run.
#[verifier::external_body]
fn replace_data_suffix(dir: &str) -> (r: String)
    ensures
        r@ == without_data_suffix(dir@),
{
    match regex::Regex::new(r"(.+)-data$") {
        Ok(re) => re.replace(dir, "$1").to_string(),
        Err(_) => dir.to_string(),
    }
}

/// The source PDF's path, from the directory that holds its extracted pages:
/// the `-data` suffix taken off and `.pdf` added.
pub fn source_pdf_path(data_dir: &str) -> (r: String)
    ensures
        r@ == without_data_suffix(data_dir@) + ".pdf"@,
{
    replace_data_suffix(data_dir).concat(".pdf")
}

/// The file name of the finished PDF: the document's name with `.pdf` added.
pub fn output_pdf_name(file_name: &str) -> (r: String)
    ensures
        r@ == file_name@ + ".pdf"@,
{
    String::from_str(file_name).concat(".pdf")
}

pub open spec fn page_selection_args(source_pdf: Seq<char>, pages: Seq<Seq<char>>, output_pdf: Seq<char>) -> Seq<Seq<char>> {
    seq![
        "--empty"@,
        "--pages"@,
        source_pdf,
        joined(keys_of(pages), ","@),
        "--"@,
        output_pdf,
    ]
}

/// The arguments of the page-selection utility: the pages whose keys the
/// paths carry, in order, from `source_pdf` into `output_pdf`.
pub fn page_selection_arguments(source_pdf: &str, pages_paths: &Vec<String>, output_pdf: &str) -> (r: Vec<String>)
    ensures
        views(r@) == page_selection_args(source_pdf@, views(pages_paths@), output_pdf@),
{
    let keys = page_keys(pages_paths);
    let list = join(&keys, ",");
    let mut r: Vec<String> = Vec::new();
    r.push(String::from_str("--empty"));
    r.push(String::from_str("--pages"));
    r.push(String::from_str(source_pdf));
    r.push(list);
    r.push(String::from_str("--"));
    r.push(String::from_str(output_pdf));
    assert(views(r@) =~= page_selection_args(source_pdf@, views(pages_paths@), output_pdf@));
    r
}

pub open spec fn ocr_args(pdf: Seq<char>) -> Seq<Seq<char>> {
    seq![
        "--force-ocr"@,
        "--pdf-renderer"@,
        "hocr"@,
        "--color-conversion-strategy"@,
        "UseDeviceIndependentColor"@,
        "-l"@,
        "por"@,
        "--clean"@,
        "--output-type"@,
        "pdfa-2"@,
        pdf,
        pdf,
    ]
}

/// The arguments of the OCR utility, which rewrites `pdf` in place.
pub fn ocr_arguments(pdf: &str) -> (r: Vec<String>)
    ensures
        views(r@) == ocr_args(pdf@),
{
    let mut r: Vec<String> = Vec::new();
    r.push(String::from_str("--force-ocr"));
    r.push(String::from_str("--pdf-renderer"));
    r.push(String::from_str("hocr"));
    r.push(String::from_str("--color-conversion-strategy"));
    r.push(String::from_str("UseDeviceIndependentColor"));
    r.push(String::from_str("-l"));
    r.push(String::from_str("por"));
    r.push(String::from_str("--clean"));
    r.push(String::from_str("--output-type"));
    r.push(String::from_str("pdfa-2"));
    r.push(String::from_str(pdf));
    r.push(String::from_str(pdf));
    assert(views(r@) =~= ocr_args(pdf@));
    r
}

/// A utility succeeded when it exited with code 0; a signal or any other code
/// is a failure.
pub fn exit_succeeded(code: Option<i32>) -> (r: bool)
    ensures
        r == (code == Some(0i32)),
{
    match code {
        Some(c) => c == 0,
        None => false,
    }
}

/// Where the assembly stands.
#[derive(Debug, Clone, Copy, PartialEq, Eq, Structural)]
pub enum AssemblyStep {
    /// Run the page-selection utility.
    SelectPages,
    /// Run the OCR utility on the selected pages.
    Ocr,
    /// The searchable PDF is in place.
    Finished,
    /// A utility failed; nothing more is run.
    Failed,
}

impl AssemblyStep {
    pub open spec fn runs_utility(self) -> bool {
        self == AssemblyStep::SelectPages || self == AssemblyStep::Ocr
    }
}

pub open spec fn spec_after_utility(step: AssemblyStep, exit_code: Option<i32>) -> AssemblyStep {
    if exit_code != Some(0i32) {
        AssemblyStep::Failed
    } else if step == AssemblyStep::SelectPages {
        AssemblyStep::Ocr
    } else {
        AssemblyStep::Finished
    }
}

/// The step after the utility of `step` has terminated with `exit_code`: the
/// OCR runs only after the page selection succeeded.
pub fn after_utility(step: AssemblyStep, exit_code: Option<i32>) -> (r: AssemblyStep)
    requires
        step.runs_utility(),
    ensures
        r == spec_after_utility(step, exit_code),
{
    if !exit_succeeded(exit_code) {
        AssemblyStep::Failed
    } else if step == AssemblyStep::SelectPages {
        AssemblyStep::Ocr
    } else {
        AssemblyStep::Finished
    }
}

/// The steps that run, from the page selection on, when the utilities exit
/// with `codes` in turn.
pub open spec fn assembly_trace(step: AssemblyStep, codes: Seq<Option<i32>>) -> Seq<AssemblyStep>
    decreases codes.len(),
{
    if !step.runs_utility() || codes.len() == 0 {
        seq![step]
    } else {
        seq![step] + assembly_trace(spec_after_utility(step, codes[0]), codes.drop_first())
    }
}

/// Where the page selection does not exit with code 0, the OCR utility is never
/// run and the assembly ends failed, whatever codes would follow.
pub proof fn lemma_failed_selection_skips_ocr(codes: Seq<Option<i32>>)
    requires
        codes.len() > 0,
        codes[0] != Some(0i32),
    ensures
        !assembly_trace(AssemblyStep::SelectPages, codes).contains(AssemblyStep::Ocr),
        assembly_trace(AssemblyStep::SelectPages, codes).last() == AssemblyStep::Failed,
{
    let t = assembly_trace(AssemblyStep::SelectPages, codes);
    assert(assembly_trace(AssemblyStep::Failed, codes.drop_first()) == seq![AssemblyStep::Failed]);
    assert(t =~= seq![AssemblyStep::SelectPages, AssemblyStep::Failed]);
    assert(t[0] != AssemblyStep::Ocr && t[1] != AssemblyStep::Ocr);
}

/// Where both utilities exit with code 0, the assembly runs the page selection,
/// then the OCR, and finishes.
pub proof fn lemma_successful_assembly(codes: Seq<Option<i32>>)
    requires
        codes.len() == 2,
        codes[0] == Some(0i32),
        codes[1] == Some(0i32),
    ensures
        assembly_trace(AssemblyStep::SelectPages, codes) == seq![
            AssemblyStep::SelectPages,
            AssemblyStep::Ocr,
            AssemblyStep::Finished,
        ],
{
    let rest = codes.drop_first();
    assert(rest.drop_first().len() == 0);
    assert(assembly_trace(AssemblyStep::Finished, rest.drop_first()) == seq![AssemblyStep::Finished]);
    assert(assembly_trace(AssemblyStep::Ocr, rest) =~= seq![AssemblyStep::Ocr, AssemblyStep::Finished]);
    assert(assembly_trace(AssemblyStep::SelectPages, codes) =~= seq![
        AssemblyStep::SelectPages,
        AssemblyStep::Ocr,
        AssemblyStep::Finished,
    ]);
}

} // verus!
