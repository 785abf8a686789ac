//! The texts sent to the extraction model, and the requests built from them.

use vstd::prelude::*;
use base64::Engine;
use crate::extraction::{open_tag, page_open_tag};
use crate::page_key::{extract_page_number, page_key};

verus! {

/// The system instruction of every request.
pub const SYSTEM_MESSAGE: &'static str = "You transcribe scanned document pages into well-formed XML. Answer with XML only, without commentary.";

/// The text before the page image; `{page_number}` stands for the page key.
pub const PAGE_PARSE_INITIAL_MESSAGE: &'static str = "The image below is page {page_number} of a scanned document. Transcribe all of its text.";

/// The text after the page image; `{page_number}` stands for the page key.
pub const PAGE_PARSE_FINAL_MESSAGE: &'static str = "Write the content of page {page_number} as child elements of one <page number=\"{page_number}\"> element, keeping headings, paragraphs, tables and lists in reading order, and close the element at the end.";

/// The naming request; `{XML}` stands for the document's XML.
pub const FILE_NAME_GENERATION_PROMPT: &'static str = "Here is the transcription of a document:\n{XML}\nAnswer with XML elements only: <file_name> holding a short descriptive file name without extension, then any of <title>, <date>, <author> and <summary> that the document supports.";

/// The placeholder for a page key in the page texts.
pub const PAGE_PLACEHOLDER: &'static str = "{page_number}";

/// The placeholder for the document's XML in the naming request.
pub const XML_PLACEHOLDER: &'static str = "{XML}";

/// Every occurrence of `pat` in `s`, from left to right and without overlap,
/// replaced by `to`.
pub open spec fn replace_all(s: Seq<char>, pat: Seq<char>, to: Seq<char>) -> Seq<char>
    decreases s.len(),
{
    if pat.len() == 0 || s.len() < pat.len() {
        s
    } else if s.subrange(0, pat.len() as int) == pat {
        to + replace_all(s.subrange(pat.len() as int, s.len() as int), pat, to)
    } else {
        seq![s[0]] + replace_all(s.subrange(1, s.len() as int), pat, to)
    }
}

/// Relies on str::replace: each match of `pat`, found from left to right
/// without overlap, is replaced by `to`.
#[verifier::external_body]
fn replace_text(s: &str, pat: &str, to: &str) -> (r: String)
    requires
        pat@.len() > 0,
    ensures
        r@ == replace_all(s@, pat@, to@),
{
    s.replace(pat, to)
}

/// The naming request: the template with the document's XML in place.
pub fn naming_prompt(xml: &str) -> (r: String)
    ensures
        r@ == replace_all(FILE_NAME_GENERATION_PROMPT@, XML_PLACEHOLDER@, xml@),
{
    proof {
        reveal_strlit("{XML}");
    }
    replace_text(FILE_NAME_GENERATION_PROMPT, XML_PLACEHOLDER, xml)
}

pub open spec fn base64_alphabet() -> Seq<char> {
    "ABCDEFGHIJKLMNOPQRSTUVWXYZabcdefghijklmnopqrstuvwxyz0123456789+/"@
}

/// The standard, padded base64 text of some bytes: each group of three bytes
/// gives four characters of six bits each; a last group of one or two bytes
/// is filled with zero bits and `=`.
pub open spec fn base64_of(b: Seq<u8>) -> Seq<char>
    decreases b.len(),
{
    let a = base64_alphabet();
    if b.len() == 0 {
        Seq::empty()
    } else if b.len() == 1 {
        let n = b[0] as int;
        seq![a[n / 4], a[(n % 4) * 16], '=', '=']
    } else if b.len() == 2 {
        let n = b[0] as int * 256 + b[1] as int;
        seq![a[n / 1024], a[(n / 16) % 64], a[(n % 16) * 4], '=']
    } else {
        let n = b[0] as int * 65536 + b[1] as int * 256 + b[2] as int;
        seq![a[n / 262144], a[(n / 4096) % 64], a[(n / 64) % 64], a[n % 64]] + base64_of(
            b.subrange(3, b.len() as int),
        )
    }
}

/// Relies on base64's standard engine (`BASE64_STANDARD.encode`): the padded
/// standard encoding.
#[verifier::external_body]
fn encode_base64(bytes: &Vec<u8>) -> (r: String)
    ensures
        r@ == base64_of(bytes@),
{
    base64::engine::general_purpose::STANDARD.encode(bytes)
}

/// One page's extraction request, in plain values.
pub struct PageRequest {
    /// The page key of the image's path.
    pub page_number: String,
    /// The text before the image.
    pub initial_text: String,
    /// The image, base64-encoded.
    pub image_base64: String,
    /// The text after the image.
    pub final_text: String,
    /// The opening tag with which the assistant's turn is seeded.
    pub prefill: String,
}

/// The request for the page at `path`, whose file holds `image`.
pub fn page_request(path: &str, image: &Vec<u8>) -> (r: PageRequest)
    ensures
        r.page_number@ == page_key(path@),
        r.initial_text@ == replace_all(PAGE_PARSE_INITIAL_MESSAGE@, PAGE_PLACEHOLDER@, page_key(path@)),
        r.final_text@ == replace_all(PAGE_PARSE_FINAL_MESSAGE@, PAGE_PLACEHOLDER@, page_key(path@)),
        r.image_base64@ == base64_of(image@),
        r.prefill@ == open_tag(page_key(path@)),
{
    proof {
        reveal_strlit("{page_number}");
    }
    let page_number = extract_page_number(path);
    let initial_text = replace_text(PAGE_PARSE_INITIAL_MESSAGE, PAGE_PLACEHOLDER, page_number.as_str());
    let final_text = replace_text(PAGE_PARSE_FINAL_MESSAGE, PAGE_PLACEHOLDER, page_number.as_str());
    let image_base64 = encode_base64(image);
    let prefill = page_open_tag(page_number.as_str());
    PageRequest { page_number, initial_text, image_base64, final_text, prefill }
}

} // verus!
