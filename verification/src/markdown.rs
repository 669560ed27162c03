//! The compute step of the fetch-and-convert flow: turning a fetched HTML
//! document into Markdown.  Fetching the document and writing the result
//! out stay with the caller.

use vstd::prelude::*;
use vstd::string::StrSliceExecFns;

verus! {

/// What html2md's converter produces for a given document.  The conversion
/// rules take pages to state and depend on the input text alone, so the
/// result is named rather than spelt out.
pub uninterp spec fn md_of(html: Seq<char>) -> Seq<char>;

/// Relies on `html2md::parse_html`: converts an HTML document to Markdown,
/// a function of the document text alone.
#[verifier::external_body]
fn parse_html_md(html: &str) -> (r: String)
    ensures
        r@ == md_of(html@),
{
    html2md::parse_html(html)
}

/// Converts an HTML document to Markdown.
pub fn html_to_markdown(body: &str) -> (r: String)
    ensures
        r@ == md_of(body@),
{
    parse_html_md(body)
}

/// Converts an HTML document to Markdown and encodes it, byte for byte, as
/// it is written to a file.
pub fn html_to_markdown_bytes(body: &str) -> (r: Vec<u8>)
    ensures
        r@ == vstd::utf8::encode_utf8(md_of(body@)),
{
    let md = parse_html_md(body);
    md.as_str().as_bytes_vec()
}

} // verus!
