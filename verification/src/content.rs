//! Deciding how a response body should be shown, from its content type:
//! JSON and HTML get highlighted, everything else is printed as is.
//! Reading the header and doing the printing stay with the caller.

use vstd::prelude::*;
use vstd::string::StringSliceAdditionalSpecFns;
use vstd::utf8::encode_utf8_decode_utf8;

verus! {

/// Whether two byte slices hold the same bytes.
fn bytes_eq(a: &[u8], b: &[u8]) -> (r: bool)
    ensures
        r == (a@ == b@),
{
    if a.len() != b.len() {
        return false;
    }
    let n = a.len();
    let mut i: usize = 0;
    while i < n
        invariant
            0 <= i <= n,
            n == a@.len() == b@.len(),
            forall|j: int| 0 <= j < i ==> a@[j] == b@[j],
        decreases n - i,
    {
        if a[i] != b[i] {
            return false;
        }
        i = i + 1;
    }
    proof {
        assert(a@ =~= b@);
    }
    true
}

/// Whether two string slices hold the same characters.
fn str_eq(a: &str, b: &str) -> (r: bool)
    ensures
        r == (a@ == b@),
{
    let r = bytes_eq(a.as_bytes(), b.as_bytes());
    proof {
        encode_utf8_decode_utf8(a@);
        encode_utf8_decode_utf8(b@);
    }
    r
}

/// How a response body is to be shown.
#[derive(Debug, PartialEq, Eq, Structural)]
pub enum BodyFormat {
    /// Highlight as JSON.
    Json,
    /// Highlight as HTML.
    Html,
    /// Print as is.
    Plain,
}

/// Decides how a body with the given content type is shown: exactly
/// `application/json` as JSON, exactly `text/html` as HTML, anything else —
/// another type, or none at all — as plain text.
pub fn body_format(content_type: Option<&str>) -> (r: BodyFormat)
    ensures
        match content_type {
            Some(t) => {
                &&& (r is Json <==> t@ == "application/json"@)
                &&& (r is Html <==> t@ != "application/json"@ && t@ == "text/html"@)
            },
            None => r is Plain,
        },
{
    match content_type {
        Some(t) => {
            if str_eq(t, "application/json") {
                BodyFormat::Json
            } else if str_eq(t, "text/html") {
                BodyFormat::Html
            } else {
                BodyFormat::Plain
            }
        },
        None => BodyFormat::Plain,
    }
}

} // verus!
