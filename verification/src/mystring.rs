//! A small-string type: short text is kept inline in a fixed buffer, longer
//! text falls back to an owned heap string; both show the same characters.

use vstd::prelude::*;
use vstd::utf8::decode_utf8;
use vstd::utf8::encode_utf8;
use vstd::utf8::valid_utf8;
use vstd::utf8::encode_utf8_decode_utf8;
use vstd::utf8::encode_utf8_valid_utf8;
use vstd::string::StringSliceAdditionalSpecFns;

verus! {

/// The largest byte length the inline buffer can hold.
pub const MINI_STRING_MAX_LEN: usize = 30;

#[verifier::external_type_specification]
#[verifier::external_body]
pub struct ExUtf8Error(core::str::Utf8Error);

/// Relies on `core::str::from_utf8` of the standard library: it returns
/// `Ok` exactly when the bytes are well-formed UTF-8, and the string it
/// returns holds their decoding.
pub assume_specification[ core::str::from_utf8 ](v: &[u8]) -> (r: Result<&str, core::str::Utf8Error>)
    ensures
        r is Ok <==> valid_utf8(v@),
        r matches Ok(s) ==> s@ == decode_utf8(v@),
;

/// Text of at most [`MINI_STRING_MAX_LEN`] bytes, kept inline: a length and
/// a fixed buffer whose prefix of that length is well-formed UTF-8.
pub struct MiniString {
    len: u8,
    data: [u8; MINI_STRING_MAX_LEN],
}

impl MiniString {
    /// The stored bytes: the buffer's prefix of the stored length.
    pub closed spec fn bytes(&self) -> Seq<u8> {
        self.data@.subrange(0, self.len as int)
    }

    /// The stored length is within the buffer and the stored bytes are
    /// well-formed UTF-8: what every constructor establishes.
    pub closed spec fn wf(&self) -> bool {
        self.len <= MINI_STRING_MAX_LEN && valid_utf8(self.bytes())
    }

    /// Copies the encoding of `v` into a fresh inline buffer; the
    /// precondition is the buffer's capacity.  Handing in longer text is a
    /// caller error, excluded here rather than tolerated: outside the
    /// precondition the copy would stop the program, never truncate or
    /// corrupt.  [`MyString::from`] checks the length and picks the arm.
    pub fn new(v: &str) -> (r: MiniString)
        requires
            encode_utf8(v@).len() <= MINI_STRING_MAX_LEN,
        ensures
            r.wf(),
            r@ == v@,
    {
        let bytes = v.as_bytes();
        let len = bytes.len();
        let mut data = [0u8; MINI_STRING_MAX_LEN];
        let mut i: usize = 0;
        while i < len
            invariant
                0 <= i <= len,
                len == bytes@.len() <= MINI_STRING_MAX_LEN,
                bytes@ == encode_utf8(v@),
                data@.len() == MINI_STRING_MAX_LEN,
                forall|j: int| 0 <= j < i ==> data@[j] == bytes@[j],
            decreases len - i,
        {
            data[i] = bytes[i];
            i = i + 1;
        }
        let r = MiniString { len: len as u8, data };
        proof {
            assert(r.bytes() =~= encode_utf8(v@));
            encode_utf8_valid_utf8(v@);
            encode_utf8_decode_utf8(v@);
        }
        r
    }

    /// The stored text as a borrowed string slice.
    pub fn as_str(&self) -> (r: &str)
        requires
            self.wf(),
        ensures
            r@ == self@,
    {
        let slice = &self.data[0..(self.len as usize)];
        proof {
            assert(slice@ =~= self.bytes());
        }
        let parsed = core::str::from_utf8(slice);
        parsed.unwrap()
    }
}

impl View for MiniString {
    type V = Seq<char>;

    /// The characters the stored bytes decode to.
    closed spec fn view(&self) -> Seq<char> {
        decode_utf8(self.bytes())
    }
}

/// Text stored inline when its encoding fits the small buffer, and in an
/// owned heap string otherwise.
pub enum MyString {
    Inline(MiniString),
    Standard(String),
}

impl MyString {
    /// The inline arm is well-formed and within capacity.
    pub open spec fn wf(&self) -> bool {
        match *self {
            MyString::Inline(ref m) => m.wf(),
            MyString::Standard(_) => true,
        }
    }

    /// Stores `s`, inline exactly when its encoding fits the small buffer.
    pub fn from(s: &str) -> (r: MyString)
        ensures
            r.wf(),
            r@ == s@,
            (r is Standard) <==> encode_utf8(s@).len() > MINI_STRING_MAX_LEN,
    {
        proof {
            assert(s.spec_bytes() == encode_utf8(s@));
        }
        if s.as_bytes().len() > MINI_STRING_MAX_LEN {
            MyString::Standard(s.to_owned())
        } else {
            MyString::Inline(MiniString::new(s))
        }
    }

    /// The stored text as a borrowed string slice, whichever arm holds it.
    pub fn as_str(&self) -> (r: &str)
        requires
            self.wf(),
        ensures
            r@ == self@,
    {
        match self {
            MyString::Inline(m) => m.as_str(),
            MyString::Standard(s) => s.as_str(),
        }
    }
}

impl View for MyString {
    type V = Seq<char>;

    /// The characters stored, whichever arm holds them.
    open spec fn view(&self) -> Seq<char> {
        match *self {
            MyString::Inline(ref m) => m@,
            MyString::Standard(ref s) => s@,
        }
    }
}

} // verus!
