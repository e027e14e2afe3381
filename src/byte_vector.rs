use vstd::prelude::*;
use vstd::string::StringSliceAdditionalSpecFns;
use vstd::utf8::{decode_utf8, valid_utf8};

verus! {

/// The text that a buffer names, where it names one: its bytes decoded as
/// UTF-8, or `None` for the buffer without data or bytes that are not UTF-8.
pub open spec fn text_of(buffer: Option<Seq<u8>>) -> Option<Seq<char>> {
    match buffer {
        Some(b) => if valid_utf8(b) {
            Some(decode_utf8(b))
        } else {
            None
        },
        None => None,
    }
}

/// Relies on std's `str::from_utf8`: it accepts exactly the well-formed UTF-8
/// byte strings, and the text it returns is made of those same bytes.
#[verifier::external_body]
fn utf8_str(bytes: &[u8]) -> (r: Option<&str>)
    ensures
        r is Some <==> valid_utf8(bytes@),
        r matches Some(s) ==> s.spec_bytes() == bytes@,
{
    std::str::from_utf8(bytes).ok()
}

/// An owned buffer of bytes as a host passes it across the boundary.
///
/// A buffer without data, `(null, 0)`, is told apart from a buffer that holds
/// zero bytes: the first stands for "nothing", the second for an empty text.
pub struct ByteVector {
    data: Option<Vec<u8>>,
}

impl View for ByteVector {
    /// `None` for the buffer without data, else the bytes it holds.
    type V = Option<Seq<u8>>;

    closed spec fn view(&self) -> Option<Seq<u8>> {
        match self.data {
            Some(v) => Some(v@),
            None => None,
        }
    }
}

/// A fresh vector holding the same bytes as a slice.
fn copy_bytes(bytes: &[u8]) -> (r: Vec<u8>)
    ensures
        r@ == bytes@,
{
    let mut r: Vec<u8> = Vec::with_capacity(bytes.len());
    let mut i: usize = 0;
    while i < bytes.len()
        invariant
            i <= bytes.len(),
            r@ == bytes@.subrange(0, i as int),
        decreases bytes.len() - i,
    {
        r.push(bytes[i]);
        i = i + 1;
    }
    r
}

impl ByteVector {
    /// The buffer without data, `(null, 0)`.
    pub fn null() -> (r: ByteVector)
        ensures
            r@ == None::<Seq<u8>>,
    {
        ByteVector { data: None }
    }

    /// A buffer that takes over the given bytes.
    pub fn from_bytes(bytes: Vec<u8>) -> (r: ByteVector)
        ensures
            r@ == Some(bytes@),
    {
        ByteVector { data: Some(bytes) }
    }

    /// Whether the buffer has no data.
    pub fn is_null(&self) -> (r: bool)
        ensures
            r == (self@ is None),
    {
        self.data.is_none()
    }

    /// The number of bytes held; zero for the buffer without data.
    pub fn size(&self) -> (r: usize)
        ensures
            r == match self@ {
                Some(b) => b.len(),
                None => 0,
            },
    {
        match &self.data {
            Some(v) => v.len(),
            None => 0,
        }
    }

    /// The bytes held, or `None` for the buffer without data.
    pub fn as_slice(&self) -> (r: Option<&[u8]>)
        ensures
            match self@ {
                Some(b) => r matches Some(s) && s@ == b,
                None => r is None,
            },
    {
        match &self.data {
            Some(v) => Some(v.as_slice()),
            None => None,
        }
    }

    /// A buffer that holds the UTF-8 bytes of a text.
    pub fn from_text(text: &str) -> (r: ByteVector)
        ensures
            r@ == Some(text.spec_bytes()),
    {
        ByteVector { data: Some(copy_bytes(text.as_bytes())) }
    }

    /// The text that the buffer holds, or `None` where it has no data or its
    /// bytes are not well-formed UTF-8.
    pub fn to_text(&self) -> (r: Option<String>)
        ensures
            match r {
                Some(t) => text_of(self@) == Some(t@),
                None => text_of(self@) is None,
            },
    {
        match &self.data {
            Some(v) => match utf8_str(v.as_slice()) {
                Some(s) => {
                    proof {
                        vstd::utf8::encode_utf8_decode_utf8(s@);
                    }
                    Some(s.to_owned())
                },
                None => None,
            },
            None => None,
        }
    }
}

} // verus!
