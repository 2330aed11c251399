//! A small owned string of bytes, built from borrowed or owned text. The
//! parser stores identifiers and literals in this form and recovers text by
//! slicing.

use vstd::prelude::*;

use vstd::string::StrSliceExecFns;
use vstd::string::StringSliceAdditionalSpecFns;

verus! {

/// An owned byte string.
#[derive(Debug)]
pub struct Sso {
    data: Vec<u8>,
}

impl View for Sso {
    type V = Seq<u8>;

    closed spec fn view(&self) -> Seq<u8> {
        self.data@
    }
}

impl Sso {
    /// A copy of borrowed text, byte for byte.
    pub fn borrowed(data: &str) -> (r: Sso)
        ensures
            r@ == data.spec_bytes(),
    {
        Sso { data: data.as_bytes_vec() }
    }

    /// Takes ownership of a string's bytes.
    pub fn from_string(data: String) -> (r: Sso)
        ensures
            r@ == vstd::utf8::encode_utf8(data@),
    {
        Sso { data: data.as_str().as_bytes_vec() }
    }

    /// A copy of an owned byte buffer.
    pub fn from_bytes(data: Vec<u8>) -> (r: Sso)
        ensures
            r@ == data@,
    {
        Sso { data }
    }

    pub fn as_bytes(&self) -> (r: &[u8])
        ensures
            r@ == self@,
    {
        self.data.as_slice()
    }

    pub fn len(&self) -> (n: usize)
        ensures
            n == self@.len(),
    {
        self.data.len()
    }

    /// A fresh copy of this string.
    pub fn borrow(&self) -> (r: Sso)
        ensures
            r@ == self@,
    {
        Sso { data: vstd::slice::slice_to_vec(self.data.as_slice()) }
    }
}

} // verus!
