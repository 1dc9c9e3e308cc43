use vstd::prelude::*;

verus! {

/// What `core::str::from_utf8` yields on the given bytes: the characters
/// they encode, or nothing where they are not valid UTF-8. Decoding is a
/// function of the bytes alone.
pub uninterp spec fn utf8_of(bytes: Seq<u8>) -> Option<Seq<char>>;

/// One HTTP reply: the status code and the raw body bytes. The transport
/// that fills it lives outside the library.
#[derive(Debug, Clone, PartialEq)]
pub struct HttpResponse {
    /// HTTP status code of the reply.
    pub code: u16,
    /// The reply's body, as received.
    pub body: Vec<u8>,
}

/// Relies on `core::str::from_utf8`: `Some` exactly when the bytes are
/// valid UTF-8, and then the characters they encode.
#[verifier::external_body]
fn bytes_as_utf8(bytes: &Vec<u8>) -> (r: Option<&str>)
    ensures
        match r {
            Some(s) => utf8_of(bytes@) == Some(s@),
            None => utf8_of(bytes@) is None,
        },
{
    core::str::from_utf8(bytes).ok()
}

impl HttpResponse {
    /// The body as text, where it is valid UTF-8.
    pub fn body_str(&self) -> (r: Option<&str>)
        ensures
            match r {
                Some(s) => utf8_of(self.body@) == Some(s@),
                None => utf8_of(self.body@) is None,
            },
    {
        bytes_as_utf8(&self.body)
    }
}

} // verus!
