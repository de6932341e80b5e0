use vstd::prelude::*;

verus! {

/// The base64 transport form of a byte string, standard alphabet with
/// padding: the shape a sealed value takes inside an HTTP cookie or header.
pub uninterp spec fn b64_of(bytes: Seq<u8>) -> Seq<char>;

/// What base64 decoding yields for a string: the bytes it transports, or
/// nothing when the string is not valid base64.
pub uninterp spec fn b64_parsed(s: Seq<char>) -> Option<Seq<u8>>;

/// Relies on `base64::encode`: standard-alphabet, padded encoding of the
/// bytes, a function of the bytes alone. `base64::decode` takes the encoding
/// back to the same bytes, which the second clause records of the result.
#[verifier::external_body]
pub(crate) fn b64_encode(bytes: &Vec<u8>) -> (r: String)
    ensures
        r@ == b64_of(bytes@),
        b64_parsed(r@) == Some(bytes@),
{
    base64::encode(bytes.as_slice())
}

/// Relies on `base64::decode`: rejects strings that are not standard base64,
/// otherwise returns the transported bytes; a function of the string alone.
#[verifier::external_body]
pub(crate) fn b64_decode(s: &str) -> (r: Option<Vec<u8>>)
    ensures
        match r {
            Some(b) => b64_parsed(s@) == Some(b@),
            None => b64_parsed(s@) is None,
        },
{
    match base64::decode(s) {
        Ok(b) => Some(b),
        Err(_) => None,
    }
}

} // verus!
