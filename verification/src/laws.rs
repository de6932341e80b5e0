use vstd::prelude::*;

use crate::codec::b64_parsed;
use crate::crypto::MATERIAL_LEN;
use crate::crypto::SEALED_COOKIE_LEN;
use crate::crypto::ValidationError;
use crate::crypto::cookie_material;
use crate::crypto::open_spec;
use crate::crypto::token_plain;
use crate::endpoint::is_valid_spec;
use crate::endpoint::issued_pair;
use crate::endpoint::session_decision;

verus! {

/// Round trip: opening a sealed cookie under the key it was sealed with
/// returns exactly the session material that went in. The premises are what
/// `AeadContext::seal` guarantees of every cookie it produces.
pub proof fn lemma_seal_open_round_trip(key: Seq<u8>, sealed: Seq<u8>, m: Seq<u8>)
    requires
        m.len() == MATERIAL_LEN,
        sealed.len() == SEALED_COOKIE_LEN,
        cookie_material(key, sealed) == Some(m),
    ensures
        open_spec(key, sealed) == Result::<Seq<u8>, ValidationError>::Ok(m),
{
}

/// Token binding: a token that carries one session material is never valid
/// against a verifier bound to a different one.
pub proof fn lemma_token_binding(
    key: Seq<u8>,
    token: Seq<char>,
    sealed: Seq<u8>,
    m1: Seq<u8>,
    m2: Seq<u8>,
)
    requires
        m1 != m2,
        b64_parsed(token) == Some(sealed),
        token_plain(key, sealed) == Some(m1),
    ensures
        !is_valid_spec(key, Some(m2), token),
{
}

/// Continuity: whenever the interceptor binds a verifier at all, it binds it
/// to exactly the material the presented cookie decrypts to — whichever way
/// the expiry probe went, and independent of the new pair being issued.
pub proof fn lemma_verifier_binding(
    key: Seq<u8>,
    incoming: Seq<char>,
    sealed: Seq<u8>,
    m: Seq<u8>,
    fresh: bool,
    bound: Seq<u8>,
)
    requires
        b64_parsed(incoming) == Some(sealed),
        open_spec(key, sealed) == Result::<Seq<u8>, ValidationError>::Ok(m),
        session_decision(key, Some(incoming), fresh) == Some(bound),
    ensures
        bound == m,
{
}

/// Echo round trip: a token and cookie issued together validate on the next
/// request — presenting that cookie recovers exactly the issued material
/// (expiry probe permitting), and the token is valid against a verifier bound
/// to it.
pub proof fn lemma_echo_round_trip(key: Seq<u8>, token_b64: Seq<char>, cookie_b64: Seq<char>, m: Seq<u8>)
    requires
        issued_pair(key, token_b64, cookie_b64, m),
    ensures
        session_decision(key, Some(cookie_b64), true) == Some(m),
        is_valid_spec(key, Some(m), token_b64),
{
}

/// No cookie, no validation: a request that presents no cookie yields an
/// unbound verifier, and an unbound verifier accepts no token at all.
pub proof fn lemma_no_cookie_never_valid(key: Seq<u8>, fresh: bool, token: Seq<char>)
    ensures
        session_decision(key, Option::None, fresh) is None,
        !is_valid_spec(key, Option::None, token),
{
}

} // verus!
