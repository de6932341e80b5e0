use vstd::prelude::*;

use crate::codec::b64_decode;
use crate::codec::b64_encode;
use crate::codec::b64_parsed;
use crate::config::SameSite;
use crate::crypto::AeadContext;
use crate::crypto::SessionMaterial;
use crate::crypto::MATERIAL_LEN;
use crate::crypto::MAX_TTL_SECONDS;
use crate::crypto::SEALED_COOKIE_LEN;
use crate::crypto::cookie_material;
use crate::crypto::open_spec;
use crate::crypto::pair_carries;
use crate::crypto::pair_coherent;
use crate::crypto::parse_token_call;
use crate::crypto::probe_unexpired;
use crate::crypto::token_plain;
use std::sync::Arc;

verus! {

/// The per-request token handed to downstream handlers: the base64 transport
/// form of the freshly sealed token, to be embedded in a form field or header.
pub struct CsrfToken(pub String);

/// The outgoing cookie the interceptor installs on the response: its name,
/// its base64 value, and the configured flags.
pub struct OutgoingCookie {
    pub name: String,
    pub value: String,
    pub secure: bool,
    pub http_only: bool,
    pub same_site: Option<SameSite>,
    pub max_age_seconds: i64,
}

/// The protection ttl as the sealing primitive takes it: clamped into the
/// range over which sealing is total, `0` to `MAX_TTL_SECONDS`.
pub open spec fn clamp_ttl(ttl_seconds: u64) -> i64 {
    if ttl_seconds > MAX_TTL_SECONDS as u64 {
        MAX_TTL_SECONDS
    } else {
        ttl_seconds as i64
    }
}

/// The view of an optional cookie-header value.
pub open spec fn opt_str_view(s: Option<&str>) -> Option<Seq<char>> {
    match s {
        Option::Some(v) => Option::Some(v@),
        Option::None => Option::None,
    }
}

/// The session material the interceptor recovers from an incoming cookie
/// value, given the freshness verdict `fresh` of the expiry probe: the value
/// must be present, decode from base64, and open under the key, and the
/// probe must have found the embedded expiry still ahead of the clock.
pub open spec fn session_decision(key: Seq<u8>, incoming: Option<Seq<char>>, fresh: bool) -> Option<
    Seq<u8>,
> {
    match incoming {
        Option::None => Option::None,
        Option::Some(s) => match b64_parsed(s) {
            Option::None => Option::None,
            Option::Some(sealed) => match open_spec(key, sealed) {
                Result::Ok(m) => if fresh {
                    Option::Some(m)
                } else {
                    Option::None
                },
                Result::Err(_) => Option::None,
            },
        },
    }
}

/// A base64 token string and a base64 cookie string that both carry the
/// session material `m`.
pub open spec fn issued_pair(
    key: Seq<u8>,
    token_b64: Seq<char>,
    cookie_b64: Seq<char>,
    m: Seq<u8>,
) -> bool {
    &&& m.len() == MATERIAL_LEN
    &&& (b64_parsed(token_b64) matches Some(ts) && token_plain(key, ts) == Some(m))
    &&& (b64_parsed(cookie_b64) matches Some(cs) && cookie_material(key, cs) == Some(m)
        && cs.len() == SEALED_COOKIE_LEN)
}

/// A base64 token string and a base64 cookie string that carry one common
/// session material.
pub open spec fn outcome_coherent(key: Seq<u8>, token_b64: Seq<char>, cookie_b64: Seq<char>) -> bool {
    exists|m: Seq<u8>| issued_pair(key, token_b64, cookie_b64, m)
}

/// Whether a submitted token string is valid against optionally bound session
/// material under a key: material must be bound, the string must decode from
/// base64, the decoded bytes must authenticate and decrypt, and the carried
/// material must equal the bound block.
pub open spec fn is_valid_spec(key: Seq<u8>, material: Option<Seq<u8>>, token: Seq<char>) -> bool {
    match material {
        Option::None => false,
        Option::Some(m) => match b64_parsed(token) {
            Option::None => false,
            Option::Some(sealed) => token_plain(key, sealed) == Some(m),
        },
    }
}

/// Relies on `Arc::clone`: hands out another handle to the same shared
/// protection context.
#[verifier::external_body]
fn share_context(protect: &Arc<AeadContext>) -> (r: Arc<AeadContext>)
    ensures
        r == *protect,
{
    Arc::clone(protect)
}

/// Compares two byte strings without an early exit on the first mismatch, so
/// that the time taken does not point at the position where they differ.
fn ct_eq(a: &Vec<u8>, b: &Vec<u8>) -> (r: bool)
    ensures
        r == (a@ == b@),
{
    if a.len() != b.len() {
        proof {
            assert(a@ != b@);
        }
        return false;
    }
    let mut diff: u8 = 0;
    let mut i: usize = 0;
    while i < a.len()
        invariant
            i <= a.len(),
            a@.len() == b@.len(),
            (diff == 0) <==> (forall|j: int| 0 <= j < i ==> a@[j] == b@[j]),
        decreases a@.len() - i,
    {
        proof {
            assert(forall|p: u8, q: u8| ((p ^ q) == 0) <==> p == q) by (bit_vector);
            assert(forall|p: u8, q: u8| ((p | q) == 0) <==> (p == 0 && q == 0)) by (bit_vector);
        }
        diff = diff | (a[i] ^ b[i]);
        i = i + 1;
    }
    proof {
        if diff == 0 {
            assert(a@ =~= b@);
        } else {
            assert(!(forall|j: int| 0 <= j < a@.len() ==> a@[j] == b@[j]));
            assert(a@ != b@);
        }
    }
    diff == 0
}

/// The per-request verifier handed to downstream handlers: bound to the
/// session material recovered from the incoming, already-validated cookie (or
/// to none), and to the shared protection context. It performs no mutation.
pub struct CsrfVerifier {
    material: Option<SessionMaterial>,
    protect: Arc<AeadContext>,
}

impl CsrfVerifier {
    /// The key of the context this verifier is bound to.
    pub closed spec fn key_spec(&self) -> Seq<u8> {
        self.protect@
    }

    /// The session material this verifier is bound to, if any.
    pub closed spec fn material_spec(&self) -> Option<Seq<u8>> {
        match self.material {
            Option::Some(m) => Option::Some(m@),
            Option::None => Option::None,
        }
    }

    /// Checks a client-submitted token value against the bound session: false
    /// when no validated session material is bound, otherwise true exactly
    /// when the token carries that material. The final byte comparison does
    /// not leak where a mismatch sits.
    pub fn is_valid(&self, token: &str) -> (r: bool)
        ensures
            r == is_valid_spec(self.key_spec(), self.material_spec(), token@),
    {
        match &self.material {
            Option::None => false,
            Option::Some(m) => {
                match b64_decode(token) {
                    Option::None => false,
                    Option::Some(sealed) => {
                        match parse_token_call(&self.protect, &sealed) {
                            Option::None => false,
                            Option::Some(carried) => ct_eq(&carried, m.as_bytes()),
                        }
                    },
                }
            },
        }
    }
}

/// One request's worth of CSRF state: the fresh token for the response body,
/// the outgoing cookie for the response headers, and the verifier bound to
/// the incoming session.
pub struct RequestOutcome {
    pub token: CsrfToken,
    pub cookie: OutgoingCookie,
    pub verifier: CsrfVerifier,
}

/// The per-process endpoint of the middleware: the shared protection context
/// and the frozen cookie settings. One `call` per request, no cross-request
/// state.
pub struct CsrfEndpoint {
    protect: Arc<AeadContext>,
    cookie_name: String,
    secure: bool,
    http_only: bool,
    same_site: Option<SameSite>,
    ttl_seconds: i64,
}

impl CsrfEndpoint {
    /// Every endpoint carries a ttl on which sealing is total; `assemble` is
    /// the one constructor and demands it.
    #[verifier::type_invariant]
    spec fn ttl_in_range(self) -> bool {
        -MAX_TTL_SECONDS <= self.ttl_seconds <= MAX_TTL_SECONDS
    }

    /// The key of the shared protection context.
    pub closed spec fn key_spec(&self) -> Seq<u8> {
        self.protect@
    }

    /// The configured cookie name.
    pub closed spec fn cookie_name_spec(&self) -> Seq<char> {
        self.cookie_name@
    }

    /// The configured `Secure` flag.
    pub closed spec fn secure_spec(&self) -> bool {
        self.secure
    }

    /// The configured `HttpOnly` flag.
    pub closed spec fn http_only_spec(&self) -> bool {
        self.http_only
    }

    /// The configured `SameSite` policy.
    pub closed spec fn same_site_spec(&self) -> Option<SameSite> {
        self.same_site
    }

    /// The configured protection ttl in seconds.
    pub closed spec fn ttl_spec(&self) -> i64 {
        self.ttl_seconds
    }

    pub(crate) fn assemble(
        protect: Arc<AeadContext>,
        cookie_name: String,
        secure: bool,
        http_only: bool,
        same_site: Option<SameSite>,
        ttl_seconds: i64,
    ) -> (r: CsrfEndpoint)
        requires
            -MAX_TTL_SECONDS <= ttl_seconds <= MAX_TTL_SECONDS,
        ensures
            r.key_spec() == protect@,
            r.cookie_name_spec() == cookie_name@,
            r.secure_spec() == secure,
            r.http_only_spec() == http_only,
            r.same_site_spec() == same_site,
            r.ttl_spec() == ttl_seconds,
    {
        CsrfEndpoint { protect, cookie_name, secure, http_only, same_site, ttl_seconds }
    }

    /// Reads the incoming cookie value back to session material: it must
    /// decode from base64, authenticate and decrypt under the key, and pass
    /// the expiry probe. Every failure collapses to "no session".
    fn read_session(&self, incoming_cookie: Option<&str>) -> (r: Option<SessionMaterial>)
        ensures
            r matches Some(m) ==> m.wf() && session_decision(
                self.key_spec(),
                opt_str_view(incoming_cookie),
                true,
            ) == Some(m@),
            session_decision(self.key_spec(), opt_str_view(incoming_cookie), true) is None
                ==> r is None,
    {
        match incoming_cookie {
            Option::None => None,
            Option::Some(s) => {
                match b64_decode(s) {
                    Option::None => None,
                    Option::Some(sealed) => {
                        match self.protect.open(&sealed) {
                            Result::Ok(m) => {
                                if probe_unexpired(&self.protect, &sealed) {
                                    Some(m)
                                } else {
                                    None
                                }
                            },
                            Result::Err(_) => None,
                        }
                    },
                }
            },
        }
    }

    /// Produces the (sealed token, sealed cookie) pair for this response,
    /// reusing the given session material when there is any. Never fails.
    fn generate_token(&self, existing: Option<&SessionMaterial>) -> (r: (Vec<u8>, Vec<u8>))
        requires
            existing matches Some(m) ==> m.wf(),
        ensures
            pair_coherent(self.key_spec(), r.0@, r.1@),
            existing matches Some(em) ==> pair_carries(self.key_spec(), r.0@, r.1@, em@),
    {
        proof {
            use_type_invariant(&*self);
        }
        self.protect.generate_token_pair(existing, self.ttl_seconds)
    }

    /// Handles one request: recovers the incoming session if its cookie is
    /// present, intact and fresh; issues a new (token, cookie) pair that
    /// reuses the session's material when one was recovered; and binds the
    /// verifier to the recovered session — not to the pair just minted, which
    /// the client has not seen yet. The request always proceeds: every broken
    /// cookie collapses to a fresh session, and generation never fails.
    pub fn call(&self, incoming_cookie: Option<&str>) -> (out: RequestOutcome)
        ensures
            ({
                let inc = opt_str_view(incoming_cookie);
                let key = self.key_spec();
                &&& out.cookie.name@ == self.cookie_name_spec()
                &&& out.cookie.secure == self.secure_spec()
                &&& out.cookie.http_only == self.http_only_spec()
                &&& out.cookie.same_site == self.same_site_spec()
                &&& out.cookie.max_age_seconds == self.ttl_spec()
                &&& out.verifier.key_spec() == key
                &&& outcome_coherent(key, out.token.0@, out.cookie.value@)
                &&& (out.verifier.material_spec() matches Some(m) ==> session_decision(
                    key,
                    inc,
                    true,
                ) == Some(m) && issued_pair(key, out.token.0@, out.cookie.value@, m))
                &&& (session_decision(key, inc, true) is None
                    ==> out.verifier.material_spec() is None)
            }),
    {
        let session = self.read_session(incoming_cookie);
        let (token_sealed, cookie_sealed) = self.generate_token(session.as_ref());
        let token_b64 = b64_encode(&token_sealed);
        let cookie_b64 = b64_encode(&cookie_sealed);
        proof {
            let gm = choose|m: Seq<u8>|
                pair_carries(self.key_spec(), token_sealed@, cookie_sealed@, m);
            assert(issued_pair(self.key_spec(), token_b64@, cookie_b64@, gm));
            assert(outcome_coherent(self.key_spec(), token_b64@, cookie_b64@));
            if session is Some {
                assert(issued_pair(
                    self.key_spec(),
                    token_b64@,
                    cookie_b64@,
                    session.unwrap()@,
                ));
            }
        }
        let cookie = OutgoingCookie {
            name: self.cookie_name.clone(),
            value: cookie_b64,
            secure: self.secure,
            http_only: self.http_only,
            same_site: self.same_site,
            max_age_seconds: self.ttl_seconds,
        };
        let verifier = CsrfVerifier { material: session, protect: share_context(&self.protect) };
        RequestOutcome { token: CsrfToken(token_b64), cookie, verifier }
    }
}

} // verus!
