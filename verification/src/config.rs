use vstd::prelude::*;

use crate::crypto::AeadContext;
use crate::crypto::KEY_LEN;
use crate::crypto::MAX_TTL_SECONDS;
use crate::endpoint::CsrfEndpoint;
use crate::endpoint::clamp_ttl;
use std::sync::Arc;

verus! {

/// The `SameSite` policy stamped on the outgoing cookie. `Unrestricted` is
/// the policy spelled "None" on the wire; leaving the policy off the cookie
/// altogether is expressed by configuring no policy at all.
#[derive(Clone, Copy, Debug, PartialEq, Eq, Structural)]
pub enum SameSite {
    Strict,
    Lax,
    Unrestricted,
}

/// The configuration of a `Csrf` middleware as a mathematical record.
pub struct CsrfConfig {
    pub cookie_name: Seq<char>,
    pub key: Seq<u8>,
    pub secure: bool,
    pub http_only: bool,
    pub same_site: Option<SameSite>,
    pub ttl_seconds: u64,
}

/// Middleware configuration for Cross-Site Request Forgery (CSRF)
/// protection: the key, the cookie's name and flags, and the protection ttl.
/// Immutable once turned into an endpoint.
pub struct Csrf {
    cookie_name: String,
    key: [u8; 32],
    secure: bool,
    http_only: bool,
    same_site: Option<SameSite>,
    ttl_seconds: u64,
}

impl View for Csrf {
    type V = CsrfConfig;

    closed spec fn view(&self) -> CsrfConfig {
        CsrfConfig {
            cookie_name: self.cookie_name@,
            key: self.key@,
            secure: self.secure,
            http_only: self.http_only,
            same_site: self.same_site,
            ttl_seconds: self.ttl_seconds,
        }
    }
}

/// Seconds in one day, the default protection ttl.
pub const DEFAULT_TTL_SECONDS: u64 = 86400;

impl Default for Csrf {
    /// The defaults: cookie named "poem-csrf-token", an all-zero
    /// key, `Secure` and `HttpOnly` on, `SameSite` Strict, a one-day ttl.
    fn default() -> (r: Csrf)
        ensures
            r@.cookie_name == "poem-csrf-token"@,
            r@.key.len() == KEY_LEN && (forall|i: int| 0 <= i < KEY_LEN ==> r@.key[i] == 0u8),
            r@.secure == true,
            r@.http_only == true,
            r@.same_site == Some(SameSite::Strict),
            r@.ttl_seconds == DEFAULT_TTL_SECONDS,
    {
        Csrf {
            cookie_name: "poem-csrf-token".to_owned(),
            key: [0u8; 32],
            secure: true,
            http_only: true,
            same_site: Some(SameSite::Strict),
            ttl_seconds: DEFAULT_TTL_SECONDS,
        }
    }
}

impl Csrf {
    /// Creates the middleware configuration with the defaults.
    pub fn new() -> (r: Self)
        ensures
            r@.cookie_name == "poem-csrf-token"@,
            r@.key.len() == KEY_LEN && (forall|i: int| 0 <= i < KEY_LEN ==> r@.key[i] == 0u8),
            r@.secure == true,
            r@.http_only == true,
            r@.same_site == Some(SameSite::Strict),
            r@.ttl_seconds == DEFAULT_TTL_SECONDS,
    {
        Csrf::default()
    }

    /// Sets the AES-256 key under which tokens and cookies are sealed.
    pub fn key(self, key: [u8; 32]) -> (r: Self)
        ensures
            r@ == (CsrfConfig { key: key@, ..self@ }),
    {
        Csrf {
            cookie_name: self.cookie_name,
            key,
            secure: self.secure,
            http_only: self.http_only,
            same_site: self.same_site,
            ttl_seconds: self.ttl_seconds,
        }
    }

    /// Sets the `Secure` flag of the outgoing cookie. Default is `true`.
    pub fn secure(self, value: bool) -> (r: Self)
        ensures
            r@ == (CsrfConfig { secure: value, ..self@ }),
    {
        Csrf {
            cookie_name: self.cookie_name,
            key: self.key,
            secure: value,
            http_only: self.http_only,
            same_site: self.same_site,
            ttl_seconds: self.ttl_seconds,
        }
    }

    /// Sets the `HttpOnly` flag of the outgoing cookie. Default is `true`.
    pub fn http_only(self, value: bool) -> (r: Self)
        ensures
            r@ == (CsrfConfig { http_only: value, ..self@ }),
    {
        Csrf {
            cookie_name: self.cookie_name,
            key: self.key,
            secure: self.secure,
            http_only: value,
            same_site: self.same_site,
            ttl_seconds: self.ttl_seconds,
        }
    }

    /// Sets the `SameSite` policy of the outgoing cookie, or disables it with
    /// `None`. Default is `SameSite::Strict`.
    pub fn same_site(self, value: Option<SameSite>) -> (r: Self)
        ensures
            r@ == (CsrfConfig { same_site: value, ..self@ }),
    {
        Csrf {
            cookie_name: self.cookie_name,
            key: self.key,
            secure: self.secure,
            http_only: self.http_only,
            same_site: value,
            ttl_seconds: self.ttl_seconds,
        }
    }

    /// Sets the protection ttl in seconds: both the cookie expiry and the
    /// window over which tokens stay valid. Default is one day.
    pub fn ttl(self, ttl_seconds: u64) -> (r: Self)
        ensures
            r@ == (CsrfConfig { ttl_seconds, ..self@ }),
    {
        Csrf {
            cookie_name: self.cookie_name,
            key: self.key,
            secure: self.secure,
            http_only: self.http_only,
            same_site: self.same_site,
            ttl_seconds,
        }
    }

    /// Turns the configuration into the per-process endpoint: builds the
    /// protection context from the key and freezes the cookie settings.
    pub fn transform(&self) -> (r: CsrfEndpoint)
        ensures
            r.key_spec() == self@.key,
            r.cookie_name_spec() == self@.cookie_name,
            r.secure_spec() == self@.secure,
            r.http_only_spec() == self@.http_only,
            r.same_site_spec() == self@.same_site,
            r.ttl_spec() == clamp_ttl(self@.ttl_seconds),
    {
        let ttl: i64 = if self.ttl_seconds > (MAX_TTL_SECONDS as u64) {
            MAX_TTL_SECONDS
        } else {
            self.ttl_seconds as i64
        };
        CsrfEndpoint::assemble(
            Arc::new(AeadContext::from_key(self.key)),
            self.cookie_name.clone(),
            self.secure,
            self.http_only,
            self.same_site,
            ttl,
        )
    }
}

} // verus!
