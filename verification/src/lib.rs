mod codec;
mod config;
mod crypto;
mod endpoint;
mod laws;

pub use codec::b64_of;
pub use codec::b64_parsed;
pub use config::Csrf;
pub use config::CsrfConfig;
pub use config::SameSite;
pub use config::DEFAULT_TTL_SECONDS;
pub use crypto::AeadContext;
pub use crypto::SessionMaterial;
pub use crypto::ValidationError;
pub use crypto::KEY_LEN;
pub use crypto::MATERIAL_LEN;
pub use crypto::MAX_TTL_SECONDS;
pub use crypto::SEALED_COOKIE_LEN;
pub use crypto::SEALED_TOKEN_LEN;
pub use crypto::cookie_material;
pub use crypto::cookie_plain;
pub use crypto::open_spec;
pub use crypto::pair_carries;
pub use crypto::pair_coherent;
pub use crypto::token_plain;
pub use endpoint::clamp_ttl;
pub use endpoint::is_valid_spec;
pub use endpoint::issued_pair;
pub use endpoint::opt_str_view;
pub use endpoint::outcome_coherent;
pub use endpoint::session_decision;
pub use endpoint::CsrfEndpoint;
pub use endpoint::CsrfToken;
pub use endpoint::CsrfVerifier;
pub use endpoint::OutgoingCookie;
pub use endpoint::RequestOutcome;
pub use laws::lemma_echo_round_trip;
pub use laws::lemma_no_cookie_never_valid;
pub use laws::lemma_seal_open_round_trip;
pub use laws::lemma_token_binding;
pub use laws::lemma_verifier_binding;
