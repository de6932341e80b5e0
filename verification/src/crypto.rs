use vstd::prelude::*;

use csrf::CsrfProtection;

verus! {

/// Number of bytes in a session-material block: the per-browser secret that
/// sealed tokens and cookies carry.
pub const MATERIAL_LEN: usize = 64;

/// Number of bytes in an AES-256 key.
pub const KEY_LEN: usize = 32;

/// Byte length of a sealed cookie: a 12-byte nonce, then ciphertext for a
/// 104-byte plaintext (32 bytes of padding, an 8-byte expiry, the material)
/// plus a 16-byte authentication tag.
pub const SEALED_COOKIE_LEN: usize = 132;

/// Byte length of a sealed token: a 12-byte nonce, then ciphertext for a
/// 96-byte plaintext (32 bytes of padding and the material) plus a 16-byte
/// authentication tag.
pub const SEALED_TOKEN_LEN: usize = 124;

/// Largest magnitude of a protection ttl, in seconds, that sealing accepts: a
/// thousand Gregorian years. The sealing primitive turns the ttl into a
/// calendar duration and adds it to the current date, and that arithmetic
/// aborts on durations above `i64::MAX` milliseconds or on dates outside the
/// calendar's representable range; a thousand years stays far inside both.
pub const MAX_TTL_SECONDS: i64 = 31_556_952_000;

#[verifier::external_type_specification]
#[verifier::external_body]
pub struct ExAesGcmCsrfProtection(csrf::AesGcmCsrfProtection);

/// What a sealed cookie decrypts to under a key: the embedded expiry (seconds
/// since the epoch) and the session material, or nothing when the bytes do not
/// authenticate. AES-GCM decryption reads the nonce out of the sealed bytes,
/// so the outcome is a function of the key and the bytes alone.
pub uninterp spec fn cookie_plain(key: Seq<u8>, sealed: Seq<u8>) -> Option<(int, Seq<u8>)>;

/// What a sealed token decrypts to under a key: the session material it
/// carries, or nothing when the bytes do not authenticate. Deterministic in
/// the key and the bytes, as for `cookie_plain`.
pub uninterp spec fn token_plain(key: Seq<u8>, sealed: Seq<u8>) -> Option<Seq<u8>>;

/// The session material a sealed cookie carries, its expiry disregarded.
pub open spec fn cookie_material(key: Seq<u8>, sealed: Seq<u8>) -> Option<Seq<u8>> {
    match cookie_plain(key, sealed) {
        Option::Some(p) => Option::Some(p.1),
        Option::None => Option::None,
    }
}

/// Why opening a sealed cookie failed. Expiry and token mismatch are not
/// error values here: an expired cookie collapses to "no session" at intake,
/// and a mismatched token only ever surfaces as `is_valid` returning false.
#[derive(Clone, Copy, Debug, PartialEq, Eq, Structural)]
pub enum ValidationError {
    /// The bytes are not a structurally valid sealed payload.
    Malformed,
    /// The bytes have the right shape but fail authentication.
    Tampered,
}

/// A fixed-size random byte block identifying one browser session: the unit
/// of continuity between requests. Never handed to the client in plaintext.
pub struct SessionMaterial {
    bytes: Vec<u8>,
}

impl View for SessionMaterial {
    type V = Seq<u8>;

    closed spec fn view(&self) -> Seq<u8> {
        self.bytes@
    }
}

impl SessionMaterial {
    /// The block is well formed when it holds exactly `MATERIAL_LEN` bytes.
    pub open spec fn wf(&self) -> bool {
        self@.len() == MATERIAL_LEN
    }

    /// Wraps the given bytes; accepts exactly `MATERIAL_LEN`-byte blocks.
    pub fn from_bytes(bytes: Vec<u8>) -> (r: Option<SessionMaterial>)
        ensures
            r matches Some(m) ==> m.wf() && m@ == bytes@,
            r is Some <==> bytes@.len() == MATERIAL_LEN,
    {
        if bytes.len() == MATERIAL_LEN {
            Some(SessionMaterial { bytes })
        } else {
            None
        }
    }

    /// The raw bytes of the block.
    pub fn as_bytes(&self) -> (r: &Vec<u8>)
        ensures
            r@ == self@,
    {
        &self.bytes
    }

    /// An equal, independently owned block.
    pub fn duplicate(&self) -> (r: SessionMaterial)
        ensures
            r@ == self@,
    {
        let mut out: Vec<u8> = Vec::new();
        let mut i: usize = 0;
        while i < self.bytes.len()
            invariant
                i <= self.bytes.len(),
                out@.len() == i,
                forall|j: int| 0 <= j < i ==> out@[j] == self.bytes@[j],
            decreases self.bytes.len() - i,
        {
            out.push(self.bytes[i]);
            i = i + 1;
        }
        proof {
            assert(out@ =~= self.bytes@);
        }
        SessionMaterial { bytes: out }
    }
}

/// The protection context: the fixed AES-256 key together with the AEAD
/// engine built from it. The engine field is always the one that
/// `AesGcmCsrfProtection::from_key` returns for the key field; the sole
/// constructor establishes that tie, and the trusted contracts below rely on
/// it. Its view is the key as a byte sequence.
pub struct AeadContext {
    protect: csrf::AesGcmCsrfProtection,
    key: [u8; 32],
}

impl View for AeadContext {
    type V = Seq<u8>;

    closed spec fn view(&self) -> Seq<u8> {
        self.key@
    }
}

/// Relies on `AesGcmCsrfProtection::from_key` of the `csrf` crate: builds the
/// AES-GCM engine for a key. The engine is opaque here; what its methods
/// compute is stated by the other trusted items of this module.
#[verifier::external_body]
fn make_engine(key: &[u8; 32]) -> csrf::AesGcmCsrfProtection {
    csrf::AesGcmCsrfProtection::from_key(*key)
}

/// Relies on `CsrfProtection::random_bytes` of the `csrf` crate: fills a
/// buffer from the operating system's randomness source. Nothing can be
/// promised of random output beyond its length. The discarded result is
/// always `Ok` in this version: a failure of the operating system's
/// randomness aborts inside the call instead of being returned.
#[verifier::external_body]
fn draw_random(ctx: &AeadContext, len: usize) -> (r: Vec<u8>)
    ensures
        r@.len() == len,
{
    let mut buf = vec![0u8; len];
    let _ = ctx.protect.random_bytes(&mut buf);
    buf
}

/// Relies on `CsrfProtection::generate_token` of the `csrf` crate: seals the
/// material under the context's key with a fresh nonce. Decrypting the sealed
/// bytes under the same key yields the material again, which is what
/// `token_plain` records; the transport form is always 124 bytes. The call
/// cannot fail for a 64-byte block — its one error path is the AEAD encrypt,
/// which errs only for plaintexts far beyond any machine's memory — so the
/// impossible error is unwrapped in place.
#[verifier::external_body]
fn seal_token_call(ctx: &AeadContext, material: &Vec<u8>) -> (r: Vec<u8>)
    requires
        material@.len() == MATERIAL_LEN,
    ensures
        token_plain(ctx@, r@) == Some(material@),
        r@.len() == SEALED_TOKEN_LEN,
{
    let mut block = [0u8; 64];
    block.copy_from_slice(material.as_slice());
    let sealed = ctx.protect.generate_token(&block).expect("sealing a 64-byte block cannot fail");
    sealed.value().to_vec()
}

/// Relies on `CsrfProtection::generate_cookie` of the `csrf` crate: seals the
/// material together with an expiry `ttl_seconds` from now. Decrypting the
/// sealed bytes under the same key yields the material again — the expiry that
/// rides along is the clock's business and is not pinned here — and the
/// transport form is always 132 bytes. The ttl bound keeps the call's
/// calendar arithmetic away from the aborts its source shows for durations
/// and dates out of range; within it the call cannot fail — writing the
/// expiry into its 8-byte buffer is total and the AEAD encrypt errs only for
/// plaintexts far beyond any machine's memory — so the impossible error is
/// unwrapped in place.
#[verifier::external_body]
fn seal_cookie_call(ctx: &AeadContext, material: &Vec<u8>, ttl_seconds: i64) -> (r: Vec<u8>)
    requires
        material@.len() == MATERIAL_LEN,
        -MAX_TTL_SECONDS <= ttl_seconds <= MAX_TTL_SECONDS,
    ensures
        cookie_material(ctx@, r@) == Some(material@),
        r@.len() == SEALED_COOKIE_LEN,
{
    let mut block = [0u8; 64];
    block.copy_from_slice(material.as_slice());
    let sealed = ctx
        .protect
        .generate_cookie(&block, ttl_seconds)
        .expect("sealing a 64-byte block cannot fail");
    sealed.value().to_vec()
}

/// Relies on `CsrfProtection::parse_cookie` of the `csrf` crate: authenticates
/// and decrypts a sealed cookie, deterministically in the key and the bytes.
/// The crate does not expose the embedded expiry, so only the material comes
/// back here.
#[verifier::external_body]
fn parse_cookie_call(ctx: &AeadContext, sealed: &Vec<u8>) -> (r: Option<Vec<u8>>)
    ensures
        r matches Some(m) ==> cookie_material(ctx@, sealed@) == Some(m@),
        r is None ==> cookie_plain(ctx@, sealed@) is None,
{
    match ctx.protect.parse_cookie(sealed.as_slice()) {
        Ok(c) => Some(c.value().to_vec()),
        Err(_) => None,
    }
}

/// Relies on `CsrfProtection::parse_token` of the `csrf` crate: authenticates
/// and decrypts a sealed token, deterministically in the key and the bytes.
#[verifier::external_body]
pub(crate) fn parse_token_call(ctx: &AeadContext, sealed: &Vec<u8>) -> (r: Option<Vec<u8>>)
    ensures
        r matches Some(m) ==> token_plain(ctx@, sealed@) == Some(m@),
        r is None ==> token_plain(ctx@, sealed@) is None,
{
    match ctx.protect.parse_token(sealed.as_slice()) {
        Ok(t) => Some(t.value().to_vec()),
        Err(_) => None,
    }
}

/// Relies on `CsrfProtection::verify_token_pair` of the `csrf` crate, handed a
/// token rebuilt from the cookie's own material so that the byte comparison
/// inside it always passes: the call then reports exactly whether the cookie's
/// embedded expiry still lies ahead of the clock at this moment. The clock
/// makes the outcome nondeterministic, so nothing more is stated of a true
/// result than that the cookie authenticates.
#[verifier::external_body]
pub(crate) fn probe_unexpired(ctx: &AeadContext, sealed: &Vec<u8>) -> (r: bool)
    ensures
        r ==> cookie_plain(ctx@, sealed@) is Some,
{
    match ctx.protect.parse_cookie(sealed.as_slice()) {
        Ok(cookie) => {
            let echo = csrf::UnencryptedCsrfToken::new(cookie.value().to_vec());
            ctx.protect.verify_token_pair(&echo, &cookie).is_ok()
        },
        Err(_) => false,
    }
}

/// What opening a sealed cookie yields under a key: the carried session
/// material, `Malformed` for bytes of the wrong shape, `Tampered` when
/// authentication fails. Expiry plays no part here.
pub open spec fn open_spec(key: Seq<u8>, sealed: Seq<u8>) -> Result<Seq<u8>, ValidationError> {
    if sealed.len() != SEALED_COOKIE_LEN {
        Result::Err(ValidationError::Malformed)
    } else {
        match cookie_plain(key, sealed) {
            Option::None => Result::Err(ValidationError::Tampered),
            Option::Some(p) => if p.1.len() != MATERIAL_LEN {
                Result::Err(ValidationError::Malformed)
            } else {
                Result::Ok(p.1)
            },
        }
    }
}

/// A sealed token and a sealed cookie that both carry the material `m`.
pub open spec fn pair_carries(
    key: Seq<u8>,
    token_sealed: Seq<u8>,
    cookie_sealed: Seq<u8>,
    m: Seq<u8>,
) -> bool {
    &&& m.len() == MATERIAL_LEN
    &&& token_plain(key, token_sealed) == Some(m)
    &&& cookie_material(key, cookie_sealed) == Some(m)
    &&& token_sealed.len() == SEALED_TOKEN_LEN
    &&& cookie_sealed.len() == SEALED_COOKIE_LEN
}

/// A sealed token and a sealed cookie that carry one common session material.
pub open spec fn pair_coherent(key: Seq<u8>, token_sealed: Seq<u8>, cookie_sealed: Seq<u8>) -> bool {
    exists|m: Seq<u8>| pair_carries(key, token_sealed, cookie_sealed, m)
}

impl AeadContext {
    /// Builds the protection context for a key. Construction cannot fail: any
    /// 32-byte value is a usable AES-256 key.
    pub fn from_key(key: [u8; 32]) -> (r: AeadContext)
        ensures
            r@ == key@,
    {
        AeadContext { protect: make_engine(&key), key }
    }

    /// Encrypts the session material, together with an expiry `ttl_seconds`
    /// from now, into a sealed cookie under this context's key. The ttl may
    /// be negative (a cookie born expired) but must stay within
    /// `MAX_TTL_SECONDS` either way. Sealing never fails under a usable key,
    /// and any 32-byte value is one.
    pub fn seal(&self, material: &SessionMaterial, ttl_seconds: i64) -> (r: Vec<u8>)
        requires
            material.wf(),
            -MAX_TTL_SECONDS <= ttl_seconds <= MAX_TTL_SECONDS,
        ensures
            cookie_material(self@, r@) == Some(material@),
            r@.len() == SEALED_COOKIE_LEN,
    {
        seal_cookie_call(self, &material.bytes, ttl_seconds)
    }

    /// Encrypts the session material into a sealed token, the client-side
    /// half of the pair. Sealing never fails under a usable key.
    pub fn seal_token(&self, material: &SessionMaterial) -> (r: Vec<u8>)
        requires
            material.wf(),
        ensures
            token_plain(self@, r@) == Some(material@),
            r@.len() == SEALED_TOKEN_LEN,
    {
        seal_token_call(self, &material.bytes)
    }

    /// Authenticates and decrypts a sealed cookie: `Malformed` for bytes that
    /// are not a sealed payload, `Tampered` when authentication fails,
    /// otherwise the embedded session material. Expiry is not judged here.
    pub fn open(&self, sealed: &Vec<u8>) -> (r: Result<SessionMaterial, ValidationError>)
        ensures
            match r {
                Ok(m) => m.wf() && open_spec(self@, sealed@) == Result::<
                    Seq<u8>,
                    ValidationError,
                >::Ok(m@),
                Err(e) => open_spec(self@, sealed@) == Result::<Seq<u8>, ValidationError>::Err(e),
            },
    {
        if sealed.len() != SEALED_COOKIE_LEN {
            return Err(ValidationError::Malformed);
        }
        match parse_cookie_call(self, sealed) {
            Option::None => Err(ValidationError::Tampered),
            Option::Some(m) => match SessionMaterial::from_bytes(m) {
                Option::Some(sm) => Ok(sm),
                Option::None => Err(ValidationError::Malformed),
            },
        }
    }

    /// Draws fresh random session material for a browser that presented no
    /// usable cookie.
    pub fn fresh_material(&self) -> (r: SessionMaterial)
        ensures
            r.wf(),
    {
        SessionMaterial { bytes: draw_random(self, MATERIAL_LEN) }
    }

    /// Produces a matching (sealed token, sealed cookie) pair. When session
    /// material from a prior valid cookie is given it is reused, so tokens
    /// already embedded in a delivered page stay verifiable; otherwise fresh
    /// random material is drawn. Both halves carry the same material, and
    /// generation never fails per-request.
    pub fn generate_token_pair(
        &self,
        existing: Option<&SessionMaterial>,
        ttl_seconds: i64,
    ) -> (r: (Vec<u8>, Vec<u8>))
        requires
            existing matches Some(m) ==> m.wf(),
            -MAX_TTL_SECONDS <= ttl_seconds <= MAX_TTL_SECONDS,
        ensures
            pair_coherent(self@, r.0@, r.1@),
            existing matches Some(em) ==> pair_carries(self@, r.0@, r.1@, em@),
    {
        let material = match existing {
            Option::Some(m) => m.duplicate(),
            Option::None => self.fresh_material(),
        };
        let token_sealed = self.seal_token(&material);
        let cookie_sealed = self.seal(&material, ttl_seconds);
        proof {
            assert(pair_carries(self@, token_sealed@, cookie_sealed@, material@));
            assert(pair_coherent(self@, token_sealed@, cookie_sealed@));
        }
        (token_sealed, cookie_sealed)
    }
}

} // verus!
