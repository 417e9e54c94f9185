use vstd::prelude::*;
use vstd::slice::slice_to_vec;
use vstd::utf8::encode_utf8;
use aes_gcm::aead::consts::U32;
use aes_gcm::aes::Aes256;
use aes_gcm::{AeadInPlace, AesGcm, KeyInit};

verus! {

/// SHA-256 digest of a byte sequence.
pub uninterp spec fn sha256_of(data: Seq<u8>) -> Seq<u8>;

/// AES-256-GCM sealing with a 32-byte nonce and no associated data:
/// the ciphertext followed by its 16-byte tag.
pub uninterp spec fn aes256_gcm_seal_of(key: Seq<u8>, nonce: Seq<u8>, plain: Seq<u8>) -> Seq<u8>;

/// Relies on ring::digest::digest with SHA256, whose output is 32 bytes
/// and depends on the input alone.
#[verifier::external_body]
fn sha256(data: &[u8]) -> (r: [u8; 32])
    ensures
        r@ == sha256_of(data@),
{
    let d = ring::digest::digest(&ring::digest::SHA256, data);
    <[u8; 32]>::try_from(d.as_ref()).unwrap()
}

/// Relies on aes_gcm's `AesGcm<Aes256, U32>::encrypt_in_place` with empty
/// associated data; it fails only on a plaintext longer than 2^36 bytes.
#[verifier::external_body]
fn gcm_seal(key: &[u8; 32], nonce: &[u8; 32], plain: &[u8; 16]) -> (r: [u8; 32])
    ensures
        r@ == aes256_gcm_seal_of(key@, nonce@, plain@),
{
    let cipher = AesGcm::<Aes256, U32>::new(key.into());
    let mut buffer = plain.to_vec();
    cipher.encrypt_in_place(nonce.into(), b"", &mut buffer).unwrap();
    <[u8; 32]>::try_from(buffer).unwrap()
}

/// Relies on aes_gcm's `AesGcm<Aes256, U32>::decrypt_in_place` with empty
/// associated data: it succeeds exactly when the trailing tag is the one that
/// sealing the deciphered bytes under this key and nonce gives.
#[verifier::external_body]
fn gcm_opens(key: &[u8; 32], nonce: &[u8; 32], sealed: &[u8; 32]) -> (r: bool)
    ensures
        r == exists|p: Seq<u8>| aes256_gcm_seal_of(key@, nonce@, p) == sealed@,
{
    let cipher = AesGcm::<Aes256, U32>::new(key.into());
    let mut buffer = sealed.to_vec();
    cipher.decrypt_in_place(nonce.into(), b"", &mut buffer).is_ok()
}

/// The key: digest of the password's UTF-8 bytes followed by the context.
pub open spec fn derived_key(pwd: Seq<char>, ctx: Seq<u8>) -> Seq<u8> {
    sha256_of(encode_utf8(pwd) + ctx)
}

/// The nonce: digest of the IV's UTF-8 bytes followed by the context.
pub open spec fn derived_nonce(iv: Seq<char>, ctx: Seq<u8>) -> Seq<u8> {
    sha256_of(encode_utf8(iv) + ctx)
}

/// The disguised random that hides `random` under the secret `(pwd, iv)`
/// bound to the context `ctx`.
pub open spec fn fake_random_of(pwd: Seq<char>, iv: Seq<char>, random: Seq<u8>, ctx: Seq<u8>) -> Seq<u8> {
    aes256_gcm_seal_of(derived_key(pwd, ctx), derived_nonce(iv, ctx), random)
}

/// Whether `fake` is the disguised form of some value under the secret
/// `(pwd, iv)` and the context `ctx`.
pub open spec fn is_fake_random(pwd: Seq<char>, iv: Seq<char>, fake: Seq<u8>, ctx: Seq<u8>) -> bool {
    exists|p: Seq<u8>| aes256_gcm_seal_of(derived_key(pwd, ctx), derived_nonce(iv, ctx), p) == fake
}

/// A shared secret of an authenticating peer: a password and an IV string.
#[derive(Clone)]
pub struct JlsConfig {
    /// user password of a JLS peer
    pub user_pwd: String,
    /// user iv for a JLS peer
    pub user_iv: String,
}

/// The password and IV of a default configuration.
pub const DEFAULT_SECRET: &'static str = "3070111071563328618171495819203123318";

impl Default for JlsConfig {
    fn default() -> (r: JlsConfig)
        ensures
            r.user_pwd@ == DEFAULT_SECRET@,
            r.user_iv@ == DEFAULT_SECRET@,
    {
        JlsConfig { user_pwd: DEFAULT_SECRET.to_string(), user_iv: DEFAULT_SECRET.to_string() }
    }
}

/// Digest of the UTF-8 bytes of `secret` followed by `ctx`.
fn salted_digest(secret: &String, ctx: &[u8]) -> (r: [u8; 32])
    ensures
        r@ == sha256_of(encode_utf8(secret@) + ctx@),
{
    let mut material = slice_to_vec(secret.as_str().as_bytes());
    material.extend_from_slice(ctx);
    assert(material@ =~= encode_utf8(secret@) + ctx@);
    sha256(material.as_slice())
}

impl JlsConfig {
    /// Create a new JlsConfig
    pub fn new(user_pwd: &str, user_iv: &str) -> (r: JlsConfig)
        ensures
            r.user_pwd@ == user_pwd@,
            r.user_iv@ == user_iv@,
    {
        JlsConfig { user_pwd: user_pwd.to_string(), user_iv: user_iv.to_string() }
    }

    /// Build a fake random from a true random, bound to the context `auth_data`.
    pub fn build_fake_random(&self, random: &[u8; 16], auth_data: &[u8]) -> (r: [u8; 32])
        ensures
            r@ == fake_random_of(self.user_pwd@, self.user_iv@, random@, auth_data@),
    {
        let key = salted_digest(&self.user_pwd, auth_data);
        let nonce = salted_digest(&self.user_iv, auth_data);
        gcm_seal(&key, &nonce, random)
    }

    /// Check whether `fake_random` was built under this secret and the context `auth_data`.
    pub fn check_fake_random(&self, fake_random: &[u8; 32], auth_data: &[u8]) -> (r: bool)
        ensures
            r == is_fake_random(self.user_pwd@, self.user_iv@, fake_random@, auth_data@),
    {
        let key = salted_digest(&self.user_pwd, auth_data);
        let nonce = salted_digest(&self.user_iv, auth_data);
        let r = gcm_opens(&key, &nonce, fake_random);
        assert(key@ == derived_key(self.user_pwd@, auth_data@));
        assert(nonce@ == derived_nonce(self.user_iv@, auth_data@));
        r
    }
}

/// A fake random built under a secret and a context passes the check under
/// the same secret and context, whatever the true random was.
pub proof fn lemma_round_trip(pwd: Seq<char>, iv: Seq<char>, random: Seq<u8>, ctx: Seq<u8>)
    ensures
        is_fake_random(pwd, iv, fake_random_of(pwd, iv, random, ctx), ctx),
{
    assert(aes256_gcm_seal_of(derived_key(pwd, ctx), derived_nonce(iv, ctx), random)
        == fake_random_of(pwd, iv, random, ctx));
}

/// Building a fake random twice from equal secrets, randoms and contexts
/// gives equal results.
pub proof fn lemma_build_deterministic(
    a: JlsConfig,
    b: JlsConfig,
    random_a: Seq<u8>,
    random_b: Seq<u8>,
    ctx_a: Seq<u8>,
    ctx_b: Seq<u8>,
)
    requires
        a.user_pwd@ == b.user_pwd@,
        a.user_iv@ == b.user_iv@,
        random_a == random_b,
        ctx_a == ctx_b,
    ensures
        fake_random_of(a.user_pwd@, a.user_iv@, random_a, ctx_a)
            == fake_random_of(b.user_pwd@, b.user_iv@, random_b, ctx_b),
{
}

} // verus!
