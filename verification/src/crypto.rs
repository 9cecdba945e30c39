//! Keys, signatures and the calls into libsodium that the protocol needs.
//!
//! Keys and signatures are plain byte arrays here. Every primitive is
//! reached through one small function of this module whose contract is
//! taken on trust; what a deterministic primitive returns is given a name
//! that the contracts of the rest of the library speak of.

use vstd::prelude::*;
use crate::bytes::{array32_at, array64_at, same_bytes, spec_u64_from_be, u64_from_be};

verus! {

/// Number of bytes that sealing adds to a plaintext.
pub const SEALBYTES: usize = 48;

/// A public signature key.
#[derive(Clone, Copy, Debug, PartialEq, Eq)]
pub struct PublicSigningKey {
    pub bytes: [u8; 32],
}

/// A secret signature key.
#[derive(Clone, Copy, Debug, PartialEq, Eq)]
pub struct SecretSigningKey {
    pub bytes: [u8; 64],
}

/// The key pair a participant signs with.
#[derive(Clone, Copy, Debug, PartialEq, Eq)]
pub struct SigningKeyPair {
    pub public: PublicSigningKey,
    pub secret: SecretSigningKey,
}

/// A detached signature.
#[derive(Clone, Copy, Debug, PartialEq, Eq)]
pub struct Signature {
    pub bytes: [u8; 64],
}

/// A public encryption key.
#[derive(Clone, Copy, Debug, PartialEq, Eq)]
pub struct PublicEncryptKey {
    pub bytes: [u8; 32],
}

/// A secret encryption key.
#[derive(Clone, Copy, Debug, PartialEq, Eq)]
pub struct SecretEncryptKey {
    pub bytes: [u8; 32],
}

/// A key pair for sealed boxes.
#[derive(Clone, Copy, Debug, PartialEq, Eq)]
pub struct EncryptKeyPair {
    pub public: PublicEncryptKey,
    pub secret: SecretEncryptKey,
}

/// A share of the unit interval: `numer / denom`.
///
/// Election thresholds and the aggregation scalar are held in this form.
/// Two ratios are the same only if both fields are.
#[derive(Clone, Copy, Debug, PartialEq, Eq)]
pub struct Ratio {
    pub numer: u64,
    pub denom: u64,
}

/// The detached Ed25519 signature of `message` under `secret_key`.
pub uninterp spec fn detached_signature(secret_key: Seq<u8>, message: Seq<u8>) -> Seq<u8>;

/// Whether `signature` is a well-formed Ed25519 signature of `message` that
/// verifies under `public_key`.
pub uninterp spec fn signature_verifies(
    public_key: Seq<u8>,
    signature: Seq<u8>,
    message: Seq<u8>,
) -> bool;

/// The SHA-256 digest of `message`.
pub uninterp spec fn sha256_digest(message: Seq<u8>) -> Seq<u8>;

/// What opening the sealed box `ciphertext` with the key pair gives: the
/// plaintext, or nothing where the box was not sealed for that pair.
pub uninterp spec fn sealed_box_plaintext(
    ciphertext: Seq<u8>,
    public_key: Seq<u8>,
    secret_key: Seq<u8>,
) -> Option<Seq<u8>>;

/// The public encryption key that belongs to `secret_key`.
pub uninterp spec fn encrypt_public_key(secret_key: Seq<u8>) -> Seq<u8>;

/// The signature of `message` under `secret_key`, as a value.
pub open spec fn spec_sign(secret_key: SecretSigningKey, message: Seq<u8>) -> Signature {
    choose|signature: Signature|
        signature.bytes@ == detached_signature(secret_key.bytes@, message)
}

/// Calls `sodiumoxide::crypto::sign::sign_detached`. Signing is
/// deterministic, so the result is the named signature of the arguments;
/// it is always 64 bytes long. The call ends by making the crate's
/// signature type of the 64 bytes, which refuses a signature whose
/// scalar half has one of its three highest bits set; libsodium writes
/// that half reduced, for every key, so this never fails.
#[verifier::external_body]
pub(crate) fn sign_detached(secret_key: &SecretSigningKey, message: &[u8]) -> (signature: Signature)
    ensures
        signature.bytes@ == detached_signature(secret_key.bytes@, message@),
{
    let key = sodiumoxide::crypto::sign::SecretKey(secret_key.bytes);
    Signature { bytes: sodiumoxide::crypto::sign::sign_detached(message, &key).to_bytes() }
}

/// Calls `sodiumoxide::crypto::sign::verify_detached` on the signature that
/// `sodiumoxide::crypto::sign::Signature::from_bytes` makes of the 64
/// bytes. Bytes that `from_bytes` refuses count as a signature that does
/// not verify. The result depends on the three arguments alone.
#[verifier::external_body]
pub(crate) fn verify_detached(
    public_key: &PublicSigningKey,
    signature: &Signature,
    message: &[u8],
) -> (valid: bool)
    ensures
        valid == signature_verifies(public_key.bytes@, signature.bytes@, message@),
{
    let key = sodiumoxide::crypto::sign::PublicKey(public_key.bytes);
    match sodiumoxide::crypto::sign::Signature::from_bytes(&signature.bytes) {
        Ok(parsed) => sodiumoxide::crypto::sign::verify_detached(&parsed, message, &key),
        Err(_) => false,
    }
}

/// Calls `sodiumoxide::crypto::hash::sha256::hash`: the 32-byte digest of
/// the message, a function of the message alone.
#[verifier::external_body]
pub(crate) fn sha256(message: &[u8]) -> (digest: [u8; 32])
    ensures
        digest@ == sha256_digest(message@),
{
    sodiumoxide::crypto::hash::sha256::hash(message).0
}

/// Calls `sodiumoxide::crypto::sealedbox::seal`. Each call draws a fresh
/// ephemeral key, so the ciphertext itself is left open. Whatever it is,
/// it is 48 bytes longer than the message, and `open` gives the message
/// back under the recipient's key pair: that is what sealing for a
/// recipient means, and what the crate's own test of `seal` and `open`
/// checks.
#[verifier::external_body]
pub(crate) fn seal(message: &[u8], public_key: &PublicEncryptKey) -> (ciphertext: Vec<u8>)
    requires
        message@.len() + SEALBYTES <= usize::MAX,
    ensures
        ciphertext@.len() == message@.len() + SEALBYTES,
        spec_sealed_for(ciphertext@, message@, public_key.bytes@),
{
    let key = sodiumoxide::crypto::box_::PublicKey(public_key.bytes);
    sodiumoxide::crypto::sealedbox::seal(message, &key)
}

/// Calls `sodiumoxide::crypto::sealedbox::open`. Opening is deterministic:
/// the result is the named plaintext of the arguments. A plaintext is 48
/// bytes shorter than its ciphertext.
#[verifier::external_body]
pub(crate) fn open(ciphertext: &[u8], keys: &EncryptKeyPair) -> (plaintext: Option<Vec<u8>>)
    ensures
        match plaintext {
            Some(bytes) => sealed_box_plaintext(
                ciphertext@,
                keys.public.bytes@,
                keys.secret.bytes@,
            ) == Some(bytes@) && bytes@.len() + SEALBYTES == ciphertext@.len(),
            None => sealed_box_plaintext(ciphertext@, keys.public.bytes@, keys.secret.bytes@)
                is None,
        },
{
    let public = sodiumoxide::crypto::box_::PublicKey(keys.public.bytes);
    let secret = sodiumoxide::crypto::box_::SecretKey(keys.secret.bytes);
    sodiumoxide::crypto::sealedbox::open(ciphertext, &public, &secret).ok()
}

/// Calls `sodiumoxide::crypto::box_::gen_keypair`. The secret key is
/// random; the public key is made of it as `SecretKey::public_key` makes
/// it: libsodium calls `crypto_scalarmult_base` on the secret key in both.
#[verifier::external_body]
pub(crate) fn gen_encrypt_key_pair() -> (keys: EncryptKeyPair)
    ensures
        keys.spec_matches(),
{
    let (public, secret) = sodiumoxide::crypto::box_::gen_keypair();
    EncryptKeyPair {
        public: PublicEncryptKey { bytes: public.0 },
        secret: SecretEncryptKey { bytes: secret.0 },
    }
}

/// Calls `sodiumoxide::crypto::sign::gen_keypair`. The pair is random;
/// libsodium makes the secret key of the seed and, after it, the public
/// key, so that the second half of the secret key is the public key.
#[verifier::external_body]
pub(crate) fn gen_signing_key_pair() -> (keys: SigningKeyPair)
    ensures
        keys.spec_matches(),
{
    let (public, secret) = sodiumoxide::crypto::sign::gen_keypair();
    SigningKeyPair {
        public: PublicSigningKey { bytes: public.0 },
        secret: SecretSigningKey { bytes: secret.0 },
    }
}

/// Calls `sodiumoxide::init`, which sets libsodium up and makes its
/// random number generation safe to use from several threads. Whether
/// it succeeded depends on the machine.
#[verifier::external_body]
pub(crate) fn sodium_init() -> (ready: bool) {
    sodiumoxide::init().is_ok()
}

/// Calls `sodiumoxide::randombytes::randombytes`: `size` random bytes.
#[verifier::external_body]
pub(crate) fn random_bytes(size: usize) -> (bytes: Vec<u8>)
    ensures
        bytes@.len() == size,
{
    sodiumoxide::randombytes::randombytes(size)
}

/// The library that does the cryptography could not be set up.
#[derive(Clone, Copy, Debug, PartialEq, Eq)]
pub struct InitError;

/// Sets the cryptography up. Call it once before anything is drawn at
/// random on more than one thread.
pub fn init() -> (ready: Result<(), InitError>) {
    if sodium_init() {
        Ok(())
    } else {
        Err(InitError)
    }
}

impl SigningKeyPair {
    /// A fresh random key pair, whose public key is the one that its secret key carries.
    pub fn generate() -> (keys: Self)
        ensures
            keys.spec_matches(),
    {
        gen_signing_key_pair()
    }

    /// Whether the public key is the one that the secret key carries: a
    /// secret signing key ends with its public key.
    pub open spec fn spec_matches(self) -> bool {
        self.public.bytes@ == self.secret.bytes@.subrange(32, 64)
    }
}

impl PublicSigningKey {
    /// Length in bytes of a public signature key.
    pub const LENGTH: usize = 32;

    /// The key that `bytes` holds, if there are exactly 32 of them.
    pub fn from_slice(bytes: &[u8]) -> (key: Option<Self>)
        ensures
            key is Some <==> bytes@.len() == 32,
            key is Some ==> key.unwrap().bytes@ == bytes@,
    {
        if bytes.len() != 32 {
            return None;
        }
        let key = PublicSigningKey { bytes: array32_at(bytes, 0) };
        assert(bytes@.subrange(0, 32) =~= bytes@);
        Some(key)
    }

    /// The bytes of the key.
    pub fn as_slice(&self) -> (bytes: &[u8])
        ensures
            bytes@ == self.bytes@,
    {
        self.bytes.as_slice()
    }

    /// Whether `signature` is a signature of `message` under this key.
    pub fn verify_detached(&self, signature: &Signature, message: &[u8]) -> (valid: bool)
        ensures
            valid == signature_verifies(self.bytes@, signature.bytes@, message@),
    {
        verify_detached(self, signature, message)
    }
}

impl SecretSigningKey {
    /// Length in bytes of a secret signature key.
    pub const LENGTH: usize = 64;

    /// The key that `bytes` holds, if there are exactly 64 of them.
    pub fn from_slice(bytes: &[u8]) -> (key: Option<Self>)
        ensures
            key is Some <==> bytes@.len() == 64,
            key is Some ==> key.unwrap().bytes@ == bytes@,
    {
        if bytes.len() != 64 {
            return None;
        }
        let key = SecretSigningKey { bytes: array64_at(bytes, 0) };
        assert(bytes@.subrange(0, 64) =~= bytes@);
        Some(key)
    }

    /// The bytes of the key.
    pub fn as_slice(&self) -> (bytes: &[u8])
        ensures
            bytes@ == self.bytes@,
    {
        self.bytes.as_slice()
    }

    /// Signs `message`. The same key and message always give the same
    /// signature.
    pub fn sign_detached(&self, message: &[u8]) -> (signature: Signature)
        ensures
            signature.bytes@ == detached_signature(self.bytes@, message@),
            signature == spec_sign(*self, message@),
    {
        let signature = sign_detached(self, message);
        proof {
            lemma_sign_is_signature(*self, message@, signature);
        }
        signature
    }
}

/// A signature that holds the bytes of the signature of `message` is the
/// signature of `message`.
pub proof fn lemma_sign_is_signature(
    secret_key: SecretSigningKey,
    message: Seq<u8>,
    signature: Signature,
)
    requires
        signature.bytes@ == detached_signature(secret_key.bytes@, message),
    ensures
        signature == spec_sign(secret_key, message),
{
    assert(spec_sign(secret_key, message).bytes =~= signature.bytes);
}

impl PublicEncryptKey {
    /// Length in bytes of a public encryption key.
    pub const LENGTH: usize = 32;

    /// The key that `bytes` holds, if there are exactly 32 of them.
    pub fn from_slice(bytes: &[u8]) -> (key: Option<Self>)
        ensures
            key is Some <==> bytes@.len() == 32,
            key is Some ==> key.unwrap().bytes@ == bytes@,
    {
        if bytes.len() != 32 {
            return None;
        }
        let key = PublicEncryptKey { bytes: array32_at(bytes, 0) };
        assert(bytes@.subrange(0, 32) =~= bytes@);
        Some(key)
    }

    /// The bytes of the key.
    pub fn as_slice(&self) -> (bytes: &[u8])
        ensures
            bytes@ == self.bytes@,
    {
        self.bytes.as_slice()
    }

    /// Seals `message` for the owner of this key. Two calls give different
    /// ciphertexts; each is 48 bytes longer than the message and opens to
    /// it under a key pair whose public key is this key and belongs to
    /// the secret key.
    pub fn encrypt(&self, message: &[u8]) -> (ciphertext: Vec<u8>)
        requires
            message@.len() + SEALBYTES <= usize::MAX,
        ensures
            ciphertext@.len() == message@.len() + SEALBYTES,
            spec_sealed_for(ciphertext@, message@, self.bytes@),
    {
        seal(message, self)
    }
}

impl EncryptKeyPair {
    /// A fresh random key pair, whose public key is the one that belongs to its secret key.
    pub fn generate() -> (keys: Self)
        ensures
            keys.spec_matches(),
    {
        gen_encrypt_key_pair()
    }

    /// Whether the public key is the one that belongs to the secret key.
    pub open spec fn spec_matches(self) -> bool {
        self.public.bytes@ == encrypt_public_key(self.secret.bytes@)
    }

    /// Whether the public key is the one that belongs to the secret key.
    pub fn matches(&self) -> (matches: bool)
        ensures
            matches == self.spec_matches(),
    {
        let public = self.secret.public_key();
        same_bytes(public.bytes.as_slice(), self.public.bytes.as_slice())
    }

    /// Opens a sealed box that was sealed for this pair.
    pub fn decrypt(&self, ciphertext: &[u8]) -> (plaintext: Option<Vec<u8>>)
        ensures
            match plaintext {
                Some(bytes) => sealed_box_plaintext(
                    ciphertext@,
                    self.public.bytes@,
                    self.secret.bytes@,
                ) == Some(bytes@) && bytes@.len() + SEALBYTES == ciphertext@.len(),
                None => sealed_box_plaintext(ciphertext@, self.public.bytes@, self.secret.bytes@)
                    is None,
            },
    {
        open(ciphertext, self)
    }
}

/// Whether `ciphertext` is `message` sealed for `public_key`: it opens to
/// the message under every secret key that the public key belongs to.
pub open spec fn spec_sealed_for(
    ciphertext: Seq<u8>,
    message: Seq<u8>,
    public_key: Seq<u8>,
) -> bool {
    forall|secret_key: Seq<u8>|
        encrypt_public_key(secret_key) == public_key ==> #[trigger] sealed_box_plaintext(
            ciphertext,
            public_key,
            secret_key,
        ) == Some(message)
}

/// Calls `sodiumoxide::crypto::box_::SecretKey::public_key`: the public
/// key that belongs to a secret key, a function of the secret key alone.
#[verifier::external_body]
pub(crate) fn encrypt_public_key_of(secret_key: &SecretEncryptKey) -> (public_key: PublicEncryptKey)
    ensures
        public_key.bytes@ == encrypt_public_key(secret_key.bytes@),
{
    let key = sodiumoxide::crypto::box_::SecretKey(secret_key.bytes);
    PublicEncryptKey { bytes: key.public_key().0 }
}

impl SecretEncryptKey {
    /// Length in bytes of a secret encryption key.
    pub const LENGTH: usize = 32;

    /// The key that `bytes` holds, if there are exactly 32 of them.
    pub fn from_slice(bytes: &[u8]) -> (key: Option<Self>)
        ensures
            key is Some <==> bytes@.len() == 32,
            key is Some ==> key.unwrap().bytes@ == bytes@,
    {
        if bytes.len() != 32 {
            return None;
        }
        let key = SecretEncryptKey { bytes: array32_at(bytes, 0) };
        assert(bytes@.subrange(0, 32) =~= bytes@);
        Some(key)
    }

    /// The bytes of the key.
    pub fn as_slice(&self) -> (bytes: &[u8])
        ensures
            bytes@ == self.bytes@,
    {
        self.bytes.as_slice()
    }

    /// The public key that belongs to this secret key.
    pub fn public_key(&self) -> (public_key: PublicEncryptKey)
        ensures
            public_key.bytes@ == encrypt_public_key(self.bytes@),
    {
        encrypt_public_key_of(self)
    }
}

/// The score of a digest: its first eight bytes read as a number, most
/// significant first. Over 2^64 it is a point of the unit interval.
pub open spec fn spec_score(digest: Seq<u8>) -> int
    recommends
        digest.len() >= 8,
{
    spec_u64_from_be(digest.subrange(0, 8))
}

/// Whether a digest is under a threshold: `score / 2^64 < numer / denom`,
/// compared without rounding. Equality does not count.
pub open spec fn spec_digest_eligible(digest: Seq<u8>, threshold: Ratio) -> bool {
    spec_score(digest) * threshold.denom < threshold.numer * 0x1_0000_0000_0000_0000
}

/// Whether the holder of `signature` is elected at `threshold`.
pub open spec fn spec_is_eligible(signature: Signature, threshold: Ratio) -> bool {
    spec_digest_eligible(sha256_digest(signature.bytes@), threshold)
}

/// Whether `digest` is under `threshold`.
pub fn digest_eligible(digest: &[u8; 32], threshold: Ratio) -> (eligible: bool)
    ensures
        eligible == spec_digest_eligible(digest@, threshold),
{
    let score: u64 = u64_from_be(digest.as_slice(), 0);
    let left: u128 = score as u128;
    let denom: u128 = threshold.denom as u128;
    let numer: u128 = threshold.numer as u128;
    assert(left * denom <= 0xffff_ffff_ffff_ffff * 0xffff_ffff_ffff_ffff) by (nonlinear_arith)
        requires
            0 <= left <= 0xffff_ffff_ffff_ffff,
            0 <= denom <= 0xffff_ffff_ffff_ffff,
    ;
    assert(numer * 0x1_0000_0000_0000_0000 <= 0xffff_ffff_ffff_ffff * 0x1_0000_0000_0000_0000)
        by (nonlinear_arith)
        requires
            0 <= numer <= 0xffff_ffff_ffff_ffff,
    ;
    left * denom < numer * 0x1_0000_0000_0000_0000
}

/// The ends of the scale: nothing is under the threshold zero, and
/// every digest is under the threshold one.
pub proof fn lemma_eligibility_at_the_ends(digest: Seq<u8>, denom: u64)
    requires
        digest.len() >= 8,
        denom > 0,
    ensures
        !spec_digest_eligible(digest, Ratio { numer: 0, denom }),
        spec_digest_eligible(digest, Ratio { numer: denom, denom }),
{
    let score = spec_score(digest);
    let window = digest.subrange(0, 8);
    crate::bytes::lemma_u32_be_bytes_round_trip(window.subrange(0, 4));
    crate::bytes::lemma_u32_be_bytes_round_trip(window.subrange(4, 8));
    assert(0 <= score < 0x1_0000_0000_0000_0000);
    assert(score * denom < denom * 0x1_0000_0000_0000_0000) by (nonlinear_arith)
        requires
            0 <= score < 0x1_0000_0000_0000_0000,
            denom > 0,
    ;
    assert(score * denom >= 0) by (nonlinear_arith)
        requires
            denom > 0,
            score >= 0,
    ;
}

impl Signature {
    /// Length in bytes of a signature.
    pub const LENGTH: usize = 64;

    /// The signature that `bytes` holds, if there are exactly 64 of them.
    pub fn from_slice(bytes: &[u8]) -> (signature: Option<Self>)
        ensures
            signature is Some <==> bytes@.len() == 64,
            signature is Some ==> signature.unwrap().bytes@ == bytes@,
    {
        if bytes.len() != 64 {
            return None;
        }
        let signature = Signature { bytes: array64_at(bytes, 0) };
        assert(bytes@.subrange(0, 64) =~= bytes@);
        Some(signature)
    }

    /// The bytes of the signature.
    pub fn as_slice(&self) -> (bytes: &[u8])
        ensures
            bytes@ == self.bytes@,
    {
        self.bytes.as_slice()
    }

    /// Whether this signature elects its holder at `threshold`: the score
    /// of the signature's digest is strictly under the threshold.
    pub fn is_eligible(&self, threshold: Ratio) -> (eligible: bool)
        ensures
            eligible == spec_is_eligible(*self, threshold),
    {
        let digest = sha256(self.bytes.as_slice());
        digest_eligible(&digest, threshold)
    }
}

} // verus!
