//! Canonical byte encoding and signing contract for mutable, versioned
//! values that are authenticated by a public key alone: a value, an
//! optional salt and a sequence number are serialized into a signable
//! payload, which is then signed or checked with an Ed25519 key pair.
#![allow(unused_imports)]
use vstd::prelude::*;
use vstd::string::StrSliceExecFns;
use vstd::string::StringSliceAdditionalSpecFns;

pub mod crypto;
pub mod encoding;

use crate::crypto::{blake2b_digest, ed_sign, ed_verify, is_keypair};
use crate::encoding::signable_spec;

verus! {

/// Largest accepted value length, in bytes.
pub const VALUE_MAX_SIZE: u16 = 1000;

/// Every failure of the library: all are rejections of caller input,
/// none is transient.
#[derive(Clone, Copy, Debug, PartialEq, Eq, Structural)]
pub enum HypersignError {
    /// A requested salt size lies outside [16, 64].
    SaltSizeError,
    /// The supplied key-pair bytes do not encode a consistent Ed25519 key
    /// pair (one whose public half is derived from its secret half).
    SecretKeyError,
    /// Reserved for call sites that need an `Options` bundle and got none.
    OptionsRequiredError,
    /// A value longer than `VALUE_MAX_SIZE` bytes.
    ValueSizeError,
}

/// A byte result or a validation failure.
pub type HypersignResult = Result<Vec<u8>, HypersignError>;

/// The bytes behind an optional byte buffer.
pub open spec fn opt_bytes(o: Option<Vec<u8>>) -> Option<Seq<u8>> {
    match o {
        Some(v) => Some(v@),
        None => None,
    }
}

/// An Ed25519 key pair, held as its 64-byte serialization: the 32-byte
/// secret key followed by the 32-byte public key. The caller owns the
/// bytes; signing only borrows them.
pub struct KeyPair {
    pub bytes: Vec<u8>,
}

impl KeyPair {
    /// A serialized key pair is 64 bytes long.
    pub open spec fn wf(&self) -> bool {
        self.bytes@.len() == 64
    }

    /// The public half of the key pair, as its own 32-byte buffer.
    pub fn public_key(&self) -> (r: Vec<u8>)
        requires
            self.wf(),
        ensures
            r@ == self.bytes@.subrange(32, 64),
    {
        let mut r: Vec<u8> = Vec::new();
        let mut i: usize = 32;
        while i < 64
            invariant
                32 <= i <= 64,
                self.bytes@.len() == 64,
                r@ == self.bytes@.subrange(32, i as int),
            decreases 64 - i,
        {
            r.push(self.bytes[i]);
            i = i + 1;
            assert(r@ =~= self.bytes@.subrange(32, i as int));
        }
        r
    }
}

/// An Ed25519 signature, held as its 64-byte encoding.
pub struct Signature {
    pub bytes: Vec<u8>,
}

/// The bundle a signing call consumes: the key pair, the optional salt
/// naming the slot, and the optional sequence number (0 when absent).
pub struct Options {
    pub keypair: KeyPair,
    pub salt: Option<Vec<u8>>,
    pub seq: Option<u128>,
}

/// The sequence number an options bundle asks for: the one given, or 0.
pub open spec fn seq_or_zero(seq: Option<u128>) -> nat {
    match seq {
        Some(q) => q as nat,
        None => 0,
    }
}

/// A signature or a validation failure.
pub type SignatureResult = Result<Signature, HypersignError>;

/// Whether a requested salt size is acceptable: inside [16, 64], or absent.
pub open spec fn salt_size_ok(size: Option<u8>) -> bool {
    match size {
        Some(s) => 16 <= s && s <= 64,
        None => true,
    }
}

/// The salt size a request asks for: the one given, or the default 32.
pub open spec fn salt_size_of(size: Option<u8>) -> u8 {
    match size {
        Some(s) => s,
        None => 32,
    }
}

/// What the salt deriver hashes: the UTF-8 bytes of the seed, or `size`
/// zero bytes when no seed is given (deliberately not random, so that the
/// unsalted path stays reproducible; callers that need an unpredictable
/// salt must supply their own seed).
pub open spec fn salt_seed_bytes(seed: Option<&str>, size: u8) -> Seq<u8> {
    match seed {
        Some(s) => s.spec_bytes(),
        None => Seq::new(size as nat, |i: int| 0u8),
    }
}

/// A buffer of `n` zero bytes.
fn zero_vec(n: u8) -> (r: Vec<u8>)
    ensures
        r@ == Seq::new(n as nat, |i: int| 0u8),
{
    let mut r: Vec<u8> = Vec::new();
    let mut i: usize = 0;
    while i < n as usize
        invariant
            i <= n as usize,
            r@.len() == i,
            forall|j: int| 0 <= j < i ==> r@[j] == 0u8,
        decreases n as usize - i,
    {
        r.push(0u8);
        i = i + 1;
    }
    assert(r@ =~= Seq::new(n as nat, |i: int| 0u8));
    r
}

/// Derives a salt: the Blake2b hash, `size` bytes wide (default 32), of
/// the seed's UTF-8 bytes, or of `size` zero bytes when no seed is given.
/// Sizes outside [16, 64] are rejected with `SaltSizeError`.
pub fn salt(seed: Option<&str>, size: Option<u8>) -> (r: HypersignResult)
    ensures
        !salt_size_ok(size) ==> r == Err::<Vec<u8>, HypersignError>(HypersignError::SaltSizeError),
        salt_size_ok(size) ==> (r matches Ok(b)
            && b@ == blake2b_digest(salt_seed_bytes(seed, salt_size_of(size)), salt_size_of(size) as nat)
            && b@.len() == salt_size_of(size) as nat),
{
    let temp_size: u8 = match size {
        Some(s) => {
            if s < 16 || s > 64 {
                return Err(HypersignError::SaltSizeError);
            }
            s
        },
        None => 32,
    };
    let bytes: Vec<u8> = match seed {
        Some(s) => s.as_bytes_vec(),
        None => zero_vec(temp_size),
    };
    Ok(crypto::blake2b_var(&bytes, temp_size))
}

/// Generates a fresh Ed25519 key pair from the platform's secure
/// randomness source.
pub fn keypair() -> (r: KeyPair)
    ensures
        r.wf(),
        is_keypair(r.bytes@),
{
    KeyPair { bytes: crypto::generate_keypair_bytes() }
}

/// Signs `msg` as it stands with the key pair's secret key. The resulting
/// signature is accepted by Ed25519 verification under the key pair's
/// public half.
pub fn crypto_sign(msg: Vec<u8>, keypair: KeyPair) -> (r: Signature)
    requires
        is_keypair(keypair.bytes@),
    ensures
        r.bytes@ == ed_sign(keypair.bytes@, msg@),
        r.bytes@.len() == 64,
        ed_verify(keypair.bytes@.subrange(32, 64), msg@, r.bytes@),
{
    Signature { bytes: crypto::ed25519_sign_bytes(&keypair.bytes, &msg) }
}

/// Builds the signable payload for `value` under the bundle's salt and
/// sequence number. Values longer than `VALUE_MAX_SIZE` bytes are rejected
/// with `ValueSizeError`; a value of exactly `VALUE_MAX_SIZE` bytes is
/// accepted.
pub fn signable(value: Vec<u8>, opts: &Options) -> (r: HypersignResult)
    ensures
        value@.len() > VALUE_MAX_SIZE ==> r == Err::<Vec<u8>, HypersignError>(
            HypersignError::ValueSizeError,
        ),
        value@.len() <= VALUE_MAX_SIZE ==> (r matches Ok(p) && p@ == signable_spec(
            opt_bytes(opts.salt),
            seq_or_zero(opts.seq),
            value@,
        )),
{
    if value.len() > VALUE_MAX_SIZE as usize {
        return Err(HypersignError::ValueSizeError);
    }
    let q: u128 = match opts.seq {
        Some(s) => s,
        None => 0,
    };
    Ok(encoding::build_signable(&opts.salt, q, &value))
}

/// Signs `value` under the bundle's salt and sequence number: the payload
/// that `signable` builds is signed with the bundle's key pair. The value
/// size is validated as in `signable`; key-pair bytes that do not encode
/// a consistent Ed25519 key pair are rejected with `SecretKeyError`.
pub fn sign(value: Vec<u8>, opts: Options) -> (r: SignatureResult)
    ensures
        value@.len() > VALUE_MAX_SIZE ==> r == Err::<Signature, HypersignError>(
            HypersignError::ValueSizeError,
        ),
        value@.len() <= VALUE_MAX_SIZE && !is_keypair(opts.keypair.bytes@) ==> r == Err::<
            Signature,
            HypersignError,
        >(HypersignError::SecretKeyError),
        value@.len() <= VALUE_MAX_SIZE && is_keypair(opts.keypair.bytes@) ==> (r matches Ok(sig)
            && sig.bytes@ == ed_sign(
            opts.keypair.bytes@,
            signable_spec(opt_bytes(opts.salt), seq_or_zero(opts.seq), value@),
        ) && sig.bytes@.len() == 64 && ed_verify(
            opts.keypair.bytes@.subrange(32, 64),
            signable_spec(opt_bytes(opts.salt), seq_or_zero(opts.seq), value@),
            sig.bytes@,
        )),
{
    if value.len() > VALUE_MAX_SIZE as usize {
        return Err(HypersignError::ValueSizeError);
    }
    if !crypto::keypair_valid(&opts.keypair.bytes) {
        return Err(HypersignError::SecretKeyError);
    }
    let msg = match signable(value, &opts) {
        Ok(m) => m,
        Err(e) => {
            return Err(e);
        },
    };
    Ok(crypto_sign(msg, opts.keypair))
}

/// Checks `signature` against the payload rebuilt from
/// `(salt, seq, value)` under `public_key`. Returns `Ok(false)` on any
/// mismatch, and an error only when the payload cannot even be built
/// because the value is oversized.
pub fn verify(
    value: &Vec<u8>,
    salt: &Option<Vec<u8>>,
    seq: u128,
    signature: &Signature,
    public_key: &Vec<u8>,
) -> (r: Result<bool, HypersignError>)
    ensures
        value@.len() > VALUE_MAX_SIZE ==> r == Err::<bool, HypersignError>(
            HypersignError::ValueSizeError,
        ),
        value@.len() <= VALUE_MAX_SIZE ==> r == Ok::<bool, HypersignError>(
            ed_verify(public_key@, signable_spec(opt_bytes(*salt), seq as nat, value@), signature.bytes@),
        ),
{
    if value.len() > VALUE_MAX_SIZE as usize {
        return Err(HypersignError::ValueSizeError);
    }
    let payload = encoding::build_signable(salt, seq, value);
    Ok(crypto::ed25519_verify_bytes(public_key, &payload, &signature.bytes))
}

} // verus!
