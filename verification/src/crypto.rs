//! The primitive adapters: a variable-output hash for salt derivation and
//! an Ed25519 signature scheme, both supplied by outside crates. Key pairs
//! and signatures cross this boundary as plain byte buffers; a key pair is
//! the 64-byte serialization that `ed25519_dalek::Keypair::to_bytes` gives,
//! the 32-byte secret key followed by the 32-byte public key.
#![allow(unused_imports)]
use vstd::prelude::*;

use blake2::digest::{Update, VariableOutput};
use blake2::VarBlake2b;
use ed25519_dalek::{Signer, Verifier};

verus! {

/// The Blake2b digest of `input` with output length `size` bytes.
pub uninterp spec fn blake2b_digest(input: Seq<u8>, size: nat) -> Seq<u8>;

/// Whether `bytes` is the 64-byte serialization of a consistent Ed25519
/// key pair: it parses, and its public half is the public key derived
/// from its secret half.
pub uninterp spec fn is_keypair(bytes: Seq<u8>) -> bool;

/// The Ed25519 signature that the key pair serialized as `keypair`
/// produces over `msg` (signing is deterministic).
pub uninterp spec fn ed_sign(keypair: Seq<u8>, msg: Seq<u8>) -> Seq<u8>;

/// Whether Ed25519 verification accepts `sig` as a signature over `msg`
/// under the 32-byte public key `public_key`; rejection includes public-key
/// or signature bytes that do not parse.
pub uninterp spec fn ed_verify(public_key: Seq<u8>, msg: Seq<u8>, sig: Seq<u8>) -> bool;

/// Relies on blake2's `VarBlake2b` (`new`, `update`, `finalize_boxed`):
/// the digest is a function of the input bytes and the output size alone,
/// and is exactly `size` bytes long. `new` fails only for a size of zero
/// or above 64, which the precondition rules out.
#[verifier::external_body]
pub(crate) fn blake2b_var(input: &Vec<u8>, size: u8) -> (r: Vec<u8>)
    requires
        1 <= size <= 64,
    ensures
        r@ == blake2b_digest(input@, size as nat),
        r@.len() == size as nat,
{
    let mut hasher = VarBlake2b::new(size as usize).unwrap();
    hasher.update(input.as_slice());
    hasher.finalize_boxed().to_vec()
}

/// Relies on `ed25519_dalek::Keypair::generate` over the platform's
/// `rand::rngs::OsRng` and on `Keypair::to_bytes`: the result is 64 bytes,
/// secret key first, with the public half derived from the secret half at
/// generation. Nothing more is promised of a freshly drawn key.
#[verifier::external_body]
pub(crate) fn generate_keypair_bytes() -> (r: Vec<u8>)
    ensures
        r@.len() == 64,
        is_keypair(r@),
{
    let mut csprng = rand::rngs::OsRng {};
    let kp = ed25519_dalek::Keypair::generate(&mut csprng);
    kp.to_bytes().to_vec()
}

/// Relies on `ed25519_dalek::Keypair::from_bytes` and on
/// `PublicKey::from(&SecretKey)`: a deterministic test of the bytes alone
/// that they parse as a key pair (64 bytes whose public half is a valid
/// curve point) and that the public half equals the public key derived
/// from the secret half. `Keypair::from_bytes` alone does not check that
/// the halves correspond; signing with a mismatched pair would produce
/// signatures its stored public half rejects, so such bytes are refused.
#[verifier::external_body]
pub(crate) fn keypair_valid(bytes: &Vec<u8>) -> (r: bool)
    ensures
        r == is_keypair(bytes@),
{
    match ed25519_dalek::Keypair::from_bytes(bytes.as_slice()) {
        Ok(kp) => {
            let derived = ed25519_dalek::PublicKey::from(&kp.secret);
            derived.as_bytes() == kp.public.as_bytes()
        },
        Err(_) => false,
    }
}

/// Relies on `ed25519_dalek`'s `Signer::sign` for `Keypair` (deterministic
/// per RFC 8032 and total on valid key pairs), on `Signature::to_bytes`
/// (64 bytes), and on the scheme's correctness: for a consistent key pair
/// — the only kind `is_keypair` admits — the signature it produces is
/// accepted by `Verifier::verify` under the key pair's public half,
/// bytes 32..64 of the serialization.
#[verifier::external_body]
pub(crate) fn ed25519_sign_bytes(keypair: &Vec<u8>, msg: &Vec<u8>) -> (r: Vec<u8>)
    requires
        is_keypair(keypair@),
    ensures
        r@ == ed_sign(keypair@, msg@),
        r@.len() == 64,
        ed_verify(keypair@.subrange(32, 64), msg@, r@),
{
    let kp = ed25519_dalek::Keypair::from_bytes(keypair.as_slice()).unwrap();
    kp.sign(msg.as_slice()).to_bytes().to_vec()
}

/// Relies on `ed25519_dalek::PublicKey::from_bytes`,
/// `ed25519::Signature::from_bytes` and `Verifier::verify`: acceptance is
/// a deterministic function of the three byte strings, and bytes that do
/// not parse as a public key or a signature are rejected.
#[verifier::external_body]
pub(crate) fn ed25519_verify_bytes(public_key: &Vec<u8>, msg: &Vec<u8>, sig: &Vec<u8>) -> (r: bool)
    ensures
        r == ed_verify(public_key@, msg@, sig@),
{
    let pk = match ed25519_dalek::PublicKey::from_bytes(public_key.as_slice()) {
        Ok(pk) => pk,
        Err(_) => return false,
    };
    let s = match ed25519_dalek::Signature::from_bytes(sig.as_slice()) {
        Ok(s) => s,
        Err(_) => return false,
    };
    pk.verify(msg.as_slice(), &s).is_ok()
}

} // verus!
