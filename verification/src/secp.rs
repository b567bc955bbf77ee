//! Secret keys on the secp256k1 curve and the curve operations that taproot
//! signing needs.
//!
//! The arithmetic itself is done by the `secp256k1` bindings. Each operation
//! is reached through one small function whose contract is taken on trust;
//! everything stated about a result is stated over byte strings.

use bitcoin::key::{Keypair, Secp256k1, XOnlyPublicKey};
use bitcoin::secp256k1::{Message, PublicKey, Scalar};
use bitcoin::taproot::TapTweakHash;
use vstd::prelude::*;

verus! {

/// The number that a byte string denotes when read most significant byte first.
pub open spec fn be_value(bytes: Seq<u8>) -> nat
    decreases bytes.len(),
{
    if bytes.len() == 0 {
        0
    } else {
        be_value(bytes.drop_last()) * 256 + bytes.last() as nat
    }
}

/// The order of the secp256k1 group.
pub open spec fn curve_order() -> nat {
    0xFFFFFFFF_FFFFFFFF_FFFFFFFF_FFFFFFFE_BAAEDCE6_AF48A03B_BFD25E8C_D0364141nat
}

/// A byte string is a secret key when it is 32 bytes long and denotes a
/// non-zero number below the group order.
pub open spec fn is_secret_key(bytes: Seq<u8>) -> bool {
    bytes.len() == 32 && 0 < be_value(bytes) < curve_order()
}

/// The x-only public key (32 bytes) that belongs to a secret key.
pub uninterp spec fn x_only_public_key(secret: Seq<u8>) -> Seq<u8>;

/// The taproot tweak hash that commits an x-only internal key to an optional
/// merkle root; `None` where `internal_key` is not an x-only public key.
pub uninterp spec fn tap_tweak_hash(internal_key: Seq<u8>, merkle_root: Option<Seq<u8>>) -> Option<
    Seq<u8>,
>;

/// The secret key that results from adding `tweak` to `secret` under the
/// x-only convention (the key is negated first when its public key has odd y);
/// `None` where `tweak` is not below the group order or the sum is no key.
pub uninterp spec fn xonly_tweaked_secret(secret: Seq<u8>, tweak: Seq<u8>) -> Option<Seq<u8>>;

/// The 64-byte BIP340 signature of `digest` under `secret`, made without
/// auxiliary randomness.
pub uninterp spec fn schnorr_signature(secret: Seq<u8>, digest: Seq<u8>) -> Seq<u8>;

/// The view of an optional 32-byte value.
pub open spec fn opt_bytes(value: Option<[u8; 32]>) -> Option<Seq<u8>> {
    match value {
        Some(bytes) => Some(bytes@),
        None => None,
    }
}

/// A secret key: 32 bytes that denote a valid scalar of the curve.
#[derive(Clone, Copy)]
pub struct SecretKey {
    pub(crate) bytes: [u8; 32],
}

impl View for SecretKey {
    type V = Seq<u8>;

    closed spec fn view(&self) -> Seq<u8> {
        self.bytes@
    }
}

impl SecretKey {
    #[verifier::type_invariant]
    pub closed spec fn well_formed(self) -> bool {
        is_secret_key(self.bytes@)
    }

    /// Accepts exactly the byte strings that are secret keys.
    pub fn from_byte_array(bytes: [u8; 32]) -> (r: Option<SecretKey>)
        ensures
            r is Some <==> is_secret_key(bytes@),
            r matches Some(key) ==> key@ == bytes@,
    {
        if seckey_verify(&bytes) {
            Some(SecretKey { bytes })
        } else {
            None
        }
    }

    /// The key's 32 bytes.
    pub fn secret_bytes(&self) -> (bytes: [u8; 32])
        ensures
            bytes@ == self@,
            is_secret_key(bytes@),
    {
        proof {
            use_type_invariant(self);
        }
        self.bytes
    }
}

/// The secret key that signs a taproot key-path spend: `secret`, tweaked by
/// the hash that commits its own x-only public key to the merkle root.
/// `None` where the tweak cannot be applied.
pub open spec fn tap_tweaked_secret(secret: Seq<u8>, merkle_root: Option<Seq<u8>>) -> Option<
    Seq<u8>,
> {
    match tap_tweak_hash(x_only_public_key(secret), merkle_root) {
        Some(tweak) => xonly_tweaked_secret(secret, tweak),
        None => None,
    }
}

/// Tweaks a key for a taproot key-path spend.
pub fn tap_tweak(key: &SecretKey, merkle_root: Option<[u8; 32]>) -> (r: Option<SecretKey>)
    ensures
        match r {
            Some(tweaked) => tap_tweaked_secret(key@, opt_bytes(merkle_root)) == Some(tweaked@),
            None => tap_tweaked_secret(key@, opt_bytes(merkle_root)) is None,
        },
{
    let internal_key = x_only_public_key_of(key);
    match tap_tweak_hash_of(&internal_key, merkle_root) {
        Some(tweak) => add_xonly_tweak(key, &tweak),
        None => None,
    }
}

/// `secp256k1::SecretKey::from_slice`, asked only whether it accepts. It
/// accepts 32 bytes that are not zero and are below the group order, read most
/// significant byte first.
#[verifier::external_body]
fn seckey_verify(bytes: &[u8; 32]) -> (ok: bool)
    ensures
        ok == is_secret_key(bytes@),
{
    bitcoin::secp256k1::SecretKey::from_slice(bytes).is_ok()
}

/// `PublicKey::from_secret_key` followed by `XOnlyPublicKey::from`: the public
/// key of `key`, reduced to its x coordinate. The result is a function of the
/// key alone. Both succeed on every secret key, which `key` is by its type.
#[verifier::external_body]
pub(crate) fn x_only_public_key_of(key: &SecretKey) -> (r: [u8; 32])
    ensures
        r@ == x_only_public_key(key@),
{
    let secp = Secp256k1::signing_only();
    let secret = bitcoin::secp256k1::SecretKey::from_slice(&key.bytes).expect("a secret key");
    XOnlyPublicKey::from(PublicKey::from_secret_key(&secp, &secret)).serialize()
}

/// `TapTweakHash::from_key_and_tweak`: the tagged hash of the internal key
/// and, where there is one, the merkle root. It comes out as `None` only where
/// `XOnlyPublicKey::from_slice` refuses `internal_key`.
#[verifier::external_body]
pub(crate) fn tap_tweak_hash_of(internal_key: &[u8; 32], merkle_root: Option<[u8; 32]>) -> (r:
    Option<[u8; 32]>)
    ensures
        opt_bytes(r) == tap_tweak_hash(internal_key@, opt_bytes(merkle_root)),
{
    let key = XOnlyPublicKey::from_slice(internal_key).ok()?;
    let root = merkle_root.map(|bytes| bitcoin::hashes::Hash::from_byte_array(bytes));
    Some(bitcoin::hashes::Hash::to_byte_array(TapTweakHash::from_key_and_tweak(key, root)))
}

/// `Keypair::add_xonly_tweak`, with the tweak read by `Scalar::from_be_bytes`.
/// `None` where either of the two refuses; otherwise the secret key of the
/// tweaked pair, which is a secret key again and a function of the key and
/// the tweak alone.
#[verifier::external_body]
pub(crate) fn add_xonly_tweak(key: &SecretKey, tweak: &[u8; 32]) -> (r: Option<SecretKey>)
    ensures
        match r {
            Some(tweaked) => xonly_tweaked_secret(key@, tweak@) == Some(tweaked@),
            None => xonly_tweaked_secret(key@, tweak@) is None,
        },
{
    let secp = Secp256k1::new();
    let scalar = Scalar::from_be_bytes(*tweak).ok()?;
    let pair = Keypair::from_seckey_slice(&secp, &key.bytes).expect("a secret key");
    let tweaked = pair.add_xonly_tweak(&secp, &scalar).ok()?;
    Some(SecretKey { bytes: tweaked.secret_bytes() })
}

/// `Secp256k1::sign_schnorr_no_aux_rand` on `Message::from_digest(digest)`:
/// with no auxiliary randomness the signature is a function of the key and the
/// digest alone. The call succeeds on every key pair, and a secret key, which
/// `key` is by its type, always makes one.
#[verifier::external_body]
pub(crate) fn sign_schnorr_no_aux_rand(key: &SecretKey, digest: &[u8; 32]) -> (sig: [u8; 64])
    ensures
        sig@ == schnorr_signature(key@, digest@),
{
    let secp = Secp256k1::signing_only();
    let pair = Keypair::from_seckey_slice(&secp, &key.bytes).expect("a secret key");
    secp.sign_schnorr_no_aux_rand(&Message::from_digest(*digest), &pair).serialize()
}

} // verus!
