//! Extended private keys and hierarchical derivation.

use crate::secp::{is_secret_key, SecretKey};
use bitcoin::bip32::{ChildNumber, Error};
use bitcoin::key::Secp256k1;
use vstd::prelude::*;

verus! {

#[verifier::external_type_specification]
#[verifier::external_body]
pub struct ExError(Error);

/// The version bytes of an extended private key on mainnet.
pub open spec fn mainnet_version() -> Seq<u8> {
    seq![0x04u8, 0x88u8, 0xADu8, 0xE4u8]
}

/// The version bytes of an extended private key on the test networks.
pub open spec fn testnet_version() -> Seq<u8> {
    seq![0x04u8, 0x35u8, 0x83u8, 0x94u8]
}

/// The 78-byte serialization of an extended private key: version, depth,
/// parent fingerprint, child number, chain code, a pad byte and the key.
pub open spec fn is_extended_private_key(bytes: Seq<u8>) -> bool {
    &&& bytes.len() == 78
    &&& (bytes.subrange(0, 4) == mainnet_version() || bytes.subrange(0, 4) == testnet_version())
    &&& is_secret_key(bytes.subrange(46, 78))
}

/// The private key reached from the extended key `root` by the child numbers
/// of `path`, in order. A child number with its top bit set is hardened.
pub uninterp spec fn derived_private_key(root: Seq<u8>, path: Seq<u32>) -> Seq<u8>;

/// How many steps can still be derived below a key of the given depth.
pub open spec fn derivable(depth: u8, path: Seq<u32>) -> bool {
    depth + path.len() <= 255
}

/// An extended private key, held in its 78-byte serialization.
#[derive(Clone, Copy)]
pub struct Xpriv {
    pub(crate) bytes: [u8; 78],
}

impl View for Xpriv {
    type V = Seq<u8>;

    closed spec fn view(&self) -> Seq<u8> {
        self.bytes@
    }
}

impl Xpriv {
    #[verifier::type_invariant]
    pub closed spec fn well_formed(self) -> bool {
        is_extended_private_key(self.bytes@)
    }

    /// How many derivations the key is away from its master key.
    pub open spec fn depth(self) -> u8 {
        self@[4]
    }

    /// Accepts exactly the serializations of extended private keys.
    pub fn decode(bytes: [u8; 78]) -> (r: Option<Xpriv>)
        ensures
            r is Some <==> is_extended_private_key(bytes@),
            r matches Some(key) ==> key@ == bytes@ && key.depth() == bytes@[4],
    {
        if xpriv_decodes(&bytes) {
            Some(Xpriv { bytes })
        } else {
            None
        }
    }

    /// The key's serialization.
    pub fn encode(&self) -> (bytes: [u8; 78])
        ensures
            bytes@ == self@,
            is_extended_private_key(bytes@),
            bytes@[4] == self.depth(),
    {
        proof {
            use_type_invariant(self);
        }
        self.bytes
    }
}

/// `bip32::Xpriv::decode`, asked only whether it accepts. It accepts 78 bytes
/// that start with one of the two private version prefixes and whose last 32
/// bytes are a secret key.
#[verifier::external_body]
fn xpriv_decodes(bytes: &[u8; 78]) -> (ok: bool)
    ensures
        ok == is_extended_private_key(bytes@),
{
    bitcoin::bip32::Xpriv::decode(bytes).is_ok()
}

/// `bip32::Xpriv::derive_priv`, of which the private key is kept. Each step
/// raises the depth by one, and the call fails exactly where the depth would
/// pass 255. The derived key is a function of the root and the path alone.
/// Within a step the outside code gives up on a hash that is no scalar and on
/// a sum that is no key; its source calls both statistically impossible.
#[verifier::external_body]
pub(crate) fn derive_priv(root: &Xpriv, path: &Vec<u32>) -> (r: Result<SecretKey, Error>)
    ensures
        match r {
            Ok(key) => derivable(root.depth(), path@) && key@ == derived_private_key(
                root@,
                path@,
            ),
            Err(_) => !derivable(root.depth(), path@),
        },
{
    let key = bitcoin::bip32::Xpriv::decode(&root.bytes).expect("an extended private key");
    let path: Vec<ChildNumber> = path.iter().map(|n| ChildNumber::from(*n)).collect();
    match key.derive_priv(&Secp256k1::signing_only(), &path) {
        Ok(child) => Ok(SecretKey { bytes: child.private_key.secret_bytes() }),
        Err(e) => Err(e),
    }
}

} // verus!
