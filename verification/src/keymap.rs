//! The key store and how a key of a plan is found in it.

use crate::bip32::{derivable, derive_priv, derived_private_key, Xpriv};
use crate::error::{SigningError, Unsupported};
use crate::secp::SecretKey;
use std::collections::BTreeMap;
use vstd::prelude::*;

verus! {

/// The identity of a key. It says which key is meant and nothing about the
/// key itself.
pub type KeyId = u64;

/// The secret material that a key store holds for one key.
#[derive(Clone, Copy)]
pub enum DescriptorSecretKey {
    /// A single private key.
    Single(SecretKey),
    /// An extended private key, from which the signing key is derived.
    XPrv(Xpriv),
    /// Extended private keys for several derivation paths at once.
    MultiXPrv,
}

/// The key store: secret material by the identity under which it is looked up.
pub type KeyMap = BTreeMap<KeyId, DescriptorSecretKey>;

/// One key that a plan needs a signature from.
#[derive(Clone, Debug)]
pub struct PlanKey<Ak> {
    /// The key to look up in the key store.
    pub asset_key: Ak,
    /// The path from the stored key to the key that signs; empty for a key
    /// that is stored as it signs.
    pub derivation_hint: Vec<u32>,
    /// The key of the descriptor that the signature is recorded under.
    pub descriptor_key: KeyId,
}

/// What looking up a key gives.
pub enum Resolution {
    /// The store does not hold the key.
    Absent,
    /// The secret key that signs.
    Secret(Seq<u8>),
    /// The store holds a root from which the path cannot be derived.
    DerivationFailed,
    /// The store holds the key in a form that is not handled.
    Unsupported,
}

/// Looks a key up: a single key is taken as it is, whatever the hint says; an
/// extended key is derived along the hint.
pub open spec fn resolution(keymap: Map<KeyId, DescriptorSecretKey>, key: PlanKey<KeyId>)
    -> Resolution {
    if !keymap.contains_key(key.asset_key) {
        Resolution::Absent
    } else {
        match keymap[key.asset_key] {
            DescriptorSecretKey::Single(secret) => Resolution::Secret(secret@),
            DescriptorSecretKey::XPrv(root) => if derivable(root.depth(), key.derivation_hint@) {
                Resolution::Secret(derived_private_key(root@, key.derivation_hint@))
            } else {
                Resolution::DerivationFailed
            },
            DescriptorSecretKey::MultiXPrv => Resolution::Unsupported,
        }
    }
}

/// Whether a result of `resolve` says what a resolution says.
pub open spec fn resolves_to(r: Result<Option<SecretKey>, SigningError>, resolution: Resolution)
    -> bool {
    match resolution {
        Resolution::Absent => r matches Ok(None),
        Resolution::Secret(secret) => r matches Ok(Some(key)) && key@ == secret,
        Resolution::DerivationFailed => r matches Err(SigningError::DerivationError(_)),
        Resolution::Unsupported => r matches Err(
            SigningError::UnsupportedKeyForm(Unsupported::MultiXPrv),
        ),
    }
}

/// Finds the secret key for a key of a plan. A key that the store does not
/// hold is no error: it comes back as `Ok(None)`.
pub fn resolve(keymap: &KeyMap, plan_key: &PlanKey<KeyId>) -> (r: Result<
    Option<SecretKey>,
    SigningError,
>)
    ensures
        resolves_to(r, resolution(keymap@, *plan_key)),
{
    match keymap.get(&plan_key.asset_key) {
        None => Ok(None),
        Some(DescriptorSecretKey::Single(secret)) => Ok(Some(*secret)),
        Some(DescriptorSecretKey::XPrv(root)) => match derive_priv(
            root,
            &plan_key.derivation_hint,
        ) {
            Ok(key) => Ok(Some(key)),
            Err(e) => Err(SigningError::DerivationError(e)),
        },
        Some(DescriptorSecretKey::MultiXPrv) => Err(
            SigningError::UnsupportedKeyForm(Unsupported::MultiXPrv),
        ),
    }
}

} // verus!
