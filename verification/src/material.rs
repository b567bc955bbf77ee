//! What a signing pass has produced so far.

use crate::keymap::KeyId;
use crate::sighash::TapSighashType;
use std::collections::BTreeMap;
use vstd::prelude::*;

verus! {

/// A taproot signature: the BIP340 signature and the mode it was made for.
#[derive(Clone, Copy, Debug)]
pub struct Signature {
    /// The 64 bytes of the schnorr signature.
    pub signature: [u8; 64],
    /// The signature-hash mode.
    pub sighash_type: TapSighashType,
}

/// A taproot signature as a value of specifications.
pub struct SignatureView {
    pub signature: Seq<u8>,
    pub sighash_type: TapSighashType,
}

impl View for Signature {
    type V = SignatureView;

    open spec fn view(&self) -> SignatureView {
        SignatureView { signature: self.signature@, sighash_type: self.sighash_type }
    }
}

/// The signatures made for one transaction, each under the descriptor key
/// that it satisfies. A later signature under the same key replaces the
/// earlier one; nothing is ever removed.
#[derive(Clone, Debug)]
pub struct SatisfactionMaterial {
    /// Schnorr signatures under their keys.
    pub schnorr_sigs: BTreeMap<KeyId, Signature>,
}

/// The signatures of a map, each as a value of specifications.
pub open spec fn signature_views(sigs: Map<KeyId, Signature>) -> Map<KeyId, SignatureView> {
    sigs.map_values(|sig: Signature| sig@)
}

impl View for SatisfactionMaterial {
    type V = Map<KeyId, SignatureView>;

    open spec fn view(&self) -> Map<KeyId, SignatureView> {
        signature_views(self.schnorr_sigs@)
    }
}

impl SatisfactionMaterial {
    /// Material that holds no signature.
    pub fn new() -> (r: Self)
        ensures
            r@ == Map::<KeyId, SignatureView>::empty(),
    {
        let r = SatisfactionMaterial { schnorr_sigs: BTreeMap::new() };
        assert(r@ =~= Map::<KeyId, SignatureView>::empty());
        r
    }

    /// Records a signature under a key, in place of what the key had.
    pub fn insert_schnorr_sig(&mut self, key: KeyId, sig: Signature)
        ensures
            final(self)@ == old(self)@.insert(key, sig@),
    {
        self.schnorr_sigs.insert(key, sig);
        assert(final(self)@ =~= old(self)@.insert(key, sig@));
    }
}

impl Default for SatisfactionMaterial {
    fn default() -> (r: Self)
        ensures
            r@ == Map::<KeyId, SignatureView>::empty(),
    {
        SatisfactionMaterial::new()
    }
}

} // verus!
