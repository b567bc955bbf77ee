//! What a plan requires, and the signing that meets it.

use crate::error::{SigningError, Unsupported};
use crate::images::ImageSet;
use crate::keymap::{resolution, resolve, DescriptorSecretKey, KeyId, KeyMap, PlanKey, Resolution};
use crate::material::{SatisfactionMaterial, Signature, SignatureView};
use crate::secp::{
    opt_bytes, schnorr_signature, sign_schnorr_no_aux_rand, tap_tweak, tap_tweaked_secret,
};
use crate::sighash::{
    taproot_key_spend_signature_hash, taproot_script_spend_signature_hash, EcdsaSighashType,
    TapSighashType,
};
use bitcoin::sighash::{Prevouts, SighashCache};
use bitcoin::{Transaction, TxOut};
use vstd::prelude::*;

verus! {

/// Signatures and hash pre-images that must be provided to complete the plan.
#[derive(Clone, Debug)]
pub struct Requirements<Ak> {
    /// Required signatures.
    pub signatures: RequiredSignatures<Ak>,
    /// Required sha256 pre-images.
    pub sha256_images: ImageSet<32>,
    /// Required hash160 pre-images.
    pub hash160_images: ImageSet<20>,
    /// Required hash256 pre-images.
    pub hash256_images: ImageSet<32>,
    /// Required ripemd160 pre-images.
    pub ripemd160_images: ImageSet<20>,
}

/// The signatures required to complete the plan.
#[derive(Clone, Debug)]
pub enum RequiredSignatures<Ak> {
    /// Legacy ECDSA signatures are required.
    Legacy { keys: Vec<PlanKey<Ak>> },
    /// Segwitv0 ECDSA signatures are required.
    Segwitv0 { keys: Vec<PlanKey<Ak>> },
    /// A taproot key spend signature is required.
    TapKey {
        /// The internal key.
        plan_key: PlanKey<Ak>,
        /// The merkle root of the taproot output.
        merkle_root: Option<[u8; 32]>,
    },
    /// Taproot script path signatures are required.
    TapScript {
        /// The leaf hash of the script being used.
        leaf_hash: [u8; 32],
        /// The keys in the script that require signatures.
        plan_keys: Vec<PlanKey<Ak>>,
    },
}

impl<Ak> Default for RequiredSignatures<Ak> {
    fn default() -> (r: Self)
        ensures
            r matches RequiredSignatures::Legacy { keys } && keys@.len() == 0,
    {
        RequiredSignatures::Legacy { keys: Vec::new() }
    }
}

impl<Ak> Default for Requirements<Ak> {
    fn default() -> (r: Self)
        ensures
            r.signatures matches RequiredSignatures::Legacy { keys } && keys@.len() == 0,
            r.images() == Set::<Seq<u8>>::empty(),
    {
        Requirements {
            signatures: RequiredSignatures::default(),
            sha256_images: ImageSet::new(),
            hash160_images: ImageSet::new(),
            hash256_images: ImageSet::new(),
            ripemd160_images: ImageSet::new(),
        }
    }
}

impl<Ak> Requirements<Ak> {
    /// All the hash images that the plan requires a pre-image of.
    pub open spec fn images(&self) -> Set<Seq<u8>> {
        self.sha256_images@.union(self.hash160_images@).union(self.hash256_images@).union(
            self.ripemd160_images@,
        )
    }

    /// Whether any hash pre-images are required in the plan.
    pub fn requires_hash_preimages(&self) -> (r: bool)
        ensures
            r == !self.images().is_empty(),
    {
        let none = self.sha256_images.is_empty() && self.hash160_images.is_empty()
            && self.hash256_images.is_empty() && self.ripemd160_images.is_empty();
        proof {
            if none {
                assert(self.images() =~= Set::<Seq<u8>>::empty());
            } else {
                let part = if !self.sha256_images@.is_empty() {
                    self.sha256_images@
                } else if !self.hash160_images@.is_empty() {
                    self.hash160_images@
                } else if !self.hash256_images@.is_empty() {
                    self.hash256_images@
                } else {
                    self.ripemd160_images@
                };
                assert(!part.is_empty());
                let image = choose|image: Seq<u8>| part.contains(image);
                assert(self.images().contains(image));
            }
        }
        !none
    }
}

/// What a signing pass returns once the digest is known.
pub enum Outcome {
    /// The pass went through; the flag says whether it made a signature.
    Signed(bool),
    /// A key that the store holds could not be derived.
    DerivationFailed,
    /// The requirement or a key has a form that is not handled.
    Unsupported(Unsupported),
}

/// Whether a result says what an outcome says.
pub open spec fn reports(r: Result<bool, SigningError>, outcome: Outcome) -> bool {
    match outcome {
        Outcome::Signed(modified) => r matches Ok(flag) && flag == modified,
        Outcome::DerivationFailed => r matches Err(SigningError::DerivationError(_)),
        Outcome::Unsupported(form) => r matches Err(SigningError::UnsupportedKeyForm(found))
            && found == form,
    }
}

/// The signature of a taproot key-path spend: made with the tweaked key.
pub open spec fn key_spend_signature(
    secret: Seq<u8>,
    merkle_root: Option<Seq<u8>>,
    sighash: Seq<u8>,
    sighash_type: TapSighashType,
) -> SignatureView {
    SignatureView {
        signature: schnorr_signature(tap_tweaked_secret(secret, merkle_root)->0, sighash),
        sighash_type,
    }
}

/// The signature of a taproot script-path spend: made with the key as it is.
pub open spec fn script_spend_signature(
    secret: Seq<u8>,
    sighash: Seq<u8>,
    sighash_type: TapSighashType,
) -> SignatureView {
    SignatureView { signature: schnorr_signature(secret, sighash), sighash_type }
}

/// What signing with the keys of a script returns: the keys are taken in
/// order, the first one that the store holds but cannot resolve ends the pass
/// with its error, and otherwise the flag says whether any key was held.
pub open spec fn script_outcome(
    keys: Seq<PlanKey<KeyId>>,
    keymap: Map<KeyId, DescriptorSecretKey>,
    modified: bool,
) -> Outcome
    decreases keys.len(),
{
    if keys.len() == 0 {
        Outcome::Signed(modified)
    } else {
        match resolution(keymap, keys.first()) {
            Resolution::Absent => script_outcome(keys.drop_first(), keymap, modified),
            Resolution::Secret(_) => script_outcome(keys.drop_first(), keymap, true),
            Resolution::DerivationFailed => Outcome::DerivationFailed,
            Resolution::Unsupported => Outcome::Unsupported(Unsupported::MultiXPrv),
        }
    }
}

/// What signing with the keys of a script leaves in the material: the keys
/// are taken in order, each one that resolves records its signature under its
/// descriptor key, and the first one that the store holds but cannot resolve
/// ends the pass.
pub open spec fn script_signed(
    keys: Seq<PlanKey<KeyId>>,
    keymap: Map<KeyId, DescriptorSecretKey>,
    sighash: Seq<u8>,
    sighash_type: TapSighashType,
    material: Map<KeyId, SignatureView>,
) -> Map<KeyId, SignatureView>
    decreases keys.len(),
{
    if keys.len() == 0 {
        material
    } else {
        match resolution(keymap, keys.first()) {
            Resolution::Absent => script_signed(
                keys.drop_first(),
                keymap,
                sighash,
                sighash_type,
                material,
            ),
            Resolution::Secret(secret) => script_signed(
                keys.drop_first(),
                keymap,
                sighash,
                sighash_type,
                material.insert(
                    keys.first().descriptor_key,
                    script_spend_signature(secret, sighash, sighash_type),
                ),
            ),
            _ => material,
        }
    }
}

impl RequiredSignatures<KeyId> {
    /// Whether the requirement is for one of the two taproot spends.
    pub open spec fn is_taproot(self) -> bool {
        self is TapKey || self is TapScript
    }

    /// The keys that the requirement asks a signature from, in order.
    pub open spec fn keys(self) -> Seq<PlanKey<KeyId>> {
        match self {
            RequiredSignatures::Legacy { keys } => keys@,
            RequiredSignatures::Segwitv0 { keys } => keys@,
            RequiredSignatures::TapKey { plan_key, .. } => seq![plan_key],
            RequiredSignatures::TapScript { plan_keys, .. } => plan_keys@,
        }
    }

    /// Whether the taproot tweak can be applied to the key that a key-path
    /// spend resolves to. It can for every key but a negligible share.
    pub open spec fn tweak_applies(self, keymap: Map<KeyId, DescriptorSecretKey>) -> bool {
        self matches RequiredSignatures::TapKey { plan_key, merkle_root } ==> (resolution(
            keymap,
            plan_key,
        ) matches Resolution::Secret(secret) ==> tap_tweaked_secret(
            secret,
            opt_bytes(merkle_root),
        ) is Some)
    }

    /// What signing returns once the digest is known.
    pub open spec fn outcome(self, keymap: Map<KeyId, DescriptorSecretKey>) -> Outcome {
        match self {
            RequiredSignatures::Legacy { .. } => Outcome::Unsupported(Unsupported::Legacy),
            RequiredSignatures::Segwitv0 { .. } => Outcome::Unsupported(Unsupported::Segwitv0),
            RequiredSignatures::TapKey { plan_key, .. } => match resolution(keymap, plan_key) {
                Resolution::Absent => Outcome::Signed(false),
                Resolution::Secret(_) => Outcome::Signed(true),
                Resolution::DerivationFailed => Outcome::DerivationFailed,
                Resolution::Unsupported => Outcome::Unsupported(Unsupported::MultiXPrv),
            },
            RequiredSignatures::TapScript { plan_keys, .. } => script_outcome(
                plan_keys@,
                keymap,
                false,
            ),
        }
    }

    /// What signing the digest `sighash` leaves in the material.
    pub open spec fn signed(
        self,
        keymap: Map<KeyId, DescriptorSecretKey>,
        sighash: Seq<u8>,
        sighash_type: TapSighashType,
        material: Map<KeyId, SignatureView>,
    ) -> Map<KeyId, SignatureView> {
        match self {
            RequiredSignatures::TapKey { plan_key, merkle_root } => match resolution(
                keymap,
                plan_key,
            ) {
                Resolution::Secret(secret) => material.insert(
                    plan_key.descriptor_key,
                    key_spend_signature(secret, opt_bytes(merkle_root), sighash, sighash_type),
                ),
                _ => material,
            },
            RequiredSignatures::TapScript { plan_keys, .. } => script_signed(
                plan_keys@,
                keymap,
                sighash,
                sighash_type,
                material,
            ),
            _ => material,
        }
    }

    /// What holds after a signing attempt, whatever digest the cache gave:
    /// either the digest failed and nothing was recorded, or the result and
    /// the material are those of signing some 32-byte digest.
    pub open spec fn attempted(
        self,
        keymap: Map<KeyId, DescriptorSecretKey>,
        sighash_type: TapSighashType,
        before: Map<KeyId, SignatureView>,
        after: Map<KeyId, SignatureView>,
        r: Result<bool, SigningError>,
    ) -> bool {
        if self.is_taproot() {
            ||| r matches Err(SigningError::SigHashTaproot(_)) && after == before
            ||| reports(r, self.outcome(keymap)) && exists|sighash: Seq<u8>|
                sighash.len() == 32 && #[trigger] self.signed(
                    keymap,
                    sighash,
                    sighash_type,
                    before,
                ) == after
        } else {
            reports(r, self.outcome(keymap)) && after == before
        }
    }

    /// Signs a digest with the keys that the key store holds, and records the
    /// signatures.
    ///
    /// A key-path spend signs with the tweaked key; a script-path spend signs
    /// with each of its keys as it is, in the order given. A key that the
    /// store does not hold is passed over. Legacy and witness-v0 requirements
    /// are refused.
    pub fn sign_sighash_with_keymap(
        &self,
        sighash: &[u8; 32],
        sighash_type: TapSighashType,
        keymap: &KeyMap,
        auth_data: &mut SatisfactionMaterial,
    ) -> (r: Result<bool, SigningError>)
        requires
            self.tweak_applies(keymap@),
        ensures
            reports(r, self.outcome(keymap@)),
            final(auth_data)@ == self.signed(keymap@, sighash@, sighash_type, old(auth_data)@),
    {
        match self {
            RequiredSignatures::Legacy { .. } => Err(
                SigningError::UnsupportedKeyForm(Unsupported::Legacy),
            ),
            RequiredSignatures::Segwitv0 { .. } => Err(
                SigningError::UnsupportedKeyForm(Unsupported::Segwitv0),
            ),
            RequiredSignatures::TapKey { plan_key, merkle_root } => {
                match resolve(keymap, plan_key) {
                    Err(e) => Err(e),
                    Ok(None) => Ok(false),
                    Ok(Some(secret)) => match tap_tweak(&secret, *merkle_root) {
                        None => vstd::pervasive::unreached(),
                        Some(tweaked) => {
                            let signature = sign_schnorr_no_aux_rand(&tweaked, sighash);
                            auth_data.insert_schnorr_sig(
                                plan_key.descriptor_key,
                                Signature { signature, sighash_type },
                            );
                            Ok(true)
                        },
                    },
                }
            },
            RequiredSignatures::TapScript { plan_keys, .. } => {
                let ghost before = auth_data@;
                let ghost keys = plan_keys@;
                let mut modified = false;
                let mut i: usize = 0;
                proof {
                    assert(keys.skip(0) =~= keys);
                }
                while i < plan_keys.len()
                    invariant
                        i <= plan_keys.len(),
                        keys == plan_keys@,
                        before == old(auth_data)@,
                        self.outcome(keymap@) == script_outcome(keys, keymap@, false),
                        self.signed(keymap@, sighash@, sighash_type, before) == script_signed(
                            keys,
                            keymap@,
                            sighash@,
                            sighash_type,
                            before,
                        ),
                        script_outcome(keys, keymap@, false) == script_outcome(
                            keys.skip(i as int),
                            keymap@,
                            modified,
                        ),
                        script_signed(keys, keymap@, sighash@, sighash_type, before)
                            == script_signed(
                            keys.skip(i as int),
                            keymap@,
                            sighash@,
                            sighash_type,
                            auth_data@,
                        ),
                    decreases plan_keys.len() - i,
                {
                    let plan_key = &plan_keys[i];
                    proof {
                        assert(keys.skip(i as int).first() == keys[i as int]);
                        assert(keys.skip(i as int).drop_first() =~= keys.skip(i + 1));
                    }
                    match resolve(keymap, plan_key) {
                        Err(e) => {
                            return Err(e);
                        },
                        Ok(None) => {},
                        Ok(Some(secret)) => {
                            let signature = sign_schnorr_no_aux_rand(&secret, sighash);
                            auth_data.insert_schnorr_sig(
                                plan_key.descriptor_key,
                                Signature { signature, sighash_type },
                            );
                            modified = true;
                        },
                    }
                    i += 1;
                }
                proof {
                    assert(keys.skip(i as int).len() == 0);
                }
                Ok(modified)
            },
        }
    }

    /// Finds out whether the taproot tweak can be applied, which `sign_with_keymap`
    /// asks of its caller.
    pub fn tweak_can_apply(&self, keymap: &KeyMap) -> (r: bool)
        ensures
            r == self.tweak_applies(keymap@),
    {
        match self {
            RequiredSignatures::TapKey { plan_key, merkle_root } => match resolve(
                keymap,
                plan_key,
            ) {
                Ok(Some(secret)) => tap_tweak(&secret, *merkle_root).is_some(),
                _ => true,
            },
            _ => true,
        }
    }

    /// Signs as `sign_with_keymap` does, for every requirement and key store:
    /// where the taproot tweak cannot be applied it returns `None` and
    /// records nothing.
    pub fn try_sign_with_keymap(
        &self,
        input_index: usize,
        keymap: &KeyMap,
        prevouts: &Prevouts<'_, TxOut>,
        schnorr_sighashty: Option<TapSighashType>,
        ecdsa_sighashty: Option<EcdsaSighashType>,
        sighash_cache: &mut SighashCache<Transaction>,
        auth_data: &mut SatisfactionMaterial,
    ) -> (r: Option<Result<bool, SigningError>>)
        ensures
            r is Some <==> self.tweak_applies(keymap@),
            match r {
                Some(result) => self.attempted(
                    keymap@,
                    schnorr_sighashty.unwrap_or(TapSighashType::Default),
                    old(auth_data)@,
                    final(auth_data)@,
                    result,
                ),
                None => final(auth_data)@ == old(auth_data)@,
            },
    {
        if self.tweak_can_apply(keymap) {
            Some(
                self.sign_with_keymap(
                    input_index,
                    keymap,
                    prevouts,
                    schnorr_sighashty,
                    ecdsa_sighashty,
                    sighash_cache,
                    auth_data,
                ),
            )
        } else {
            None
        }
    }

    /// Signs the input `input_index` of the cache's transaction with the keys
    /// that the key store holds, and records the signatures.
    ///
    /// The digest is the taproot key-spend or script-spend digest for the
    /// mode given, or for the default mode where none is given. Where it
    /// cannot be computed its error is returned and nothing is recorded.
    /// Legacy and witness-v0 requirements are refused before any digest is
    /// asked for.
    pub fn sign_with_keymap(
        &self,
        input_index: usize,
        keymap: &KeyMap,
        prevouts: &Prevouts<'_, TxOut>,
        schnorr_sighashty: Option<TapSighashType>,
        _ecdsa_sighashty: Option<EcdsaSighashType>,
        sighash_cache: &mut SighashCache<Transaction>,
        auth_data: &mut SatisfactionMaterial,
    ) -> (r: Result<bool, SigningError>)
        requires
            self.tweak_applies(keymap@),
        ensures
            self.attempted(
                keymap@,
                schnorr_sighashty.unwrap_or(TapSighashType::Default),
                old(auth_data)@,
                final(auth_data)@,
                r,
            ),
    {
        let sighash_type = schnorr_sighashty.unwrap_or(TapSighashType::Default);
        let digest = match self {
            RequiredSignatures::Legacy { .. } => {
                return Err(SigningError::UnsupportedKeyForm(Unsupported::Legacy));
            },
            RequiredSignatures::Segwitv0 { .. } => {
                return Err(SigningError::UnsupportedKeyForm(Unsupported::Segwitv0));
            },
            RequiredSignatures::TapKey { .. } => taproot_key_spend_signature_hash(
                sighash_cache,
                input_index,
                prevouts,
                sighash_type.to_consensus_u8(),
            ),
            RequiredSignatures::TapScript { leaf_hash, .. } => taproot_script_spend_signature_hash(
                sighash_cache,
                input_index,
                prevouts,
                leaf_hash,
                sighash_type.to_consensus_u8(),
            ),
        };
        match digest {
            Err(e) => Err(SigningError::SigHashTaproot(e)),
            Ok(sighash) => {
                let r = self.sign_sighash_with_keymap(&sighash, sighash_type, keymap, auth_data);
                assert(self.signed(keymap@, sighash@, sighash_type, old(auth_data)@) == auth_data@);
                r
            },
        }
    }
}

} // verus!
