//! Laws of signing, proved from the contracts of the functions they speak of.

use crate::bip32::Xpriv;
use crate::error::SigningError;
use crate::keymap::{resolution, DescriptorSecretKey, KeyId, PlanKey, Resolution};
use crate::material::SignatureView;
use crate::requirements::{
    script_outcome, script_signed, script_spend_signature, Outcome, RequiredSignatures,
};
use crate::secp::{
    opt_bytes, schnorr_signature, tap_tweak_hash, tap_tweaked_secret, x_only_public_key,
    xonly_tweaked_secret,
};
use crate::sighash::TapSighashType;
use vstd::prelude::*;

verus! {

proof fn lemma_script_nothing_held(
    keys: Seq<PlanKey<KeyId>>,
    keymap: Map<KeyId, DescriptorSecretKey>,
    sighash: Seq<u8>,
    sighash_type: TapSighashType,
    material: Map<KeyId, SignatureView>,
    modified: bool,
)
    requires
        forall|i: int| 0 <= i < keys.len() ==> !keymap.contains_key((#[trigger] keys[i]).asset_key),
    ensures
        script_outcome(keys, keymap, modified) == Outcome::Signed(modified),
        script_signed(keys, keymap, sighash, sighash_type, material) == material,
    decreases keys.len(),
{
    if keys.len() > 0 {
        let rest = keys.drop_first();
        assert(keys.first() == keys[0]);
        assert forall|i: int| 0 <= i < rest.len() implies !keymap.contains_key(
            (#[trigger] rest[i]).asset_key,
        ) by {
            assert(rest[i] == keys[i + 1]);
        }
        lemma_script_nothing_held(rest, keymap, sighash, sighash_type, material, modified);
    }
}

/// Where the key store holds none of a requirement's keys, a signing attempt
/// records nothing, and for a taproot requirement it reports that no
/// signature was made, unless the digest could not be computed.
pub proof fn lemma_nothing_held_nothing_signed(
    req: RequiredSignatures<KeyId>,
    keymap: Map<KeyId, DescriptorSecretKey>,
    sighash_type: TapSighashType,
    before: Map<KeyId, SignatureView>,
    after: Map<KeyId, SignatureView>,
    r: Result<bool, SigningError>,
)
    requires
        forall|i: int|
            0 <= i < req.keys().len() ==> !keymap.contains_key((#[trigger] req.keys()[i]).asset_key),
        req.attempted(keymap, sighash_type, before, after, r),
    ensures
        after == before,
        req.is_taproot() ==> (r matches Ok(modified) && !modified) || r matches Err(
            SigningError::SigHashTaproot(_),
        ),
{
    match req {
        RequiredSignatures::TapKey { plan_key, .. } => {
            assert(req.keys()[0] == plan_key);
        },
        RequiredSignatures::TapScript { plan_keys, .. } => {
            assert forall|i: int| 0 <= i < plan_keys@.len() implies !keymap.contains_key(
                (#[trigger] plan_keys@[i]).asset_key,
            ) by {
                assert(req.keys()[i] == plan_keys@[i]);
            }
            assert forall|sighash: Seq<u8>|
                #[trigger] req.signed(keymap, sighash, sighash_type, before) == before by {
                lemma_script_nothing_held(
                    plan_keys@,
                    keymap,
                    sighash,
                    sighash_type,
                    before,
                    false,
                );
            }
            lemma_script_nothing_held(plan_keys@, keymap, Seq::empty(), sighash_type, before, false);
        },
        _ => {},
    }
}

/// A key-path spend signs with the tweaked key: the secret that the key store
/// gives, tweaked by the hash that commits its x-only public key to the
/// merkle root, be the root there or not. The signature is recorded under the
/// plan key's descriptor key, with the mode asked for.
pub proof fn lemma_key_spend_signs_with_tweaked_key(
    plan_key: PlanKey<KeyId>,
    merkle_root: Option<[u8; 32]>,
    keymap: Map<KeyId, DescriptorSecretKey>,
    secret: Seq<u8>,
    sighash: Seq<u8>,
    sighash_type: TapSighashType,
    material: Map<KeyId, SignatureView>,
)
    requires
        resolution(keymap, plan_key) == Resolution::Secret(secret),
        tap_tweaked_secret(secret, opt_bytes(merkle_root)) is Some,
    ensures
        ({
            let req = RequiredSignatures::TapKey { plan_key, merkle_root };
            let tweak = tap_tweak_hash(x_only_public_key(secret), opt_bytes(merkle_root));
            let signing_key = xonly_tweaked_secret(secret, tweak->0);
            &&& tweak is Some
            &&& signing_key is Some
            &&& req.outcome(keymap) == Outcome::Signed(true)
            &&& req.signed(keymap, sighash, sighash_type, material) == material.insert(
                plan_key.descriptor_key,
                SignatureView {
                    signature: schnorr_signature(signing_key->0, sighash),
                    sighash_type,
                },
            )
        }),
{
}

/// Whether `sig` is what a key signs in a script-path spend: the signature of
/// the digest under the secret that the key resolves to, as it is.
pub open spec fn signs_untweaked(
    key: PlanKey<KeyId>,
    keymap: Map<KeyId, DescriptorSecretKey>,
    sighash: Seq<u8>,
    sighash_type: TapSighashType,
    sig: SignatureView,
) -> bool {
    resolution(keymap, key) matches Resolution::Secret(secret) && sig == (SignatureView {
        signature: schnorr_signature(secret, sighash),
        sighash_type,
    })
}

/// A script-path spend never tweaks a key: whatever the material holds under
/// a descriptor key afterwards was either there before, or is the signature
/// of the digest under the secret, as it is, that one of the keys resolves to.
pub proof fn lemma_script_spend_signs_untweaked(
    keys: Seq<PlanKey<KeyId>>,
    keymap: Map<KeyId, DescriptorSecretKey>,
    sighash: Seq<u8>,
    sighash_type: TapSighashType,
    material: Map<KeyId, SignatureView>,
    id: KeyId,
)
    requires
        script_signed(keys, keymap, sighash, sighash_type, material).contains_key(id),
    ensures
        ({
            let after = script_signed(keys, keymap, sighash, sighash_type, material);
            ||| material.contains_key(id) && after[id] == material[id]
            ||| exists|i: int|
                0 <= i < keys.len() && keys[i].descriptor_key == id && #[trigger] signs_untweaked(
                    keys[i],
                    keymap,
                    sighash,
                    sighash_type,
                    after[id],
                )
        }),
    decreases keys.len(),
{
    if keys.len() > 0 {
        let rest = keys.drop_first();
        let after = script_signed(keys, keymap, sighash, sighash_type, material);
        assert(keys.first() == keys[0]);
        match resolution(keymap, keys.first()) {
            Resolution::Absent => {
                lemma_script_spend_signs_untweaked(
                    rest,
                    keymap,
                    sighash,
                    sighash_type,
                    material,
                    id,
                );
                if !(material.contains_key(id) && after[id] == material[id]) {
                    let i = choose|i: int|
                        0 <= i < rest.len() && rest[i].descriptor_key == id
                            && #[trigger] signs_untweaked(
                            rest[i],
                            keymap,
                            sighash,
                            sighash_type,
                            after[id],
                        );
                    assert(rest[i] == keys[i + 1]);
                    assert(signs_untweaked(keys[i + 1], keymap, sighash, sighash_type, after[id]));
                }
            },
            Resolution::Secret(secret) => {
                let first = script_spend_signature(secret, sighash, sighash_type);
                let with_first = material.insert(keys.first().descriptor_key, first);
                lemma_script_spend_signs_untweaked(
                    rest,
                    keymap,
                    sighash,
                    sighash_type,
                    with_first,
                    id,
                );
                if with_first.contains_key(id) && after[id] == with_first[id] {
                    if id == keys.first().descriptor_key {
                        assert(signs_untweaked(keys[0], keymap, sighash, sighash_type, after[id]));
                    }
                } else {
                    let i = choose|i: int|
                        0 <= i < rest.len() && rest[i].descriptor_key == id
                            && #[trigger] signs_untweaked(
                            rest[i],
                            keymap,
                            sighash,
                            sighash_type,
                            after[id],
                        );
                    assert(rest[i] == keys[i + 1]);
                    assert(signs_untweaked(keys[i + 1], keymap, sighash, sighash_type, after[id]));
                }
            },
            _ => {},
        }
    }
}

proof fn lemma_script_signed_overrides(
    keys: Seq<PlanKey<KeyId>>,
    keymap: Map<KeyId, DescriptorSecretKey>,
    sighash: Seq<u8>,
    sighash_type: TapSighashType,
    material: Map<KeyId, SignatureView>,
)
    ensures
        script_signed(keys, keymap, sighash, sighash_type, material)
            == material.union_prefer_right(
            script_signed(keys, keymap, sighash, sighash_type, Map::empty()),
        ),
    decreases keys.len(),
{
    let nothing = Map::<KeyId, SignatureView>::empty();
    if keys.len() == 0 {
        assert(material.union_prefer_right(nothing) =~= material);
    } else {
        let rest = keys.drop_first();
        match resolution(keymap, keys.first()) {
            Resolution::Absent => {
                lemma_script_signed_overrides(rest, keymap, sighash, sighash_type, material);
            },
            Resolution::Secret(secret) => {
                let id = keys.first().descriptor_key;
                let first = script_spend_signature(secret, sighash, sighash_type);
                lemma_script_signed_overrides(
                    rest,
                    keymap,
                    sighash,
                    sighash_type,
                    material.insert(id, first),
                );
                lemma_script_signed_overrides(
                    rest,
                    keymap,
                    sighash,
                    sighash_type,
                    nothing.insert(id, first),
                );
                let later = script_signed(rest, keymap, sighash, sighash_type, nothing);
                assert(material.union_prefer_right(
                    nothing.insert(id, first).union_prefer_right(later),
                ) =~= material.insert(id, first).union_prefer_right(later));
            },
            _ => {
                assert(material.union_prefer_right(nothing) =~= material);
            },
        }
    }
}

/// Signing is deterministic: the same digest under the same keys gives the
/// same signatures, so a second pass over what the first one left changes
/// nothing.
pub proof fn lemma_signing_again_changes_nothing(
    req: RequiredSignatures<KeyId>,
    keymap: Map<KeyId, DescriptorSecretKey>,
    sighash: Seq<u8>,
    sighash_type: TapSighashType,
    material: Map<KeyId, SignatureView>,
)
    ensures
        req.signed(keymap, sighash, sighash_type, req.signed(keymap, sighash, sighash_type, material))
            == req.signed(keymap, sighash, sighash_type, material),
{
    let once = req.signed(keymap, sighash, sighash_type, material);
    let twice = req.signed(keymap, sighash, sighash_type, once);
    match req {
        RequiredSignatures::TapScript { plan_keys, .. } => {
            let made = script_signed(plan_keys@, keymap, sighash, sighash_type, Map::empty());
            lemma_script_signed_overrides(plan_keys@, keymap, sighash, sighash_type, material);
            lemma_script_signed_overrides(plan_keys@, keymap, sighash, sighash_type, once);
            assert(material.union_prefer_right(made).union_prefer_right(made)
                =~= material.union_prefer_right(made));
        },
        _ => {
            assert(twice =~= once);
        },
    }
}

/// Two keys that resolve to the same secret sign the same digest with the
/// same bytes, in a key-path spend as in a script-path spend.
pub proof fn lemma_same_secret_same_signature(
    key_a: PlanKey<KeyId>,
    keymap_a: Map<KeyId, DescriptorSecretKey>,
    key_b: PlanKey<KeyId>,
    keymap_b: Map<KeyId, DescriptorSecretKey>,
    merkle_root: Option<[u8; 32]>,
    leaf_hash: [u8; 32],
    sighash: Seq<u8>,
    sighash_type: TapSighashType,
    material_a: Map<KeyId, SignatureView>,
    material_b: Map<KeyId, SignatureView>,
)
    requires
        resolution(keymap_a, key_a) is Secret,
        resolution(keymap_a, key_a) == resolution(keymap_b, key_b),
    ensures
        ({
            let spend_a = RequiredSignatures::TapKey { plan_key: key_a, merkle_root };
            let spend_b = RequiredSignatures::TapKey { plan_key: key_b, merkle_root };
            spend_a.signed(keymap_a, sighash, sighash_type, material_a)[key_a.descriptor_key]
                == spend_b.signed(keymap_b, sighash, sighash_type, material_b)[key_b.descriptor_key]
        }),
        script_signed(seq![key_a], keymap_a, sighash, sighash_type, material_a)[key_a.descriptor_key]
            == script_signed(
            seq![key_b],
            keymap_b,
            sighash,
            sighash_type,
            material_b,
        )[key_b.descriptor_key],
{
    reveal_with_fuel(script_signed, 2);
    assert(seq![key_a].first() == key_a);
    assert(seq![key_b].first() == key_b);
    assert(seq![key_a].drop_first().len() == 0);
    assert(seq![key_b].drop_first().len() == 0);
}

/// Derivation is deterministic: the same root and the same path resolve to
/// the same secret key, under whatever identity the root is stored.
pub proof fn lemma_same_root_same_key(
    key_a: PlanKey<KeyId>,
    keymap_a: Map<KeyId, DescriptorSecretKey>,
    key_b: PlanKey<KeyId>,
    keymap_b: Map<KeyId, DescriptorSecretKey>,
    root_a: Xpriv,
    root_b: Xpriv,
)
    requires
        keymap_a.contains_key(key_a.asset_key),
        keymap_a[key_a.asset_key] == DescriptorSecretKey::XPrv(root_a),
        keymap_b.contains_key(key_b.asset_key),
        keymap_b[key_b.asset_key] == DescriptorSecretKey::XPrv(root_b),
        root_a@ == root_b@,
        key_a.derivation_hint@ == key_b.derivation_hint@,
    ensures
        resolution(keymap_a, key_a) == resolution(keymap_b, key_b),
{
}

/// A set of images is a set: adding an image a second time changes neither
/// what the set holds, nor how many images it holds, nor whether it is empty.
pub proof fn lemma_image_added_twice(images: Set<Seq<u8>>, image: Seq<u8>)
    requires
        images.finite(),
    ensures
        images.insert(image).insert(image) == images.insert(image),
        images.insert(image).insert(image).len() == images.insert(image).len(),
        images.insert(image).insert(image).is_empty() == images.insert(image).is_empty(),
{
    assert(images.insert(image).insert(image) =~= images.insert(image));
}

} // verus!
