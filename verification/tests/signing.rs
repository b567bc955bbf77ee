use bitcoin::key::{Keypair, Secp256k1, TapTweak, XOnlyPublicKey};
use bitcoin::secp256k1::{schnorr, Message};
use bitcoin::sighash::{Prevouts, SighashCache};
use bitcoin::taproot::TapNodeHash;
use bitcoin::{
    absolute, transaction, Amount, OutPoint, ScriptBuf, Sequence, Transaction, TxIn, TxOut,
    Witness,
};
use tmp_plan::error::{SigningError, Unsupported};
use tmp_plan::keymap::{DescriptorSecretKey, KeyMap, PlanKey};
use tmp_plan::material::SatisfactionMaterial;
use tmp_plan::requirements::RequiredSignatures;
use tmp_plan::secp::SecretKey;
use tmp_plan::sighash::TapSighashType;

fn spending_tx() -> Transaction {
    Transaction {
        version: transaction::Version::TWO,
        lock_time: absolute::LockTime::ZERO,
        input: vec![
            TxIn {
                previous_output: OutPoint::null(),
                script_sig: ScriptBuf::new(),
                sequence: Sequence::MAX,
                witness: Witness::new(),
            },
            TxIn {
                previous_output: OutPoint::null(),
                script_sig: ScriptBuf::new(),
                sequence: Sequence::ZERO,
                witness: Witness::new(),
            },
        ],
        output: vec![TxOut { value: Amount::from_sat(9_000), script_pubkey: ScriptBuf::new() }],
    }
}

fn spent_outputs() -> Vec<TxOut> {
    vec![
        TxOut { value: Amount::from_sat(5_000), script_pubkey: ScriptBuf::from_bytes(vec![0x51]) },
        TxOut { value: Amount::from_sat(6_000), script_pubkey: ScriptBuf::from_bytes(vec![0x52]) },
    ]
}

fn secret(fill: u8) -> SecretKey {
    SecretKey::from_byte_array([fill; 32]).expect("a secret key")
}

fn plan_key(asset_key: u64, descriptor_key: u64) -> PlanKey<u64> {
    PlanKey { asset_key, derivation_hint: Vec::new(), descriptor_key }
}

fn key_spend_digest(input_index: usize, mode: bitcoin::TapSighashType) -> [u8; 32] {
    let outputs = spent_outputs();
    let mut cache = SighashCache::new(spending_tx());
    let hash = cache
        .taproot_key_spend_signature_hash(input_index, &Prevouts::All(&outputs), mode)
        .expect("a digest");
    bitcoin::hashes::Hash::to_byte_array(hash)
}

fn script_spend_digest(input_index: usize, leaf_hash: [u8; 32]) -> [u8; 32] {
    let outputs = spent_outputs();
    let mut cache = SighashCache::new(spending_tx());
    let leaf: bitcoin::TapLeafHash = bitcoin::hashes::Hash::from_byte_array(leaf_hash);
    let hash = cache
        .taproot_script_spend_signature_hash(
            input_index,
            &Prevouts::All(&outputs),
            leaf,
            bitcoin::TapSighashType::Default,
        )
        .expect("a digest");
    bitcoin::hashes::Hash::to_byte_array(hash)
}

fn internal_key(secret_bytes: [u8; 32]) -> XOnlyPublicKey {
    let secp = Secp256k1::new();
    Keypair::from_seckey_slice(&secp, &secret_bytes).expect("a secret key").x_only_public_key().0
}

fn verifies(signature: &[u8; 64], digest: [u8; 32], key: &XOnlyPublicKey) -> bool {
    let secp = Secp256k1::new();
    let sig = schnorr::Signature::from_slice(signature).expect("64 bytes");
    secp.verify_schnorr(&sig, &Message::from_digest(digest), key).is_ok()
}

fn output_key(secret_bytes: [u8; 32], merkle_root: Option<[u8; 32]>) -> XOnlyPublicKey {
    let secp = Secp256k1::new();
    let root: Option<TapNodeHash> = merkle_root.map(|b| bitcoin::hashes::Hash::from_byte_array(b));
    internal_key(secret_bytes).tap_tweak(&secp, root).0.to_inner()
}

fn sign(
    req: &RequiredSignatures<u64>,
    input_index: usize,
    keymap: &KeyMap,
    mode: Option<TapSighashType>,
    auth_data: &mut SatisfactionMaterial,
) -> Result<bool, SigningError> {
    let outputs = spent_outputs();
    let mut cache = SighashCache::new(spending_tx());
    req.try_sign_with_keymap(
        input_index,
        keymap,
        &Prevouts::All(&outputs),
        mode,
        None,
        &mut cache,
        auth_data,
    )
    .expect("the tweak applies")
}

#[test]
fn key_spend_without_script_tree_signs_once() {
    let mut keymap = KeyMap::new();
    keymap.insert(1, DescriptorSecretKey::Single(secret(0xcd)));
    let req = RequiredSignatures::TapKey { plan_key: plan_key(1, 10), merkle_root: None };
    let mut auth_data = SatisfactionMaterial::new();
    let r = sign(&req, 0, &keymap, None, &mut auth_data);
    assert!(matches!(r, Ok(true)));
    assert_eq!(auth_data.schnorr_sigs.len(), 1);
    let sig = auth_data.schnorr_sigs.get(&10).expect("recorded under the descriptor key");
    assert_eq!(sig.sighash_type, TapSighashType::Default);
    let digest = key_spend_digest(0, bitcoin::TapSighashType::Default);
    assert!(verifies(&sig.signature, digest, &output_key([0xcd; 32], None)));
}

#[test]
fn key_spend_with_script_tree_verifies_under_output_key() {
    let mut keymap = KeyMap::new();
    keymap.insert(1, DescriptorSecretKey::Single(secret(0x11)));
    let root = [0x77u8; 32];
    let req = RequiredSignatures::TapKey { plan_key: plan_key(1, 10), merkle_root: Some(root) };
    let mut auth_data = SatisfactionMaterial::new();
    let r = sign(&req, 1, &keymap, Some(TapSighashType::All), &mut auth_data);
    assert!(matches!(r, Ok(true)));
    let sig = auth_data.schnorr_sigs.get(&10).expect("recorded");
    assert_eq!(sig.sighash_type, TapSighashType::All);
    let digest = key_spend_digest(1, bitcoin::TapSighashType::All);
    assert!(verifies(&sig.signature, digest, &output_key([0x11; 32], Some(root))));
    assert!(!verifies(&sig.signature, digest, &output_key([0x11; 32], None)));
    assert!(!verifies(&sig.signature, digest, &internal_key([0x11; 32])));
}

#[test]
fn script_spend_signs_with_the_key_that_is_held() {
    let mut keymap = KeyMap::new();
    keymap.insert(2, DescriptorSecretKey::Single(secret(0x22)));
    let leaf_hash = [0x33u8; 32];
    let req = RequiredSignatures::TapScript {
        leaf_hash,
        plan_keys: vec![plan_key(1, 10), plan_key(2, 20)],
    };
    let mut auth_data = SatisfactionMaterial::new();
    let r = sign(&req, 0, &keymap, None, &mut auth_data);
    assert!(matches!(r, Ok(true)));
    assert_eq!(auth_data.schnorr_sigs.len(), 1);
    assert!(auth_data.schnorr_sigs.get(&10).is_none());
    let sig = auth_data.schnorr_sigs.get(&20).expect("recorded under the second key");
    let digest = script_spend_digest(0, leaf_hash);
    assert!(verifies(&sig.signature, digest, &internal_key([0x22; 32])));
}

#[test]
fn script_spend_with_no_key_held_records_nothing() {
    let mut keymap = KeyMap::new();
    keymap.insert(3, DescriptorSecretKey::Single(secret(0x22)));
    let req = RequiredSignatures::TapScript {
        leaf_hash: [0x33u8; 32],
        plan_keys: vec![plan_key(1, 10), plan_key(2, 20)],
    };
    let mut auth_data = SatisfactionMaterial::new();
    let r = sign(&req, 0, &keymap, None, &mut auth_data);
    assert!(matches!(r, Ok(false)));
    assert!(auth_data.schnorr_sigs.is_empty());
}

#[test]
fn key_spend_with_no_key_held_records_nothing() {
    let keymap = KeyMap::new();
    let req = RequiredSignatures::TapKey { plan_key: plan_key(1, 10), merkle_root: None };
    let mut auth_data = SatisfactionMaterial::new();
    let r = sign(&req, 0, &keymap, None, &mut auth_data);
    assert!(matches!(r, Ok(false)));
    assert!(auth_data.schnorr_sigs.is_empty());
}

#[test]
fn missing_prevouts_fail_the_digest() {
    let mut keymap = KeyMap::new();
    keymap.insert(1, DescriptorSecretKey::Single(secret(0xcd)));
    let outputs = spent_outputs();
    let only_first = Prevouts::One(0, outputs[0].clone());
    let key_spend = RequiredSignatures::TapKey { plan_key: plan_key(1, 10), merkle_root: None };
    let script_spend =
        RequiredSignatures::TapScript { leaf_hash: [0x33u8; 32], plan_keys: vec![plan_key(1, 10)] };
    for req in [key_spend, script_spend] {
        let mut cache = SighashCache::new(spending_tx());
        let mut auth_data = SatisfactionMaterial::new();
        let r = req
            .try_sign_with_keymap(0, &keymap, &only_first, None, None, &mut cache, &mut auth_data)
            .expect("the tweak applies");
        assert!(matches!(r, Err(SigningError::SigHashTaproot(_))));
        assert!(auth_data.schnorr_sigs.is_empty());
    }
}

#[test]
fn single_prevout_is_enough_with_anyone_can_pay() {
    let mut keymap = KeyMap::new();
    keymap.insert(1, DescriptorSecretKey::Single(secret(0xcd)));
    let outputs = spent_outputs();
    let only_first = Prevouts::One(0, outputs[0].clone());
    let req = RequiredSignatures::TapKey { plan_key: plan_key(1, 10), merkle_root: None };
    let mut cache = SighashCache::new(spending_tx());
    let mut auth_data = SatisfactionMaterial::new();
    let r = req
        .try_sign_with_keymap(
            0,
            &keymap,
            &only_first,
            Some(TapSighashType::AllPlusAnyoneCanPay),
            None,
            &mut cache,
            &mut auth_data,
        )
        .expect("the tweak applies");
    assert!(matches!(r, Ok(true)));
    let sig = auth_data.schnorr_sigs.get(&10).expect("recorded");
    assert_eq!(sig.sighash_type, TapSighashType::AllPlusAnyoneCanPay);
    let digest = key_spend_digest(0, bitcoin::TapSighashType::AllPlusAnyoneCanPay);
    assert!(verifies(&sig.signature, digest, &output_key([0xcd; 32], None)));
}

#[test]
fn script_spend_does_not_tweak() {
    let mut keymap = KeyMap::new();
    keymap.insert(1, DescriptorSecretKey::Single(secret(0x44)));
    let digest = [0x5au8; 32];
    let key_spend = RequiredSignatures::TapKey { plan_key: plan_key(1, 10), merkle_root: None };
    let script_spend =
        RequiredSignatures::TapScript { leaf_hash: [0x33u8; 32], plan_keys: vec![plan_key(1, 10)] };
    let mut by_key = SatisfactionMaterial::new();
    let mut by_script = SatisfactionMaterial::new();
    assert!(key_spend.tweak_can_apply(&keymap));
    assert!(script_spend.tweak_can_apply(&keymap));
    let a = key_spend.sign_sighash_with_keymap(&digest, TapSighashType::Default, &keymap, &mut by_key);
    let b = script_spend.sign_sighash_with_keymap(
        &digest,
        TapSighashType::Default,
        &keymap,
        &mut by_script,
    );
    assert!(matches!(a, Ok(true)));
    assert!(matches!(b, Ok(true)));
    let tweaked = by_key.schnorr_sigs.get(&10).expect("recorded").signature;
    let bare = by_script.schnorr_sigs.get(&10).expect("recorded").signature;
    assert_ne!(tweaked, bare);
    assert!(verifies(&bare, digest, &internal_key([0x44; 32])));
    assert!(!verifies(&bare, digest, &output_key([0x44; 32], None)));
    assert!(verifies(&tweaked, digest, &output_key([0x44; 32], None)));
    assert!(!verifies(&tweaked, digest, &internal_key([0x44; 32])));
}

#[test]
fn signing_is_deterministic() {
    let mut keymap = KeyMap::new();
    keymap.insert(1, DescriptorSecretKey::Single(secret(0x44)));
    let digest = [0x5au8; 32];
    let key_spend =
        RequiredSignatures::TapKey { plan_key: plan_key(1, 10), merkle_root: Some([9u8; 32]) };
    let script_spend =
        RequiredSignatures::TapScript { leaf_hash: [0x33u8; 32], plan_keys: vec![plan_key(1, 10)] };
    for req in [key_spend, script_spend] {
        let mut first = SatisfactionMaterial::new();
        let mut second = SatisfactionMaterial::new();
        let a = req.sign_sighash_with_keymap(&digest, TapSighashType::Single, &keymap, &mut first);
        let b = req.sign_sighash_with_keymap(&digest, TapSighashType::Single, &keymap, &mut second);
        assert!(matches!(a, Ok(true)));
        assert!(matches!(b, Ok(true)));
        let one = first.schnorr_sigs.get(&10).expect("recorded").signature;
        let two = second.schnorr_sigs.get(&10).expect("recorded").signature;
        assert_eq!(one, two);
        let again =
            req.sign_sighash_with_keymap(&digest, TapSighashType::Single, &keymap, &mut first);
        assert!(matches!(again, Ok(true)));
        assert_eq!(first.schnorr_sigs.len(), 1);
        assert_eq!(first.schnorr_sigs.get(&10).expect("recorded").signature, one);
    }
}

#[test]
fn signature_is_the_one_secp256k1_makes() {
    let mut keymap = KeyMap::new();
    keymap.insert(1, DescriptorSecretKey::Single(secret(0x44)));
    let digest = [0x5au8; 32];
    let req =
        RequiredSignatures::TapScript { leaf_hash: [0x33u8; 32], plan_keys: vec![plan_key(1, 10)] };
    let mut auth_data = SatisfactionMaterial::new();
    let r = req.sign_sighash_with_keymap(&digest, TapSighashType::Default, &keymap, &mut auth_data);
    assert!(matches!(r, Ok(true)));
    let secp = Secp256k1::new();
    let pair = Keypair::from_seckey_slice(&secp, &[0x44; 32]).expect("a secret key");
    let expected = secp.sign_schnorr_no_aux_rand(&Message::from_digest(digest), &pair).serialize();
    assert_eq!(auth_data.schnorr_sigs.get(&10).expect("recorded").signature, expected);
    assert_ne!(expected[..32], digest[..]);
}

#[test]
fn later_signature_replaces_the_earlier_one() {
    let mut keymap = KeyMap::new();
    keymap.insert(1, DescriptorSecretKey::Single(secret(0x44)));
    keymap.insert(2, DescriptorSecretKey::Single(secret(0x55)));
    let digest = [0x5au8; 32];
    let req = RequiredSignatures::TapScript {
        leaf_hash: [0x33u8; 32],
        plan_keys: vec![plan_key(1, 10), plan_key(2, 10)],
    };
    let mut auth_data = SatisfactionMaterial::new();
    let r = req.sign_sighash_with_keymap(&digest, TapSighashType::Default, &keymap, &mut auth_data);
    assert!(matches!(r, Ok(true)));
    assert_eq!(auth_data.schnorr_sigs.len(), 1);
    let sig = auth_data.schnorr_sigs.get(&10).expect("recorded").signature;
    assert!(verifies(&sig, digest, &internal_key([0x55; 32])));
}

#[test]
fn earlier_material_is_kept() {
    let mut keymap = KeyMap::new();
    keymap.insert(1, DescriptorSecretKey::Single(secret(0x44)));
    let digest = [0x5au8; 32];
    let first =
        RequiredSignatures::TapScript { leaf_hash: [0x33u8; 32], plan_keys: vec![plan_key(1, 10)] };
    let second = RequiredSignatures::TapKey { plan_key: plan_key(1, 11), merkle_root: None };
    let mut auth_data = SatisfactionMaterial::new();
    assert!(matches!(
        first.sign_sighash_with_keymap(&digest, TapSighashType::Default, &keymap, &mut auth_data),
        Ok(true)
    ));
    let kept = auth_data.schnorr_sigs.get(&10).expect("recorded").signature;
    assert!(matches!(
        second.sign_sighash_with_keymap(&digest, TapSighashType::Default, &keymap, &mut auth_data),
        Ok(true)
    ));
    assert_eq!(auth_data.schnorr_sigs.len(), 2);
    assert_eq!(auth_data.schnorr_sigs.get(&10).expect("kept").signature, kept);
}

#[test]
fn legacy_and_segwit_are_refused() {
    let mut keymap = KeyMap::new();
    keymap.insert(1, DescriptorSecretKey::Single(secret(0x44)));
    let legacy = RequiredSignatures::Legacy { keys: vec![plan_key(1, 10)] };
    let segwit = RequiredSignatures::Segwitv0 { keys: vec![plan_key(1, 10)] };
    let mut auth_data = SatisfactionMaterial::new();
    let r = sign(&legacy, 0, &keymap, None, &mut auth_data);
    assert!(matches!(r, Err(SigningError::UnsupportedKeyForm(Unsupported::Legacy))));
    let r = sign(&segwit, 0, &keymap, None, &mut auth_data);
    assert!(matches!(r, Err(SigningError::UnsupportedKeyForm(Unsupported::Segwitv0))));
    let r = segwit.sign_sighash_with_keymap(&[1u8; 32], TapSighashType::All, &keymap, &mut auth_data);
    assert!(matches!(r, Err(SigningError::UnsupportedKeyForm(Unsupported::Segwitv0))));
    assert!(auth_data.schnorr_sigs.is_empty());
}

#[test]
fn default_requirement_is_legacy_without_keys() {
    let req: RequiredSignatures<u64> = RequiredSignatures::default();
    assert!(matches!(req, RequiredSignatures::Legacy { ref keys } if keys.is_empty()));
}

#[test]
fn multipath_key_is_refused() {
    let mut keymap = KeyMap::new();
    keymap.insert(1, DescriptorSecretKey::MultiXPrv);
    keymap.insert(2, DescriptorSecretKey::Single(secret(0x44)));
    let key_spend = RequiredSignatures::TapKey { plan_key: plan_key(1, 10), merkle_root: None };
    let mut auth_data = SatisfactionMaterial::new();
    let r = sign(&key_spend, 0, &keymap, None, &mut auth_data);
    assert!(matches!(r, Err(SigningError::UnsupportedKeyForm(Unsupported::MultiXPrv))));
    assert!(auth_data.schnorr_sigs.is_empty());
    let script_spend = RequiredSignatures::TapScript {
        leaf_hash: [0x33u8; 32],
        plan_keys: vec![plan_key(2, 20), plan_key(1, 10), plan_key(2, 30)],
    };
    let r = sign(&script_spend, 0, &keymap, None, &mut auth_data);
    assert!(matches!(r, Err(SigningError::UnsupportedKeyForm(Unsupported::MultiXPrv))));
    assert_eq!(auth_data.schnorr_sigs.len(), 1);
    assert!(auth_data.schnorr_sigs.get(&20).is_some());
}
