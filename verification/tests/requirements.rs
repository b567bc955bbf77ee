use tmp_plan::images::{same_image, ImageSet};
use tmp_plan::material::{SatisfactionMaterial, Signature};
use tmp_plan::requirements::{RequiredSignatures, Requirements};
use tmp_plan::sighash::TapSighashType;

#[test]
fn default_requirements_need_no_preimages() {
    let reqs: Requirements<u64> = Requirements::default();
    assert!(!reqs.requires_hash_preimages());
    assert!(matches!(reqs.signatures, RequiredSignatures::Legacy { ref keys } if keys.is_empty()));
    assert_eq!(reqs.sha256_images.len(), 0);
    assert!(reqs.hash160_images.is_empty());
}

#[test]
fn any_image_requires_preimages() {
    let mut reqs: Requirements<u64> = Requirements::default();
    assert!(reqs.sha256_images.insert([1u8; 32]));
    assert!(reqs.requires_hash_preimages());

    let mut reqs: Requirements<u64> = Requirements::default();
    assert!(reqs.hash160_images.insert([1u8; 20]));
    assert!(reqs.requires_hash_preimages());

    let mut reqs: Requirements<u64> = Requirements::default();
    assert!(reqs.hash256_images.insert([1u8; 32]));
    assert!(reqs.requires_hash_preimages());

    let mut reqs: Requirements<u64> = Requirements::default();
    assert!(reqs.ripemd160_images.insert([1u8; 20]));
    assert!(reqs.requires_hash_preimages());
}

#[test]
fn image_added_twice_is_held_once() {
    let mut reqs: Requirements<u64> = Requirements::default();
    assert!(reqs.sha256_images.insert([7u8; 32]));
    let needed = reqs.requires_hash_preimages();
    let held = reqs.sha256_images.len();
    assert!(!reqs.sha256_images.insert([7u8; 32]));
    assert_eq!(reqs.requires_hash_preimages(), needed);
    assert_eq!(reqs.sha256_images.len(), held);
    assert_eq!(held, 1);
    assert!(reqs.sha256_images.contains(&[7u8; 32]));
}

#[test]
fn image_set_holds_what_was_added() {
    let mut images: ImageSet<20> = ImageSet::new();
    assert!(images.is_empty());
    assert!(!images.contains(&[0u8; 20]));
    assert!(images.insert([0u8; 20]));
    let mut other = [0u8; 20];
    other[19] = 1;
    assert!(!images.contains(&other));
    assert!(images.insert(other));
    assert!(!images.insert([0u8; 20]));
    assert_eq!(images.len(), 2);
    assert!(images.contains(&other));
    assert!(images.contains(&[0u8; 20]));
    assert!(!images.is_empty());
    let copy = images.clone();
    assert_eq!(copy.len(), 2);
    assert!(copy.contains(&other));
}

#[test]
fn images_are_compared_byte_by_byte() {
    let a = [5u8; 32];
    let mut b = [5u8; 32];
    assert!(same_image(&a, &b));
    b[31] = 6;
    assert!(!same_image(&a, &b));
    b[31] = 5;
    b[0] = 4;
    assert!(!same_image(&a, &b));
    let empty: [u8; 0] = [];
    assert!(same_image(&empty, &empty));
}

#[test]
fn sighash_modes_have_their_bytes() {
    assert_eq!(TapSighashType::Default.to_consensus_u8(), 0x00);
    assert_eq!(TapSighashType::All.to_consensus_u8(), 0x01);
    assert_eq!(TapSighashType::NoOutputs.to_consensus_u8(), 0x02);
    assert_eq!(TapSighashType::Single.to_consensus_u8(), 0x03);
    assert_eq!(TapSighashType::AllPlusAnyoneCanPay.to_consensus_u8(), 0x81);
    assert_eq!(TapSighashType::NonePlusAnyoneCanPay.to_consensus_u8(), 0x82);
    assert_eq!(TapSighashType::SinglePlusAnyoneCanPay.to_consensus_u8(), 0x83);
    let mut byte: u8 = 0;
    loop {
        let expected = bitcoin::TapSighashType::from_consensus_u8(byte).ok();
        let found = TapSighashType::from_consensus_u8(byte);
        assert_eq!(found.is_some(), expected.is_some());
        if let (Some(found), Some(expected)) = (found, expected) {
            assert_eq!(found.to_consensus_u8(), expected as u8);
            assert_eq!(found.to_consensus_u8(), byte);
        }
        if byte == u8::MAX {
            break;
        }
        byte += 1;
    }
}

#[test]
fn material_keeps_the_last_signature_of_a_key() {
    let mut auth_data = SatisfactionMaterial::default();
    assert!(auth_data.schnorr_sigs.is_empty());
    let first = Signature { signature: [1u8; 64], sighash_type: TapSighashType::Default };
    let second = Signature { signature: [2u8; 64], sighash_type: TapSighashType::All };
    auth_data.insert_schnorr_sig(4, first);
    auth_data.insert_schnorr_sig(5, first);
    auth_data.insert_schnorr_sig(4, second);
    assert_eq!(auth_data.schnorr_sigs.len(), 2);
    assert_eq!(auth_data.schnorr_sigs.get(&4).expect("held").signature, [2u8; 64]);
    assert_eq!(auth_data.schnorr_sigs.get(&4).expect("held").sighash_type, TapSighashType::All);
    assert_eq!(auth_data.schnorr_sigs.get(&5).expect("held").signature, [1u8; 64]);
}
