//! Signature-hash modes and the taproot digests of a transaction.
//!
//! The digests are computed by `bitcoin`'s `SighashCache`, which is carried
//! through as it is. A cache remembers intermediate hashes from earlier calls,
//! so nothing is claimed of the digest that a call returns.

use bitcoin::sighash::{P2wpkhError, Prevouts, SighashCache, TaprootError};
use bitcoin::{Transaction, TxOut};
use core::borrow::Borrow;
use vstd::prelude::*;

verus! {

#[verifier::external_type_specification]
#[verifier::external_body]
pub struct ExTransaction(Transaction);

#[verifier::external_type_specification]
#[verifier::external_body]
pub struct ExTxOut(TxOut);

#[verifier::external_type_specification]
#[verifier::external_body]
pub struct ExTaprootError(TaprootError);

#[verifier::external_type_specification]
#[verifier::external_body]
pub struct ExP2wpkhError(P2wpkhError);

#[verifier::external_type_specification]
#[verifier::external_body]
#[verifier::reject_recursive_types(T)]
pub struct ExSighashCache<T: Borrow<Transaction>>(SighashCache<T>);

#[verifier::external_type_specification]
#[verifier::external_body]
#[verifier::reject_recursive_types(T)]
pub struct ExPrevouts<'u, T: 'u + Borrow<TxOut>>(Prevouts<'u, T>);

/// The signature-hash mode of a taproot signature.
#[derive(Clone, Copy, Debug, PartialEq, Eq, Structural)]
pub enum TapSighashType {
    /// Used when no mode is given; signs what `All` signs.
    Default,
    /// Sign all outputs.
    All,
    /// Sign no outputs.
    NoOutputs,
    /// Sign the output whose index matches the input's.
    Single,
    /// Sign all outputs but only this input.
    AllPlusAnyoneCanPay,
    /// Sign no outputs and only this input.
    NonePlusAnyoneCanPay,
    /// Sign one output and only this input.
    SinglePlusAnyoneCanPay,
}

/// The signature-hash mode of an ECDSA signature.
#[derive(Clone, Copy, Debug, PartialEq, Eq, Structural)]
pub enum EcdsaSighashType {
    /// Sign all outputs.
    All,
    /// Sign no outputs.
    NoOutputs,
    /// Sign the output whose index matches the input's.
    Single,
    /// Sign all outputs but only this input.
    AllPlusAnyoneCanPay,
    /// Sign no outputs and only this input.
    NonePlusAnyoneCanPay,
    /// Sign one output and only this input.
    SinglePlusAnyoneCanPay,
}

/// The bytes that stand for a taproot signature-hash mode.
pub open spec fn is_tap_sighash_byte(byte: u8) -> bool {
    byte <= 0x03 || (0x81 <= byte && byte <= 0x83)
}

impl TapSighashType {
    /// The byte that stands for the mode in a serialized signature.
    pub open spec fn consensus_byte(self) -> u8 {
        match self {
            TapSighashType::Default => 0x00,
            TapSighashType::All => 0x01,
            TapSighashType::NoOutputs => 0x02,
            TapSighashType::Single => 0x03,
            TapSighashType::AllPlusAnyoneCanPay => 0x81,
            TapSighashType::NonePlusAnyoneCanPay => 0x82,
            TapSighashType::SinglePlusAnyoneCanPay => 0x83,
        }
    }

    /// The mode's byte.
    pub fn to_consensus_u8(self) -> (byte: u8)
        ensures
            byte == self.consensus_byte(),
            is_tap_sighash_byte(byte),
    {
        match self {
            TapSighashType::Default => 0x00,
            TapSighashType::All => 0x01,
            TapSighashType::NoOutputs => 0x02,
            TapSighashType::Single => 0x03,
            TapSighashType::AllPlusAnyoneCanPay => 0x81,
            TapSighashType::NonePlusAnyoneCanPay => 0x82,
            TapSighashType::SinglePlusAnyoneCanPay => 0x83,
        }
    }

    /// The mode that a byte stands for, if it stands for one.
    pub fn from_consensus_u8(byte: u8) -> (r: Option<TapSighashType>)
        ensures
            r is Some <==> is_tap_sighash_byte(byte),
            r matches Some(mode) ==> mode.consensus_byte() == byte,
    {
        if byte == 0x00 {
            Some(TapSighashType::Default)
        } else if byte == 0x01 {
            Some(TapSighashType::All)
        } else if byte == 0x02 {
            Some(TapSighashType::NoOutputs)
        } else if byte == 0x03 {
            Some(TapSighashType::Single)
        } else if byte == 0x81 {
            Some(TapSighashType::AllPlusAnyoneCanPay)
        } else if byte == 0x82 {
            Some(TapSighashType::NonePlusAnyoneCanPay)
        } else if byte == 0x83 {
            Some(TapSighashType::SinglePlusAnyoneCanPay)
        } else {
            None
        }
    }
}

/// `SighashCache::taproot_key_spend_signature_hash`, with the mode given by
/// its byte. Nothing is claimed of what it returns: the digest depends on the
/// transaction in the cache and on what earlier calls left there.
#[verifier::external_body]
pub(crate) fn taproot_key_spend_signature_hash(
    cache: &mut SighashCache<Transaction>,
    input_index: usize,
    prevouts: &Prevouts<'_, TxOut>,
    sighash_type: u8,
) -> (r: Result<[u8; 32], TaprootError>)
    requires
        is_tap_sighash_byte(sighash_type),
{
    let mode = bitcoin::TapSighashType::from_consensus_u8(sighash_type).expect("a mode's byte");
    match cache.taproot_key_spend_signature_hash(input_index, prevouts, mode) {
        Ok(hash) => Ok(bitcoin::hashes::Hash::to_byte_array(hash)),
        Err(e) => Err(e),
    }
}

/// `SighashCache::taproot_script_spend_signature_hash` for the leaf with the
/// given hash, with the mode given by its byte. Nothing is claimed of what it
/// returns, for the same reason.
#[verifier::external_body]
pub(crate) fn taproot_script_spend_signature_hash(
    cache: &mut SighashCache<Transaction>,
    input_index: usize,
    prevouts: &Prevouts<'_, TxOut>,
    leaf_hash: &[u8; 32],
    sighash_type: u8,
) -> (r: Result<[u8; 32], TaprootError>)
    requires
        is_tap_sighash_byte(sighash_type),
{
    let mode = bitcoin::TapSighashType::from_consensus_u8(sighash_type).expect("a mode's byte");
    let leaf: bitcoin::TapLeafHash = bitcoin::hashes::Hash::from_byte_array(*leaf_hash);
    match cache.taproot_script_spend_signature_hash(input_index, prevouts, leaf, mode) {
        Ok(hash) => Ok(bitcoin::hashes::Hash::to_byte_array(hash)),
        Err(e) => Err(e),
    }
}

} // verus!
