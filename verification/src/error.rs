//! Why signing can fail.

use bitcoin::bip32::Error;
use bitcoin::sighash::{P2wpkhError, TaprootError};
use vstd::prelude::*;
use vstd::std_specs::convert::FromSpecImpl;

verus! {

/// A form of script or key that signing does not handle.
#[derive(Clone, Copy, Debug, PartialEq, Eq, Structural)]
pub enum Unsupported {
    /// Signing for a legacy script.
    Legacy,
    /// Signing for a witness-v0 script.
    Segwitv0,
    /// A key that stands for several derivation paths at once.
    MultiXPrv,
}

/// An error of a signing attempt.
#[derive(Debug)]
pub enum SigningError {
    /// The witness-v0 digest could not be computed.
    SigHashP2wpkh(P2wpkhError),
    /// The taproot digest could not be computed.
    SigHashTaproot(TaprootError),
    /// A key could not be derived from its root.
    DerivationError(Error),
    /// The requirement or a key it names has a form that is not handled.
    UnsupportedKeyForm(Unsupported),
}

impl From<TaprootError> for SigningError {
    fn from(v: TaprootError) -> (r: Self) {
        SigningError::SigHashTaproot(v)
    }
}

impl FromSpecImpl<TaprootError> for SigningError {
    open spec fn obeys_from_spec() -> bool {
        true
    }

    open spec fn from_spec(v: TaprootError) -> Self {
        SigningError::SigHashTaproot(v)
    }
}

impl From<P2wpkhError> for SigningError {
    fn from(v: P2wpkhError) -> (r: Self) {
        SigningError::SigHashP2wpkh(v)
    }
}

impl FromSpecImpl<P2wpkhError> for SigningError {
    open spec fn obeys_from_spec() -> bool {
        true
    }

    open spec fn from_spec(v: P2wpkhError) -> Self {
        SigningError::SigHashP2wpkh(v)
    }
}

impl From<Error> for SigningError {
    fn from(e: Error) -> (r: Self) {
        SigningError::DerivationError(e)
    }
}

impl FromSpecImpl<Error> for SigningError {
    open spec fn obeys_from_spec() -> bool {
        true
    }

    open spec fn from_spec(e: Error) -> Self {
        SigningError::DerivationError(e)
    }
}

} // verus!
