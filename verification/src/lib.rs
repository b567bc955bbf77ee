//! The signing core of a descriptor wallet: what a spend of one output
//! requires, and the taproot signatures that a key store can make for it.

pub mod bip32;
pub mod error;
pub mod images;
pub mod keymap;
pub mod laws;
pub mod material;
pub mod requirements;
pub mod secp;
pub mod sighash;

pub use error::SigningError;
pub use keymap::{DescriptorSecretKey, KeyId, KeyMap, PlanKey};
pub use material::{SatisfactionMaterial, Signature};
pub use requirements::{RequiredSignatures, Requirements};
