//! A typed invocation layer for the asymmetric RSA commands of a trusted
//! platform module: sized buffers and scheme descriptors and their wire
//! records, session selection per command, and the translation of a raw
//! status and output slot into a typed result.
pub mod buffer;
pub mod command;
pub mod error;
pub mod scheme;
pub mod session;

pub use buffer::{BoundedBuffer, Data, PublicKeyRsa, SizedRecord, MAX_DATA_BYTES, MAX_RSA_KEY_BYTES};
pub use command::{diagnostic, translate, Context, Diagnostic, KeyHandle, Operation, OutputSlot, RsaCall};
pub use error::{from_tss_rc, Error, ReturnCode, TPM2_RC_SUCCESS};
pub use scheme::{HashingAlgorithm, RsaDecryptRecord, RsaDecryptionScheme};
pub use session::{resolve, SessionProfile, SessionRequirement, ESYS_TR_NONE};
