use vstd::prelude::*;

verus! {

/// The status that the device interface returns for a command that succeeded.
pub const TPM2_RC_SUCCESS: u32 = 0;

/// The ways a command can fail.
#[derive(Debug, Clone, Copy, PartialEq, Eq, Structural)]
pub enum Error {
    /// The command needs a session in a slot that the context left empty;
    /// found before the device is called.
    MissingMandatorySession,
    /// A value failed its construction-time validation.
    InvalidInput,
    /// The device reported a failure; the raw status is kept.
    DeviceError(u32),
    /// The device reported success but handed back data that cannot be decoded.
    MalformedResponse,
}

/// A raw status, classified.
#[derive(Debug, Clone, Copy, PartialEq, Eq, Structural)]
pub enum ReturnCode {
    Success,
    Failure(u32),
}

/// How a raw status is classified: zero is success, anything else a failure
/// that carries the status.
pub open spec fn classify(rc: u32) -> ReturnCode {
    if rc == TPM2_RC_SUCCESS {
        ReturnCode::Success
    } else {
        ReturnCode::Failure(rc)
    }
}

/// Classifies a raw status from the device interface.
pub fn from_tss_rc(rc: u32) -> (r: ReturnCode)
    ensures
        r == classify(rc),
{
    if rc == TPM2_RC_SUCCESS {
        ReturnCode::Success
    } else {
        ReturnCode::Failure(rc)
    }
}

impl ReturnCode {
    pub fn is_success(&self) -> (r: bool)
        ensures
            r == (*self is Success),
    {
        match self {
            ReturnCode::Success => true,
            ReturnCode::Failure(_) => false,
        }
    }

    /// The error that a failure stands for; `None` for success.
    pub fn error(&self) -> (r: Option<Error>)
        ensures
            *self is Success ==> r is None,
            *self is Failure ==> r == Some(Error::DeviceError(self->Failure_0)),
    {
        match self {
            ReturnCode::Success => None,
            ReturnCode::Failure(code) => Some(Error::DeviceError(*code)),
        }
    }
}

/// Every raw status is classified as exactly one of success or a failure
/// that carries that very status; success is exactly the zero status.
pub proof fn lemma_classification_exhaustive(rc: u32)
    ensures
        (classify(rc) is Success) != (classify(rc) is Failure),
        classify(rc) is Success <==> rc == TPM2_RC_SUCCESS,
        classify(rc) is Failure ==> classify(rc) == ReturnCode::Failure(rc),
{
}

} // verus!
