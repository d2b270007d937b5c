use vstd::prelude::*;
use crate::error::Error;

verus! {

/// The handle the device interface reads as "no session in this slot".
pub const ESYS_TR_NONE: u32 = 0xfff;

/// What a command declares of one session slot.
#[derive(Debug, Clone, Copy, PartialEq, Eq, Structural)]
pub enum SessionRequirement {
    /// The slot is not passed to the device.
    Unused,
    /// The slot's session is passed where there is one.
    Optional,
    /// The command cannot run without a session in the slot.
    Mandatory,
}

/// What a command declares of each of the three session slots.
#[derive(Debug, Clone, Copy, PartialEq, Eq, Structural)]
pub struct SessionProfile {
    pub slot_1: SessionRequirement,
    pub slot_2: SessionRequirement,
    pub slot_3: SessionRequirement,
}

/// The handle a slot resolves to under a requirement.
pub open spec fn resolved(req: SessionRequirement, slot: Option<u32>) -> Result<u32, Error> {
    match req {
        SessionRequirement::Unused => Ok(ESYS_TR_NONE),
        SessionRequirement::Optional => match slot {
            Some(h) => Ok(h),
            None => Ok(ESYS_TR_NONE),
        },
        SessionRequirement::Mandatory => match slot {
            Some(h) => Ok(h),
            None => Err(Error::MissingMandatorySession),
        },
    }
}

/// Resolves the session in one slot under the command's requirement.
pub fn resolve(req: SessionRequirement, slot: Option<u32>) -> (r: Result<u32, Error>)
    ensures
        r == resolved(req, slot),
{
    match req {
        SessionRequirement::Unused => Ok(ESYS_TR_NONE),
        SessionRequirement::Optional => match slot {
            Some(h) => Ok(h),
            None => Ok(ESYS_TR_NONE),
        },
        SessionRequirement::Mandatory => match slot {
            Some(h) => Ok(h),
            None => Err(Error::MissingMandatorySession),
        },
    }
}

/// The handles the three slots resolve to under a profile, or the first
/// slot's failure.
pub open spec fn resolved_all(
    p: SessionProfile,
    s1: Option<u32>,
    s2: Option<u32>,
    s3: Option<u32>,
) -> Result<(u32, u32, u32), Error> {
    match (resolved(p.slot_1, s1), resolved(p.slot_2, s2), resolved(p.slot_3, s3)) {
        (Err(e), _, _) => Err(e),
        (Ok(_), Err(e), _) => Err(e),
        (Ok(_), Ok(_), Err(e)) => Err(e),
        (Ok(h1), Ok(h2), Ok(h3)) => Ok((h1, h2, h3)),
    }
}

impl SessionProfile {
    /// Resolves all three slots; fails with the first slot that cannot be resolved.
    pub fn resolve_all(&self, s1: Option<u32>, s2: Option<u32>, s3: Option<u32>) -> (r: Result<
        (u32, u32, u32),
        Error,
    >)
        ensures
            r == resolved_all(*self, s1, s2, s3),
    {
        let h1 = match resolve(self.slot_1, s1) {
            Ok(h) => h,
            Err(e) => return Err(e),
        };
        let h2 = match resolve(self.slot_2, s2) {
            Ok(h) => h,
            Err(e) => return Err(e),
        };
        let h3 = match resolve(self.slot_3, s3) {
            Ok(h) => h,
            Err(e) => return Err(e),
        };
        Ok((h1, h2, h3))
    }
}

/// Only a mandatory slot can fail to resolve, and only when it is empty;
/// a mandatory slot that is empty always fails.
pub proof fn lemma_only_mandatory_fails(req: SessionRequirement, slot: Option<u32>)
    ensures
        resolved(req, slot) is Err <==> (req is Mandatory && slot is None),
        resolved(req, slot) is Err ==> resolved(req, slot) == Err::<u32, Error>(
            Error::MissingMandatorySession,
        ),
{
}

} // verus!
