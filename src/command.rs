use vstd::prelude::*;
use crate::buffer::{decoded, encodes, Data, PublicKeyRsa, SizedRecord};
use crate::error::{from_tss_rc, Error, ReturnCode, TPM2_RC_SUCCESS};
use crate::scheme::{scheme_record, RsaDecryptRecord, RsaDecryptionScheme};
use crate::session::{resolved_all, SessionProfile, SessionRequirement};

verus! {

/// A key already loaded in the device, by its handle.
#[derive(Debug, Clone, Copy, PartialEq, Eq, Structural)]
pub struct KeyHandle {
    pub value: u32,
}

/// The commands of the asymmetric RSA family.
#[derive(Debug, Clone, Copy, PartialEq, Eq, Structural)]
pub enum Operation {
    RsaEncrypt,
    RsaDecrypt,
}

/// What each command declares of the three session slots: decryption cannot
/// run without a session in the first slot, encryption needs none.
pub open spec fn profile_of(op: Operation) -> SessionProfile {
    match op {
        Operation::RsaEncrypt => SessionProfile {
            slot_1: SessionRequirement::Optional,
            slot_2: SessionRequirement::Optional,
            slot_3: SessionRequirement::Optional,
        },
        Operation::RsaDecrypt => SessionProfile {
            slot_1: SessionRequirement::Mandatory,
            slot_2: SessionRequirement::Optional,
            slot_3: SessionRequirement::Optional,
        },
    }
}

impl Operation {
    pub fn profile(&self) -> (r: SessionProfile)
        ensures
            r == profile_of(*self),
    {
        match self {
            Operation::RsaEncrypt => SessionProfile {
                slot_1: SessionRequirement::Optional,
                slot_2: SessionRequirement::Optional,
                slot_3: SessionRequirement::Optional,
            },
            Operation::RsaDecrypt => SessionProfile {
                slot_1: SessionRequirement::Mandatory,
                slot_2: SessionRequirement::Optional,
                slot_3: SessionRequirement::Optional,
            },
        }
    }

    /// The name under which failures of the command are reported.
    pub fn name(&self) -> (r: &'static str)
        ensures
            *self is RsaEncrypt ==> r@ == "RSA encryption"@,
            *self is RsaDecrypt ==> r@ == "RSA decryption"@,
    {
        proof {
            reveal_strlit("RSA encryption");
            reveal_strlit("RSA decryption");
        }
        match self {
            Operation::RsaEncrypt => "RSA encryption",
            Operation::RsaDecrypt => "RSA decryption",
        }
    }
}

/// The sessions that commands run under: each of the three slots holds a
/// session handle or nothing.
#[derive(Debug, Clone, Copy, PartialEq, Eq, Structural)]
pub struct Context {
    pub session_1: Option<u32>,
    pub session_2: Option<u32>,
    pub session_3: Option<u32>,
}

/// Everything the device's entry point for an RSA command is handed, and
/// the one way to make that call: a command that fails before it has one
/// never reaches the device.
#[derive(Debug, Clone, Copy)]
pub struct RsaCall {
    pub operation: Operation,
    pub key_handle: u32,
    pub session_1: u32,
    pub session_2: u32,
    pub session_3: u32,
    pub input: SizedRecord<512>,
    pub scheme: RsaDecryptRecord,
    pub label: SizedRecord<64>,
}

/// The slots of a context, resolved under a command's profile.
pub open spec fn sessions_for(ctx: Context, op: Operation) -> Result<(u32, u32, u32), Error> {
    resolved_all(profile_of(op), ctx.session_1, ctx.session_2, ctx.session_3)
}

/// `call` is the call of `op` on `key` with these resolved sessions and
/// these inputs, each laid out in its record.
pub open spec fn is_call(
    call: RsaCall,
    op: Operation,
    key: KeyHandle,
    sessions: (u32, u32, u32),
    input: Seq<u8>,
    scheme: RsaDecryptionScheme,
    label: Seq<u8>,
) -> bool {
    &&& call.operation == op
    &&& call.key_handle == key.value
    &&& call.session_1 == sessions.0
    &&& call.session_2 == sessions.1
    &&& call.session_3 == sessions.2
    &&& encodes(call.input, input)
    &&& call.scheme == scheme_record(scheme)
    &&& encodes(call.label, label)
}

impl Context {
    /// A context with all three slots empty.
    pub fn new() -> (r: Context)
        ensures
            r.session_1 is None,
            r.session_2 is None,
            r.session_3 is None,
    {
        Context { session_1: None, session_2: None, session_3: None }
    }

    /// Puts these sessions in the three slots.
    pub fn set_sessions(&mut self, s1: Option<u32>, s2: Option<u32>, s3: Option<u32>)
        ensures
            final(self).session_1 == s1,
            final(self).session_2 == s2,
            final(self).session_3 == s3,
    {
        self.session_1 = s1;
        self.session_2 = s2;
        self.session_3 = s3;
    }

    /// Prepares the device call of an RSA command: resolves the sessions the
    /// command declares, failing before anything else where a mandatory slot
    /// is empty, then lays the inputs out in their records.
    pub fn prepare(
        &self,
        op: Operation,
        key_handle: KeyHandle,
        input: PublicKeyRsa,
        in_scheme: RsaDecryptionScheme,
        label: Data,
    ) -> (r: Result<RsaCall, Error>)
        ensures
            sessions_for(*self, op) is Err ==> r == Err::<RsaCall, Error>(
                sessions_for(*self, op)->Err_0,
            ),
            sessions_for(*self, op) is Ok ==> r is Ok && is_call(
                r->Ok_0,
                op,
                key_handle,
                sessions_for(*self, op)->Ok_0,
                input@,
                in_scheme,
                label@,
            ),
    {
        let profile = op.profile();
        let (h1, h2, h3) = match profile.resolve_all(self.session_1, self.session_2, self.session_3) {
            Ok(h) => h,
            Err(e) => return Err(e),
        };
        Ok(
            RsaCall {
                operation: op,
                key_handle: key_handle.value,
                session_1: h1,
                session_2: h2,
                session_3: h3,
                input: input.to_record(),
                scheme: in_scheme.to_record(),
                label: label.to_record(),
            },
        )
    }

    /// Prepares an RSA encryption of `message` with the key behind `key_handle`.
    pub fn rsa_encrypt(
        &self,
        key_handle: KeyHandle,
        message: PublicKeyRsa,
        in_scheme: RsaDecryptionScheme,
        label: Data,
    ) -> (r: Result<RsaCall, Error>)
        ensures
            sessions_for(*self, Operation::RsaEncrypt) is Ok,
            r is Ok,
            is_call(
                r->Ok_0,
                Operation::RsaEncrypt,
                key_handle,
                sessions_for(*self, Operation::RsaEncrypt)->Ok_0,
                message@,
                in_scheme,
                label@,
            ),
    {
        self.prepare(Operation::RsaEncrypt, key_handle, message, in_scheme, label)
    }

    /// Prepares an RSA decryption of `cipher_text` with the key behind
    /// `key_handle`; fails where the first session slot is empty.
    pub fn rsa_decrypt(
        &self,
        key_handle: KeyHandle,
        cipher_text: PublicKeyRsa,
        in_scheme: RsaDecryptionScheme,
        label: Data,
    ) -> (r: Result<RsaCall, Error>)
        ensures
            self.session_1 is None ==> r == Err::<RsaCall, Error>(Error::MissingMandatorySession),
            self.session_1 is Some ==> r is Ok && is_call(
                r->Ok_0,
                Operation::RsaDecrypt,
                key_handle,
                sessions_for(*self, Operation::RsaDecrypt)->Ok_0,
                cipher_text@,
                in_scheme,
                label@,
            ),
    {
        self.prepare(Operation::RsaDecrypt, key_handle, cipher_text, in_scheme, label)
    }
}

/// The output slot of a device call: empty until the device fills it on
/// success, and released once its record has been taken over.
#[derive(Debug, Clone, Copy)]
pub enum OutputSlot {
    Unset,
    Filled(SizedRecord<512>),
    Released,
}

/// What a call with this status and output slot comes to: the device's
/// failure, or the bytes of the output record; a success without a readable
/// record is malformed.
pub open spec fn translated(status: u32, slot: OutputSlot) -> Result<Seq<u8>, Error> {
    if status != TPM2_RC_SUCCESS {
        Err(Error::DeviceError(status))
    } else {
        match slot {
            OutputSlot::Filled(rec) => match decoded(rec) {
                Some(s) => Ok(s),
                None => Err(Error::MalformedResponse),
            },
            _ => Err(Error::MalformedResponse),
        }
    }
}

/// The slot after translation: a filled slot of a successful call is
/// released, any other slot is left as it was.
pub open spec fn slot_after(status: u32, slot: OutputSlot) -> OutputSlot {
    if status == TPM2_RC_SUCCESS && slot is Filled {
        OutputSlot::Released
    } else {
        slot
    }
}

/// Turns the status and output slot of a device call into its result. On
/// failure the slot is not read; on success a filled slot is taken over and
/// released, whether or not its record decodes.
pub fn translate(status: u32, slot: &mut OutputSlot) -> (r: Result<PublicKeyRsa, Error>)
    ensures
        *final(slot) == slot_after(status, *old(slot)),
        r is Ok ==> translated(status, *old(slot)) == Ok::<Seq<u8>, Error>(r->Ok_0@),
        r is Err ==> translated(status, *old(slot)) == Err::<Seq<u8>, Error>(r->Err_0),
{
    let rc = from_tss_rc(status);
    match rc {
        ReturnCode::Failure(code) => Err(Error::DeviceError(code)),
        ReturnCode::Success => {
            let r = match slot {
                OutputSlot::Filled(rec) => PublicKeyRsa::from_record(rec),
                _ => {
                    return Err(Error::MalformedResponse);
                },
            };
            *slot = OutputSlot::Released;
            r
        },
    }
}

impl RsaCall {
    /// Finishes the call once the device has answered with `status`,
    /// filling `slot` or not.
    pub fn complete(&self, status: u32, slot: &mut OutputSlot) -> (r: Result<PublicKeyRsa, Error>)
        ensures
            *final(slot) == slot_after(status, *old(slot)),
            r is Ok ==> translated(status, *old(slot)) == Ok::<Seq<u8>, Error>(r->Ok_0@),
            r is Err ==> translated(status, *old(slot)) == Err::<Seq<u8>, Error>(r->Err_0),
    {
        translate(status, slot)
    }
}

/// The record of a device failure: the command and the raw status.
#[derive(Debug, Clone, Copy, PartialEq, Eq, Structural)]
pub struct Diagnostic {
    pub operation: Operation,
    pub code: u32,
}

/// The record to report for a command's result: one for a device failure,
/// none for anything else.
pub fn diagnostic(op: Operation, r: &Result<PublicKeyRsa, Error>) -> (d: Option<Diagnostic>)
    ensures
        d is Some <==> (r is Err && r->Err_0 is DeviceError),
        d is Some ==> d->Some_0.operation == op && d->Some_0.code == r->Err_0->DeviceError_0,
{
    match r {
        Err(Error::DeviceError(code)) => Some(Diagnostic { operation: op, code: *code }),
        _ => None,
    }
}

/// A command whose first slot is mandatory fails with a missing session
/// when the context leaves that slot empty, so it never reaches the device.
pub proof fn lemma_session_gate(ctx: Context, op: Operation)
    requires
        profile_of(op).slot_1 is Mandatory,
        ctx.session_1 is None,
    ensures
        sessions_for(ctx, op) == Err::<(u32, u32, u32), Error>(Error::MissingMandatorySession),
{
}

/// A filled output slot of a successful call is released by the first
/// translation, and a second translation releases nothing more.
pub proof fn lemma_release_once(status: u32, slot: OutputSlot)
    requires
        status == TPM2_RC_SUCCESS,
        slot is Filled,
    ensures
        slot_after(status, slot) is Released,
        slot_after(status, slot_after(status, slot)) == slot_after(status, slot),
{
}

/// On a failure status the result is the device error, whatever the slot
/// holds, and the slot is left untouched.
pub proof fn lemma_failure_ignores_output(status: u32, a: OutputSlot, b: OutputSlot)
    requires
        status != TPM2_RC_SUCCESS,
    ensures
        translated(status, a) == Err::<Seq<u8>, Error>(Error::DeviceError(status)),
        translated(status, a) == translated(status, b),
        slot_after(status, a) == a,
{
}

} // verus!
