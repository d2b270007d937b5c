use tss_invoke::{
    diagnostic, from_tss_rc, resolve, translate, Context, Data, Diagnostic, Error,
    HashingAlgorithm, KeyHandle, Operation, OutputSlot, PublicKeyRsa, ReturnCode,
    RsaDecryptRecord, RsaDecryptionScheme, SessionRequirement, SizedRecord, ESYS_TR_NONE,
};

fn filled(bytes: &[u8]) -> OutputSlot {
    let mut buffer = [0u8; 512];
    buffer[..bytes.len()].copy_from_slice(bytes);
    OutputSlot::Filled(SizedRecord { size: bytes.len() as u16, buffer })
}

#[test]
fn encrypt_without_sessions_decodes_output() {
    let ctx = Context::new();
    let message = PublicKeyRsa::new(vec![7u8; 16]).unwrap();
    let call = ctx
        .rsa_encrypt(KeyHandle { value: 0x8000_0001 }, message, RsaDecryptionScheme::Null, Data::empty())
        .unwrap();
    assert_eq!(call.operation, Operation::RsaEncrypt);
    assert_eq!(call.key_handle, 0x8000_0001);
    assert_eq!((call.session_1, call.session_2, call.session_3), (ESYS_TR_NONE, ESYS_TR_NONE, ESYS_TR_NONE));
    assert_eq!(call.input.size, 16);
    assert_eq!(&call.input.buffer[..16], &[7u8; 16]);
    assert!(call.input.buffer[16..].iter().all(|b| *b == 0));
    assert_eq!(call.scheme, RsaDecryptRecord { scheme: 0x0010, details: 0 });
    assert_eq!(call.label.size, 0);

    let cipher: Vec<u8> = (0..256u32).map(|i| (i % 251) as u8).collect();
    let mut slot = filled(&cipher);
    let out = call.complete(0x000, &mut slot).unwrap();
    assert_eq!(out.len(), 256);
    assert_eq!(out.as_bytes(), &cipher);
    assert!(matches!(slot, OutputSlot::Released));
}

#[test]
fn decrypt_without_session_is_refused() {
    let ctx = Context::new();
    let cipher = PublicKeyRsa::new(vec![1u8; 256]).unwrap();
    let r = ctx.rsa_decrypt(KeyHandle { value: 1 }, cipher, RsaDecryptionScheme::RsaEs, Data::empty());
    assert_eq!(r.unwrap_err(), Error::MissingMandatorySession);
}

#[test]
fn decrypt_with_session_passes_it() {
    let mut ctx = Context::new();
    ctx.set_sessions(Some(0x0200_0000), None, Some(0x0200_0002));
    let label = Data::new(b"label".to_vec()).unwrap();
    let cipher = PublicKeyRsa::new(vec![1u8; 256]).unwrap();
    let call = ctx
        .rsa_decrypt(KeyHandle { value: 9 }, cipher, RsaDecryptionScheme::Oaep(HashingAlgorithm::Sha256), label)
        .unwrap();
    assert_eq!(call.operation, Operation::RsaDecrypt);
    assert_eq!((call.session_1, call.session_2, call.session_3), (0x0200_0000, ESYS_TR_NONE, 0x0200_0002));
    assert_eq!(call.scheme, RsaDecryptRecord { scheme: 0x0017, details: 0x000B });
    assert_eq!(call.label.size, 5);
    assert_eq!(&call.label.buffer[..5], b"label");
}

#[test]
fn device_failure_is_reported_with_its_code() {
    let mut slot = filled(&[0xAA; 8]);
    let r = translate(0x0902, &mut slot);
    assert_eq!(r.as_ref().unwrap_err(), &Error::DeviceError(0x0902));
    assert!(matches!(slot, OutputSlot::Filled(rec) if rec.size == 8));
    let d = diagnostic(Operation::RsaEncrypt, &r).unwrap();
    assert_eq!(d, Diagnostic { operation: Operation::RsaEncrypt, code: 0x0902 });
    assert_eq!(format!("{:#06x}", d.code), "0x0902");
    assert_eq!(d.operation.name(), "RSA encryption");
    assert_eq!(Operation::RsaDecrypt.name(), "RSA decryption");
}

#[test]
fn failure_never_surfaces_poisoned_slot() {
    let mut poisoned = filled(&[0xDE, 0xAD, 0xBE, 0xEF]);
    let r = translate(0x0101, &mut poisoned);
    assert_eq!(r.unwrap_err(), Error::DeviceError(0x0101));
    let mut unset = OutputSlot::Unset;
    assert_eq!(translate(0x0101, &mut unset).unwrap_err(), Error::DeviceError(0x0101));
    assert!(matches!(unset, OutputSlot::Unset));
}

#[test]
fn success_releases_slot_once_even_when_malformed() {
    let mut buffer = [0u8; 512];
    buffer[0] = 3;
    let mut slot = OutputSlot::Filled(SizedRecord { size: 600, buffer });
    assert_eq!(translate(0, &mut slot).unwrap_err(), Error::MalformedResponse);
    assert!(matches!(slot, OutputSlot::Released));
    assert_eq!(translate(0, &mut slot).unwrap_err(), Error::MalformedResponse);
    assert!(matches!(slot, OutputSlot::Released));
}

#[test]
fn success_without_output_is_malformed() {
    let mut slot = OutputSlot::Unset;
    assert_eq!(translate(0, &mut slot).unwrap_err(), Error::MalformedResponse);
    assert!(matches!(slot, OutputSlot::Unset));
}

#[test]
fn no_diagnostic_for_other_results() {
    let ok: Result<PublicKeyRsa, Error> = Ok(PublicKeyRsa::empty());
    assert_eq!(diagnostic(Operation::RsaDecrypt, &ok), None);
    let e: Result<PublicKeyRsa, Error> = Err(Error::MalformedResponse);
    assert_eq!(diagnostic(Operation::RsaDecrypt, &e), None);
}

#[test]
fn status_classification() {
    assert_eq!(from_tss_rc(0), ReturnCode::Success);
    assert!(from_tss_rc(0).is_success());
    assert_eq!(from_tss_rc(0).error(), None);
    for rc in [1u32, 0x0902, 0x0101, u32::MAX] {
        assert_eq!(from_tss_rc(rc), ReturnCode::Failure(rc));
        assert!(!from_tss_rc(rc).is_success());
        assert_eq!(from_tss_rc(rc).error(), Some(Error::DeviceError(rc)));
    }
}

#[test]
fn buffer_round_trip() {
    for len in [0usize, 1, 16, 256, 512] {
        let bytes: Vec<u8> = (0..len).map(|i| (i * 7 % 256) as u8).collect();
        let b = PublicKeyRsa::new(bytes.clone()).unwrap();
        let rec = b.to_record();
        assert_eq!(rec.size as usize, len);
        let back = PublicKeyRsa::from_record(&rec).unwrap();
        assert_eq!(back.into_bytes(), bytes);
    }
}

#[test]
fn buffer_over_capacity_is_invalid() {
    assert_eq!(PublicKeyRsa::new(vec![0u8; 513]).unwrap_err(), Error::InvalidInput);
    assert_eq!(Data::new(vec![0u8; 65]).unwrap_err(), Error::InvalidInput);
    assert_eq!(Data::new(vec![0u8; 64]).unwrap().len(), 64);
}

#[test]
fn record_with_impossible_length_is_malformed() {
    let rec = SizedRecord::<64> { size: 65, buffer: [1u8; 64] };
    assert_eq!(Data::from_record(&rec).unwrap_err(), Error::MalformedResponse);
    let rec = SizedRecord::<64> { size: 64, buffer: [1u8; 64] };
    assert_eq!(Data::from_record(&rec).unwrap().into_bytes(), vec![1u8; 64]);
}

#[test]
fn scheme_records() {
    assert_eq!(RsaDecryptionScheme::RsaEs.to_record(), RsaDecryptRecord { scheme: 0x0015, details: 0 });
    assert_eq!(
        RsaDecryptionScheme::Oaep(HashingAlgorithm::Sha1).to_record(),
        RsaDecryptRecord { scheme: 0x0017, details: 0x0004 }
    );
    let all = [
        RsaDecryptionScheme::RsaEs,
        RsaDecryptionScheme::Null,
        RsaDecryptionScheme::Oaep(HashingAlgorithm::Sha1),
        RsaDecryptionScheme::Oaep(HashingAlgorithm::Sha256),
        RsaDecryptionScheme::Oaep(HashingAlgorithm::Sha384),
        RsaDecryptionScheme::Oaep(HashingAlgorithm::Sha512),
        RsaDecryptionScheme::Oaep(HashingAlgorithm::Sm3_256),
        RsaDecryptionScheme::Oaep(HashingAlgorithm::Sha3_256),
        RsaDecryptionScheme::Oaep(HashingAlgorithm::Sha3_384),
        RsaDecryptionScheme::Oaep(HashingAlgorithm::Sha3_512),
    ];
    for s in all {
        assert_eq!(RsaDecryptionScheme::from_record(&s.to_record()), Ok(s));
    }
    let bad_tag = RsaDecryptRecord { scheme: 0x0014, details: 0 };
    assert_eq!(RsaDecryptionScheme::from_record(&bad_tag), Err(Error::MalformedResponse));
    let bad_hash = RsaDecryptRecord { scheme: 0x0017, details: 0x0010 };
    assert_eq!(RsaDecryptionScheme::from_record(&bad_hash), Err(Error::MalformedResponse));
}

#[test]
fn session_resolution() {
    assert_eq!(resolve(SessionRequirement::Mandatory, None), Err(Error::MissingMandatorySession));
    assert_eq!(resolve(SessionRequirement::Mandatory, Some(5)), Ok(5));
    assert_eq!(resolve(SessionRequirement::Optional, None), Ok(ESYS_TR_NONE));
    assert_eq!(resolve(SessionRequirement::Optional, Some(5)), Ok(5));
    assert_eq!(resolve(SessionRequirement::Unused, Some(5)), Ok(ESYS_TR_NONE));
    let p = Operation::RsaDecrypt.profile();
    assert_eq!(p.slot_1, SessionRequirement::Mandatory);
    assert_eq!(p.resolve_all(None, Some(2), Some(3)), Err(Error::MissingMandatorySession));
    assert_eq!(Operation::RsaEncrypt.profile().resolve_all(None, Some(2), None), Ok((ESYS_TR_NONE, 2, ESYS_TR_NONE)));
}
