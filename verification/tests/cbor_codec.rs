use keymint_ta::cbor::{
    from_slice, to_vec, value_bool, value_bytes, value_bytes16, value_bytes32, value_i32,
    value_i64, value_text, value_tuple, value_u32, value_u64, CborError, CborValue,
};
use keymint_ta::error::Error;
use keymint_ta::keyblob::{
    slot_option_from_cbor_value, slot_option_to_cbor_value, CoseEncrypt0, EncryptedKeyBlob,
    EncryptedKeyBlobV1, SecureDeletionSlot,
};
use keymint_ta::wire::characteristics::{
    characteristics_from_cbor_value, characteristics_to_cbor_value, params_from_cbor_value,
    params_to_cbor_value, KeyCharacteristics,
};
use keymint_ta::wire::keymint::{
    Algorithm, BlockMode, Digest, EcCurve, ErrorCode, HardwareAuthenticatorType, KeyOrigin,
    KeyPurpose, PaddingMode, SecurityLevel, Tag, TagType,
};
use keymint_ta::wire::messages::{
    BeginRequest, FinishRequest, GenerateKeyRequest, GetRootOfTrustChallengeResponse,
    KeyMintOperation, PerformOpReq, PerformOpResponse, PerformOpRsp,
};
use keymint_ta::wire::params::{DateTime, KeyParam, KeySizeInBits, RsaExponent};
use keymint_ta::wire::types::{
    AttestationKey, HardwareAuthToken, KeyMintHardwareInfo, RpcHardwareInfo, EekCurve,
    TimeStampToken, Timestamp,
};

#[test]
fn integers_have_shortest_encoding() {
    for (value, bytes) in [
        (0i128, vec![0x00]),
        (23, vec![0x17]),
        (24, vec![0x18, 0x18]),
        (-1, vec![0x20]),
        (-1000, vec![0x39, 0x03, 0xe7]),
        (0xffff_ffff, vec![0x1a, 0xff, 0xff, 0xff, 0xff]),
        (u64::MAX as i128, vec![0x1b, 0xff, 0xff, 0xff, 0xff, 0xff, 0xff, 0xff, 0xff]),
        (-(u64::MAX as i128) - 1, vec![0x3b, 0xff, 0xff, 0xff, 0xff, 0xff, 0xff, 0xff, 0xff]),
    ] {
        assert_eq!(to_vec(&CborValue::Integer(value)), Ok(bytes.clone()));
        assert_eq!(from_slice(&bytes), Ok(CborValue::Integer(value)));
    }
}

#[test]
fn integer_out_of_cbor_range_is_not_written() {
    assert_eq!(to_vec(&CborValue::Integer(u64::MAX as i128 + 1)), Err(CborError::EncodeFailed));
    assert_eq!(to_vec(&CborValue::Array(vec![CborValue::Integer(-(u64::MAX as i128) - 2)])), Err(CborError::EncodeFailed));
}

#[test]
fn every_kind_of_value_round_trips() {
    let value = CborValue::Array(vec![
        CborValue::Bytes(vec![1, 2, 3]),
        CborValue::Text("text".to_string()),
        CborValue::Bool(true),
        CborValue::Bool(false),
        CborValue::Null,
        CborValue::Tag(16, Box::new(CborValue::Array(vec![]))),
        CborValue::Dict(vec![(CborValue::Integer(1), CborValue::Integer(-7)), (CborValue::Text("k".to_string()), CborValue::Null)]),
    ]);
    let bytes = to_vec(&value).unwrap();
    assert_eq!(bytes, vec![0x87, 0x43, 1, 2, 3, 0x64, b't', b'e', b'x', b't', 0xf5, 0xf4, 0xf6, 0xd0, 0x80, 0xa2, 0x01, 0x26, 0x61, b'k', 0xf6]);
    assert_eq!(from_slice(&bytes), Ok(value));
}

#[test]
fn malformed_bytes_are_refused() {
    assert_eq!(from_slice(&[]), Err(CborError::DecodeFailed));
    assert_eq!(from_slice(&[0xff]), Err(CborError::DecodeFailed));
    assert_eq!(from_slice(&[0x82, 0x01]), Err(CborError::DecodeFailed));
    assert_eq!(from_slice(&[0x43, 0x01]), Err(CborError::DecodeFailed));
    assert_eq!(from_slice(&[0x01, 0x02]), Err(CborError::ExtraneousData));
    assert_eq!(from_slice(&[0x80, 0x00]), Err(CborError::ExtraneousData));
    // A floating-point number is no value of this library.
    assert_eq!(from_slice(&[0xf9, 0x3c, 0x00]), Err(CborError::DecodeFailed));
    // Nesting beyond the limit.
    let mut deep = vec![0x81; 40];
    deep.push(0x00);
    assert_eq!(from_slice(&deep), Err(CborError::DecodeFailed));
    let mut shallow = vec![0x81; 8];
    shallow.push(0x00);
    assert!(from_slice(&shallow).is_ok());
}

#[test]
fn typed_readers_check_kind_and_range() {
    let int = |i: i128| CborValue::Integer(i);
    assert_eq!(value_u32(&int(0xffff_ffff)), Ok(0xffff_ffff));
    assert_eq!(value_u32(&int(0x1_0000_0000)), Err(CborError::OutOfRangeIntegerValue));
    assert_eq!(value_u32(&int(-1)), Err(CborError::OutOfRangeIntegerValue));
    assert_eq!(value_u32(&CborValue::Null), Err(CborError::UnexpectedItem));
    assert_eq!(value_i32(&int(-0x8000_0000)), Ok(i32::MIN));
    assert_eq!(value_i32(&int(0x8000_0000)), Err(CborError::OutOfRangeIntegerValue));
    assert_eq!(value_u64(&int(u64::MAX as i128)), Ok(u64::MAX));
    assert_eq!(value_u64(&int(-1)), Err(CborError::OutOfRangeIntegerValue));
    assert_eq!(value_i64(&int(i64::MIN as i128)), Ok(i64::MIN));
    assert_eq!(value_i64(&int(i64::MAX as i128 + 1)), Err(CborError::OutOfRangeIntegerValue));
    assert_eq!(value_bool(&CborValue::Bool(true)), Ok(true));
    assert_eq!(value_bool(&int(1)), Err(CborError::UnexpectedItem));
    assert_eq!(value_bytes(&CborValue::Bytes(vec![1])), Ok(vec![1]));
    assert_eq!(value_bytes(&CborValue::Text("a".to_string())), Err(CborError::UnexpectedItem));
    assert_eq!(value_text(&CborValue::Text("a".to_string())), Ok("a".to_string()));
    assert_eq!(value_text(&CborValue::Bytes(vec![1])), Err(CborError::UnexpectedItem));
    assert_eq!(value_bytes16(&CborValue::Bytes(vec![7; 16])), Ok([7; 16]));
    assert_eq!(value_bytes16(&CborValue::Bytes(vec![7; 15])), Err(CborError::UnexpectedItem));
    assert_eq!(value_bytes32(&CborValue::Bytes(vec![7; 32])), Ok([7; 32]));
    assert_eq!(value_bytes32(&CborValue::Bytes(vec![7; 33])), Err(CborError::UnexpectedItem));
    let pair = CborValue::Array(vec![int(1), int(2)]);
    assert_eq!(value_tuple(&pair, 2).map(|a| a.len()), Ok(2));
    assert_eq!(value_tuple(&pair, 3).map(|a| a.len()), Err(CborError::UnexpectedItem));
    assert_eq!(value_tuple(&int(1), 0).map(|a| a.len()), Err(CborError::UnexpectedItem));
}

#[test]
fn enumerations_have_their_numbers() {
    assert_eq!(Algorithm::Hmac.to_i32(), 128);
    assert_eq!(Algorithm::from_i32(33), Some(Algorithm::TripleDes));
    assert_eq!(Algorithm::from_i32(2), None);
    assert_eq!(BlockMode::Gcm.to_i32(), 32);
    assert_eq!(Digest::Sha256.to_i32(), 4);
    assert_eq!(EcCurve::Curve25519.to_i32(), 4);
    assert_eq!(HardwareAuthenticatorType::Any.to_i32(), -1);
    assert_eq!(KeyPurpose::AttestKey.to_i32(), 7);
    assert_eq!(KeyPurpose::from_i32(4), None);
    assert_eq!(PaddingMode::Pkcs7.to_i32(), 64);
    assert_eq!(SecurityLevel::Keystore.to_i32(), 100);
    assert_eq!(KeyOrigin::SecurelyImported.to_i32(), 4);
    assert_eq!(ErrorCode::Success.to_i32(), 0);
    assert_eq!(ErrorCode::InvalidKeyBlob.to_i32(), -33);
    assert_eq!(ErrorCode::KeyRequiresUpgrade.to_i32(), -62);
    assert_eq!(ErrorCode::RollbackResistanceUnavailable.to_i32(), -67);
    assert_eq!(ErrorCode::ConcurrentProofOfPresenceRequested.to_i32(), -70);
    assert_eq!(ErrorCode::from_i32(-1000), Some(ErrorCode::UnknownError));
    assert_eq!(ErrorCode::from_i32(-42), None);
    assert_eq!(Tag::Purpose.to_i32(), 0x2000_0001);
    assert_eq!(Tag::KeySize.to_i32(), 0x3000_0003);
    assert_eq!(Tag::UsageCountLimit.to_i32(), 0x3000_0195);
    assert_eq!(Tag::ApplicationId.to_i32(), 0x9000_0259u32 as i32);
    assert_eq!(Tag::CertificateSerial.to_i32(), 0x8000_03eeu32 as i32);
    assert_eq!(Tag::UserSecureId.to_i32(), 0xa000_01f6u32 as i32);
    assert_eq!(Tag::from_i32(0x7000_012f), Some(Tag::RollbackResistance));
    assert_eq!(TagType::Bytes.to_i32(), 0x9000_0000u32 as i32);
    assert_eq!(KeyMintOperation::DeviceBegin.to_i32(), 0x1a);
    assert_eq!(KeyMintOperation::from_i32(0x83), Some(KeyMintOperation::SetAttestationIds));
    assert_eq!(KeyPurpose::from_cbor_value(&CborValue::Integer(4)), Err(CborError::NonEnumValue));
    assert_eq!(KeyPurpose::from_cbor_value(&CborValue::Integer(1 << 40)), Err(CborError::OutOfRangeIntegerValue));
    assert_eq!(KeyPurpose::from_cbor_value(&CborValue::Bool(true)), Err(CborError::UnexpectedItem));
    assert_eq!(KeyPurpose::Sign.to_cbor_value(), CborValue::Integer(2));
}

fn sample_params() -> Vec<KeyParam> {
    vec![
        KeyParam::Purpose(KeyPurpose::Encrypt),
        KeyParam::Algorithm(Algorithm::Aes),
        KeyParam::BlockMode(BlockMode::Gcm),
        KeyParam::Digest(Digest::NoDigest),
        KeyParam::Padding(PaddingMode::NoPadding),
        KeyParam::EcCurve(EcCurve::P521),
        KeyParam::RsaOaepMgfDigest(Digest::Sha1),
        KeyParam::Origin(KeyOrigin::Derived),
        KeyParam::KeySize(KeySizeInBits(128)),
        KeyParam::MinMacLength(64),
        KeyParam::UsageCountLimit(1),
        KeyParam::UserAuthType(3),
        KeyParam::OsVersion(120000),
        KeyParam::RsaPublicExponent(RsaExponent(65537)),
        KeyParam::UserSecureId(u64::MAX),
        KeyParam::CallerNonce,
        KeyParam::RollbackResistance,
        KeyParam::TrustedUserPresenceRequired,
        KeyParam::ActiveDatetime(DateTime { ms_since_epoch: -5 }),
        KeyParam::CertificateNotAfter(DateTime { ms_since_epoch: i64::MAX }),
        KeyParam::ApplicationId(vec![]),
        KeyParam::Nonce(vec![0; 12]),
        KeyParam::CertificateSerial(vec![1]),
        KeyParam::CertificateSubject(vec![2, 3]),
    ]
}

#[test]
fn key_params_round_trip() {
    let params = sample_params();
    for p in &params {
        let bytes = to_vec(&p.to_cbor_value()).unwrap();
        assert_eq!(KeyParam::from_cbor_value(&from_slice(&bytes).unwrap()), Ok(p.clone()));
        assert_eq!(p.duplicate(), *p);
    }
    let bytes = to_vec(&params_to_cbor_value(&params)).unwrap();
    assert_eq!(params_from_cbor_value(&from_slice(&bytes).unwrap()), Ok(params));
}

#[test]
fn key_param_wire_form() {
    assert_eq!(to_vec(&KeyParam::Purpose(KeyPurpose::Sign).to_cbor_value()).unwrap(), vec![0x82, 0x1a, 0x20, 0x00, 0x00, 0x01, 0x02]);
    assert_eq!(to_vec(&KeyParam::KeySize(KeySizeInBits(128)).to_cbor_value()).unwrap(), vec![0x82, 0x1a, 0x30, 0x00, 0x00, 0x03, 0x81, 0x18, 0x80]);
    assert_eq!(to_vec(&KeyParam::RollbackResistance.to_cbor_value()).unwrap(), vec![0x82, 0x1a, 0x70, 0x00, 0x01, 0x2f, 0xf5]);
    assert_eq!(to_vec(&KeyParam::ApplicationId(vec![7]).to_cbor_value()).unwrap(), vec![0x82, 0x3a, 0x6f, 0xff, 0xfd, 0xa6, 0x41, 0x07]);
    assert_eq!(KeyParam::OsVersion(7).tag(), Tag::OsVersion);
}

#[test]
fn key_param_decoding_is_strict() {
    let param = |tag: Tag, value: CborValue| CborValue::Array(vec![tag.to_cbor_value(), value]);
    assert_eq!(KeyParam::from_cbor_value(&param(Tag::CallerNonce, CborValue::Bool(false))), Err(CborError::InvalidValue));
    assert_eq!(KeyParam::from_cbor_value(&param(Tag::CallerNonce, CborValue::Integer(1))), Err(CborError::UnexpectedItem));
    assert_eq!(KeyParam::from_cbor_value(&param(Tag::Purpose, CborValue::Integer(4))), Err(CborError::NonEnumValue));
    assert_eq!(KeyParam::from_cbor_value(&param(Tag::OsVersion, CborValue::Integer(-1))), Err(CborError::OutOfRangeIntegerValue));
    assert_eq!(KeyParam::from_cbor_value(&param(Tag::KeySize, CborValue::Integer(128))), Err(CborError::UnexpectedItem));
    assert_eq!(KeyParam::from_cbor_value(&param(Tag::Nonce, CborValue::Text("n".to_string()))), Err(CborError::UnexpectedItem));
    // A tag that no key parameter carries.
    assert_eq!(KeyParam::from_cbor_value(&param(Tag::ConfirmationToken, CborValue::Bytes(vec![]))), Err(CborError::UnexpectedItem));
    assert_eq!(KeyParam::from_cbor_value(&param(Tag::Invalid, CborValue::Null)), Err(CborError::UnexpectedItem));
    assert_eq!(KeyParam::from_cbor_value(&CborValue::Array(vec![CborValue::Integer(5), CborValue::Null])), Err(CborError::NonEnumValue));
    assert_eq!(KeyParam::from_cbor_value(&CborValue::Array(vec![Tag::Purpose.to_cbor_value()])), Err(CborError::UnexpectedItem));
    assert_eq!(KeyParam::from_cbor_value(&CborValue::Null), Err(CborError::UnexpectedItem));
    // The first bad element of a list decides.
    let list = CborValue::Array(vec![KeyParam::NoAuthRequired.to_cbor_value(), param(Tag::Purpose, CborValue::Integer(4)), CborValue::Null]);
    assert_eq!(params_from_cbor_value(&list), Err(CborError::NonEnumValue));
    assert_eq!(params_from_cbor_value(&CborValue::Null), Err(CborError::UnexpectedItem));
}

#[test]
fn key_characteristics_round_trip() {
    let chars = vec![
        KeyCharacteristics { security_level: SecurityLevel::TrustedEnvironment, authorizations: sample_params() },
        KeyCharacteristics { security_level: SecurityLevel::Keystore, authorizations: vec![] },
    ];
    let bytes = to_vec(&characteristics_to_cbor_value(&chars)).unwrap();
    assert_eq!(bytes[..3], [0x82, 0x82, 0x01]);
    assert_eq!(characteristics_from_cbor_value(&from_slice(&bytes).unwrap()), Ok(chars.clone()));
    assert_eq!(chars[0].duplicate(), chars[0]);
    let bad = CborValue::Array(vec![CborValue::Array(vec![CborValue::Integer(3), CborValue::Array(vec![])])]);
    assert_eq!(characteristics_from_cbor_value(&bad), Err(CborError::NonEnumValue));
}

#[test]
fn cddl_descriptions() {
    assert_eq!(EncryptedKeyBlob::cddl_typename(), Some("EncryptedKeyBlob".to_string()));
    assert_eq!(EncryptedKeyBlob::cddl_schema(), Some("&(\n    [0, EncryptedKeyBlobV1] ; Version::V1\n)".to_string()));
    assert_eq!(CoseEncrypt0::cddl_schema(), Some("#6.16(Cose_Encrypt0)".to_string()));
}

#[test]
fn optional_slot_is_an_array_of_at_most_one() {
    assert_eq!(to_vec(&slot_option_to_cbor_value(None)).unwrap(), vec![0x80]);
    assert_eq!(to_vec(&slot_option_to_cbor_value(Some(SecureDeletionSlot(5)))).unwrap(), vec![0x81, 0x81, 0x05]);
    assert_eq!(slot_option_from_cbor_value(&from_slice(&[0x81, 0x81, 0x05]).unwrap()), Ok(Some(SecureDeletionSlot(5))));
    assert_eq!(slot_option_from_cbor_value(&from_slice(&[0x80]).unwrap()), Ok(None));
    assert_eq!(slot_option_from_cbor_value(&from_slice(&[0x82, 0x81, 0x05, 0x81, 0x06]).unwrap()), Err(CborError::UnexpectedItem));
    assert_eq!(slot_option_from_cbor_value(&from_slice(&[0x81, 0x05]).unwrap()), Err(CborError::UnexpectedItem));
    assert_eq!(slot_option_from_cbor_value(&from_slice(&[0x05]).unwrap()), Err(CborError::UnexpectedItem));
}

fn sample_blob() -> EncryptedKeyBlobV1 {
    EncryptedKeyBlobV1 {
        characteristics: vec![KeyCharacteristics { security_level: SecurityLevel::TrustedEnvironment, authorizations: vec![KeyParam::NoAuthRequired] }],
        key_derivation_input: [0x42; 32],
        encrypted_key_material: CoseEncrypt0 { protected: vec![0xa1, 0x01, 0x03], unprotected: CborValue::Dict(vec![]), ciphertext: Some(vec![1, 2, 3]) },
        secure_deletion_slot: Some(SecureDeletionSlot(2)),
    }
}

fn blob_value(version: i128, kdi_len: usize, tag: Option<u64>, slot: CborValue) -> CborValue {
    let envelope = CborValue::Array(vec![CborValue::Bytes(vec![0xa1, 0x01, 0x03]), CborValue::Dict(vec![]), CborValue::Bytes(vec![1, 2, 3])]);
    let envelope = match tag {
        Some(t) => CborValue::Tag(t, Box::new(envelope)),
        None => envelope,
    };
    CborValue::Array(vec![
        CborValue::Integer(version),
        CborValue::Array(vec![
            characteristics_to_cbor_value(&sample_blob().characteristics),
            CborValue::Bytes(vec![0x42; kdi_len]),
            envelope,
            slot,
        ]),
    ])
}

#[test]
fn keyblob_decodes_canonical_shape() {
    let slot = CborValue::Array(vec![CborValue::Array(vec![CborValue::Integer(2)])]);
    let bytes = to_vec(&blob_value(0, 32, Some(16), slot)).unwrap();
    assert_eq!(EncryptedKeyBlob::new(&bytes), Ok(EncryptedKeyBlob::V1(sample_blob())));
    assert_eq!(EncryptedKeyBlob::V1(sample_blob()).into_vec(), Ok(bytes));
}

#[test]
fn keyblob_of_other_shape_is_invalid() {
    let slot = || CborValue::Array(vec![]);
    let invalid = Err(Error::Hal(ErrorCode::InvalidKeyBlob));
    let check = |v: CborValue| assert_eq!(EncryptedKeyBlob::new(&to_vec(&v).unwrap()), invalid);
    // A version from the future.
    check(blob_value(1, 32, Some(16), slot()));
    check(blob_value(-1, 32, Some(16), slot()));
    // A derivation input that is one byte short, or one byte long.
    check(blob_value(0, 31, Some(16), slot()));
    check(blob_value(0, 33, Some(16), slot()));
    // An envelope without its tag, or with another.
    check(blob_value(0, 32, None, slot()));
    check(blob_value(0, 32, Some(17), slot()));
    check(blob_value(0, 32, Some(96), slot()));
    // A slot that is no slot.
    check(blob_value(0, 32, Some(16), CborValue::Null));
    check(blob_value(0, 32, Some(16), CborValue::Array(vec![CborValue::Integer(2)])));
    // Another outer shape.
    check(CborValue::Array(vec![CborValue::Integer(0)]));
    check(CborValue::Array(vec![CborValue::Integer(0), CborValue::Null, CborValue::Null]));
    check(CborValue::Integer(0));
    check(CborValue::Array(vec![CborValue::Integer(0), CborValue::Array(vec![])]));
    // Bytes after the keyblob.
    let mut bytes = to_vec(&blob_value(0, 32, Some(16), slot())).unwrap();
    assert!(EncryptedKeyBlob::new(&bytes).is_ok());
    bytes.push(0);
    assert_eq!(EncryptedKeyBlob::new(&bytes), invalid);
    bytes.truncate(bytes.len() - 2);
    assert_eq!(EncryptedKeyBlob::new(&bytes), invalid);
}

#[test]
fn envelope_is_checked_by_cose() {
    let envelope = |parts: Vec<CborValue>| CborValue::Tag(16, Box::new(CborValue::Array(parts)));
    let good = envelope(vec![CborValue::Bytes(vec![0xa1, 0x01, 0x03]), CborValue::Dict(vec![]), CborValue::Bytes(vec![9])]);
    assert_eq!(CoseEncrypt0::from_cbor_value(&good), Ok(CoseEncrypt0 { protected: vec![0xa1, 0x01, 0x03], unprotected: CborValue::Dict(vec![]), ciphertext: Some(vec![9]) }));
    let detached = envelope(vec![CborValue::Bytes(vec![]), CborValue::Dict(vec![(CborValue::Integer(4), CborValue::Bytes(vec![1]))]), CborValue::Null]);
    let read = CoseEncrypt0::from_cbor_value(&detached).unwrap();
    assert_eq!(read.ciphertext, None);
    assert_eq!(read.to_cbor_value(), Ok(detached));
    // Two elements, a protected header that is no map, a header with a key twice.
    for bad in [
        envelope(vec![CborValue::Bytes(vec![]), CborValue::Dict(vec![])]),
        envelope(vec![CborValue::Bytes(vec![0x01]), CborValue::Dict(vec![]), CborValue::Null]),
        envelope(vec![CborValue::Bytes(vec![]), CborValue::Dict(vec![(CborValue::Integer(4), CborValue::Bytes(vec![1])), (CborValue::Integer(4), CborValue::Bytes(vec![2]))]), CborValue::Null]),
        envelope(vec![CborValue::Bytes(vec![]), CborValue::Dict(vec![]), CborValue::Integer(1)]),
        CborValue::Tag(16, Box::new(CborValue::Null)),
    ] {
        assert_eq!(CoseEncrypt0::from_cbor_value(&bad), Err(CborError::UnexpectedItem));
    }
    let not_a_header = CoseEncrypt0 { protected: vec![], unprotected: CborValue::Integer(1), ciphertext: None };
    assert_eq!(not_a_header.to_cbor_value(), Err(CborError::EncodeFailed));
}

fn pseudorandom(seed: u64, len: usize) -> Vec<u8> {
    let mut state = seed.wrapping_mul(0x9e37_79b9_7f4a_7c15) | 1;
    (0..len)
        .map(|_| {
            state ^= state << 13;
            state ^= state >> 7;
            state ^= state << 17;
            (state >> 24) as u8
        })
        .collect()
}

#[test]
fn fuzz_safety() {
    let invalid = Err(Error::Hal(ErrorCode::InvalidKeyBlob));
    assert_eq!(EncryptedKeyBlob::new(&[0u8; 1024]), invalid);
    assert_eq!(EncryptedKeyBlob::new(&[0xffu8; 1024]), invalid);
    for seed in 0..1000u64 {
        let buffer = pseudorandom(seed, 1 + (seed as usize * 7) % 1024);
        assert_eq!(EncryptedKeyBlob::new(&buffer), invalid);
    }
    // Buffers that start like a keyblob and go wrong later.
    let good = to_vec(&blob_value(0, 32, Some(16), CborValue::Array(vec![]))).unwrap();
    for cut in 0..good.len() {
        assert_eq!(EncryptedKeyBlob::new(&good[..cut]), invalid);
    }
    for i in 0..good.len() {
        let mut altered = good.clone();
        altered[i] ^= 0xff;
        let _ = EncryptedKeyBlob::new(&altered);
    }
}

#[test]
fn requests_round_trip() {
    let token = HardwareAuthToken { challenge: 1, user_id: -2, authenticator_id: 3, authenticator_type: HardwareAuthenticatorType::Password, timestamp: Timestamp { milliseconds: 4 }, mac: vec![5] };
    let requests = vec![
        PerformOpReq::DeviceBegin(BeginRequest { purpose: KeyPurpose::Sign, key_blob: vec![1], params: sample_params(), auth_token: Some(token.clone()) }),
        PerformOpReq::DeviceGenerateKey(GenerateKeyRequest {
            key_params: sample_params(),
            attestation_key: Some(AttestationKey { key_blob: vec![1], attest_key_params: vec![KeyParam::NoAuthRequired], issuer_subject_name: vec![2] }),
        }),
        PerformOpReq::OperationFinish(FinishRequest {
            op_handle: -9,
            input: Some(vec![]),
            signature: None,
            auth_token: None,
            timestamp_token: Some(TimeStampToken { challenge: 1, timestamp: Timestamp { milliseconds: 2 }, mac: vec![3] }),
            confirmation_token: Some(vec![1, 2]),
        }),
    ];
    for req in requests {
        let bytes = req.into_vec().unwrap();
        assert_eq!(PerformOpReq::from_slice(&bytes), Ok(req.clone()));
        assert_eq!(req.duplicate(), req);
        assert_eq!(KeyMintOperation::from_cbor_value(&match from_slice(&bytes).unwrap() {
            CborValue::Array(a) => a.into_iter().next().unwrap(),
            other => panic!("unexpected {:?}", other),
        }), Ok(req.code()));
    }
    // The payload must be that of the operation.
    let begin = PerformOpReq::DeviceBegin(BeginRequest { purpose: KeyPurpose::Sign, key_blob: vec![], params: vec![], auth_token: None });
    let mut bytes = begin.into_vec().unwrap();
    assert_eq!(bytes[1..3], [0x18, 0x1a]);
    bytes[2] = 0x17;
    assert_eq!(PerformOpReq::from_slice(&bytes), Err(CborError::UnexpectedItem));
    bytes[2] = 0x10;
    assert_eq!(PerformOpReq::from_slice(&bytes), Err(CborError::NonEnumValue));
}

#[test]
fn responses_round_trip() {
    let responses = vec![
        PerformOpResponse { error_code: ErrorCode::Success, rsp: Some(PerformOpRsp::GetRootOfTrustChallenge(GetRootOfTrustChallengeResponse { ret: [7; 16] })) },
        PerformOpResponse { error_code: ErrorCode::TooManyOperations, rsp: None },
    ];
    for rsp in responses {
        let bytes = rsp.into_vec().unwrap();
        assert_eq!(PerformOpResponse::from_slice(&bytes), Ok(rsp));
    }
    assert_eq!(PerformOpResponse { error_code: ErrorCode::UnknownError, rsp: None }.into_vec(), Ok(vec![0x82, 0x39, 0x03, 0xe7, 0x80]));
    let short = PerformOpResponse { error_code: ErrorCode::Success, rsp: Some(PerformOpRsp::GetRootOfTrustChallenge(GetRootOfTrustChallengeResponse { ret: [7; 16] })) };
    let mut bytes = short.into_vec().unwrap();
    // One byte less in the challenge.
    let at = bytes.iter().position(|b| *b == 0x50).unwrap();
    bytes[at] = 0x4f;
    bytes.pop();
    assert_eq!(PerformOpResponse::from_slice(&bytes), Err(CborError::UnexpectedItem));
}

#[test]
fn structures_with_text_round_trip() {
    let info = KeyMintHardwareInfo { version_number: -1, security_level: SecurityLevel::Strongbox, key_mint_name: "name".to_string(), key_mint_author_name: String::new(), timestamp_token_required: true };
    assert_eq!(KeyMintHardwareInfo::from_cbor_value(&info.to_cbor_value()), Ok(info.clone()));
    assert_eq!(to_vec(&info.to_cbor_value()).unwrap(), vec![0x85, 0x20, 0x02, 0x64, b'n', b'a', b'm', b'e', 0x60, 0xf5]);
    for unique_id in [None, Some("id".to_string())] {
        let rpc = RpcHardwareInfo { version_number: 3, rpc_author_name: "a".to_string(), supported_eek_curve: EekCurve::Curve25519, unique_id, supported_num_keys_in_csr: 20 };
        assert_eq!(RpcHardwareInfo::from_cbor_value(&rpc.to_cbor_value()), Ok(rpc));
    }
}
