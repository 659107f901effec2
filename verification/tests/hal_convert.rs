use keymint_ta::hal::{
    convert_params, failed_conversion, tag_type, AttestationKey, ErrorCode, Fromm,
    HardwareAuthToken, HardwareAuthenticatorType, Innto, KeyCharacteristics, KeyParameter,
    KeyParameterValue, KeyPurpose, SecurityLevel, Tag, TagType, Timestamp, TryFromm, TryInnto,
    ValueNotRecognized,
};
use keymint_ta::wire;
use keymint_ta::wire::params::{DateTime, KeyParam, KeySizeInBits, RsaExponent};

#[test]
fn failed_conversion_picks_specific_code() {
    assert_eq!(failed_conversion(ValueNotRecognized::KeyPurpose), ErrorCode(-2));
    assert_eq!(failed_conversion(ValueNotRecognized::Algorithm), ErrorCode(-4));
    assert_eq!(failed_conversion(ValueNotRecognized::BlockMode), ErrorCode(-7));
    assert_eq!(failed_conversion(ValueNotRecognized::PaddingMode), ErrorCode(-10));
    assert_eq!(failed_conversion(ValueNotRecognized::Digest), ErrorCode(-12));
    assert_eq!(failed_conversion(ValueNotRecognized::KeyFormat), ErrorCode(-17));
    assert_eq!(failed_conversion(ValueNotRecognized::EcCurve), ErrorCode(-61));
    for other in [ValueNotRecognized::Tag, ValueNotRecognized::Bool, ValueNotRecognized::Blob, ValueNotRecognized::KeyOrigin, ValueNotRecognized::SecurityLevel, ValueNotRecognized::Integer] {
        assert_eq!(failed_conversion(other), ErrorCode(-38));
    }
}

#[test]
fn tag_type_reads_top_four_bits() {
    assert_eq!(tag_type(Tag(0x2000_0001)), TagType(0x2000_0000));
    assert_eq!(tag_type(Tag(0x1000_0002)), TagType(0x1000_0000));
    assert_eq!(tag_type(Tag(0x3000_0003)), TagType(0x3000_0000));
    assert_eq!(tag_type(Tag(0x7000_012f)), TagType(0x7000_0000));
    assert_eq!(tag_type(Tag(0x9000_0259u32 as i32)), TagType(0x9000_0000u32 as i32));
    assert_eq!(tag_type(Tag(0xa000_01f6u32 as i32)), TagType(0xa000_0000u32 as i32));
    assert_eq!(tag_type(Tag(0x8000_03eeu32 as i32)), TagType(0x8000_0000u32 as i32));
    assert_eq!(tag_type(Tag(0)), TagType(0));
    assert_eq!(tag_type(Tag(5)), TagType(0));
    // Top bits that stand for no kind.
    assert_eq!(tag_type(Tag(0xb000_0001u32 as i32)), TagType(0));
    assert_eq!(tag_type(Tag(-1)), TagType(0));
}

#[test]
fn enumerations_widen_and_narrow() {
    let hal: KeyPurpose = wire::keymint::KeyPurpose::WrapKey.innto();
    assert_eq!(hal, KeyPurpose(5));
    assert_eq!(wire::keymint::KeyPurpose::try_fromm(KeyPurpose(5)), Ok(wire::keymint::KeyPurpose::WrapKey));
    assert_eq!(wire::keymint::KeyPurpose::try_fromm(KeyPurpose(4)), Err(ValueNotRecognized::KeyPurpose));
    let level: Result<wire::keymint::SecurityLevel, _> = SecurityLevel(100).try_innto();
    assert_eq!(level, Ok(wire::keymint::SecurityLevel::Keystore));
    let level: Result<wire::keymint::SecurityLevel, _> = SecurityLevel(3).try_innto();
    assert_eq!(level, Err(ValueNotRecognized::SecurityLevel));
    assert_eq!(ErrorCode::fromm(wire::keymint::ErrorCode::UnknownError), ErrorCode(-1000));
    assert_eq!(Tag::fromm(wire::keymint::Tag::ApplicationId), Tag(0x9000_0259u32 as i32));
}

fn pairs() -> Vec<(KeyParam, KeyParameter)> {
    let p = |tag: u32, value| KeyParameter { tag: Tag(tag as i32), value };
    vec![
        (KeyParam::Purpose(wire::keymint::KeyPurpose::Sign), p(0x2000_0001, KeyParameterValue::KeyPurpose(KeyPurpose(2)))),
        (KeyParam::Algorithm(wire::keymint::Algorithm::Ec), p(0x1000_0002, KeyParameterValue::Algorithm(keymint_ta::hal::Algorithm(3)))),
        (KeyParam::Padding(wire::keymint::PaddingMode::Pkcs7), p(0x2000_0006, KeyParameterValue::PaddingMode(keymint_ta::hal::PaddingMode(64)))),
        (KeyParam::RsaOaepMgfDigest(wire::keymint::Digest::Sha512), p(0x2000_00cb, KeyParameterValue::Digest(keymint_ta::hal::Digest(6)))),
        (KeyParam::Origin(wire::keymint::KeyOrigin::Imported), p(0x1000_02be, KeyParameterValue::Origin(keymint_ta::hal::KeyOrigin(2)))),
        (KeyParam::KeySize(KeySizeInBits(256)), p(0x3000_0003, KeyParameterValue::Integer(256))),
        (KeyParam::UsageCountLimit(1), p(0x3000_0195, KeyParameterValue::Integer(1))),
        (KeyParam::UserAuthType(3), p(0x1000_01f8, KeyParameterValue::HardwareAuthenticatorType(HardwareAuthenticatorType(3)))),
        (KeyParam::OsVersion(u32::MAX), p(0x3000_02c1, KeyParameterValue::Integer(-1))),
        (KeyParam::RsaPublicExponent(RsaExponent(65537)), p(0x5000_00c8, KeyParameterValue::LongInteger(65537))),
        (KeyParam::UserSecureId(u64::MAX), p(0xa000_01f6, KeyParameterValue::LongInteger(-1))),
        (KeyParam::RollbackResistance, p(0x7000_012f, KeyParameterValue::BoolValue(true))),
        (KeyParam::CreationDatetime(DateTime { ms_since_epoch: -7 }), p(0x6000_02bd, KeyParameterValue::DateTime(-7))),
        (KeyParam::ApplicationId(vec![1, 2]), p(0x9000_0259, KeyParameterValue::Blob(vec![1, 2]))),
        (KeyParam::CertificateSerial(vec![3]), p(0x8000_03ee, KeyParameterValue::Blob(vec![3]))),
    ]
}

#[test]
fn key_params_convert_both_ways() {
    for (wire_param, hal_param) in pairs() {
        assert_eq!(KeyParameter::fromm(wire_param.clone()), hal_param);
        assert_eq!(<Option<KeyParam>>::try_fromm(&hal_param), Ok(Some(wire_param)));
    }
}

#[test]
fn key_param_conversion_can_fail_or_drop() {
    let p = |tag: u32, value| KeyParameter { tag: Tag(tag as i32), value };
    let convert = |param: KeyParameter| <Option<KeyParam>>::try_fromm(&param);
    // A value of another kind than the tag carries.
    assert_eq!(convert(p(0x2000_0001, KeyParameterValue::Integer(2))), Err(ValueNotRecognized::KeyPurpose));
    assert_eq!(convert(p(0x2000_0006, KeyParameterValue::Integer(1))), Err(ValueNotRecognized::PaddingMode));
    assert_eq!(convert(p(0x1000_02be, KeyParameterValue::Integer(1))), Err(ValueNotRecognized::Origin));
    assert_eq!(convert(p(0x3000_0003, KeyParameterValue::LongInteger(2))), Err(ValueNotRecognized::Integer));
    assert_eq!(convert(p(0xa000_01f6, KeyParameterValue::Integer(2))), Err(ValueNotRecognized::LongInteger));
    assert_eq!(convert(p(0x6000_02bd, KeyParameterValue::Integer(2))), Err(ValueNotRecognized::DateTime));
    assert_eq!(convert(p(0x9000_0259, KeyParameterValue::Integer(2))), Err(ValueNotRecognized::Blob));
    assert_eq!(convert(p(0x1000_01f8, KeyParameterValue::Integer(2))), Err(ValueNotRecognized::HardwareAuthenticatorType));
    // A number that is no value of the enumeration.
    assert_eq!(convert(p(0x2000_0001, KeyParameterValue::KeyPurpose(KeyPurpose(4)))), Err(ValueNotRecognized::KeyPurpose));
    assert_eq!(convert(p(0x1000_02be, KeyParameterValue::Origin(keymint_ta::hal::KeyOrigin(9)))), Err(ValueNotRecognized::KeyOrigin));
    // A marker must be true.
    assert_eq!(convert(p(0x7000_012f, KeyParameterValue::BoolValue(false))), Err(ValueNotRecognized::Bool));
    assert_eq!(convert(p(0x7000_012f, KeyParameterValue::Integer(1))), Err(ValueNotRecognized::Bool));
    // Tags that are known and not supported.
    for tag in [0x9000_02c3u32, 0x1000_0130, 0x3000_0193, 0x7000_02d1, 0x9000_03e8, 0x9000_03ed] {
        assert_eq!(convert(p(tag, KeyParameterValue::Integer(0))), Err(ValueNotRecognized::Tag));
    }
    // Tags that are not known are dropped.
    assert_eq!(convert(p(0, KeyParameterValue::Invalid(0))), Ok(None));
    assert_eq!(convert(p(0x3000_ffff, KeyParameterValue::Integer(0))), Ok(None));
    assert_eq!(convert(p(0x9000_02d3, KeyParameterValue::Blob(vec![]))), Ok(None));
}

#[test]
fn lists_and_structures_convert() {
    let chars = wire::characteristics::KeyCharacteristics {
        security_level: wire::keymint::SecurityLevel::Strongbox,
        authorizations: pairs().into_iter().map(|(w, _)| w).collect(),
    };
    let hal = KeyCharacteristics::fromm(chars);
    assert_eq!(hal.security_level, SecurityLevel(2));
    assert_eq!(hal.authorizations, pairs().into_iter().map(|(_, h)| h).collect::<Vec<_>>());
    let none: Vec<KeyParameter> = Vec::<KeyParam>::new().innto();
    assert!(none.is_empty());

    let mut params: Vec<KeyParameter> = pairs().into_iter().map(|(_, h)| h).collect();
    params.insert(1, KeyParameter { tag: Tag(0x3000_ffff), value: KeyParameterValue::Integer(0) });
    assert_eq!(convert_params(&params), Ok(pairs().into_iter().map(|(w, _)| w).collect()));
    params.push(KeyParameter { tag: Tag(0x7000_012f), value: KeyParameterValue::BoolValue(false) });
    params.push(KeyParameter { tag: Tag(0x2000_0001), value: KeyParameterValue::Integer(0) });
    assert_eq!(convert_params(&params), Err(ValueNotRecognized::Bool));

    let key = AttestationKey { key_blob: vec![1], attest_key_params: params[..3].to_vec(), issuer_subject_name: vec![2] };
    let converted = wire::types::AttestationKey::try_fromm(key).unwrap();
    assert_eq!(converted.attest_key_params.len(), 2);
    assert_eq!((converted.key_blob, converted.issuer_subject_name), (vec![1], vec![2]));
    let key = AttestationKey { key_blob: vec![], attest_key_params: params, issuer_subject_name: vec![] };
    assert_eq!(wire::types::AttestationKey::try_fromm(key), Err(ValueNotRecognized::Bool));
}

#[test]
fn auth_token_converts() {
    let hal = HardwareAuthToken { challenge: 1, user_id: 2, authenticator_id: 3, authenticator_type: HardwareAuthenticatorType(-1), timestamp: Timestamp { milli_seconds: 4 }, mac: vec![5] };
    let wire_token = wire::types::HardwareAuthToken::try_fromm(hal.clone()).unwrap();
    assert_eq!(wire_token.authenticator_type, wire::keymint::HardwareAuthenticatorType::Any);
    assert_eq!((wire_token.challenge, wire_token.user_id, wire_token.authenticator_id, wire_token.timestamp.milliseconds), (1, 2, 3, 4));
    assert_eq!(HardwareAuthToken::fromm(wire_token), hal);
    let unknown = HardwareAuthToken { authenticator_type: HardwareAuthenticatorType(3), ..hal };
    assert_eq!(wire::types::HardwareAuthToken::try_fromm(unknown), Err(ValueNotRecognized::HardwareAuthenticatorType));
}
