//! Key parameters and key characteristics, and their CBOR form.
//!
//! A key parameter is written as the two-element array of its tag number and
//! its value; a parameter that only marks a property has the value `true`.

use crate::bytes::copy_bytes;
use crate::cbor::{
    array_value, bool_of, bytes_of, bytes_value, i64_of, items_of, result_view, tuple_of, u32_of,
    u64_of, value_bool, value_bytes, value_i64, value_tuple, value_u32, value_u64, CborError,
    CborValue, Item,
};
use crate::wire::keymint::{
    Algorithm, BlockMode, Digest, EcCurve, KeyOrigin, KeyPurpose, PaddingMode, Tag,
};
use vstd::prelude::*;

verus! {

/// Size of a key in bits.
#[derive(Clone, Copy, Debug, PartialEq, Eq, Structural)]
pub struct KeySizeInBits(pub u32);

impl KeySizeInBits {
    /// The one-element array that holds the size.
    pub open spec fn item(self) -> Item {
        Item::Array(seq![Item::Integer(self.0 as int)])
    }

    /// What [`Self::from_cbor_value`] makes of an item.
    pub open spec fn from_item(item: Item) -> Result<KeySizeInBits, CborError> {
        match tuple_of(item, 1) {
            Err(e) => Err(e),
            Ok(a) => match u32_of(a[0]) {
                Err(e) => Err(e),
                Ok(n) => Ok(KeySizeInBits(n)),
            },
        }
    }

    /// Writes the size as a one-element array.
    pub fn to_cbor_value(self) -> (r: CborValue)
        ensures
            r@ == self.item(),
    {
        let mut a: Vec<CborValue> = Vec::new();
        a.push(CborValue::Integer(self.0 as i128));
        assert(items_of(a@) =~= seq![Item::Integer(self.0 as int)]);
        array_value(a)
    }

    /// Reads the size from a one-element array.
    pub fn from_cbor_value(v: &CborValue) -> (r: Result<KeySizeInBits, CborError>)
        ensures
            r == Self::from_item(v@),
    {
        match value_tuple(v, 1) {
            Err(e) => Err(e),
            Ok(a) => match value_u32(&a[0]) {
                Err(e) => Err(e),
                Ok(n) => Ok(KeySizeInBits(n)),
            },
        }
    }
}

/// Public exponent of an RSA key.
#[derive(Clone, Copy, Debug, PartialEq, Eq, Structural)]
pub struct RsaExponent(pub u64);

impl RsaExponent {
    /// The one-element array that holds the exponent.
    pub open spec fn item(self) -> Item {
        Item::Array(seq![Item::Integer(self.0 as int)])
    }

    /// What [`Self::from_cbor_value`] makes of an item.
    pub open spec fn from_item(item: Item) -> Result<RsaExponent, CborError> {
        match tuple_of(item, 1) {
            Err(e) => Err(e),
            Ok(a) => match u64_of(a[0]) {
                Err(e) => Err(e),
                Ok(n) => Ok(RsaExponent(n)),
            },
        }
    }

    /// Writes the exponent as a one-element array.
    pub fn to_cbor_value(self) -> (r: CborValue)
        ensures
            r@ == self.item(),
    {
        let mut a: Vec<CborValue> = Vec::new();
        a.push(CborValue::Integer(self.0 as i128));
        assert(items_of(a@) =~= seq![Item::Integer(self.0 as int)]);
        array_value(a)
    }

    /// Reads the exponent from a one-element array.
    pub fn from_cbor_value(v: &CborValue) -> (r: Result<RsaExponent, CborError>)
        ensures
            r == Self::from_item(v@),
    {
        match value_tuple(v, 1) {
            Err(e) => Err(e),
            Ok(a) => match value_u64(&a[0]) {
                Err(e) => Err(e),
                Ok(n) => Ok(RsaExponent(n)),
            },
        }
    }
}

/// A point in time, in milliseconds since the Unix epoch.
#[derive(Clone, Copy, Debug, PartialEq, Eq, Structural)]
pub struct DateTime {
    pub ms_since_epoch: i64,
}

impl DateTime {
    /// The one-element array that holds the time.
    pub open spec fn item(self) -> Item {
        Item::Array(seq![Item::Integer(self.ms_since_epoch as int)])
    }

    /// What [`Self::from_cbor_value`] makes of an item.
    pub open spec fn from_item(item: Item) -> Result<DateTime, CborError> {
        match tuple_of(item, 1) {
            Err(e) => Err(e),
            Ok(a) => match i64_of(a[0]) {
                Err(e) => Err(e),
                Ok(n) => Ok(DateTime { ms_since_epoch: n }),
            },
        }
    }

    /// Writes the time as a one-element array.
    pub fn to_cbor_value(self) -> (r: CborValue)
        ensures
            r@ == self.item(),
    {
        let mut a: Vec<CborValue> = Vec::new();
        a.push(CborValue::Integer(self.ms_since_epoch as i128));
        assert(items_of(a@) =~= seq![Item::Integer(self.ms_since_epoch as int)]);
        array_value(a)
    }

    /// Reads the time from a one-element array.
    pub fn from_cbor_value(v: &CborValue) -> (r: Result<DateTime, CborError>)
        ensures
            r == Self::from_item(v@),
    {
        match value_tuple(v, 1) {
            Err(e) => Err(e),
            Ok(a) => match value_i64(&a[0]) {
                Err(e) => Err(e),
                Ok(n) => Ok(DateTime { ms_since_epoch: n }),
            },
        }
    }
}

/// A key parameter: an authorization or a property that is bound to a key.
#[derive(Clone, Debug, PartialEq, Eq)]
pub enum KeyParam {
    Purpose(KeyPurpose),
    Algorithm(Algorithm),
    BlockMode(BlockMode),
    Digest(Digest),
    Padding(PaddingMode),
    EcCurve(EcCurve),
    RsaOaepMgfDigest(Digest),
    Origin(KeyOrigin),
    KeySize(KeySizeInBits),
    MinMacLength(u32),
    MaxUsesPerBoot(u32),
    UsageCountLimit(u32),
    UserId(u32),
    UserAuthType(u32),
    AuthTimeout(u32),
    OsVersion(u32),
    OsPatchlevel(u32),
    VendorPatchlevel(u32),
    BootPatchlevel(u32),
    MacLength(u32),
    MaxBootLevel(u32),
    RsaPublicExponent(RsaExponent),
    UserSecureId(u64),
    CallerNonce,
    IncludeUniqueId,
    BootloaderOnly,
    RollbackResistance,
    EarlyBootOnly,
    AllowWhileOnBody,
    NoAuthRequired,
    TrustedUserPresenceRequired,
    TrustedConfirmationRequired,
    UnlockedDeviceRequired,
    DeviceUniqueAttestation,
    StorageKey,
    ResetSinceIdRotation,
    ActiveDatetime(DateTime),
    OriginationExpireDatetime(DateTime),
    UsageExpireDatetime(DateTime),
    CreationDatetime(DateTime),
    CertificateNotBefore(DateTime),
    CertificateNotAfter(DateTime),
    ApplicationId(Vec<u8>),
    ApplicationData(Vec<u8>),
    AttestationChallenge(Vec<u8>),
    AttestationApplicationId(Vec<u8>),
    AttestationIdBrand(Vec<u8>),
    AttestationIdDevice(Vec<u8>),
    AttestationIdProduct(Vec<u8>),
    AttestationIdSerial(Vec<u8>),
    AttestationIdImei(Vec<u8>),
    AttestationIdMeid(Vec<u8>),
    AttestationIdManufacturer(Vec<u8>),
    AttestationIdModel(Vec<u8>),
    Nonce(Vec<u8>),
    RootOfTrust(Vec<u8>),
    CertificateSerial(Vec<u8>),
    CertificateSubject(Vec<u8>),
}

/// The content of a [`KeyParam`], with byte strings as sequences.
pub ghost enum KeyParamView {
    Purpose(KeyPurpose),
    Algorithm(Algorithm),
    BlockMode(BlockMode),
    Digest(Digest),
    Padding(PaddingMode),
    EcCurve(EcCurve),
    RsaOaepMgfDigest(Digest),
    Origin(KeyOrigin),
    KeySize(KeySizeInBits),
    MinMacLength(u32),
    MaxUsesPerBoot(u32),
    UsageCountLimit(u32),
    UserId(u32),
    UserAuthType(u32),
    AuthTimeout(u32),
    OsVersion(u32),
    OsPatchlevel(u32),
    VendorPatchlevel(u32),
    BootPatchlevel(u32),
    MacLength(u32),
    MaxBootLevel(u32),
    RsaPublicExponent(RsaExponent),
    UserSecureId(u64),
    CallerNonce,
    IncludeUniqueId,
    BootloaderOnly,
    RollbackResistance,
    EarlyBootOnly,
    AllowWhileOnBody,
    NoAuthRequired,
    TrustedUserPresenceRequired,
    TrustedConfirmationRequired,
    UnlockedDeviceRequired,
    DeviceUniqueAttestation,
    StorageKey,
    ResetSinceIdRotation,
    ActiveDatetime(DateTime),
    OriginationExpireDatetime(DateTime),
    UsageExpireDatetime(DateTime),
    CreationDatetime(DateTime),
    CertificateNotBefore(DateTime),
    CertificateNotAfter(DateTime),
    ApplicationId(Seq<u8>),
    ApplicationData(Seq<u8>),
    AttestationChallenge(Seq<u8>),
    AttestationApplicationId(Seq<u8>),
    AttestationIdBrand(Seq<u8>),
    AttestationIdDevice(Seq<u8>),
    AttestationIdProduct(Seq<u8>),
    AttestationIdSerial(Seq<u8>),
    AttestationIdImei(Seq<u8>),
    AttestationIdMeid(Seq<u8>),
    AttestationIdManufacturer(Seq<u8>),
    AttestationIdModel(Seq<u8>),
    Nonce(Seq<u8>),
    RootOfTrust(Seq<u8>),
    CertificateSerial(Seq<u8>),
    CertificateSubject(Seq<u8>),
}

impl View for KeyParam {
    type V = KeyParamView;

    open spec fn view(&self) -> KeyParamView {
        match self {
            KeyParam::Purpose(v) => KeyParamView::Purpose(*v),
            KeyParam::Algorithm(v) => KeyParamView::Algorithm(*v),
            KeyParam::BlockMode(v) => KeyParamView::BlockMode(*v),
            KeyParam::Digest(v) => KeyParamView::Digest(*v),
            KeyParam::Padding(v) => KeyParamView::Padding(*v),
            KeyParam::EcCurve(v) => KeyParamView::EcCurve(*v),
            KeyParam::RsaOaepMgfDigest(v) => KeyParamView::RsaOaepMgfDigest(*v),
            KeyParam::Origin(v) => KeyParamView::Origin(*v),
            KeyParam::KeySize(v) => KeyParamView::KeySize(*v),
            KeyParam::MinMacLength(v) => KeyParamView::MinMacLength(*v),
            KeyParam::MaxUsesPerBoot(v) => KeyParamView::MaxUsesPerBoot(*v),
            KeyParam::UsageCountLimit(v) => KeyParamView::UsageCountLimit(*v),
            KeyParam::UserId(v) => KeyParamView::UserId(*v),
            KeyParam::UserAuthType(v) => KeyParamView::UserAuthType(*v),
            KeyParam::AuthTimeout(v) => KeyParamView::AuthTimeout(*v),
            KeyParam::OsVersion(v) => KeyParamView::OsVersion(*v),
            KeyParam::OsPatchlevel(v) => KeyParamView::OsPatchlevel(*v),
            KeyParam::VendorPatchlevel(v) => KeyParamView::VendorPatchlevel(*v),
            KeyParam::BootPatchlevel(v) => KeyParamView::BootPatchlevel(*v),
            KeyParam::MacLength(v) => KeyParamView::MacLength(*v),
            KeyParam::MaxBootLevel(v) => KeyParamView::MaxBootLevel(*v),
            KeyParam::RsaPublicExponent(v) => KeyParamView::RsaPublicExponent(*v),
            KeyParam::UserSecureId(v) => KeyParamView::UserSecureId(*v),
            KeyParam::CallerNonce => KeyParamView::CallerNonce,
            KeyParam::IncludeUniqueId => KeyParamView::IncludeUniqueId,
            KeyParam::BootloaderOnly => KeyParamView::BootloaderOnly,
            KeyParam::RollbackResistance => KeyParamView::RollbackResistance,
            KeyParam::EarlyBootOnly => KeyParamView::EarlyBootOnly,
            KeyParam::AllowWhileOnBody => KeyParamView::AllowWhileOnBody,
            KeyParam::NoAuthRequired => KeyParamView::NoAuthRequired,
            KeyParam::TrustedUserPresenceRequired => KeyParamView::TrustedUserPresenceRequired,
            KeyParam::TrustedConfirmationRequired => KeyParamView::TrustedConfirmationRequired,
            KeyParam::UnlockedDeviceRequired => KeyParamView::UnlockedDeviceRequired,
            KeyParam::DeviceUniqueAttestation => KeyParamView::DeviceUniqueAttestation,
            KeyParam::StorageKey => KeyParamView::StorageKey,
            KeyParam::ResetSinceIdRotation => KeyParamView::ResetSinceIdRotation,
            KeyParam::ActiveDatetime(v) => KeyParamView::ActiveDatetime(*v),
            KeyParam::OriginationExpireDatetime(v) => KeyParamView::OriginationExpireDatetime(*v),
            KeyParam::UsageExpireDatetime(v) => KeyParamView::UsageExpireDatetime(*v),
            KeyParam::CreationDatetime(v) => KeyParamView::CreationDatetime(*v),
            KeyParam::CertificateNotBefore(v) => KeyParamView::CertificateNotBefore(*v),
            KeyParam::CertificateNotAfter(v) => KeyParamView::CertificateNotAfter(*v),
            KeyParam::ApplicationId(v) => KeyParamView::ApplicationId(v@),
            KeyParam::ApplicationData(v) => KeyParamView::ApplicationData(v@),
            KeyParam::AttestationChallenge(v) => KeyParamView::AttestationChallenge(v@),
            KeyParam::AttestationApplicationId(v) => KeyParamView::AttestationApplicationId(v@),
            KeyParam::AttestationIdBrand(v) => KeyParamView::AttestationIdBrand(v@),
            KeyParam::AttestationIdDevice(v) => KeyParamView::AttestationIdDevice(v@),
            KeyParam::AttestationIdProduct(v) => KeyParamView::AttestationIdProduct(v@),
            KeyParam::AttestationIdSerial(v) => KeyParamView::AttestationIdSerial(v@),
            KeyParam::AttestationIdImei(v) => KeyParamView::AttestationIdImei(v@),
            KeyParam::AttestationIdMeid(v) => KeyParamView::AttestationIdMeid(v@),
            KeyParam::AttestationIdManufacturer(v) => KeyParamView::AttestationIdManufacturer(v@),
            KeyParam::AttestationIdModel(v) => KeyParamView::AttestationIdModel(v@),
            KeyParam::Nonce(v) => KeyParamView::Nonce(v@),
            KeyParam::RootOfTrust(v) => KeyParamView::RootOfTrust(v@),
            KeyParam::CertificateSerial(v) => KeyParamView::CertificateSerial(v@),
            KeyParam::CertificateSubject(v) => KeyParamView::CertificateSubject(v@),
        }
    }
}

impl KeyParamView {
    /// The tag that identifies the parameter.
    pub open spec fn tag(self) -> Tag {
        match self {
            KeyParamView::Purpose(_) => Tag::Purpose,
            KeyParamView::Algorithm(_) => Tag::Algorithm,
            KeyParamView::BlockMode(_) => Tag::BlockMode,
            KeyParamView::Digest(_) => Tag::Digest,
            KeyParamView::Padding(_) => Tag::Padding,
            KeyParamView::EcCurve(_) => Tag::EcCurve,
            KeyParamView::RsaOaepMgfDigest(_) => Tag::RsaOaepMgfDigest,
            KeyParamView::Origin(_) => Tag::Origin,
            KeyParamView::KeySize(_) => Tag::KeySize,
            KeyParamView::MinMacLength(_) => Tag::MinMacLength,
            KeyParamView::MaxUsesPerBoot(_) => Tag::MaxUsesPerBoot,
            KeyParamView::UsageCountLimit(_) => Tag::UsageCountLimit,
            KeyParamView::UserId(_) => Tag::UserId,
            KeyParamView::UserAuthType(_) => Tag::UserAuthType,
            KeyParamView::AuthTimeout(_) => Tag::AuthTimeout,
            KeyParamView::OsVersion(_) => Tag::OsVersion,
            KeyParamView::OsPatchlevel(_) => Tag::OsPatchlevel,
            KeyParamView::VendorPatchlevel(_) => Tag::VendorPatchlevel,
            KeyParamView::BootPatchlevel(_) => Tag::BootPatchlevel,
            KeyParamView::MacLength(_) => Tag::MacLength,
            KeyParamView::MaxBootLevel(_) => Tag::MaxBootLevel,
            KeyParamView::RsaPublicExponent(_) => Tag::RsaPublicExponent,
            KeyParamView::UserSecureId(_) => Tag::UserSecureId,
            KeyParamView::CallerNonce => Tag::CallerNonce,
            KeyParamView::IncludeUniqueId => Tag::IncludeUniqueId,
            KeyParamView::BootloaderOnly => Tag::BootloaderOnly,
            KeyParamView::RollbackResistance => Tag::RollbackResistance,
            KeyParamView::EarlyBootOnly => Tag::EarlyBootOnly,
            KeyParamView::AllowWhileOnBody => Tag::AllowWhileOnBody,
            KeyParamView::NoAuthRequired => Tag::NoAuthRequired,
            KeyParamView::TrustedUserPresenceRequired => Tag::TrustedUserPresenceRequired,
            KeyParamView::TrustedConfirmationRequired => Tag::TrustedConfirmationRequired,
            KeyParamView::UnlockedDeviceRequired => Tag::UnlockedDeviceRequired,
            KeyParamView::DeviceUniqueAttestation => Tag::DeviceUniqueAttestation,
            KeyParamView::StorageKey => Tag::StorageKey,
            KeyParamView::ResetSinceIdRotation => Tag::ResetSinceIdRotation,
            KeyParamView::ActiveDatetime(_) => Tag::ActiveDatetime,
            KeyParamView::OriginationExpireDatetime(_) => Tag::OriginationExpireDatetime,
            KeyParamView::UsageExpireDatetime(_) => Tag::UsageExpireDatetime,
            KeyParamView::CreationDatetime(_) => Tag::CreationDatetime,
            KeyParamView::CertificateNotBefore(_) => Tag::CertificateNotBefore,
            KeyParamView::CertificateNotAfter(_) => Tag::CertificateNotAfter,
            KeyParamView::ApplicationId(_) => Tag::ApplicationId,
            KeyParamView::ApplicationData(_) => Tag::ApplicationData,
            KeyParamView::AttestationChallenge(_) => Tag::AttestationChallenge,
            KeyParamView::AttestationApplicationId(_) => Tag::AttestationApplicationId,
            KeyParamView::AttestationIdBrand(_) => Tag::AttestationIdBrand,
            KeyParamView::AttestationIdDevice(_) => Tag::AttestationIdDevice,
            KeyParamView::AttestationIdProduct(_) => Tag::AttestationIdProduct,
            KeyParamView::AttestationIdSerial(_) => Tag::AttestationIdSerial,
            KeyParamView::AttestationIdImei(_) => Tag::AttestationIdImei,
            KeyParamView::AttestationIdMeid(_) => Tag::AttestationIdMeid,
            KeyParamView::AttestationIdManufacturer(_) => Tag::AttestationIdManufacturer,
            KeyParamView::AttestationIdModel(_) => Tag::AttestationIdModel,
            KeyParamView::Nonce(_) => Tag::Nonce,
            KeyParamView::RootOfTrust(_) => Tag::RootOfTrust,
            KeyParamView::CertificateSerial(_) => Tag::CertificateSerial,
            KeyParamView::CertificateSubject(_) => Tag::CertificateSubject,
        }
    }

    /// The item that holds the parameter's value.
    pub open spec fn payload(self) -> Item {
        match self {
            KeyParamView::Purpose(v) => Item::Integer(v.code()),
            KeyParamView::Algorithm(v) => Item::Integer(v.code()),
            KeyParamView::BlockMode(v) => Item::Integer(v.code()),
            KeyParamView::Digest(v) => Item::Integer(v.code()),
            KeyParamView::Padding(v) => Item::Integer(v.code()),
            KeyParamView::EcCurve(v) => Item::Integer(v.code()),
            KeyParamView::RsaOaepMgfDigest(v) => Item::Integer(v.code()),
            KeyParamView::Origin(v) => Item::Integer(v.code()),
            KeyParamView::KeySize(v) => v.item(),
            KeyParamView::MinMacLength(v) => Item::Integer(v as int),
            KeyParamView::MaxUsesPerBoot(v) => Item::Integer(v as int),
            KeyParamView::UsageCountLimit(v) => Item::Integer(v as int),
            KeyParamView::UserId(v) => Item::Integer(v as int),
            KeyParamView::UserAuthType(v) => Item::Integer(v as int),
            KeyParamView::AuthTimeout(v) => Item::Integer(v as int),
            KeyParamView::OsVersion(v) => Item::Integer(v as int),
            KeyParamView::OsPatchlevel(v) => Item::Integer(v as int),
            KeyParamView::VendorPatchlevel(v) => Item::Integer(v as int),
            KeyParamView::BootPatchlevel(v) => Item::Integer(v as int),
            KeyParamView::MacLength(v) => Item::Integer(v as int),
            KeyParamView::MaxBootLevel(v) => Item::Integer(v as int),
            KeyParamView::RsaPublicExponent(v) => v.item(),
            KeyParamView::UserSecureId(v) => Item::Integer(v as int),
            KeyParamView::CallerNonce => Item::Bool(true),
            KeyParamView::IncludeUniqueId => Item::Bool(true),
            KeyParamView::BootloaderOnly => Item::Bool(true),
            KeyParamView::RollbackResistance => Item::Bool(true),
            KeyParamView::EarlyBootOnly => Item::Bool(true),
            KeyParamView::AllowWhileOnBody => Item::Bool(true),
            KeyParamView::NoAuthRequired => Item::Bool(true),
            KeyParamView::TrustedUserPresenceRequired => Item::Bool(true),
            KeyParamView::TrustedConfirmationRequired => Item::Bool(true),
            KeyParamView::UnlockedDeviceRequired => Item::Bool(true),
            KeyParamView::DeviceUniqueAttestation => Item::Bool(true),
            KeyParamView::StorageKey => Item::Bool(true),
            KeyParamView::ResetSinceIdRotation => Item::Bool(true),
            KeyParamView::ActiveDatetime(v) => v.item(),
            KeyParamView::OriginationExpireDatetime(v) => v.item(),
            KeyParamView::UsageExpireDatetime(v) => v.item(),
            KeyParamView::CreationDatetime(v) => v.item(),
            KeyParamView::CertificateNotBefore(v) => v.item(),
            KeyParamView::CertificateNotAfter(v) => v.item(),
            KeyParamView::ApplicationId(v) => Item::Bytes(v),
            KeyParamView::ApplicationData(v) => Item::Bytes(v),
            KeyParamView::AttestationChallenge(v) => Item::Bytes(v),
            KeyParamView::AttestationApplicationId(v) => Item::Bytes(v),
            KeyParamView::AttestationIdBrand(v) => Item::Bytes(v),
            KeyParamView::AttestationIdDevice(v) => Item::Bytes(v),
            KeyParamView::AttestationIdProduct(v) => Item::Bytes(v),
            KeyParamView::AttestationIdSerial(v) => Item::Bytes(v),
            KeyParamView::AttestationIdImei(v) => Item::Bytes(v),
            KeyParamView::AttestationIdMeid(v) => Item::Bytes(v),
            KeyParamView::AttestationIdManufacturer(v) => Item::Bytes(v),
            KeyParamView::AttestationIdModel(v) => Item::Bytes(v),
            KeyParamView::Nonce(v) => Item::Bytes(v),
            KeyParamView::RootOfTrust(v) => Item::Bytes(v),
            KeyParamView::CertificateSerial(v) => Item::Bytes(v),
            KeyParamView::CertificateSubject(v) => Item::Bytes(v),
        }
    }

    /// The CBOR form of the parameter: its tag number, then its value.
    pub open spec fn item(self) -> Item {
        Item::Array(seq![Item::Integer(self.tag().code()), self.payload()])
    }

    /// The parameter that a tag and the item of its value stand for. A tag
    /// that no parameter carries is refused with `UnexpectedItem`, and a marker
    /// whose value is `false` with `InvalidValue`.
    pub open spec fn with_tag(tag: Tag, raw: Item) -> Result<KeyParamView, CborError> {
        match tag {
            Tag::Purpose => match KeyPurpose::from_item(raw) {
                Err(e) => Err(e),
                Ok(v) => Ok(KeyParamView::Purpose(v)),
            },
            Tag::Algorithm => match Algorithm::from_item(raw) {
                Err(e) => Err(e),
                Ok(v) => Ok(KeyParamView::Algorithm(v)),
            },
            Tag::BlockMode => match BlockMode::from_item(raw) {
                Err(e) => Err(e),
                Ok(v) => Ok(KeyParamView::BlockMode(v)),
            },
            Tag::Digest => match Digest::from_item(raw) {
                Err(e) => Err(e),
                Ok(v) => Ok(KeyParamView::Digest(v)),
            },
            Tag::Padding => match PaddingMode::from_item(raw) {
                Err(e) => Err(e),
                Ok(v) => Ok(KeyParamView::Padding(v)),
            },
            Tag::EcCurve => match EcCurve::from_item(raw) {
                Err(e) => Err(e),
                Ok(v) => Ok(KeyParamView::EcCurve(v)),
            },
            Tag::RsaOaepMgfDigest => match Digest::from_item(raw) {
                Err(e) => Err(e),
                Ok(v) => Ok(KeyParamView::RsaOaepMgfDigest(v)),
            },
            Tag::Origin => match KeyOrigin::from_item(raw) {
                Err(e) => Err(e),
                Ok(v) => Ok(KeyParamView::Origin(v)),
            },
            Tag::KeySize => match KeySizeInBits::from_item(raw) {
                Err(e) => Err(e),
                Ok(v) => Ok(KeyParamView::KeySize(v)),
            },
            Tag::MinMacLength => match u32_of(raw) {
                Err(e) => Err(e),
                Ok(v) => Ok(KeyParamView::MinMacLength(v)),
            },
            Tag::MaxUsesPerBoot => match u32_of(raw) {
                Err(e) => Err(e),
                Ok(v) => Ok(KeyParamView::MaxUsesPerBoot(v)),
            },
            Tag::UsageCountLimit => match u32_of(raw) {
                Err(e) => Err(e),
                Ok(v) => Ok(KeyParamView::UsageCountLimit(v)),
            },
            Tag::UserId => match u32_of(raw) {
                Err(e) => Err(e),
                Ok(v) => Ok(KeyParamView::UserId(v)),
            },
            Tag::UserAuthType => match u32_of(raw) {
                Err(e) => Err(e),
                Ok(v) => Ok(KeyParamView::UserAuthType(v)),
            },
            Tag::AuthTimeout => match u32_of(raw) {
                Err(e) => Err(e),
                Ok(v) => Ok(KeyParamView::AuthTimeout(v)),
            },
            Tag::OsVersion => match u32_of(raw) {
                Err(e) => Err(e),
                Ok(v) => Ok(KeyParamView::OsVersion(v)),
            },
            Tag::OsPatchlevel => match u32_of(raw) {
                Err(e) => Err(e),
                Ok(v) => Ok(KeyParamView::OsPatchlevel(v)),
            },
            Tag::VendorPatchlevel => match u32_of(raw) {
                Err(e) => Err(e),
                Ok(v) => Ok(KeyParamView::VendorPatchlevel(v)),
            },
            Tag::BootPatchlevel => match u32_of(raw) {
                Err(e) => Err(e),
                Ok(v) => Ok(KeyParamView::BootPatchlevel(v)),
            },
            Tag::MacLength => match u32_of(raw) {
                Err(e) => Err(e),
                Ok(v) => Ok(KeyParamView::MacLength(v)),
            },
            Tag::MaxBootLevel => match u32_of(raw) {
                Err(e) => Err(e),
                Ok(v) => Ok(KeyParamView::MaxBootLevel(v)),
            },
            Tag::RsaPublicExponent => match RsaExponent::from_item(raw) {
                Err(e) => Err(e),
                Ok(v) => Ok(KeyParamView::RsaPublicExponent(v)),
            },
            Tag::UserSecureId => match u64_of(raw) {
                Err(e) => Err(e),
                Ok(v) => Ok(KeyParamView::UserSecureId(v)),
            },
            Tag::CallerNonce => match bool_of(raw) {
                Err(e) => Err(e),
                Ok(b) => if b {
                    Ok(KeyParamView::CallerNonce)
                } else {
                    Err(CborError::InvalidValue)
                },
            },
            Tag::IncludeUniqueId => match bool_of(raw) {
                Err(e) => Err(e),
                Ok(b) => if b {
                    Ok(KeyParamView::IncludeUniqueId)
                } else {
                    Err(CborError::InvalidValue)
                },
            },
            Tag::BootloaderOnly => match bool_of(raw) {
                Err(e) => Err(e),
                Ok(b) => if b {
                    Ok(KeyParamView::BootloaderOnly)
                } else {
                    Err(CborError::InvalidValue)
                },
            },
            Tag::RollbackResistance => match bool_of(raw) {
                Err(e) => Err(e),
                Ok(b) => if b {
                    Ok(KeyParamView::RollbackResistance)
                } else {
                    Err(CborError::InvalidValue)
                },
            },
            Tag::EarlyBootOnly => match bool_of(raw) {
                Err(e) => Err(e),
                Ok(b) => if b {
                    Ok(KeyParamView::EarlyBootOnly)
                } else {
                    Err(CborError::InvalidValue)
                },
            },
            Tag::AllowWhileOnBody => match bool_of(raw) {
                Err(e) => Err(e),
                Ok(b) => if b {
                    Ok(KeyParamView::AllowWhileOnBody)
                } else {
                    Err(CborError::InvalidValue)
                },
            },
            Tag::NoAuthRequired => match bool_of(raw) {
                Err(e) => Err(e),
                Ok(b) => if b {
                    Ok(KeyParamView::NoAuthRequired)
                } else {
                    Err(CborError::InvalidValue)
                },
            },
            Tag::TrustedUserPresenceRequired => match bool_of(raw) {
                Err(e) => Err(e),
                Ok(b) => if b {
                    Ok(KeyParamView::TrustedUserPresenceRequired)
                } else {
                    Err(CborError::InvalidValue)
                },
            },
            Tag::TrustedConfirmationRequired => match bool_of(raw) {
                Err(e) => Err(e),
                Ok(b) => if b {
                    Ok(KeyParamView::TrustedConfirmationRequired)
                } else {
                    Err(CborError::InvalidValue)
                },
            },
            Tag::UnlockedDeviceRequired => match bool_of(raw) {
                Err(e) => Err(e),
                Ok(b) => if b {
                    Ok(KeyParamView::UnlockedDeviceRequired)
                } else {
                    Err(CborError::InvalidValue)
                },
            },
            Tag::DeviceUniqueAttestation => match bool_of(raw) {
                Err(e) => Err(e),
                Ok(b) => if b {
                    Ok(KeyParamView::DeviceUniqueAttestation)
                } else {
                    Err(CborError::InvalidValue)
                },
            },
            Tag::StorageKey => match bool_of(raw) {
                Err(e) => Err(e),
                Ok(b) => if b {
                    Ok(KeyParamView::StorageKey)
                } else {
                    Err(CborError::InvalidValue)
                },
            },
            Tag::ResetSinceIdRotation => match bool_of(raw) {
                Err(e) => Err(e),
                Ok(b) => if b {
                    Ok(KeyParamView::ResetSinceIdRotation)
                } else {
                    Err(CborError::InvalidValue)
                },
            },
            Tag::ActiveDatetime => match DateTime::from_item(raw) {
                Err(e) => Err(e),
                Ok(v) => Ok(KeyParamView::ActiveDatetime(v)),
            },
            Tag::OriginationExpireDatetime => match DateTime::from_item(raw) {
                Err(e) => Err(e),
                Ok(v) => Ok(KeyParamView::OriginationExpireDatetime(v)),
            },
            Tag::UsageExpireDatetime => match DateTime::from_item(raw) {
                Err(e) => Err(e),
                Ok(v) => Ok(KeyParamView::UsageExpireDatetime(v)),
            },
            Tag::CreationDatetime => match DateTime::from_item(raw) {
                Err(e) => Err(e),
                Ok(v) => Ok(KeyParamView::CreationDatetime(v)),
            },
            Tag::CertificateNotBefore => match DateTime::from_item(raw) {
                Err(e) => Err(e),
                Ok(v) => Ok(KeyParamView::CertificateNotBefore(v)),
            },
            Tag::CertificateNotAfter => match DateTime::from_item(raw) {
                Err(e) => Err(e),
                Ok(v) => Ok(KeyParamView::CertificateNotAfter(v)),
            },
            Tag::ApplicationId => match bytes_of(raw) {
                Err(e) => Err(e),
                Ok(v) => Ok(KeyParamView::ApplicationId(v)),
            },
            Tag::ApplicationData => match bytes_of(raw) {
                Err(e) => Err(e),
                Ok(v) => Ok(KeyParamView::ApplicationData(v)),
            },
            Tag::AttestationChallenge => match bytes_of(raw) {
                Err(e) => Err(e),
                Ok(v) => Ok(KeyParamView::AttestationChallenge(v)),
            },
            Tag::AttestationApplicationId => match bytes_of(raw) {
                Err(e) => Err(e),
                Ok(v) => Ok(KeyParamView::AttestationApplicationId(v)),
            },
            Tag::AttestationIdBrand => match bytes_of(raw) {
                Err(e) => Err(e),
                Ok(v) => Ok(KeyParamView::AttestationIdBrand(v)),
            },
            Tag::AttestationIdDevice => match bytes_of(raw) {
                Err(e) => Err(e),
                Ok(v) => Ok(KeyParamView::AttestationIdDevice(v)),
            },
            Tag::AttestationIdProduct => match bytes_of(raw) {
                Err(e) => Err(e),
                Ok(v) => Ok(KeyParamView::AttestationIdProduct(v)),
            },
            Tag::AttestationIdSerial => match bytes_of(raw) {
                Err(e) => Err(e),
                Ok(v) => Ok(KeyParamView::AttestationIdSerial(v)),
            },
            Tag::AttestationIdImei => match bytes_of(raw) {
                Err(e) => Err(e),
                Ok(v) => Ok(KeyParamView::AttestationIdImei(v)),
            },
            Tag::AttestationIdMeid => match bytes_of(raw) {
                Err(e) => Err(e),
                Ok(v) => Ok(KeyParamView::AttestationIdMeid(v)),
            },
            Tag::AttestationIdManufacturer => match bytes_of(raw) {
                Err(e) => Err(e),
                Ok(v) => Ok(KeyParamView::AttestationIdManufacturer(v)),
            },
            Tag::AttestationIdModel => match bytes_of(raw) {
                Err(e) => Err(e),
                Ok(v) => Ok(KeyParamView::AttestationIdModel(v)),
            },
            Tag::Nonce => match bytes_of(raw) {
                Err(e) => Err(e),
                Ok(v) => Ok(KeyParamView::Nonce(v)),
            },
            Tag::RootOfTrust => match bytes_of(raw) {
                Err(e) => Err(e),
                Ok(v) => Ok(KeyParamView::RootOfTrust(v)),
            },
            Tag::CertificateSerial => match bytes_of(raw) {
                Err(e) => Err(e),
                Ok(v) => Ok(KeyParamView::CertificateSerial(v)),
            },
            Tag::CertificateSubject => match bytes_of(raw) {
                Err(e) => Err(e),
                Ok(v) => Ok(KeyParamView::CertificateSubject(v)),
            },
            _ => Err(CborError::UnexpectedItem),
        }
    }

    /// What [`KeyParam::from_cbor_value`] makes of an item.
    pub open spec fn from_item(item: Item) -> Result<KeyParamView, CborError> {
        match tuple_of(item, 2) {
            Err(e) => Err(e),
            Ok(a) => match Tag::from_item(a[0]) {
                Err(e) => Err(e),
                Ok(tag) => Self::with_tag(tag, a[1]),
            },
        }
    }

    /// Reading the CBOR form of a parameter gives the parameter back.
    pub proof fn lemma_round_trip(self)
        ensures
            Self::from_item(self.item()) == Ok::<KeyParamView, CborError>(self),
    {
        self.tag().lemma_round_trip();
        let a = seq![Item::Integer(self.tag().code()), self.payload()];
        assert(tuple_of(self.item(), 2) == Ok::<Seq<Item>, CborError>(a));
        assert(a[0] == Item::Integer(self.tag().code()));
        assert(a[1] == self.payload());
        match self {
            KeyParamView::Purpose(v) => {
                v.lemma_round_trip();
            },
            KeyParamView::Algorithm(v) => {
                v.lemma_round_trip();
            },
            KeyParamView::BlockMode(v) => {
                v.lemma_round_trip();
            },
            KeyParamView::Digest(v) => {
                v.lemma_round_trip();
            },
            KeyParamView::Padding(v) => {
                v.lemma_round_trip();
            },
            KeyParamView::EcCurve(v) => {
                v.lemma_round_trip();
            },
            KeyParamView::RsaOaepMgfDigest(v) => {
                v.lemma_round_trip();
            },
            KeyParamView::Origin(v) => {
                v.lemma_round_trip();
            },
            KeyParamView::KeySize(v) => {
                assert(v.item()->Array_0[0] == Item::Integer(v.0 as int));
            },
            KeyParamView::RsaPublicExponent(v) => {
                assert(v.item()->Array_0[0] == Item::Integer(v.0 as int));
            },
            KeyParamView::ActiveDatetime(v) => {
                assert(v.item()->Array_0[0] == Item::Integer(v.ms_since_epoch as int));
            },
            KeyParamView::OriginationExpireDatetime(v) => {
                assert(v.item()->Array_0[0] == Item::Integer(v.ms_since_epoch as int));
            },
            KeyParamView::UsageExpireDatetime(v) => {
                assert(v.item()->Array_0[0] == Item::Integer(v.ms_since_epoch as int));
            },
            KeyParamView::CreationDatetime(v) => {
                assert(v.item()->Array_0[0] == Item::Integer(v.ms_since_epoch as int));
            },
            KeyParamView::CertificateNotBefore(v) => {
                assert(v.item()->Array_0[0] == Item::Integer(v.ms_since_epoch as int));
            },
            KeyParamView::CertificateNotAfter(v) => {
                assert(v.item()->Array_0[0] == Item::Integer(v.ms_since_epoch as int));
            },
            _ => {},
        }
    }
}

impl KeyParam {
    /// The tag that identifies this parameter.
    pub fn tag(&self) -> (r: Tag)
        ensures
            r == self@.tag(),
    {
        match self {
            KeyParam::Purpose(_) => Tag::Purpose,
            KeyParam::Algorithm(_) => Tag::Algorithm,
            KeyParam::BlockMode(_) => Tag::BlockMode,
            KeyParam::Digest(_) => Tag::Digest,
            KeyParam::Padding(_) => Tag::Padding,
            KeyParam::EcCurve(_) => Tag::EcCurve,
            KeyParam::RsaOaepMgfDigest(_) => Tag::RsaOaepMgfDigest,
            KeyParam::Origin(_) => Tag::Origin,
            KeyParam::KeySize(_) => Tag::KeySize,
            KeyParam::MinMacLength(_) => Tag::MinMacLength,
            KeyParam::MaxUsesPerBoot(_) => Tag::MaxUsesPerBoot,
            KeyParam::UsageCountLimit(_) => Tag::UsageCountLimit,
            KeyParam::UserId(_) => Tag::UserId,
            KeyParam::UserAuthType(_) => Tag::UserAuthType,
            KeyParam::AuthTimeout(_) => Tag::AuthTimeout,
            KeyParam::OsVersion(_) => Tag::OsVersion,
            KeyParam::OsPatchlevel(_) => Tag::OsPatchlevel,
            KeyParam::VendorPatchlevel(_) => Tag::VendorPatchlevel,
            KeyParam::BootPatchlevel(_) => Tag::BootPatchlevel,
            KeyParam::MacLength(_) => Tag::MacLength,
            KeyParam::MaxBootLevel(_) => Tag::MaxBootLevel,
            KeyParam::RsaPublicExponent(_) => Tag::RsaPublicExponent,
            KeyParam::UserSecureId(_) => Tag::UserSecureId,
            KeyParam::CallerNonce => Tag::CallerNonce,
            KeyParam::IncludeUniqueId => Tag::IncludeUniqueId,
            KeyParam::BootloaderOnly => Tag::BootloaderOnly,
            KeyParam::RollbackResistance => Tag::RollbackResistance,
            KeyParam::EarlyBootOnly => Tag::EarlyBootOnly,
            KeyParam::AllowWhileOnBody => Tag::AllowWhileOnBody,
            KeyParam::NoAuthRequired => Tag::NoAuthRequired,
            KeyParam::TrustedUserPresenceRequired => Tag::TrustedUserPresenceRequired,
            KeyParam::TrustedConfirmationRequired => Tag::TrustedConfirmationRequired,
            KeyParam::UnlockedDeviceRequired => Tag::UnlockedDeviceRequired,
            KeyParam::DeviceUniqueAttestation => Tag::DeviceUniqueAttestation,
            KeyParam::StorageKey => Tag::StorageKey,
            KeyParam::ResetSinceIdRotation => Tag::ResetSinceIdRotation,
            KeyParam::ActiveDatetime(_) => Tag::ActiveDatetime,
            KeyParam::OriginationExpireDatetime(_) => Tag::OriginationExpireDatetime,
            KeyParam::UsageExpireDatetime(_) => Tag::UsageExpireDatetime,
            KeyParam::CreationDatetime(_) => Tag::CreationDatetime,
            KeyParam::CertificateNotBefore(_) => Tag::CertificateNotBefore,
            KeyParam::CertificateNotAfter(_) => Tag::CertificateNotAfter,
            KeyParam::ApplicationId(_) => Tag::ApplicationId,
            KeyParam::ApplicationData(_) => Tag::ApplicationData,
            KeyParam::AttestationChallenge(_) => Tag::AttestationChallenge,
            KeyParam::AttestationApplicationId(_) => Tag::AttestationApplicationId,
            KeyParam::AttestationIdBrand(_) => Tag::AttestationIdBrand,
            KeyParam::AttestationIdDevice(_) => Tag::AttestationIdDevice,
            KeyParam::AttestationIdProduct(_) => Tag::AttestationIdProduct,
            KeyParam::AttestationIdSerial(_) => Tag::AttestationIdSerial,
            KeyParam::AttestationIdImei(_) => Tag::AttestationIdImei,
            KeyParam::AttestationIdMeid(_) => Tag::AttestationIdMeid,
            KeyParam::AttestationIdManufacturer(_) => Tag::AttestationIdManufacturer,
            KeyParam::AttestationIdModel(_) => Tag::AttestationIdModel,
            KeyParam::Nonce(_) => Tag::Nonce,
            KeyParam::RootOfTrust(_) => Tag::RootOfTrust,
            KeyParam::CertificateSerial(_) => Tag::CertificateSerial,
            KeyParam::CertificateSubject(_) => Tag::CertificateSubject,
        }
    }

    /// A copy of this parameter.
    pub fn duplicate(&self) -> (r: KeyParam)
        ensures
            r@ == self@,
    {
        match self {
            KeyParam::Purpose(v) => KeyParam::Purpose(*v),
            KeyParam::Algorithm(v) => KeyParam::Algorithm(*v),
            KeyParam::BlockMode(v) => KeyParam::BlockMode(*v),
            KeyParam::Digest(v) => KeyParam::Digest(*v),
            KeyParam::Padding(v) => KeyParam::Padding(*v),
            KeyParam::EcCurve(v) => KeyParam::EcCurve(*v),
            KeyParam::RsaOaepMgfDigest(v) => KeyParam::RsaOaepMgfDigest(*v),
            KeyParam::Origin(v) => KeyParam::Origin(*v),
            KeyParam::KeySize(v) => KeyParam::KeySize(*v),
            KeyParam::MinMacLength(v) => KeyParam::MinMacLength(*v),
            KeyParam::MaxUsesPerBoot(v) => KeyParam::MaxUsesPerBoot(*v),
            KeyParam::UsageCountLimit(v) => KeyParam::UsageCountLimit(*v),
            KeyParam::UserId(v) => KeyParam::UserId(*v),
            KeyParam::UserAuthType(v) => KeyParam::UserAuthType(*v),
            KeyParam::AuthTimeout(v) => KeyParam::AuthTimeout(*v),
            KeyParam::OsVersion(v) => KeyParam::OsVersion(*v),
            KeyParam::OsPatchlevel(v) => KeyParam::OsPatchlevel(*v),
            KeyParam::VendorPatchlevel(v) => KeyParam::VendorPatchlevel(*v),
            KeyParam::BootPatchlevel(v) => KeyParam::BootPatchlevel(*v),
            KeyParam::MacLength(v) => KeyParam::MacLength(*v),
            KeyParam::MaxBootLevel(v) => KeyParam::MaxBootLevel(*v),
            KeyParam::RsaPublicExponent(v) => KeyParam::RsaPublicExponent(*v),
            KeyParam::UserSecureId(v) => KeyParam::UserSecureId(*v),
            KeyParam::CallerNonce => KeyParam::CallerNonce,
            KeyParam::IncludeUniqueId => KeyParam::IncludeUniqueId,
            KeyParam::BootloaderOnly => KeyParam::BootloaderOnly,
            KeyParam::RollbackResistance => KeyParam::RollbackResistance,
            KeyParam::EarlyBootOnly => KeyParam::EarlyBootOnly,
            KeyParam::AllowWhileOnBody => KeyParam::AllowWhileOnBody,
            KeyParam::NoAuthRequired => KeyParam::NoAuthRequired,
            KeyParam::TrustedUserPresenceRequired => KeyParam::TrustedUserPresenceRequired,
            KeyParam::TrustedConfirmationRequired => KeyParam::TrustedConfirmationRequired,
            KeyParam::UnlockedDeviceRequired => KeyParam::UnlockedDeviceRequired,
            KeyParam::DeviceUniqueAttestation => KeyParam::DeviceUniqueAttestation,
            KeyParam::StorageKey => KeyParam::StorageKey,
            KeyParam::ResetSinceIdRotation => KeyParam::ResetSinceIdRotation,
            KeyParam::ActiveDatetime(v) => KeyParam::ActiveDatetime(*v),
            KeyParam::OriginationExpireDatetime(v) => KeyParam::OriginationExpireDatetime(*v),
            KeyParam::UsageExpireDatetime(v) => KeyParam::UsageExpireDatetime(*v),
            KeyParam::CreationDatetime(v) => KeyParam::CreationDatetime(*v),
            KeyParam::CertificateNotBefore(v) => KeyParam::CertificateNotBefore(*v),
            KeyParam::CertificateNotAfter(v) => KeyParam::CertificateNotAfter(*v),
            KeyParam::ApplicationId(v) => KeyParam::ApplicationId(copy_bytes(v.as_slice())),
            KeyParam::ApplicationData(v) => KeyParam::ApplicationData(copy_bytes(v.as_slice())),
            KeyParam::AttestationChallenge(v) => KeyParam::AttestationChallenge(
                copy_bytes(v.as_slice()),
            ),
            KeyParam::AttestationApplicationId(v) => KeyParam::AttestationApplicationId(
                copy_bytes(v.as_slice()),
            ),
            KeyParam::AttestationIdBrand(v) => KeyParam::AttestationIdBrand(
                copy_bytes(v.as_slice()),
            ),
            KeyParam::AttestationIdDevice(v) => KeyParam::AttestationIdDevice(
                copy_bytes(v.as_slice()),
            ),
            KeyParam::AttestationIdProduct(v) => KeyParam::AttestationIdProduct(
                copy_bytes(v.as_slice()),
            ),
            KeyParam::AttestationIdSerial(v) => KeyParam::AttestationIdSerial(
                copy_bytes(v.as_slice()),
            ),
            KeyParam::AttestationIdImei(v) => KeyParam::AttestationIdImei(copy_bytes(v.as_slice())),
            KeyParam::AttestationIdMeid(v) => KeyParam::AttestationIdMeid(copy_bytes(v.as_slice())),
            KeyParam::AttestationIdManufacturer(v) => KeyParam::AttestationIdManufacturer(
                copy_bytes(v.as_slice()),
            ),
            KeyParam::AttestationIdModel(v) => KeyParam::AttestationIdModel(
                copy_bytes(v.as_slice()),
            ),
            KeyParam::Nonce(v) => KeyParam::Nonce(copy_bytes(v.as_slice())),
            KeyParam::RootOfTrust(v) => KeyParam::RootOfTrust(copy_bytes(v.as_slice())),
            KeyParam::CertificateSerial(v) => KeyParam::CertificateSerial(copy_bytes(v.as_slice())),
            KeyParam::CertificateSubject(v) => KeyParam::CertificateSubject(
                copy_bytes(v.as_slice()),
            ),
        }
    }

    /// Writes this parameter as the array of its tag number and its value.
    pub fn to_cbor_value(&self) -> (r: CborValue)
        ensures
            r@ == self@.item(),
    {
        let payload = match self {
            KeyParam::Purpose(v) => v.to_cbor_value(),
            KeyParam::Algorithm(v) => v.to_cbor_value(),
            KeyParam::BlockMode(v) => v.to_cbor_value(),
            KeyParam::Digest(v) => v.to_cbor_value(),
            KeyParam::Padding(v) => v.to_cbor_value(),
            KeyParam::EcCurve(v) => v.to_cbor_value(),
            KeyParam::RsaOaepMgfDigest(v) => v.to_cbor_value(),
            KeyParam::Origin(v) => v.to_cbor_value(),
            KeyParam::KeySize(v) => v.to_cbor_value(),
            KeyParam::MinMacLength(v) => CborValue::Integer(*v as i128),
            KeyParam::MaxUsesPerBoot(v) => CborValue::Integer(*v as i128),
            KeyParam::UsageCountLimit(v) => CborValue::Integer(*v as i128),
            KeyParam::UserId(v) => CborValue::Integer(*v as i128),
            KeyParam::UserAuthType(v) => CborValue::Integer(*v as i128),
            KeyParam::AuthTimeout(v) => CborValue::Integer(*v as i128),
            KeyParam::OsVersion(v) => CborValue::Integer(*v as i128),
            KeyParam::OsPatchlevel(v) => CborValue::Integer(*v as i128),
            KeyParam::VendorPatchlevel(v) => CborValue::Integer(*v as i128),
            KeyParam::BootPatchlevel(v) => CborValue::Integer(*v as i128),
            KeyParam::MacLength(v) => CborValue::Integer(*v as i128),
            KeyParam::MaxBootLevel(v) => CborValue::Integer(*v as i128),
            KeyParam::RsaPublicExponent(v) => v.to_cbor_value(),
            KeyParam::UserSecureId(v) => CborValue::Integer(*v as i128),
            KeyParam::CallerNonce => CborValue::Bool(true),
            KeyParam::IncludeUniqueId => CborValue::Bool(true),
            KeyParam::BootloaderOnly => CborValue::Bool(true),
            KeyParam::RollbackResistance => CborValue::Bool(true),
            KeyParam::EarlyBootOnly => CborValue::Bool(true),
            KeyParam::AllowWhileOnBody => CborValue::Bool(true),
            KeyParam::NoAuthRequired => CborValue::Bool(true),
            KeyParam::TrustedUserPresenceRequired => CborValue::Bool(true),
            KeyParam::TrustedConfirmationRequired => CborValue::Bool(true),
            KeyParam::UnlockedDeviceRequired => CborValue::Bool(true),
            KeyParam::DeviceUniqueAttestation => CborValue::Bool(true),
            KeyParam::StorageKey => CborValue::Bool(true),
            KeyParam::ResetSinceIdRotation => CborValue::Bool(true),
            KeyParam::ActiveDatetime(v) => v.to_cbor_value(),
            KeyParam::OriginationExpireDatetime(v) => v.to_cbor_value(),
            KeyParam::UsageExpireDatetime(v) => v.to_cbor_value(),
            KeyParam::CreationDatetime(v) => v.to_cbor_value(),
            KeyParam::CertificateNotBefore(v) => v.to_cbor_value(),
            KeyParam::CertificateNotAfter(v) => v.to_cbor_value(),
            KeyParam::ApplicationId(v) => bytes_value(v.as_slice()),
            KeyParam::ApplicationData(v) => bytes_value(v.as_slice()),
            KeyParam::AttestationChallenge(v) => bytes_value(v.as_slice()),
            KeyParam::AttestationApplicationId(v) => bytes_value(v.as_slice()),
            KeyParam::AttestationIdBrand(v) => bytes_value(v.as_slice()),
            KeyParam::AttestationIdDevice(v) => bytes_value(v.as_slice()),
            KeyParam::AttestationIdProduct(v) => bytes_value(v.as_slice()),
            KeyParam::AttestationIdSerial(v) => bytes_value(v.as_slice()),
            KeyParam::AttestationIdImei(v) => bytes_value(v.as_slice()),
            KeyParam::AttestationIdMeid(v) => bytes_value(v.as_slice()),
            KeyParam::AttestationIdManufacturer(v) => bytes_value(v.as_slice()),
            KeyParam::AttestationIdModel(v) => bytes_value(v.as_slice()),
            KeyParam::Nonce(v) => bytes_value(v.as_slice()),
            KeyParam::RootOfTrust(v) => bytes_value(v.as_slice()),
            KeyParam::CertificateSerial(v) => bytes_value(v.as_slice()),
            KeyParam::CertificateSubject(v) => bytes_value(v.as_slice()),
        };
        let mut a: Vec<CborValue> = Vec::new();
        a.push(self.tag().to_cbor_value());
        a.push(payload);
        assert(items_of(a@) =~= seq![Item::Integer(self@.tag().code()), self@.payload()]);
        array_value(a)
    }

    /// Reads a parameter from the array of its tag number and its value.
    pub fn from_cbor_value(v: &CborValue) -> (r: Result<KeyParam, CborError>)
        ensures
            result_view(r) == KeyParamView::from_item(v@),
    {
        let a = match value_tuple(v, 2) {
            Err(e) => { return Err(e); },
            Ok(a) => a,
        };
        let tag = match Tag::from_cbor_value(&a[0]) {
            Err(e) => { return Err(e); },
            Ok(tag) => tag,
        };
        let raw = &a[1];
        assert(items_of(a@)[0] == a@[0]@);
        assert(items_of(a@)[1] == raw@);
        match tag {
            Tag::Purpose => match KeyPurpose::from_cbor_value(raw) {
                Err(e) => Err(e),
                Ok(x) => Ok(KeyParam::Purpose(x)),
            },
            Tag::Algorithm => match Algorithm::from_cbor_value(raw) {
                Err(e) => Err(e),
                Ok(x) => Ok(KeyParam::Algorithm(x)),
            },
            Tag::BlockMode => match BlockMode::from_cbor_value(raw) {
                Err(e) => Err(e),
                Ok(x) => Ok(KeyParam::BlockMode(x)),
            },
            Tag::Digest => match Digest::from_cbor_value(raw) {
                Err(e) => Err(e),
                Ok(x) => Ok(KeyParam::Digest(x)),
            },
            Tag::Padding => match PaddingMode::from_cbor_value(raw) {
                Err(e) => Err(e),
                Ok(x) => Ok(KeyParam::Padding(x)),
            },
            Tag::EcCurve => match EcCurve::from_cbor_value(raw) {
                Err(e) => Err(e),
                Ok(x) => Ok(KeyParam::EcCurve(x)),
            },
            Tag::RsaOaepMgfDigest => match Digest::from_cbor_value(raw) {
                Err(e) => Err(e),
                Ok(x) => Ok(KeyParam::RsaOaepMgfDigest(x)),
            },
            Tag::Origin => match KeyOrigin::from_cbor_value(raw) {
                Err(e) => Err(e),
                Ok(x) => Ok(KeyParam::Origin(x)),
            },
            Tag::KeySize => match KeySizeInBits::from_cbor_value(raw) {
                Err(e) => Err(e),
                Ok(x) => Ok(KeyParam::KeySize(x)),
            },
            Tag::MinMacLength => match value_u32(raw) {
                Err(e) => Err(e),
                Ok(x) => Ok(KeyParam::MinMacLength(x)),
            },
            Tag::MaxUsesPerBoot => match value_u32(raw) {
                Err(e) => Err(e),
                Ok(x) => Ok(KeyParam::MaxUsesPerBoot(x)),
            },
            Tag::UsageCountLimit => match value_u32(raw) {
                Err(e) => Err(e),
                Ok(x) => Ok(KeyParam::UsageCountLimit(x)),
            },
            Tag::UserId => match value_u32(raw) {
                Err(e) => Err(e),
                Ok(x) => Ok(KeyParam::UserId(x)),
            },
            Tag::UserAuthType => match value_u32(raw) {
                Err(e) => Err(e),
                Ok(x) => Ok(KeyParam::UserAuthType(x)),
            },
            Tag::AuthTimeout => match value_u32(raw) {
                Err(e) => Err(e),
                Ok(x) => Ok(KeyParam::AuthTimeout(x)),
            },
            Tag::OsVersion => match value_u32(raw) {
                Err(e) => Err(e),
                Ok(x) => Ok(KeyParam::OsVersion(x)),
            },
            Tag::OsPatchlevel => match value_u32(raw) {
                Err(e) => Err(e),
                Ok(x) => Ok(KeyParam::OsPatchlevel(x)),
            },
            Tag::VendorPatchlevel => match value_u32(raw) {
                Err(e) => Err(e),
                Ok(x) => Ok(KeyParam::VendorPatchlevel(x)),
            },
            Tag::BootPatchlevel => match value_u32(raw) {
                Err(e) => Err(e),
                Ok(x) => Ok(KeyParam::BootPatchlevel(x)),
            },
            Tag::MacLength => match value_u32(raw) {
                Err(e) => Err(e),
                Ok(x) => Ok(KeyParam::MacLength(x)),
            },
            Tag::MaxBootLevel => match value_u32(raw) {
                Err(e) => Err(e),
                Ok(x) => Ok(KeyParam::MaxBootLevel(x)),
            },
            Tag::RsaPublicExponent => match RsaExponent::from_cbor_value(raw) {
                Err(e) => Err(e),
                Ok(x) => Ok(KeyParam::RsaPublicExponent(x)),
            },
            Tag::UserSecureId => match value_u64(raw) {
                Err(e) => Err(e),
                Ok(x) => Ok(KeyParam::UserSecureId(x)),
            },
            Tag::CallerNonce => match value_bool(raw) {
                Err(e) => Err(e),
                Ok(b) => if b {
                    Ok(KeyParam::CallerNonce)
                } else {
                    Err(CborError::InvalidValue)
                },
            },
            Tag::IncludeUniqueId => match value_bool(raw) {
                Err(e) => Err(e),
                Ok(b) => if b {
                    Ok(KeyParam::IncludeUniqueId)
                } else {
                    Err(CborError::InvalidValue)
                },
            },
            Tag::BootloaderOnly => match value_bool(raw) {
                Err(e) => Err(e),
                Ok(b) => if b {
                    Ok(KeyParam::BootloaderOnly)
                } else {
                    Err(CborError::InvalidValue)
                },
            },
            Tag::RollbackResistance => match value_bool(raw) {
                Err(e) => Err(e),
                Ok(b) => if b {
                    Ok(KeyParam::RollbackResistance)
                } else {
                    Err(CborError::InvalidValue)
                },
            },
            Tag::EarlyBootOnly => match value_bool(raw) {
                Err(e) => Err(e),
                Ok(b) => if b {
                    Ok(KeyParam::EarlyBootOnly)
                } else {
                    Err(CborError::InvalidValue)
                },
            },
            Tag::AllowWhileOnBody => match value_bool(raw) {
                Err(e) => Err(e),
                Ok(b) => if b {
                    Ok(KeyParam::AllowWhileOnBody)
                } else {
                    Err(CborError::InvalidValue)
                },
            },
            Tag::NoAuthRequired => match value_bool(raw) {
                Err(e) => Err(e),
                Ok(b) => if b {
                    Ok(KeyParam::NoAuthRequired)
                } else {
                    Err(CborError::InvalidValue)
                },
            },
            Tag::TrustedUserPresenceRequired => match value_bool(raw) {
                Err(e) => Err(e),
                Ok(b) => if b {
                    Ok(KeyParam::TrustedUserPresenceRequired)
                } else {
                    Err(CborError::InvalidValue)
                },
            },
            Tag::TrustedConfirmationRequired => match value_bool(raw) {
                Err(e) => Err(e),
                Ok(b) => if b {
                    Ok(KeyParam::TrustedConfirmationRequired)
                } else {
                    Err(CborError::InvalidValue)
                },
            },
            Tag::UnlockedDeviceRequired => match value_bool(raw) {
                Err(e) => Err(e),
                Ok(b) => if b {
                    Ok(KeyParam::UnlockedDeviceRequired)
                } else {
                    Err(CborError::InvalidValue)
                },
            },
            Tag::DeviceUniqueAttestation => match value_bool(raw) {
                Err(e) => Err(e),
                Ok(b) => if b {
                    Ok(KeyParam::DeviceUniqueAttestation)
                } else {
                    Err(CborError::InvalidValue)
                },
            },
            Tag::StorageKey => match value_bool(raw) {
                Err(e) => Err(e),
                Ok(b) => if b {
                    Ok(KeyParam::StorageKey)
                } else {
                    Err(CborError::InvalidValue)
                },
            },
            Tag::ResetSinceIdRotation => match value_bool(raw) {
                Err(e) => Err(e),
                Ok(b) => if b {
                    Ok(KeyParam::ResetSinceIdRotation)
                } else {
                    Err(CborError::InvalidValue)
                },
            },
            Tag::ActiveDatetime => match DateTime::from_cbor_value(raw) {
                Err(e) => Err(e),
                Ok(x) => Ok(KeyParam::ActiveDatetime(x)),
            },
            Tag::OriginationExpireDatetime => match DateTime::from_cbor_value(raw) {
                Err(e) => Err(e),
                Ok(x) => Ok(KeyParam::OriginationExpireDatetime(x)),
            },
            Tag::UsageExpireDatetime => match DateTime::from_cbor_value(raw) {
                Err(e) => Err(e),
                Ok(x) => Ok(KeyParam::UsageExpireDatetime(x)),
            },
            Tag::CreationDatetime => match DateTime::from_cbor_value(raw) {
                Err(e) => Err(e),
                Ok(x) => Ok(KeyParam::CreationDatetime(x)),
            },
            Tag::CertificateNotBefore => match DateTime::from_cbor_value(raw) {
                Err(e) => Err(e),
                Ok(x) => Ok(KeyParam::CertificateNotBefore(x)),
            },
            Tag::CertificateNotAfter => match DateTime::from_cbor_value(raw) {
                Err(e) => Err(e),
                Ok(x) => Ok(KeyParam::CertificateNotAfter(x)),
            },
            Tag::ApplicationId => match value_bytes(raw) {
                Err(e) => Err(e),
                Ok(x) => Ok(KeyParam::ApplicationId(x)),
            },
            Tag::ApplicationData => match value_bytes(raw) {
                Err(e) => Err(e),
                Ok(x) => Ok(KeyParam::ApplicationData(x)),
            },
            Tag::AttestationChallenge => match value_bytes(raw) {
                Err(e) => Err(e),
                Ok(x) => Ok(KeyParam::AttestationChallenge(x)),
            },
            Tag::AttestationApplicationId => match value_bytes(raw) {
                Err(e) => Err(e),
                Ok(x) => Ok(KeyParam::AttestationApplicationId(x)),
            },
            Tag::AttestationIdBrand => match value_bytes(raw) {
                Err(e) => Err(e),
                Ok(x) => Ok(KeyParam::AttestationIdBrand(x)),
            },
            Tag::AttestationIdDevice => match value_bytes(raw) {
                Err(e) => Err(e),
                Ok(x) => Ok(KeyParam::AttestationIdDevice(x)),
            },
            Tag::AttestationIdProduct => match value_bytes(raw) {
                Err(e) => Err(e),
                Ok(x) => Ok(KeyParam::AttestationIdProduct(x)),
            },
            Tag::AttestationIdSerial => match value_bytes(raw) {
                Err(e) => Err(e),
                Ok(x) => Ok(KeyParam::AttestationIdSerial(x)),
            },
            Tag::AttestationIdImei => match value_bytes(raw) {
                Err(e) => Err(e),
                Ok(x) => Ok(KeyParam::AttestationIdImei(x)),
            },
            Tag::AttestationIdMeid => match value_bytes(raw) {
                Err(e) => Err(e),
                Ok(x) => Ok(KeyParam::AttestationIdMeid(x)),
            },
            Tag::AttestationIdManufacturer => match value_bytes(raw) {
                Err(e) => Err(e),
                Ok(x) => Ok(KeyParam::AttestationIdManufacturer(x)),
            },
            Tag::AttestationIdModel => match value_bytes(raw) {
                Err(e) => Err(e),
                Ok(x) => Ok(KeyParam::AttestationIdModel(x)),
            },
            Tag::Nonce => match value_bytes(raw) {
                Err(e) => Err(e),
                Ok(x) => Ok(KeyParam::Nonce(x)),
            },
            Tag::RootOfTrust => match value_bytes(raw) {
                Err(e) => Err(e),
                Ok(x) => Ok(KeyParam::RootOfTrust(x)),
            },
            Tag::CertificateSerial => match value_bytes(raw) {
                Err(e) => Err(e),
                Ok(x) => Ok(KeyParam::CertificateSerial(x)),
            },
            Tag::CertificateSubject => match value_bytes(raw) {
                Err(e) => Err(e),
                Ok(x) => Ok(KeyParam::CertificateSubject(x)),
            },
            _ => Err(CborError::UnexpectedItem),
        }
    }
}

} // verus!
