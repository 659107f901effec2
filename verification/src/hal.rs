//! The types of the hardware abstraction layer, and the conversions between
//! them and the types that the trusted application works with.
//!
//! The types of the layer are looser than those of the trusted application:
//! what is an enumeration there is a plain number here, and the value of a
//! key parameter need not fit its tag. So the way from here to there can
//! fail, and the way back cannot.

use crate::bytes::{
    copy_bytes, i32_as_u32, i32_from_u32, i64_as_u64, i64_from_u64, lemma_same_bits_round_trip,
    u32_as_i32, u32_from_i32, u64_as_i64, u64_from_i64,
};
use crate::wire;
use crate::wire::params::{DateTime, KeyParam, KeySizeInBits, RsaExponent};
use vstd::prelude::*;

verus! {

/// What was found not to be a value of the kind that was expected.
#[derive(Clone, Copy, Debug, PartialEq, Eq, Structural)]
pub enum ValueNotRecognized {
    Algorithm,
    BlockMode,
    Digest,
    EcCurve,
    ErrorCode,
    HardwareAuthenticatorType,
    KeyFormat,
    KeyOrigin,
    KeyPurpose,
    PaddingMode,
    SecurityLevel,
    Tag,
    TagType,
    Origin,
    Bool,
    Blob,
    DateTime,
    Integer,
    LongInteger,
}

/// Conversion from `T` that cannot fail.
pub trait Fromm<T>: Sized {
    /// Whether `r` is what `val` is converted into.
    spec fn converts(val: T, r: Self) -> bool;

    /// Converts `val`.
    fn fromm(val: T) -> (r: Self)
        ensures
            Self::converts(val, r),
    ;
}

/// Conversion from `T` that can fail.
pub trait TryFromm<T>: Sized {
    /// What a conversion fails with.
    type Error;

    /// Whether `r` is the outcome of converting `val`.
    spec fn try_converts(val: T, r: Result<Self, Self::Error>) -> bool;

    /// Tries to convert `val`.
    fn try_fromm(val: T) -> (r: Result<Self, Self::Error>)
        ensures
            Self::try_converts(val, r),
    ;
}

/// Conversion into `T` that cannot fail.
pub trait Innto<T> {
    /// Whether `r` is what `self` is converted into.
    spec fn converts_into(self, r: T) -> bool;

    /// Converts `self`.
    fn innto(self) -> (r: T)
        ensures
            self.converts_into(r),
    ;
}

/// Conversion into `T` that can fail.
pub trait TryInnto<T> {
    /// What a conversion fails with.
    type Error;

    /// Whether `r` is the outcome of converting `self`.
    spec fn try_converts_into(self, r: Result<T, Self::Error>) -> bool;

    /// Tries to convert `self`.
    fn try_innto(self) -> (r: Result<T, Self::Error>)
        ensures
            self.try_converts_into(r),
    ;
}

impl<T, U> Innto<U> for T where U: Fromm<T> {
    open spec fn converts_into(self, r: U) -> bool {
        U::converts(self, r)
    }

    fn innto(self) -> (r: U) {
        U::fromm(self)
    }
}

impl<T, U> TryInnto<U> for T where U: TryFromm<T> {
    type Error = U::Error;

    open spec fn try_converts_into(self, r: Result<U, U::Error>) -> bool {
        U::try_converts(self, r)
    }

    fn try_innto(self) -> (r: Result<U, U::Error>) {
        U::try_fromm(self)
    }
}

/// The number that stands for a value of `ErrorCode` in the layer.
#[derive(Clone, Copy, Debug, PartialEq, Eq, Structural)]
pub struct ErrorCode(pub i32);

impl Fromm<wire::keymint::ErrorCode> for ErrorCode {
    open spec fn converts(val: wire::keymint::ErrorCode, r: ErrorCode) -> bool {
        r.0 == val.code()
    }

    fn fromm(val: wire::keymint::ErrorCode) -> (r: ErrorCode) {
        ErrorCode(val.to_i32())
    }
}

impl TryFromm<ErrorCode> for wire::keymint::ErrorCode {
    type Error = ValueNotRecognized;

    open spec fn try_converts(
        val: ErrorCode,
        r: Result<wire::keymint::ErrorCode, ValueNotRecognized>,
    ) -> bool {
        r == match wire::keymint::ErrorCode::of_code(val.0 as int) {
            Some(x) => Ok(x),
            None => Err(ValueNotRecognized::ErrorCode),
        }
    }

    fn try_fromm(val: ErrorCode) -> (r: Result<wire::keymint::ErrorCode, ValueNotRecognized>) {
        match wire::keymint::ErrorCode::from_i32(val.0) {
            Some(x) => Ok(x),
            None => Err(ValueNotRecognized::ErrorCode),
        }
    }
}

/// The number that stands for a value of `Algorithm` in the layer.
#[derive(Clone, Copy, Debug, PartialEq, Eq, Structural)]
pub struct Algorithm(pub i32);

impl Fromm<wire::keymint::Algorithm> for Algorithm {
    open spec fn converts(val: wire::keymint::Algorithm, r: Algorithm) -> bool {
        r.0 == val.code()
    }

    fn fromm(val: wire::keymint::Algorithm) -> (r: Algorithm) {
        Algorithm(val.to_i32())
    }
}

impl TryFromm<Algorithm> for wire::keymint::Algorithm {
    type Error = ValueNotRecognized;

    open spec fn try_converts(
        val: Algorithm,
        r: Result<wire::keymint::Algorithm, ValueNotRecognized>,
    ) -> bool {
        r == match wire::keymint::Algorithm::of_code(val.0 as int) {
            Some(x) => Ok(x),
            None => Err(ValueNotRecognized::Algorithm),
        }
    }

    fn try_fromm(val: Algorithm) -> (r: Result<wire::keymint::Algorithm, ValueNotRecognized>) {
        match wire::keymint::Algorithm::from_i32(val.0) {
            Some(x) => Ok(x),
            None => Err(ValueNotRecognized::Algorithm),
        }
    }
}

/// The number that stands for a value of `BlockMode` in the layer.
#[derive(Clone, Copy, Debug, PartialEq, Eq, Structural)]
pub struct BlockMode(pub i32);

impl Fromm<wire::keymint::BlockMode> for BlockMode {
    open spec fn converts(val: wire::keymint::BlockMode, r: BlockMode) -> bool {
        r.0 == val.code()
    }

    fn fromm(val: wire::keymint::BlockMode) -> (r: BlockMode) {
        BlockMode(val.to_i32())
    }
}

impl TryFromm<BlockMode> for wire::keymint::BlockMode {
    type Error = ValueNotRecognized;

    open spec fn try_converts(
        val: BlockMode,
        r: Result<wire::keymint::BlockMode, ValueNotRecognized>,
    ) -> bool {
        r == match wire::keymint::BlockMode::of_code(val.0 as int) {
            Some(x) => Ok(x),
            None => Err(ValueNotRecognized::BlockMode),
        }
    }

    fn try_fromm(val: BlockMode) -> (r: Result<wire::keymint::BlockMode, ValueNotRecognized>) {
        match wire::keymint::BlockMode::from_i32(val.0) {
            Some(x) => Ok(x),
            None => Err(ValueNotRecognized::BlockMode),
        }
    }
}

/// The number that stands for a value of `Digest` in the layer.
#[derive(Clone, Copy, Debug, PartialEq, Eq, Structural)]
pub struct Digest(pub i32);

impl Fromm<wire::keymint::Digest> for Digest {
    open spec fn converts(val: wire::keymint::Digest, r: Digest) -> bool {
        r.0 == val.code()
    }

    fn fromm(val: wire::keymint::Digest) -> (r: Digest) {
        Digest(val.to_i32())
    }
}

impl TryFromm<Digest> for wire::keymint::Digest {
    type Error = ValueNotRecognized;

    open spec fn try_converts(
        val: Digest,
        r: Result<wire::keymint::Digest, ValueNotRecognized>,
    ) -> bool {
        r == match wire::keymint::Digest::of_code(val.0 as int) {
            Some(x) => Ok(x),
            None => Err(ValueNotRecognized::Digest),
        }
    }

    fn try_fromm(val: Digest) -> (r: Result<wire::keymint::Digest, ValueNotRecognized>) {
        match wire::keymint::Digest::from_i32(val.0) {
            Some(x) => Ok(x),
            None => Err(ValueNotRecognized::Digest),
        }
    }
}

/// The number that stands for a value of `EcCurve` in the layer.
#[derive(Clone, Copy, Debug, PartialEq, Eq, Structural)]
pub struct EcCurve(pub i32);

impl Fromm<wire::keymint::EcCurve> for EcCurve {
    open spec fn converts(val: wire::keymint::EcCurve, r: EcCurve) -> bool {
        r.0 == val.code()
    }

    fn fromm(val: wire::keymint::EcCurve) -> (r: EcCurve) {
        EcCurve(val.to_i32())
    }
}

impl TryFromm<EcCurve> for wire::keymint::EcCurve {
    type Error = ValueNotRecognized;

    open spec fn try_converts(
        val: EcCurve,
        r: Result<wire::keymint::EcCurve, ValueNotRecognized>,
    ) -> bool {
        r == match wire::keymint::EcCurve::of_code(val.0 as int) {
            Some(x) => Ok(x),
            None => Err(ValueNotRecognized::EcCurve),
        }
    }

    fn try_fromm(val: EcCurve) -> (r: Result<wire::keymint::EcCurve, ValueNotRecognized>) {
        match wire::keymint::EcCurve::from_i32(val.0) {
            Some(x) => Ok(x),
            None => Err(ValueNotRecognized::EcCurve),
        }
    }
}

/// The number that stands for a value of `HardwareAuthenticatorType` in the layer.
#[derive(Clone, Copy, Debug, PartialEq, Eq, Structural)]
pub struct HardwareAuthenticatorType(pub i32);

impl Fromm<wire::keymint::HardwareAuthenticatorType> for HardwareAuthenticatorType {
    open spec fn converts(
        val: wire::keymint::HardwareAuthenticatorType,
        r: HardwareAuthenticatorType,
    ) -> bool {
        r.0 == val.code()
    }

    fn fromm(val: wire::keymint::HardwareAuthenticatorType) -> (r: HardwareAuthenticatorType) {
        HardwareAuthenticatorType(val.to_i32())
    }
}

impl TryFromm<HardwareAuthenticatorType> for wire::keymint::HardwareAuthenticatorType {
    type Error = ValueNotRecognized;

    open spec fn try_converts(
        val: HardwareAuthenticatorType,
        r: Result<wire::keymint::HardwareAuthenticatorType, ValueNotRecognized>,
    ) -> bool {
        r == match wire::keymint::HardwareAuthenticatorType::of_code(val.0 as int) {
            Some(x) => Ok(x),
            None => Err(ValueNotRecognized::HardwareAuthenticatorType),
        }
    }

    fn try_fromm(val: HardwareAuthenticatorType) -> (r: Result<
        wire::keymint::HardwareAuthenticatorType,
        ValueNotRecognized,
    >) {
        match wire::keymint::HardwareAuthenticatorType::from_i32(val.0) {
            Some(x) => Ok(x),
            None => Err(ValueNotRecognized::HardwareAuthenticatorType),
        }
    }
}

/// The number that stands for a value of `KeyFormat` in the layer.
#[derive(Clone, Copy, Debug, PartialEq, Eq, Structural)]
pub struct KeyFormat(pub i32);

impl Fromm<wire::keymint::KeyFormat> for KeyFormat {
    open spec fn converts(val: wire::keymint::KeyFormat, r: KeyFormat) -> bool {
        r.0 == val.code()
    }

    fn fromm(val: wire::keymint::KeyFormat) -> (r: KeyFormat) {
        KeyFormat(val.to_i32())
    }
}

impl TryFromm<KeyFormat> for wire::keymint::KeyFormat {
    type Error = ValueNotRecognized;

    open spec fn try_converts(
        val: KeyFormat,
        r: Result<wire::keymint::KeyFormat, ValueNotRecognized>,
    ) -> bool {
        r == match wire::keymint::KeyFormat::of_code(val.0 as int) {
            Some(x) => Ok(x),
            None => Err(ValueNotRecognized::KeyFormat),
        }
    }

    fn try_fromm(val: KeyFormat) -> (r: Result<wire::keymint::KeyFormat, ValueNotRecognized>) {
        match wire::keymint::KeyFormat::from_i32(val.0) {
            Some(x) => Ok(x),
            None => Err(ValueNotRecognized::KeyFormat),
        }
    }
}

/// The number that stands for a value of `KeyOrigin` in the layer.
#[derive(Clone, Copy, Debug, PartialEq, Eq, Structural)]
pub struct KeyOrigin(pub i32);

impl Fromm<wire::keymint::KeyOrigin> for KeyOrigin {
    open spec fn converts(val: wire::keymint::KeyOrigin, r: KeyOrigin) -> bool {
        r.0 == val.code()
    }

    fn fromm(val: wire::keymint::KeyOrigin) -> (r: KeyOrigin) {
        KeyOrigin(val.to_i32())
    }
}

impl TryFromm<KeyOrigin> for wire::keymint::KeyOrigin {
    type Error = ValueNotRecognized;

    open spec fn try_converts(
        val: KeyOrigin,
        r: Result<wire::keymint::KeyOrigin, ValueNotRecognized>,
    ) -> bool {
        r == match wire::keymint::KeyOrigin::of_code(val.0 as int) {
            Some(x) => Ok(x),
            None => Err(ValueNotRecognized::KeyOrigin),
        }
    }

    fn try_fromm(val: KeyOrigin) -> (r: Result<wire::keymint::KeyOrigin, ValueNotRecognized>) {
        match wire::keymint::KeyOrigin::from_i32(val.0) {
            Some(x) => Ok(x),
            None => Err(ValueNotRecognized::KeyOrigin),
        }
    }
}

/// The number that stands for a value of `KeyPurpose` in the layer.
#[derive(Clone, Copy, Debug, PartialEq, Eq, Structural)]
pub struct KeyPurpose(pub i32);

impl Fromm<wire::keymint::KeyPurpose> for KeyPurpose {
    open spec fn converts(val: wire::keymint::KeyPurpose, r: KeyPurpose) -> bool {
        r.0 == val.code()
    }

    fn fromm(val: wire::keymint::KeyPurpose) -> (r: KeyPurpose) {
        KeyPurpose(val.to_i32())
    }
}

impl TryFromm<KeyPurpose> for wire::keymint::KeyPurpose {
    type Error = ValueNotRecognized;

    open spec fn try_converts(
        val: KeyPurpose,
        r: Result<wire::keymint::KeyPurpose, ValueNotRecognized>,
    ) -> bool {
        r == match wire::keymint::KeyPurpose::of_code(val.0 as int) {
            Some(x) => Ok(x),
            None => Err(ValueNotRecognized::KeyPurpose),
        }
    }

    fn try_fromm(val: KeyPurpose) -> (r: Result<wire::keymint::KeyPurpose, ValueNotRecognized>) {
        match wire::keymint::KeyPurpose::from_i32(val.0) {
            Some(x) => Ok(x),
            None => Err(ValueNotRecognized::KeyPurpose),
        }
    }
}

/// The number that stands for a value of `PaddingMode` in the layer.
#[derive(Clone, Copy, Debug, PartialEq, Eq, Structural)]
pub struct PaddingMode(pub i32);

impl Fromm<wire::keymint::PaddingMode> for PaddingMode {
    open spec fn converts(val: wire::keymint::PaddingMode, r: PaddingMode) -> bool {
        r.0 == val.code()
    }

    fn fromm(val: wire::keymint::PaddingMode) -> (r: PaddingMode) {
        PaddingMode(val.to_i32())
    }
}

impl TryFromm<PaddingMode> for wire::keymint::PaddingMode {
    type Error = ValueNotRecognized;

    open spec fn try_converts(
        val: PaddingMode,
        r: Result<wire::keymint::PaddingMode, ValueNotRecognized>,
    ) -> bool {
        r == match wire::keymint::PaddingMode::of_code(val.0 as int) {
            Some(x) => Ok(x),
            None => Err(ValueNotRecognized::PaddingMode),
        }
    }

    fn try_fromm(val: PaddingMode) -> (r: Result<wire::keymint::PaddingMode, ValueNotRecognized>) {
        match wire::keymint::PaddingMode::from_i32(val.0) {
            Some(x) => Ok(x),
            None => Err(ValueNotRecognized::PaddingMode),
        }
    }
}

/// The number that stands for a value of `SecurityLevel` in the layer.
#[derive(Clone, Copy, Debug, PartialEq, Eq, Structural)]
pub struct SecurityLevel(pub i32);

impl Fromm<wire::keymint::SecurityLevel> for SecurityLevel {
    open spec fn converts(val: wire::keymint::SecurityLevel, r: SecurityLevel) -> bool {
        r.0 == val.code()
    }

    fn fromm(val: wire::keymint::SecurityLevel) -> (r: SecurityLevel) {
        SecurityLevel(val.to_i32())
    }
}

impl TryFromm<SecurityLevel> for wire::keymint::SecurityLevel {
    type Error = ValueNotRecognized;

    open spec fn try_converts(
        val: SecurityLevel,
        r: Result<wire::keymint::SecurityLevel, ValueNotRecognized>,
    ) -> bool {
        r == match wire::keymint::SecurityLevel::of_code(val.0 as int) {
            Some(x) => Ok(x),
            None => Err(ValueNotRecognized::SecurityLevel),
        }
    }

    fn try_fromm(val: SecurityLevel) -> (r: Result<
        wire::keymint::SecurityLevel,
        ValueNotRecognized,
    >) {
        match wire::keymint::SecurityLevel::from_i32(val.0) {
            Some(x) => Ok(x),
            None => Err(ValueNotRecognized::SecurityLevel),
        }
    }
}

/// The number that stands for a value of `Tag` in the layer.
#[derive(Clone, Copy, Debug, PartialEq, Eq, Structural)]
pub struct Tag(pub i32);

impl Fromm<wire::keymint::Tag> for Tag {
    open spec fn converts(val: wire::keymint::Tag, r: Tag) -> bool {
        r.0 == val.code()
    }

    fn fromm(val: wire::keymint::Tag) -> (r: Tag) {
        Tag(val.to_i32())
    }
}

impl TryFromm<Tag> for wire::keymint::Tag {
    type Error = ValueNotRecognized;

    open spec fn try_converts(val: Tag, r: Result<wire::keymint::Tag, ValueNotRecognized>) -> bool {
        r == match wire::keymint::Tag::of_code(val.0 as int) {
            Some(x) => Ok(x),
            None => Err(ValueNotRecognized::Tag),
        }
    }

    fn try_fromm(val: Tag) -> (r: Result<wire::keymint::Tag, ValueNotRecognized>) {
        match wire::keymint::Tag::from_i32(val.0) {
            Some(x) => Ok(x),
            None => Err(ValueNotRecognized::Tag),
        }
    }
}

/// The number that stands for a value of `TagType` in the layer.
#[derive(Clone, Copy, Debug, PartialEq, Eq, Structural)]
pub struct TagType(pub i32);

impl Fromm<wire::keymint::TagType> for TagType {
    open spec fn converts(val: wire::keymint::TagType, r: TagType) -> bool {
        r.0 == val.code()
    }

    fn fromm(val: wire::keymint::TagType) -> (r: TagType) {
        TagType(val.to_i32())
    }
}

impl TryFromm<TagType> for wire::keymint::TagType {
    type Error = ValueNotRecognized;

    open spec fn try_converts(
        val: TagType,
        r: Result<wire::keymint::TagType, ValueNotRecognized>,
    ) -> bool {
        r == match wire::keymint::TagType::of_code(val.0 as int) {
            Some(x) => Ok(x),
            None => Err(ValueNotRecognized::TagType),
        }
    }

    fn try_fromm(val: TagType) -> (r: Result<wire::keymint::TagType, ValueNotRecognized>) {
        match wire::keymint::TagType::from_i32(val.0) {
            Some(x) => Ok(x),
            None => Err(ValueNotRecognized::TagType),
        }
    }
}

/// The error code of the layer that reports a failed conversion: the code
/// for an unsupported value where the layer has one for the kind of value,
/// `INVALID_ARGUMENT` otherwise.
pub open spec fn failure_code(err: ValueNotRecognized) -> wire::keymint::ErrorCode {
    match err {
        ValueNotRecognized::KeyPurpose => wire::keymint::ErrorCode::UnsupportedPurpose,
        ValueNotRecognized::Algorithm => wire::keymint::ErrorCode::UnsupportedAlgorithm,
        ValueNotRecognized::BlockMode => wire::keymint::ErrorCode::UnsupportedBlockMode,
        ValueNotRecognized::PaddingMode => wire::keymint::ErrorCode::UnsupportedPaddingMode,
        ValueNotRecognized::Digest => wire::keymint::ErrorCode::UnsupportedDigest,
        ValueNotRecognized::KeyFormat => wire::keymint::ErrorCode::UnsupportedKeyFormat,
        ValueNotRecognized::EcCurve => wire::keymint::ErrorCode::UnsupportedEcCurve,
        _ => wire::keymint::ErrorCode::InvalidArgument,
    }
}

/// The error code with which the layer reports a failed conversion.
pub fn failed_conversion(err: ValueNotRecognized) -> (r: ErrorCode)
    ensures
        r.0 == failure_code(err).code(),
{
    let errcode = match err {
        ValueNotRecognized::KeyPurpose => wire::keymint::ErrorCode::UnsupportedPurpose,
        ValueNotRecognized::Algorithm => wire::keymint::ErrorCode::UnsupportedAlgorithm,
        ValueNotRecognized::BlockMode => wire::keymint::ErrorCode::UnsupportedBlockMode,
        ValueNotRecognized::PaddingMode => wire::keymint::ErrorCode::UnsupportedPaddingMode,
        ValueNotRecognized::Digest => wire::keymint::ErrorCode::UnsupportedDigest,
        ValueNotRecognized::KeyFormat => wire::keymint::ErrorCode::UnsupportedKeyFormat,
        ValueNotRecognized::EcCurve => wire::keymint::ErrorCode::UnsupportedEcCurve,
        _ => wire::keymint::ErrorCode::InvalidArgument,
    };
    ErrorCode(errcode.to_i32())
}

/// The kind of value that a tag carries: the kind whose number is the top
/// four bits of the number of the tag, that is the number without its
/// remainder modulo 2^28, `INVALID` where that is no kind.
pub open spec fn tag_type_of(tag: Tag) -> wire::keymint::TagType {
    let number = u32_from_i32(tag.0);
    match wire::keymint::TagType::of_code(
        i32_from_u32((number - number % 0x1000_0000) as u32) as int,
    ) {
        Some(t) => t,
        None => wire::keymint::TagType::Invalid,
    }
}

/// The kind of value that a tag carries, from the top four bits of its
/// number.
pub fn tag_type(tag: Tag) -> (r: TagType)
    ensures
        r.0 == tag_type_of(tag).code(),
{
    let number = i32_as_u32(tag.0);
    match wire::keymint::TagType::from_i32(u32_as_i32(number - number % 0x1000_0000)) {
        Some(t) => TagType(t.to_i32()),
        None => TagType(wire::keymint::TagType::Invalid.to_i32()),
    }
}

/// The value of a key parameter in the layer: a union of the kinds of value
/// that a tag can carry.
#[derive(Clone, Debug, PartialEq, Eq)]
pub enum KeyParameterValue {
    Invalid(i32),
    Algorithm(Algorithm),
    BlockMode(BlockMode),
    PaddingMode(PaddingMode),
    Digest(Digest),
    EcCurve(EcCurve),
    Origin(KeyOrigin),
    KeyPurpose(KeyPurpose),
    HardwareAuthenticatorType(HardwareAuthenticatorType),
    SecurityLevel(SecurityLevel),
    BoolValue(bool),
    Integer(i32),
    LongInteger(i64),
    DateTime(i64),
    Blob(Vec<u8>),
}

/// The content of a [`KeyParameterValue`].
pub ghost enum KeyParameterValueView {
    Invalid(i32),
    Algorithm(Algorithm),
    BlockMode(BlockMode),
    PaddingMode(PaddingMode),
    Digest(Digest),
    EcCurve(EcCurve),
    Origin(KeyOrigin),
    KeyPurpose(KeyPurpose),
    HardwareAuthenticatorType(HardwareAuthenticatorType),
    SecurityLevel(SecurityLevel),
    BoolValue(bool),
    Integer(i32),
    LongInteger(i64),
    DateTime(i64),
    Blob(Seq<u8>),
}

impl View for KeyParameterValue {
    type V = KeyParameterValueView;

    open spec fn view(&self) -> KeyParameterValueView {
        match self {
            KeyParameterValue::Invalid(x) => KeyParameterValueView::Invalid(*x),
            KeyParameterValue::Algorithm(x) => KeyParameterValueView::Algorithm(*x),
            KeyParameterValue::BlockMode(x) => KeyParameterValueView::BlockMode(*x),
            KeyParameterValue::PaddingMode(x) => KeyParameterValueView::PaddingMode(*x),
            KeyParameterValue::Digest(x) => KeyParameterValueView::Digest(*x),
            KeyParameterValue::EcCurve(x) => KeyParameterValueView::EcCurve(*x),
            KeyParameterValue::Origin(x) => KeyParameterValueView::Origin(*x),
            KeyParameterValue::KeyPurpose(x) => KeyParameterValueView::KeyPurpose(*x),
            KeyParameterValue::HardwareAuthenticatorType(x) =>
                KeyParameterValueView::HardwareAuthenticatorType(*x),
            KeyParameterValue::SecurityLevel(x) => KeyParameterValueView::SecurityLevel(*x),
            KeyParameterValue::BoolValue(x) => KeyParameterValueView::BoolValue(*x),
            KeyParameterValue::Integer(x) => KeyParameterValueView::Integer(*x),
            KeyParameterValue::LongInteger(x) => KeyParameterValueView::LongInteger(*x),
            KeyParameterValue::DateTime(x) => KeyParameterValueView::DateTime(*x),
            KeyParameterValue::Blob(x) => KeyParameterValueView::Blob(x@),
        }
    }
}

/// A key parameter in the layer: a tag and a value, which need not fit
/// each other.
#[derive(Clone, Debug, PartialEq, Eq)]
pub struct KeyParameter {
    pub tag: Tag,
    pub value: KeyParameterValue,
}

/// The content of a [`KeyParameter`].
pub ghost struct KeyParameterView {
    pub tag: Tag,
    pub value: KeyParameterValueView,
}

impl View for KeyParameter {
    type V = KeyParameterView;

    open spec fn view(&self) -> KeyParameterView {
        KeyParameterView { tag: self.tag, value: self.value@ }
    }
}

/// The value in the layer that stands for the value of a key parameter.
pub open spec fn hal_value(param: wire::params::KeyParamView) -> KeyParameterValueView {
    match param {
        wire::params::KeyParamView::Purpose(v) => KeyParameterValueView::KeyPurpose(
            KeyPurpose(v.code() as i32),
        ),
        wire::params::KeyParamView::Algorithm(v) => KeyParameterValueView::Algorithm(
            Algorithm(v.code() as i32),
        ),
        wire::params::KeyParamView::BlockMode(v) => KeyParameterValueView::BlockMode(
            BlockMode(v.code() as i32),
        ),
        wire::params::KeyParamView::Digest(v) => KeyParameterValueView::Digest(
            Digest(v.code() as i32),
        ),
        wire::params::KeyParamView::Padding(v) => KeyParameterValueView::PaddingMode(
            PaddingMode(v.code() as i32),
        ),
        wire::params::KeyParamView::EcCurve(v) => KeyParameterValueView::EcCurve(
            EcCurve(v.code() as i32),
        ),
        wire::params::KeyParamView::RsaOaepMgfDigest(v) => KeyParameterValueView::Digest(
            Digest(v.code() as i32),
        ),
        wire::params::KeyParamView::Origin(v) => KeyParameterValueView::Origin(
            KeyOrigin(v.code() as i32),
        ),
        wire::params::KeyParamView::KeySize(v) => KeyParameterValueView::Integer(i32_from_u32(v.0)),
        wire::params::KeyParamView::MinMacLength(v) => KeyParameterValueView::Integer(i32_from_u32(v)),
        wire::params::KeyParamView::MaxUsesPerBoot(v) => KeyParameterValueView::Integer(i32_from_u32(v)),
        wire::params::KeyParamView::UsageCountLimit(v) => KeyParameterValueView::Integer(i32_from_u32(v)),
        wire::params::KeyParamView::UserId(v) => KeyParameterValueView::Integer(i32_from_u32(v)),
        wire::params::KeyParamView::UserAuthType(v) =>
            KeyParameterValueView::HardwareAuthenticatorType(
                HardwareAuthenticatorType(i32_from_u32(v)),
            ),
        wire::params::KeyParamView::AuthTimeout(v) => KeyParameterValueView::Integer(i32_from_u32(v)),
        wire::params::KeyParamView::OsVersion(v) => KeyParameterValueView::Integer(i32_from_u32(v)),
        wire::params::KeyParamView::OsPatchlevel(v) => KeyParameterValueView::Integer(i32_from_u32(v)),
        wire::params::KeyParamView::VendorPatchlevel(v) => KeyParameterValueView::Integer(i32_from_u32(v)),
        wire::params::KeyParamView::BootPatchlevel(v) => KeyParameterValueView::Integer(i32_from_u32(v)),
        wire::params::KeyParamView::MacLength(v) => KeyParameterValueView::Integer(i32_from_u32(v)),
        wire::params::KeyParamView::MaxBootLevel(v) => KeyParameterValueView::Integer(i32_from_u32(v)),
        wire::params::KeyParamView::RsaPublicExponent(v) => KeyParameterValueView::LongInteger(
            i64_from_u64(v.0),
        ),
        wire::params::KeyParamView::UserSecureId(v) => KeyParameterValueView::LongInteger(i64_from_u64(v)),
        wire::params::KeyParamView::CallerNonce => KeyParameterValueView::BoolValue(true),
        wire::params::KeyParamView::IncludeUniqueId => KeyParameterValueView::BoolValue(true),
        wire::params::KeyParamView::BootloaderOnly => KeyParameterValueView::BoolValue(true),
        wire::params::KeyParamView::RollbackResistance => KeyParameterValueView::BoolValue(true),
        wire::params::KeyParamView::EarlyBootOnly => KeyParameterValueView::BoolValue(true),
        wire::params::KeyParamView::AllowWhileOnBody => KeyParameterValueView::BoolValue(true),
        wire::params::KeyParamView::NoAuthRequired => KeyParameterValueView::BoolValue(true),
        wire::params::KeyParamView::TrustedUserPresenceRequired => KeyParameterValueView::BoolValue(
            true,
        ),
        wire::params::KeyParamView::TrustedConfirmationRequired => KeyParameterValueView::BoolValue(
            true,
        ),
        wire::params::KeyParamView::UnlockedDeviceRequired => KeyParameterValueView::BoolValue(
            true,
        ),
        wire::params::KeyParamView::DeviceUniqueAttestation => KeyParameterValueView::BoolValue(
            true,
        ),
        wire::params::KeyParamView::StorageKey => KeyParameterValueView::BoolValue(true),
        wire::params::KeyParamView::ResetSinceIdRotation => KeyParameterValueView::BoolValue(true),
        wire::params::KeyParamView::ActiveDatetime(v) => KeyParameterValueView::DateTime(
            v.ms_since_epoch,
        ),
        wire::params::KeyParamView::OriginationExpireDatetime(v) => KeyParameterValueView::DateTime(
            v.ms_since_epoch,
        ),
        wire::params::KeyParamView::UsageExpireDatetime(v) => KeyParameterValueView::DateTime(
            v.ms_since_epoch,
        ),
        wire::params::KeyParamView::CreationDatetime(v) => KeyParameterValueView::DateTime(
            v.ms_since_epoch,
        ),
        wire::params::KeyParamView::CertificateNotBefore(v) => KeyParameterValueView::DateTime(
            v.ms_since_epoch,
        ),
        wire::params::KeyParamView::CertificateNotAfter(v) => KeyParameterValueView::DateTime(
            v.ms_since_epoch,
        ),
        wire::params::KeyParamView::ApplicationId(v) => KeyParameterValueView::Blob(v),
        wire::params::KeyParamView::ApplicationData(v) => KeyParameterValueView::Blob(v),
        wire::params::KeyParamView::AttestationChallenge(v) => KeyParameterValueView::Blob(v),
        wire::params::KeyParamView::AttestationApplicationId(v) => KeyParameterValueView::Blob(v),
        wire::params::KeyParamView::AttestationIdBrand(v) => KeyParameterValueView::Blob(v),
        wire::params::KeyParamView::AttestationIdDevice(v) => KeyParameterValueView::Blob(v),
        wire::params::KeyParamView::AttestationIdProduct(v) => KeyParameterValueView::Blob(v),
        wire::params::KeyParamView::AttestationIdSerial(v) => KeyParameterValueView::Blob(v),
        wire::params::KeyParamView::AttestationIdImei(v) => KeyParameterValueView::Blob(v),
        wire::params::KeyParamView::AttestationIdMeid(v) => KeyParameterValueView::Blob(v),
        wire::params::KeyParamView::AttestationIdManufacturer(v) => KeyParameterValueView::Blob(v),
        wire::params::KeyParamView::AttestationIdModel(v) => KeyParameterValueView::Blob(v),
        wire::params::KeyParamView::Nonce(v) => KeyParameterValueView::Blob(v),
        wire::params::KeyParamView::RootOfTrust(v) => KeyParameterValueView::Blob(v),
        wire::params::KeyParamView::CertificateSerial(v) => KeyParameterValueView::Blob(v),
        wire::params::KeyParamView::CertificateSubject(v) => KeyParameterValueView::Blob(v),
    }
}

/// The key parameter of the layer that stands for a key parameter: the
/// number of its tag, and its value.
pub open spec fn hal_param(param: wire::params::KeyParamView) -> KeyParameterView {
    KeyParameterView { tag: Tag(param.tag().code() as i32), value: hal_value(param) }
}

impl Fromm<KeyParam> for KeyParameter {
    open spec fn converts(val: KeyParam, r: KeyParameter) -> bool {
        r@ == hal_param(val@)
    }

    fn fromm(val: KeyParam) -> (r: KeyParameter) {
        let tag = Tag(val.tag().to_i32());
        let value = match val {
            KeyParam::Purpose(v) => KeyParameterValue::KeyPurpose(v.innto()),
            KeyParam::Algorithm(v) => KeyParameterValue::Algorithm(v.innto()),
            KeyParam::BlockMode(v) => KeyParameterValue::BlockMode(v.innto()),
            KeyParam::Digest(v) => KeyParameterValue::Digest(v.innto()),
            KeyParam::Padding(v) => KeyParameterValue::PaddingMode(v.innto()),
            KeyParam::EcCurve(v) => KeyParameterValue::EcCurve(v.innto()),
            KeyParam::RsaOaepMgfDigest(v) => KeyParameterValue::Digest(v.innto()),
            KeyParam::Origin(v) => KeyParameterValue::Origin(v.innto()),
            KeyParam::KeySize(v) => KeyParameterValue::Integer(u32_as_i32(v.0)),
            KeyParam::MinMacLength(v) => KeyParameterValue::Integer(u32_as_i32(v)),
            KeyParam::MaxUsesPerBoot(v) => KeyParameterValue::Integer(u32_as_i32(v)),
            KeyParam::UsageCountLimit(v) => KeyParameterValue::Integer(u32_as_i32(v)),
            KeyParam::UserId(v) => KeyParameterValue::Integer(u32_as_i32(v)),
            KeyParam::UserAuthType(v) => KeyParameterValue::HardwareAuthenticatorType(
                HardwareAuthenticatorType(u32_as_i32(v)),
            ),
            KeyParam::AuthTimeout(v) => KeyParameterValue::Integer(u32_as_i32(v)),
            KeyParam::OsVersion(v) => KeyParameterValue::Integer(u32_as_i32(v)),
            KeyParam::OsPatchlevel(v) => KeyParameterValue::Integer(u32_as_i32(v)),
            KeyParam::VendorPatchlevel(v) => KeyParameterValue::Integer(u32_as_i32(v)),
            KeyParam::BootPatchlevel(v) => KeyParameterValue::Integer(u32_as_i32(v)),
            KeyParam::MacLength(v) => KeyParameterValue::Integer(u32_as_i32(v)),
            KeyParam::MaxBootLevel(v) => KeyParameterValue::Integer(u32_as_i32(v)),
            KeyParam::RsaPublicExponent(v) => KeyParameterValue::LongInteger(u64_as_i64(v.0)),
            KeyParam::UserSecureId(v) => KeyParameterValue::LongInteger(u64_as_i64(v)),
            KeyParam::CallerNonce => KeyParameterValue::BoolValue(true),
            KeyParam::IncludeUniqueId => KeyParameterValue::BoolValue(true),
            KeyParam::BootloaderOnly => KeyParameterValue::BoolValue(true),
            KeyParam::RollbackResistance => KeyParameterValue::BoolValue(true),
            KeyParam::EarlyBootOnly => KeyParameterValue::BoolValue(true),
            KeyParam::AllowWhileOnBody => KeyParameterValue::BoolValue(true),
            KeyParam::NoAuthRequired => KeyParameterValue::BoolValue(true),
            KeyParam::TrustedUserPresenceRequired => KeyParameterValue::BoolValue(true),
            KeyParam::TrustedConfirmationRequired => KeyParameterValue::BoolValue(true),
            KeyParam::UnlockedDeviceRequired => KeyParameterValue::BoolValue(true),
            KeyParam::DeviceUniqueAttestation => KeyParameterValue::BoolValue(true),
            KeyParam::StorageKey => KeyParameterValue::BoolValue(true),
            KeyParam::ResetSinceIdRotation => KeyParameterValue::BoolValue(true),
            KeyParam::ActiveDatetime(v) => KeyParameterValue::DateTime(v.ms_since_epoch),
            KeyParam::OriginationExpireDatetime(v) => KeyParameterValue::DateTime(v.ms_since_epoch),
            KeyParam::UsageExpireDatetime(v) => KeyParameterValue::DateTime(v.ms_since_epoch),
            KeyParam::CreationDatetime(v) => KeyParameterValue::DateTime(v.ms_since_epoch),
            KeyParam::CertificateNotBefore(v) => KeyParameterValue::DateTime(v.ms_since_epoch),
            KeyParam::CertificateNotAfter(v) => KeyParameterValue::DateTime(v.ms_since_epoch),
            KeyParam::ApplicationId(v) => KeyParameterValue::Blob(v),
            KeyParam::ApplicationData(v) => KeyParameterValue::Blob(v),
            KeyParam::AttestationChallenge(v) => KeyParameterValue::Blob(v),
            KeyParam::AttestationApplicationId(v) => KeyParameterValue::Blob(v),
            KeyParam::AttestationIdBrand(v) => KeyParameterValue::Blob(v),
            KeyParam::AttestationIdDevice(v) => KeyParameterValue::Blob(v),
            KeyParam::AttestationIdProduct(v) => KeyParameterValue::Blob(v),
            KeyParam::AttestationIdSerial(v) => KeyParameterValue::Blob(v),
            KeyParam::AttestationIdImei(v) => KeyParameterValue::Blob(v),
            KeyParam::AttestationIdMeid(v) => KeyParameterValue::Blob(v),
            KeyParam::AttestationIdManufacturer(v) => KeyParameterValue::Blob(v),
            KeyParam::AttestationIdModel(v) => KeyParameterValue::Blob(v),
            KeyParam::Nonce(v) => KeyParameterValue::Blob(v),
            KeyParam::RootOfTrust(v) => KeyParameterValue::Blob(v),
            KeyParam::CertificateSerial(v) => KeyParameterValue::Blob(v),
            KeyParam::CertificateSubject(v) => KeyParameterValue::Blob(v),
        };
        KeyParameter { tag, value }
    }
}

/// The key parameter that a tag and a value of the layer stand for.
///
/// The value must be of the kind that the tag carries: a value of another
/// kind is refused with the name of the kind that was expected. A number
/// that stands for no value of an enumeration is refused with the name of
/// the enumeration, and a marker whose value is not `true` with `Bool`. A
/// tag that the trusted application does not support is refused with `Tag`.
pub open spec fn wire_value(tag: wire::keymint::Tag, value: KeyParameterValueView) -> Result<
    Option<wire::params::KeyParamView>,
    ValueNotRecognized,
> {
    match tag {
        wire::keymint::Tag::Purpose => match value {
            KeyParameterValueView::KeyPurpose(v) => match wire::keymint::KeyPurpose::of_code(
                v.0 as int,
            ) {
                Some(x) => Ok(Some(wire::params::KeyParamView::Purpose(x))),
                None => Err(ValueNotRecognized::KeyPurpose),
            },
            _ => Err(ValueNotRecognized::KeyPurpose),
        },
        wire::keymint::Tag::Algorithm => match value {
            KeyParameterValueView::Algorithm(v) => match wire::keymint::Algorithm::of_code(
                v.0 as int,
            ) {
                Some(x) => Ok(Some(wire::params::KeyParamView::Algorithm(x))),
                None => Err(ValueNotRecognized::Algorithm),
            },
            _ => Err(ValueNotRecognized::Algorithm),
        },
        wire::keymint::Tag::BlockMode => match value {
            KeyParameterValueView::BlockMode(v) => match wire::keymint::BlockMode::of_code(
                v.0 as int,
            ) {
                Some(x) => Ok(Some(wire::params::KeyParamView::BlockMode(x))),
                None => Err(ValueNotRecognized::BlockMode),
            },
            _ => Err(ValueNotRecognized::BlockMode),
        },
        wire::keymint::Tag::Digest => match value {
            KeyParameterValueView::Digest(v) => match wire::keymint::Digest::of_code(v.0 as int) {
                Some(x) => Ok(Some(wire::params::KeyParamView::Digest(x))),
                None => Err(ValueNotRecognized::Digest),
            },
            _ => Err(ValueNotRecognized::Digest),
        },
        wire::keymint::Tag::Padding => match value {
            KeyParameterValueView::PaddingMode(v) => match wire::keymint::PaddingMode::of_code(
                v.0 as int,
            ) {
                Some(x) => Ok(Some(wire::params::KeyParamView::Padding(x))),
                None => Err(ValueNotRecognized::PaddingMode),
            },
            _ => Err(ValueNotRecognized::PaddingMode),
        },
        wire::keymint::Tag::EcCurve => match value {
            KeyParameterValueView::EcCurve(v) => match wire::keymint::EcCurve::of_code(v.0 as int) {
                Some(x) => Ok(Some(wire::params::KeyParamView::EcCurve(x))),
                None => Err(ValueNotRecognized::EcCurve),
            },
            _ => Err(ValueNotRecognized::EcCurve),
        },
        wire::keymint::Tag::RsaOaepMgfDigest => match value {
            KeyParameterValueView::Digest(v) => match wire::keymint::Digest::of_code(v.0 as int) {
                Some(x) => Ok(Some(wire::params::KeyParamView::RsaOaepMgfDigest(x))),
                None => Err(ValueNotRecognized::Digest),
            },
            _ => Err(ValueNotRecognized::Digest),
        },
        wire::keymint::Tag::Origin => match value {
            KeyParameterValueView::Origin(v) => match wire::keymint::KeyOrigin::of_code(
                v.0 as int,
            ) {
                Some(x) => Ok(Some(wire::params::KeyParamView::Origin(x))),
                None => Err(ValueNotRecognized::KeyOrigin),
            },
            _ => Err(ValueNotRecognized::Origin),
        },
        wire::keymint::Tag::KeySize => match value {
            KeyParameterValueView::Integer(v) => Ok(
                Some(wire::params::KeyParamView::KeySize(KeySizeInBits(u32_from_i32(v)))),
            ),
            _ => Err(ValueNotRecognized::Integer),
        },
        wire::keymint::Tag::MinMacLength => match value {
            KeyParameterValueView::Integer(v) => Ok(
                Some(wire::params::KeyParamView::MinMacLength(u32_from_i32(v))),
            ),
            _ => Err(ValueNotRecognized::Integer),
        },
        wire::keymint::Tag::MaxUsesPerBoot => match value {
            KeyParameterValueView::Integer(v) => Ok(
                Some(wire::params::KeyParamView::MaxUsesPerBoot(u32_from_i32(v))),
            ),
            _ => Err(ValueNotRecognized::Integer),
        },
        wire::keymint::Tag::UsageCountLimit => match value {
            KeyParameterValueView::Integer(v) => Ok(
                Some(wire::params::KeyParamView::UsageCountLimit(u32_from_i32(v))),
            ),
            _ => Err(ValueNotRecognized::Integer),
        },
        wire::keymint::Tag::UserId => match value {
            KeyParameterValueView::Integer(v) => Ok(
                Some(wire::params::KeyParamView::UserId(u32_from_i32(v))),
            ),
            _ => Err(ValueNotRecognized::Integer),
        },
        wire::keymint::Tag::UserAuthType => match value {
            KeyParameterValueView::HardwareAuthenticatorType(v) => Ok(
                Some(wire::params::KeyParamView::UserAuthType(u32_from_i32(v.0))),
            ),
            _ => Err(ValueNotRecognized::HardwareAuthenticatorType),
        },
        wire::keymint::Tag::AuthTimeout => match value {
            KeyParameterValueView::Integer(v) => Ok(
                Some(wire::params::KeyParamView::AuthTimeout(u32_from_i32(v))),
            ),
            _ => Err(ValueNotRecognized::Integer),
        },
        wire::keymint::Tag::OsVersion => match value {
            KeyParameterValueView::Integer(v) => Ok(
                Some(wire::params::KeyParamView::OsVersion(u32_from_i32(v))),
            ),
            _ => Err(ValueNotRecognized::Integer),
        },
        wire::keymint::Tag::OsPatchlevel => match value {
            KeyParameterValueView::Integer(v) => Ok(
                Some(wire::params::KeyParamView::OsPatchlevel(u32_from_i32(v))),
            ),
            _ => Err(ValueNotRecognized::Integer),
        },
        wire::keymint::Tag::VendorPatchlevel => match value {
            KeyParameterValueView::Integer(v) => Ok(
                Some(wire::params::KeyParamView::VendorPatchlevel(u32_from_i32(v))),
            ),
            _ => Err(ValueNotRecognized::Integer),
        },
        wire::keymint::Tag::BootPatchlevel => match value {
            KeyParameterValueView::Integer(v) => Ok(
                Some(wire::params::KeyParamView::BootPatchlevel(u32_from_i32(v))),
            ),
            _ => Err(ValueNotRecognized::Integer),
        },
        wire::keymint::Tag::MacLength => match value {
            KeyParameterValueView::Integer(v) => Ok(
                Some(wire::params::KeyParamView::MacLength(u32_from_i32(v))),
            ),
            _ => Err(ValueNotRecognized::Integer),
        },
        wire::keymint::Tag::MaxBootLevel => match value {
            KeyParameterValueView::Integer(v) => Ok(
                Some(wire::params::KeyParamView::MaxBootLevel(u32_from_i32(v))),
            ),
            _ => Err(ValueNotRecognized::Integer),
        },
        wire::keymint::Tag::RsaPublicExponent => match value {
            KeyParameterValueView::LongInteger(v) => Ok(
                Some(wire::params::KeyParamView::RsaPublicExponent(RsaExponent(u64_from_i64(v)))),
            ),
            _ => Err(ValueNotRecognized::LongInteger),
        },
        wire::keymint::Tag::UserSecureId => match value {
            KeyParameterValueView::LongInteger(v) => Ok(
                Some(wire::params::KeyParamView::UserSecureId(u64_from_i64(v))),
            ),
            _ => Err(ValueNotRecognized::LongInteger),
        },
        wire::keymint::Tag::CallerNonce => match value {
            KeyParameterValueView::BoolValue(true) => Ok(
                Some(wire::params::KeyParamView::CallerNonce),
            ),
            _ => Err(ValueNotRecognized::Bool),
        },
        wire::keymint::Tag::IncludeUniqueId => match value {
            KeyParameterValueView::BoolValue(true) => Ok(
                Some(wire::params::KeyParamView::IncludeUniqueId),
            ),
            _ => Err(ValueNotRecognized::Bool),
        },
        wire::keymint::Tag::BootloaderOnly => match value {
            KeyParameterValueView::BoolValue(true) => Ok(
                Some(wire::params::KeyParamView::BootloaderOnly),
            ),
            _ => Err(ValueNotRecognized::Bool),
        },
        wire::keymint::Tag::RollbackResistance => match value {
            KeyParameterValueView::BoolValue(true) => Ok(
                Some(wire::params::KeyParamView::RollbackResistance),
            ),
            _ => Err(ValueNotRecognized::Bool),
        },
        wire::keymint::Tag::EarlyBootOnly => match value {
            KeyParameterValueView::BoolValue(true) => Ok(
                Some(wire::params::KeyParamView::EarlyBootOnly),
            ),
            _ => Err(ValueNotRecognized::Bool),
        },
        wire::keymint::Tag::AllowWhileOnBody => match value {
            KeyParameterValueView::BoolValue(true) => Ok(
                Some(wire::params::KeyParamView::AllowWhileOnBody),
            ),
            _ => Err(ValueNotRecognized::Bool),
        },
        wire::keymint::Tag::NoAuthRequired => match value {
            KeyParameterValueView::BoolValue(true) => Ok(
                Some(wire::params::KeyParamView::NoAuthRequired),
            ),
            _ => Err(ValueNotRecognized::Bool),
        },
        wire::keymint::Tag::TrustedUserPresenceRequired => match value {
            KeyParameterValueView::BoolValue(true) => Ok(
                Some(wire::params::KeyParamView::TrustedUserPresenceRequired),
            ),
            _ => Err(ValueNotRecognized::Bool),
        },
        wire::keymint::Tag::TrustedConfirmationRequired => match value {
            KeyParameterValueView::BoolValue(true) => Ok(
                Some(wire::params::KeyParamView::TrustedConfirmationRequired),
            ),
            _ => Err(ValueNotRecognized::Bool),
        },
        wire::keymint::Tag::UnlockedDeviceRequired => match value {
            KeyParameterValueView::BoolValue(true) => Ok(
                Some(wire::params::KeyParamView::UnlockedDeviceRequired),
            ),
            _ => Err(ValueNotRecognized::Bool),
        },
        wire::keymint::Tag::DeviceUniqueAttestation => match value {
            KeyParameterValueView::BoolValue(true) => Ok(
                Some(wire::params::KeyParamView::DeviceUniqueAttestation),
            ),
            _ => Err(ValueNotRecognized::Bool),
        },
        wire::keymint::Tag::StorageKey => match value {
            KeyParameterValueView::BoolValue(true) => Ok(
                Some(wire::params::KeyParamView::StorageKey),
            ),
            _ => Err(ValueNotRecognized::Bool),
        },
        wire::keymint::Tag::ResetSinceIdRotation => match value {
            KeyParameterValueView::BoolValue(true) => Ok(
                Some(wire::params::KeyParamView::ResetSinceIdRotation),
            ),
            _ => Err(ValueNotRecognized::Bool),
        },
        wire::keymint::Tag::ActiveDatetime => match value {
            KeyParameterValueView::DateTime(v) => Ok(
                Some(wire::params::KeyParamView::ActiveDatetime(DateTime { ms_since_epoch: v })),
            ),
            _ => Err(ValueNotRecognized::DateTime),
        },
        wire::keymint::Tag::OriginationExpireDatetime => match value {
            KeyParameterValueView::DateTime(v) => Ok(
                Some(
                    wire::params::KeyParamView::OriginationExpireDatetime(
                        DateTime { ms_since_epoch: v },
                    ),
                ),
            ),
            _ => Err(ValueNotRecognized::DateTime),
        },
        wire::keymint::Tag::UsageExpireDatetime => match value {
            KeyParameterValueView::DateTime(v) => Ok(
                Some(
                    wire::params::KeyParamView::UsageExpireDatetime(DateTime { ms_since_epoch: v }),
                ),
            ),
            _ => Err(ValueNotRecognized::DateTime),
        },
        wire::keymint::Tag::CreationDatetime => match value {
            KeyParameterValueView::DateTime(v) => Ok(
                Some(wire::params::KeyParamView::CreationDatetime(DateTime { ms_since_epoch: v })),
            ),
            _ => Err(ValueNotRecognized::DateTime),
        },
        wire::keymint::Tag::CertificateNotBefore => match value {
            KeyParameterValueView::DateTime(v) => Ok(
                Some(
                    wire::params::KeyParamView::CertificateNotBefore(
                        DateTime { ms_since_epoch: v },
                    ),
                ),
            ),
            _ => Err(ValueNotRecognized::DateTime),
        },
        wire::keymint::Tag::CertificateNotAfter => match value {
            KeyParameterValueView::DateTime(v) => Ok(
                Some(
                    wire::params::KeyParamView::CertificateNotAfter(DateTime { ms_since_epoch: v }),
                ),
            ),
            _ => Err(ValueNotRecognized::DateTime),
        },
        wire::keymint::Tag::ApplicationId => match value {
            KeyParameterValueView::Blob(v) => Ok(
                Some(wire::params::KeyParamView::ApplicationId(v)),
            ),
            _ => Err(ValueNotRecognized::Blob),
        },
        wire::keymint::Tag::ApplicationData => match value {
            KeyParameterValueView::Blob(v) => Ok(
                Some(wire::params::KeyParamView::ApplicationData(v)),
            ),
            _ => Err(ValueNotRecognized::Blob),
        },
        wire::keymint::Tag::AttestationChallenge => match value {
            KeyParameterValueView::Blob(v) => Ok(
                Some(wire::params::KeyParamView::AttestationChallenge(v)),
            ),
            _ => Err(ValueNotRecognized::Blob),
        },
        wire::keymint::Tag::AttestationApplicationId => match value {
            KeyParameterValueView::Blob(v) => Ok(
                Some(wire::params::KeyParamView::AttestationApplicationId(v)),
            ),
            _ => Err(ValueNotRecognized::Blob),
        },
        wire::keymint::Tag::AttestationIdBrand => match value {
            KeyParameterValueView::Blob(v) => Ok(
                Some(wire::params::KeyParamView::AttestationIdBrand(v)),
            ),
            _ => Err(ValueNotRecognized::Blob),
        },
        wire::keymint::Tag::AttestationIdDevice => match value {
            KeyParameterValueView::Blob(v) => Ok(
                Some(wire::params::KeyParamView::AttestationIdDevice(v)),
            ),
            _ => Err(ValueNotRecognized::Blob),
        },
        wire::keymint::Tag::AttestationIdProduct => match value {
            KeyParameterValueView::Blob(v) => Ok(
                Some(wire::params::KeyParamView::AttestationIdProduct(v)),
            ),
            _ => Err(ValueNotRecognized::Blob),
        },
        wire::keymint::Tag::AttestationIdSerial => match value {
            KeyParameterValueView::Blob(v) => Ok(
                Some(wire::params::KeyParamView::AttestationIdSerial(v)),
            ),
            _ => Err(ValueNotRecognized::Blob),
        },
        wire::keymint::Tag::AttestationIdImei => match value {
            KeyParameterValueView::Blob(v) => Ok(
                Some(wire::params::KeyParamView::AttestationIdImei(v)),
            ),
            _ => Err(ValueNotRecognized::Blob),
        },
        wire::keymint::Tag::AttestationIdMeid => match value {
            KeyParameterValueView::Blob(v) => Ok(
                Some(wire::params::KeyParamView::AttestationIdMeid(v)),
            ),
            _ => Err(ValueNotRecognized::Blob),
        },
        wire::keymint::Tag::AttestationIdManufacturer => match value {
            KeyParameterValueView::Blob(v) => Ok(
                Some(wire::params::KeyParamView::AttestationIdManufacturer(v)),
            ),
            _ => Err(ValueNotRecognized::Blob),
        },
        wire::keymint::Tag::AttestationIdModel => match value {
            KeyParameterValueView::Blob(v) => Ok(
                Some(wire::params::KeyParamView::AttestationIdModel(v)),
            ),
            _ => Err(ValueNotRecognized::Blob),
        },
        wire::keymint::Tag::Nonce => match value {
            KeyParameterValueView::Blob(v) => Ok(Some(wire::params::KeyParamView::Nonce(v))),
            _ => Err(ValueNotRecognized::Blob),
        },
        wire::keymint::Tag::RootOfTrust => match value {
            KeyParameterValueView::Blob(v) => Ok(Some(wire::params::KeyParamView::RootOfTrust(v))),
            _ => Err(ValueNotRecognized::Blob),
        },
        wire::keymint::Tag::CertificateSerial => match value {
            KeyParameterValueView::Blob(v) => Ok(
                Some(wire::params::KeyParamView::CertificateSerial(v)),
            ),
            _ => Err(ValueNotRecognized::Blob),
        },
        wire::keymint::Tag::CertificateSubject => match value {
            KeyParameterValueView::Blob(v) => Ok(
                Some(wire::params::KeyParamView::CertificateSubject(v)),
            ),
            _ => Err(ValueNotRecognized::Blob),
        },
        wire::keymint::Tag::UniqueId
        | wire::keymint::Tag::HardwareType
        | wire::keymint::Tag::MinSecondsBetweenOps
        | wire::keymint::Tag::IdentityCredentialKey
        | wire::keymint::Tag::AssociatedData
        | wire::keymint::Tag::ConfirmationToken => Err(ValueNotRecognized::Tag),
        wire::keymint::Tag::Invalid => Ok(None),
    }
}

/// The key parameter that a key parameter of the layer stands for, if it
/// stands for one: a parameter whose tag the trusted application does not
/// know stands for none, and is dropped without an error.
pub open spec fn wire_param(param: KeyParameterView) -> Result<
    Option<wire::params::KeyParamView>,
    ValueNotRecognized,
> {
    match wire::keymint::Tag::of_code(param.tag.0 as int) {
        Some(tag) => wire_value(tag, param.value),
        None => Ok(None),
    }
}

/// Converting a key parameter to the layer and back gives the parameter
/// again: the layer can hold every key parameter, and none is dropped or
/// refused on the way back.
pub proof fn lemma_wire_param_round_trip(param: wire::params::KeyParamView)
    ensures
        wire_param(hal_param(param)) == Ok::<Option<wire::params::KeyParamView>, ValueNotRecognized>(
            Some(param),
        ),
{
    param.tag().lemma_round_trip();
    assert(wire::keymint::Tag::of_code(hal_param(param).tag.0 as int) == Some(param.tag()));
    match param {
        wire::params::KeyParamView::Purpose(v) => {
            v.lemma_round_trip();
        },
        wire::params::KeyParamView::Algorithm(v) => {
            v.lemma_round_trip();
        },
        wire::params::KeyParamView::BlockMode(v) => {
            v.lemma_round_trip();
        },
        wire::params::KeyParamView::Digest(v) => {
            v.lemma_round_trip();
        },
        wire::params::KeyParamView::Padding(v) => {
            v.lemma_round_trip();
        },
        wire::params::KeyParamView::EcCurve(v) => {
            v.lemma_round_trip();
        },
        wire::params::KeyParamView::RsaOaepMgfDigest(v) => {
            v.lemma_round_trip();
        },
        wire::params::KeyParamView::Origin(v) => {
            v.lemma_round_trip();
        },
        wire::params::KeyParamView::KeySize(v) => {
            lemma_same_bits_round_trip(0, v.0, 0, 0);
        },
        wire::params::KeyParamView::MinMacLength(v) => {
            lemma_same_bits_round_trip(0, v, 0, 0);
        },
        wire::params::KeyParamView::MaxUsesPerBoot(v) => {
            lemma_same_bits_round_trip(0, v, 0, 0);
        },
        wire::params::KeyParamView::UsageCountLimit(v) => {
            lemma_same_bits_round_trip(0, v, 0, 0);
        },
        wire::params::KeyParamView::UserId(v) => {
            lemma_same_bits_round_trip(0, v, 0, 0);
        },
        wire::params::KeyParamView::UserAuthType(v) => {
            lemma_same_bits_round_trip(0, v, 0, 0);
        },
        wire::params::KeyParamView::AuthTimeout(v) => {
            lemma_same_bits_round_trip(0, v, 0, 0);
        },
        wire::params::KeyParamView::OsVersion(v) => {
            lemma_same_bits_round_trip(0, v, 0, 0);
        },
        wire::params::KeyParamView::OsPatchlevel(v) => {
            lemma_same_bits_round_trip(0, v, 0, 0);
        },
        wire::params::KeyParamView::VendorPatchlevel(v) => {
            lemma_same_bits_round_trip(0, v, 0, 0);
        },
        wire::params::KeyParamView::BootPatchlevel(v) => {
            lemma_same_bits_round_trip(0, v, 0, 0);
        },
        wire::params::KeyParamView::MacLength(v) => {
            lemma_same_bits_round_trip(0, v, 0, 0);
        },
        wire::params::KeyParamView::MaxBootLevel(v) => {
            lemma_same_bits_round_trip(0, v, 0, 0);
        },
        wire::params::KeyParamView::RsaPublicExponent(v) => {
            lemma_same_bits_round_trip(0, 0, 0, v.0);
        },
        wire::params::KeyParamView::UserSecureId(v) => {
            lemma_same_bits_round_trip(0, 0, 0, v);
        },
        _ => {},
    }
}

/// The outcome of a conversion with the key parameter it holds replaced by
/// that parameter's view.
pub open spec fn outcome_view(r: Result<Option<KeyParam>, ValueNotRecognized>) -> Result<
    Option<wire::params::KeyParamView>,
    ValueNotRecognized,
> {
    match r {
        Ok(Some(p)) => Ok(Some(p@)),
        Ok(None) => Ok(None),
        Err(e) => Err(e),
    }
}

impl<'a> TryFromm<&'a KeyParameter> for Option<KeyParam> {
    type Error = ValueNotRecognized;

    open spec fn try_converts(
        val: &'a KeyParameter,
        r: Result<Option<KeyParam>, ValueNotRecognized>,
    ) -> bool {
        outcome_view(r) == wire_param(val@)
    }

    fn try_fromm(val: &'a KeyParameter) -> (r: Result<Option<KeyParam>, ValueNotRecognized>) {
        let tag = match wire::keymint::Tag::from_i32(val.tag.0) {
            Some(tag) => tag,
            None => { return Ok(None); },
        };
        match tag {
            wire::keymint::Tag::Purpose => match &val.value {
                KeyParameterValue::KeyPurpose(v) => match wire::keymint::KeyPurpose::from_i32(v.0) {
                    Some(x) => Ok(Some(KeyParam::Purpose(x))),
                    None => Err(ValueNotRecognized::KeyPurpose),
                },
                _ => Err(ValueNotRecognized::KeyPurpose),
            },
            wire::keymint::Tag::Algorithm => match &val.value {
                KeyParameterValue::Algorithm(v) => match wire::keymint::Algorithm::from_i32(v.0) {
                    Some(x) => Ok(Some(KeyParam::Algorithm(x))),
                    None => Err(ValueNotRecognized::Algorithm),
                },
                _ => Err(ValueNotRecognized::Algorithm),
            },
            wire::keymint::Tag::BlockMode => match &val.value {
                KeyParameterValue::BlockMode(v) => match wire::keymint::BlockMode::from_i32(v.0) {
                    Some(x) => Ok(Some(KeyParam::BlockMode(x))),
                    None => Err(ValueNotRecognized::BlockMode),
                },
                _ => Err(ValueNotRecognized::BlockMode),
            },
            wire::keymint::Tag::Digest => match &val.value {
                KeyParameterValue::Digest(v) => match wire::keymint::Digest::from_i32(v.0) {
                    Some(x) => Ok(Some(KeyParam::Digest(x))),
                    None => Err(ValueNotRecognized::Digest),
                },
                _ => Err(ValueNotRecognized::Digest),
            },
            wire::keymint::Tag::Padding => match &val.value {
                KeyParameterValue::PaddingMode(v) => match wire::keymint::PaddingMode::from_i32(
                    v.0,
                ) {
                    Some(x) => Ok(Some(KeyParam::Padding(x))),
                    None => Err(ValueNotRecognized::PaddingMode),
                },
                _ => Err(ValueNotRecognized::PaddingMode),
            },
            wire::keymint::Tag::EcCurve => match &val.value {
                KeyParameterValue::EcCurve(v) => match wire::keymint::EcCurve::from_i32(v.0) {
                    Some(x) => Ok(Some(KeyParam::EcCurve(x))),
                    None => Err(ValueNotRecognized::EcCurve),
                },
                _ => Err(ValueNotRecognized::EcCurve),
            },
            wire::keymint::Tag::RsaOaepMgfDigest => match &val.value {
                KeyParameterValue::Digest(v) => match wire::keymint::Digest::from_i32(v.0) {
                    Some(x) => Ok(Some(KeyParam::RsaOaepMgfDigest(x))),
                    None => Err(ValueNotRecognized::Digest),
                },
                _ => Err(ValueNotRecognized::Digest),
            },
            wire::keymint::Tag::Origin => match &val.value {
                KeyParameterValue::Origin(v) => match wire::keymint::KeyOrigin::from_i32(v.0) {
                    Some(x) => Ok(Some(KeyParam::Origin(x))),
                    None => Err(ValueNotRecognized::KeyOrigin),
                },
                _ => Err(ValueNotRecognized::Origin),
            },
            wire::keymint::Tag::KeySize => match &val.value {
                KeyParameterValue::Integer(v) => Ok(
                    Some(KeyParam::KeySize(KeySizeInBits(i32_as_u32(*v)))),
                ),
                _ => Err(ValueNotRecognized::Integer),
            },
            wire::keymint::Tag::MinMacLength => match &val.value {
                KeyParameterValue::Integer(v) => Ok(Some(KeyParam::MinMacLength(i32_as_u32(*v)))),
                _ => Err(ValueNotRecognized::Integer),
            },
            wire::keymint::Tag::MaxUsesPerBoot => match &val.value {
                KeyParameterValue::Integer(v) => Ok(Some(KeyParam::MaxUsesPerBoot(i32_as_u32(*v)))),
                _ => Err(ValueNotRecognized::Integer),
            },
            wire::keymint::Tag::UsageCountLimit => match &val.value {
                KeyParameterValue::Integer(v) => Ok(Some(KeyParam::UsageCountLimit(i32_as_u32(*v)))),
                _ => Err(ValueNotRecognized::Integer),
            },
            wire::keymint::Tag::UserId => match &val.value {
                KeyParameterValue::Integer(v) => Ok(Some(KeyParam::UserId(i32_as_u32(*v)))),
                _ => Err(ValueNotRecognized::Integer),
            },
            wire::keymint::Tag::UserAuthType => match &val.value {
                KeyParameterValue::HardwareAuthenticatorType(v) => Ok(
                    Some(KeyParam::UserAuthType(i32_as_u32(v.0))),
                ),
                _ => Err(ValueNotRecognized::HardwareAuthenticatorType),
            },
            wire::keymint::Tag::AuthTimeout => match &val.value {
                KeyParameterValue::Integer(v) => Ok(Some(KeyParam::AuthTimeout(i32_as_u32(*v)))),
                _ => Err(ValueNotRecognized::Integer),
            },
            wire::keymint::Tag::OsVersion => match &val.value {
                KeyParameterValue::Integer(v) => Ok(Some(KeyParam::OsVersion(i32_as_u32(*v)))),
                _ => Err(ValueNotRecognized::Integer),
            },
            wire::keymint::Tag::OsPatchlevel => match &val.value {
                KeyParameterValue::Integer(v) => Ok(Some(KeyParam::OsPatchlevel(i32_as_u32(*v)))),
                _ => Err(ValueNotRecognized::Integer),
            },
            wire::keymint::Tag::VendorPatchlevel => match &val.value {
                KeyParameterValue::Integer(v) => Ok(Some(KeyParam::VendorPatchlevel(i32_as_u32(*v)))),
                _ => Err(ValueNotRecognized::Integer),
            },
            wire::keymint::Tag::BootPatchlevel => match &val.value {
                KeyParameterValue::Integer(v) => Ok(Some(KeyParam::BootPatchlevel(i32_as_u32(*v)))),
                _ => Err(ValueNotRecognized::Integer),
            },
            wire::keymint::Tag::MacLength => match &val.value {
                KeyParameterValue::Integer(v) => Ok(Some(KeyParam::MacLength(i32_as_u32(*v)))),
                _ => Err(ValueNotRecognized::Integer),
            },
            wire::keymint::Tag::MaxBootLevel => match &val.value {
                KeyParameterValue::Integer(v) => Ok(Some(KeyParam::MaxBootLevel(i32_as_u32(*v)))),
                _ => Err(ValueNotRecognized::Integer),
            },
            wire::keymint::Tag::RsaPublicExponent => match &val.value {
                KeyParameterValue::LongInteger(v) => Ok(
                    Some(KeyParam::RsaPublicExponent(RsaExponent(i64_as_u64(*v)))),
                ),
                _ => Err(ValueNotRecognized::LongInteger),
            },
            wire::keymint::Tag::UserSecureId => match &val.value {
                KeyParameterValue::LongInteger(v) => Ok(Some(KeyParam::UserSecureId(i64_as_u64(*v)))),
                _ => Err(ValueNotRecognized::LongInteger),
            },
            wire::keymint::Tag::CallerNonce => match &val.value {
                KeyParameterValue::BoolValue(true) => Ok(Some(KeyParam::CallerNonce)),
                _ => Err(ValueNotRecognized::Bool),
            },
            wire::keymint::Tag::IncludeUniqueId => match &val.value {
                KeyParameterValue::BoolValue(true) => Ok(Some(KeyParam::IncludeUniqueId)),
                _ => Err(ValueNotRecognized::Bool),
            },
            wire::keymint::Tag::BootloaderOnly => match &val.value {
                KeyParameterValue::BoolValue(true) => Ok(Some(KeyParam::BootloaderOnly)),
                _ => Err(ValueNotRecognized::Bool),
            },
            wire::keymint::Tag::RollbackResistance => match &val.value {
                KeyParameterValue::BoolValue(true) => Ok(Some(KeyParam::RollbackResistance)),
                _ => Err(ValueNotRecognized::Bool),
            },
            wire::keymint::Tag::EarlyBootOnly => match &val.value {
                KeyParameterValue::BoolValue(true) => Ok(Some(KeyParam::EarlyBootOnly)),
                _ => Err(ValueNotRecognized::Bool),
            },
            wire::keymint::Tag::AllowWhileOnBody => match &val.value {
                KeyParameterValue::BoolValue(true) => Ok(Some(KeyParam::AllowWhileOnBody)),
                _ => Err(ValueNotRecognized::Bool),
            },
            wire::keymint::Tag::NoAuthRequired => match &val.value {
                KeyParameterValue::BoolValue(true) => Ok(Some(KeyParam::NoAuthRequired)),
                _ => Err(ValueNotRecognized::Bool),
            },
            wire::keymint::Tag::TrustedUserPresenceRequired => match &val.value {
                KeyParameterValue::BoolValue(true) => Ok(
                    Some(KeyParam::TrustedUserPresenceRequired),
                ),
                _ => Err(ValueNotRecognized::Bool),
            },
            wire::keymint::Tag::TrustedConfirmationRequired => match &val.value {
                KeyParameterValue::BoolValue(true) => Ok(
                    Some(KeyParam::TrustedConfirmationRequired),
                ),
                _ => Err(ValueNotRecognized::Bool),
            },
            wire::keymint::Tag::UnlockedDeviceRequired => match &val.value {
                KeyParameterValue::BoolValue(true) => Ok(Some(KeyParam::UnlockedDeviceRequired)),
                _ => Err(ValueNotRecognized::Bool),
            },
            wire::keymint::Tag::DeviceUniqueAttestation => match &val.value {
                KeyParameterValue::BoolValue(true) => Ok(Some(KeyParam::DeviceUniqueAttestation)),
                _ => Err(ValueNotRecognized::Bool),
            },
            wire::keymint::Tag::StorageKey => match &val.value {
                KeyParameterValue::BoolValue(true) => Ok(Some(KeyParam::StorageKey)),
                _ => Err(ValueNotRecognized::Bool),
            },
            wire::keymint::Tag::ResetSinceIdRotation => match &val.value {
                KeyParameterValue::BoolValue(true) => Ok(Some(KeyParam::ResetSinceIdRotation)),
                _ => Err(ValueNotRecognized::Bool),
            },
            wire::keymint::Tag::ActiveDatetime => match &val.value {
                KeyParameterValue::DateTime(v) => Ok(
                    Some(KeyParam::ActiveDatetime(DateTime { ms_since_epoch: *v })),
                ),
                _ => Err(ValueNotRecognized::DateTime),
            },
            wire::keymint::Tag::OriginationExpireDatetime => match &val.value {
                KeyParameterValue::DateTime(v) => Ok(
                    Some(KeyParam::OriginationExpireDatetime(DateTime { ms_since_epoch: *v })),
                ),
                _ => Err(ValueNotRecognized::DateTime),
            },
            wire::keymint::Tag::UsageExpireDatetime => match &val.value {
                KeyParameterValue::DateTime(v) => Ok(
                    Some(KeyParam::UsageExpireDatetime(DateTime { ms_since_epoch: *v })),
                ),
                _ => Err(ValueNotRecognized::DateTime),
            },
            wire::keymint::Tag::CreationDatetime => match &val.value {
                KeyParameterValue::DateTime(v) => Ok(
                    Some(KeyParam::CreationDatetime(DateTime { ms_since_epoch: *v })),
                ),
                _ => Err(ValueNotRecognized::DateTime),
            },
            wire::keymint::Tag::CertificateNotBefore => match &val.value {
                KeyParameterValue::DateTime(v) => Ok(
                    Some(KeyParam::CertificateNotBefore(DateTime { ms_since_epoch: *v })),
                ),
                _ => Err(ValueNotRecognized::DateTime),
            },
            wire::keymint::Tag::CertificateNotAfter => match &val.value {
                KeyParameterValue::DateTime(v) => Ok(
                    Some(KeyParam::CertificateNotAfter(DateTime { ms_since_epoch: *v })),
                ),
                _ => Err(ValueNotRecognized::DateTime),
            },
            wire::keymint::Tag::ApplicationId => match &val.value {
                KeyParameterValue::Blob(v) => Ok(
                    Some(KeyParam::ApplicationId(copy_bytes(v.as_slice()))),
                ),
                _ => Err(ValueNotRecognized::Blob),
            },
            wire::keymint::Tag::ApplicationData => match &val.value {
                KeyParameterValue::Blob(v) => Ok(
                    Some(KeyParam::ApplicationData(copy_bytes(v.as_slice()))),
                ),
                _ => Err(ValueNotRecognized::Blob),
            },
            wire::keymint::Tag::AttestationChallenge => match &val.value {
                KeyParameterValue::Blob(v) => Ok(
                    Some(KeyParam::AttestationChallenge(copy_bytes(v.as_slice()))),
                ),
                _ => Err(ValueNotRecognized::Blob),
            },
            wire::keymint::Tag::AttestationApplicationId => match &val.value {
                KeyParameterValue::Blob(v) => Ok(
                    Some(KeyParam::AttestationApplicationId(copy_bytes(v.as_slice()))),
                ),
                _ => Err(ValueNotRecognized::Blob),
            },
            wire::keymint::Tag::AttestationIdBrand => match &val.value {
                KeyParameterValue::Blob(v) => Ok(
                    Some(KeyParam::AttestationIdBrand(copy_bytes(v.as_slice()))),
                ),
                _ => Err(ValueNotRecognized::Blob),
            },
            wire::keymint::Tag::AttestationIdDevice => match &val.value {
                KeyParameterValue::Blob(v) => Ok(
                    Some(KeyParam::AttestationIdDevice(copy_bytes(v.as_slice()))),
                ),
                _ => Err(ValueNotRecognized::Blob),
            },
            wire::keymint::Tag::AttestationIdProduct => match &val.value {
                KeyParameterValue::Blob(v) => Ok(
                    Some(KeyParam::AttestationIdProduct(copy_bytes(v.as_slice()))),
                ),
                _ => Err(ValueNotRecognized::Blob),
            },
            wire::keymint::Tag::AttestationIdSerial => match &val.value {
                KeyParameterValue::Blob(v) => Ok(
                    Some(KeyParam::AttestationIdSerial(copy_bytes(v.as_slice()))),
                ),
                _ => Err(ValueNotRecognized::Blob),
            },
            wire::keymint::Tag::AttestationIdImei => match &val.value {
                KeyParameterValue::Blob(v) => Ok(
                    Some(KeyParam::AttestationIdImei(copy_bytes(v.as_slice()))),
                ),
                _ => Err(ValueNotRecognized::Blob),
            },
            wire::keymint::Tag::AttestationIdMeid => match &val.value {
                KeyParameterValue::Blob(v) => Ok(
                    Some(KeyParam::AttestationIdMeid(copy_bytes(v.as_slice()))),
                ),
                _ => Err(ValueNotRecognized::Blob),
            },
            wire::keymint::Tag::AttestationIdManufacturer => match &val.value {
                KeyParameterValue::Blob(v) => Ok(
                    Some(KeyParam::AttestationIdManufacturer(copy_bytes(v.as_slice()))),
                ),
                _ => Err(ValueNotRecognized::Blob),
            },
            wire::keymint::Tag::AttestationIdModel => match &val.value {
                KeyParameterValue::Blob(v) => Ok(
                    Some(KeyParam::AttestationIdModel(copy_bytes(v.as_slice()))),
                ),
                _ => Err(ValueNotRecognized::Blob),
            },
            wire::keymint::Tag::Nonce => match &val.value {
                KeyParameterValue::Blob(v) => Ok(Some(KeyParam::Nonce(copy_bytes(v.as_slice())))),
                _ => Err(ValueNotRecognized::Blob),
            },
            wire::keymint::Tag::RootOfTrust => match &val.value {
                KeyParameterValue::Blob(v) => Ok(
                    Some(KeyParam::RootOfTrust(copy_bytes(v.as_slice()))),
                ),
                _ => Err(ValueNotRecognized::Blob),
            },
            wire::keymint::Tag::CertificateSerial => match &val.value {
                KeyParameterValue::Blob(v) => Ok(
                    Some(KeyParam::CertificateSerial(copy_bytes(v.as_slice()))),
                ),
                _ => Err(ValueNotRecognized::Blob),
            },
            wire::keymint::Tag::CertificateSubject => match &val.value {
                KeyParameterValue::Blob(v) => Ok(
                    Some(KeyParam::CertificateSubject(copy_bytes(v.as_slice()))),
                ),
                _ => Err(ValueNotRecognized::Blob),
            },
            wire::keymint::Tag::UniqueId
            | wire::keymint::Tag::HardwareType
            | wire::keymint::Tag::MinSecondsBetweenOps
            | wire::keymint::Tag::IdentityCredentialKey
            | wire::keymint::Tag::AssociatedData
            | wire::keymint::Tag::ConfirmationToken => Err(ValueNotRecognized::Tag),
            wire::keymint::Tag::Invalid => Ok(None),
        }
    }
}


impl<T, U> Fromm<Vec<T>> for Vec<U> where U: Fromm<T> {
    open spec fn converts(val: Vec<T>, r: Vec<U>) -> bool {
        &&& r@.len() == val@.len()
        &&& forall|i: int| 0 <= i < val@.len() ==> U::converts(val@[i], #[trigger] r@[i])
    }

    fn fromm(val: Vec<T>) -> (r: Vec<U>) {
        let mut rest = val;
        let mut out: Vec<U> = Vec::new();
        while rest.len() > 0
            invariant
                rest@.len() + out@.len() == val@.len(),
                rest@ == val@.take(rest@.len() as int),
                forall|j: int|
                    0 <= j < out@.len() ==> U::converts(val@[rest@.len() + j], #[trigger] out@[j]),
            decreases rest@.len(),
        {
            let ghost before = out@;
            match rest.pop() {
                Some(x) => {
                    out.insert(0, U::fromm(x));
                    assert forall|j: int| 0 <= j < out@.len() implies U::converts(
                        val@[rest@.len() + j],
                        #[trigger] out@[j],
                    ) by {
                        if j > 0 {
                            assert(out@[j] == before[j - 1]);
                        }
                    }
                },
                None => {},
            }
        }
        out
    }
}

/// A time in milliseconds, as the layer has it.
#[derive(Clone, Copy, Debug, PartialEq, Eq, Structural)]
pub struct Timestamp {
    pub milli_seconds: i64,
}

impl Fromm<wire::types::Timestamp> for Timestamp {
    open spec fn converts(val: wire::types::Timestamp, r: Timestamp) -> bool {
        r.milli_seconds == val.milliseconds
    }

    fn fromm(val: wire::types::Timestamp) -> (r: Timestamp) {
        Timestamp { milli_seconds: val.milliseconds }
    }
}

impl Fromm<Timestamp> for wire::types::Timestamp {
    open spec fn converts(val: Timestamp, r: wire::types::Timestamp) -> bool {
        r.milliseconds == val.milli_seconds
    }

    fn fromm(val: Timestamp) -> (r: wire::types::Timestamp) {
        wire::types::Timestamp { milliseconds: val.milli_seconds }
    }
}

/// A time stamp token, as the layer has it.
#[derive(Clone, Debug, PartialEq, Eq)]
pub struct TimeStampToken {
    pub challenge: i64,
    pub timestamp: Timestamp,
    pub mac: Vec<u8>,
}

impl Fromm<wire::types::TimeStampToken> for TimeStampToken {
    open spec fn converts(val: wire::types::TimeStampToken, r: TimeStampToken) -> bool {
        r.challenge == val.challenge && r.timestamp.milli_seconds == val.timestamp.milliseconds
            && r.mac@ == val.mac@
    }

    fn fromm(val: wire::types::TimeStampToken) -> (r: TimeStampToken) {
        TimeStampToken {
            challenge: val.challenge,
            timestamp: val.timestamp.innto(),
            mac: val.mac,
        }
    }
}

impl Fromm<TimeStampToken> for wire::types::TimeStampToken {
    open spec fn converts(val: TimeStampToken, r: wire::types::TimeStampToken) -> bool {
        r.challenge == val.challenge && r.timestamp.milliseconds == val.timestamp.milli_seconds
            && r.mac@ == val.mac@
    }

    fn fromm(val: TimeStampToken) -> (r: wire::types::TimeStampToken) {
        wire::types::TimeStampToken {
            challenge: val.challenge,
            timestamp: val.timestamp.innto(),
            mac: val.mac,
        }
    }
}

/// Parameters of the agreement on a shared secret, as the layer has them.
#[derive(Clone, Debug, PartialEq, Eq)]
pub struct SharedSecretParameters {
    pub seed: Vec<u8>,
    pub nonce: Vec<u8>,
}

impl Fromm<wire::types::SharedSecretParameters> for SharedSecretParameters {
    open spec fn converts(
        val: wire::types::SharedSecretParameters,
        r: SharedSecretParameters,
    ) -> bool {
        r.seed@ == val.seed@ && r.nonce@ == val.nonce@
    }

    fn fromm(val: wire::types::SharedSecretParameters) -> (r: SharedSecretParameters) {
        SharedSecretParameters { seed: val.seed, nonce: val.nonce }
    }
}

impl Fromm<SharedSecretParameters> for wire::types::SharedSecretParameters {
    open spec fn converts(
        val: SharedSecretParameters,
        r: wire::types::SharedSecretParameters,
    ) -> bool {
        r.seed@ == val.seed@ && r.nonce@ == val.nonce@
    }

    fn fromm(val: SharedSecretParameters) -> (r: wire::types::SharedSecretParameters) {
        wire::types::SharedSecretParameters { seed: val.seed, nonce: val.nonce }
    }
}

/// A certificate, as the layer has it.
#[derive(Clone, Debug, PartialEq, Eq)]
pub struct Certificate {
    pub encoded_certificate: Vec<u8>,
}

impl Fromm<wire::types::Certificate> for Certificate {
    open spec fn converts(val: wire::types::Certificate, r: Certificate) -> bool {
        r.encoded_certificate@ == val.encoded_certificate@
    }

    fn fromm(val: wire::types::Certificate) -> (r: Certificate) {
        Certificate { encoded_certificate: val.encoded_certificate }
    }
}

/// The description of a device for remote provisioning, as the layer has
/// it.
#[derive(Clone, Debug, PartialEq, Eq)]
pub struct DeviceInfo {
    pub device_info: Vec<u8>,
}

impl Fromm<wire::types::DeviceInfo> for DeviceInfo {
    open spec fn converts(val: wire::types::DeviceInfo, r: DeviceInfo) -> bool {
        r.device_info@ == val.device_info@
    }

    fn fromm(val: wire::types::DeviceInfo) -> (r: DeviceInfo) {
        DeviceInfo { device_info: val.device_info }
    }
}

/// A public key with its MAC, as the layer has it.
#[derive(Clone, Debug, PartialEq, Eq)]
pub struct MacedPublicKey {
    pub maced_key: Vec<u8>,
}

impl Fromm<wire::types::MacedPublicKey> for MacedPublicKey {
    open spec fn converts(val: wire::types::MacedPublicKey, r: MacedPublicKey) -> bool {
        r.maced_key@ == val.maced_key@
    }

    fn fromm(val: wire::types::MacedPublicKey) -> (r: MacedPublicKey) {
        MacedPublicKey { maced_key: val.maced_key }
    }
}

impl Fromm<MacedPublicKey> for wire::types::MacedPublicKey {
    open spec fn converts(val: MacedPublicKey, r: wire::types::MacedPublicKey) -> bool {
        r.maced_key@ == val.maced_key@
    }

    fn fromm(val: MacedPublicKey) -> (r: wire::types::MacedPublicKey) {
        wire::types::MacedPublicKey { maced_key: val.maced_key }
    }
}

impl<'a> Fromm<&'a MacedPublicKey> for wire::types::MacedPublicKey {
    open spec fn converts(val: &'a MacedPublicKey, r: wire::types::MacedPublicKey) -> bool {
        r.maced_key@ == val.maced_key@
    }

    fn fromm(val: &'a MacedPublicKey) -> (r: wire::types::MacedPublicKey) {
        wire::types::MacedPublicKey { maced_key: copy_bytes(val.maced_key.as_slice()) }
    }
}

/// Data encrypted to the provisioning server, as the layer has it.
#[derive(Clone, Debug, PartialEq, Eq)]
pub struct ProtectedData {
    pub protected_data: Vec<u8>,
}

impl Fromm<wire::types::ProtectedData> for ProtectedData {
    open spec fn converts(val: wire::types::ProtectedData, r: ProtectedData) -> bool {
        r.protected_data@ == val.protected_data@
    }

    fn fromm(val: wire::types::ProtectedData) -> (r: ProtectedData) {
        ProtectedData { protected_data: val.protected_data }
    }
}

/// Proof of a user authentication, as the layer has it.
#[derive(Clone, Debug, PartialEq, Eq)]
pub struct HardwareAuthToken {
    pub challenge: i64,
    pub user_id: i64,
    pub authenticator_id: i64,
    pub authenticator_type: HardwareAuthenticatorType,
    pub timestamp: Timestamp,
    pub mac: Vec<u8>,
}

impl Fromm<wire::types::HardwareAuthToken> for HardwareAuthToken {
    open spec fn converts(val: wire::types::HardwareAuthToken, r: HardwareAuthToken) -> bool {
        &&& r.challenge == val.challenge
        &&& r.user_id == val.user_id
        &&& r.authenticator_id == val.authenticator_id
        &&& r.authenticator_type.0 == val.authenticator_type.code()
        &&& r.timestamp.milli_seconds == val.timestamp.milliseconds
        &&& r.mac@ == val.mac@
    }

    fn fromm(val: wire::types::HardwareAuthToken) -> (r: HardwareAuthToken) {
        HardwareAuthToken {
            challenge: val.challenge,
            user_id: val.user_id,
            authenticator_id: val.authenticator_id,
            authenticator_type: val.authenticator_type.innto(),
            timestamp: val.timestamp.innto(),
            mac: val.mac,
        }
    }
}

impl TryFromm<HardwareAuthToken> for wire::types::HardwareAuthToken {
    type Error = ValueNotRecognized;

    open spec fn try_converts(
        val: HardwareAuthToken,
        r: Result<wire::types::HardwareAuthToken, ValueNotRecognized>,
    ) -> bool {
        match wire::keymint::HardwareAuthenticatorType::of_code(val.authenticator_type.0 as int) {
            None => r is Err && r->Err_0 == ValueNotRecognized::HardwareAuthenticatorType,
            Some(kind) => r is Ok && {
                let token = r->Ok_0;
                &&& token.challenge == val.challenge
                &&& token.user_id == val.user_id
                &&& token.authenticator_id == val.authenticator_id
                &&& token.authenticator_type == kind
                &&& token.timestamp.milliseconds == val.timestamp.milli_seconds
                &&& token.mac@ == val.mac@
            },
        }
    }

    fn try_fromm(val: HardwareAuthToken) -> (r: Result<
        wire::types::HardwareAuthToken,
        ValueNotRecognized,
    >) {
        let authenticator_type = match val.authenticator_type.try_innto() {
            Err(e) => { return Err(e); },
            Ok(t) => t,
        };
        Ok(
            wire::types::HardwareAuthToken {
                challenge: val.challenge,
                user_id: val.user_id,
                authenticator_id: val.authenticator_id,
                authenticator_type,
                timestamp: val.timestamp.innto(),
                mac: val.mac,
            },
        )
    }
}

/// The characteristics of a key at one level, as the layer has them.
#[derive(Clone, Debug, PartialEq, Eq)]
pub struct KeyCharacteristics {
    pub security_level: SecurityLevel,
    pub authorizations: Vec<KeyParameter>,
}

impl Fromm<wire::characteristics::KeyCharacteristics> for KeyCharacteristics {
    open spec fn converts(
        val: wire::characteristics::KeyCharacteristics,
        r: KeyCharacteristics,
    ) -> bool {
        &&& r.security_level.0 == val.security_level.code()
        &&& <Vec<KeyParameter> as Fromm<Vec<KeyParam>>>::converts(
            val.authorizations,
            r.authorizations,
        )
    }

    fn fromm(val: wire::characteristics::KeyCharacteristics) -> (r: KeyCharacteristics) {
        KeyCharacteristics {
            security_level: val.security_level.innto(),
            authorizations: val.authorizations.innto(),
        }
    }
}

/// What the creation of a key returns, as the layer has it.
#[derive(Clone, Debug, PartialEq, Eq)]
pub struct KeyCreationResult {
    pub key_blob: Vec<u8>,
    pub key_characteristics: Vec<KeyCharacteristics>,
    pub certificate_chain: Vec<Certificate>,
}

impl Fromm<wire::types::KeyCreationResult> for KeyCreationResult {
    open spec fn converts(val: wire::types::KeyCreationResult, r: KeyCreationResult) -> bool {
        &&& r.key_blob@ == val.key_blob@
        &&& <Vec<KeyCharacteristics> as Fromm<
            Vec<wire::characteristics::KeyCharacteristics>,
        >>::converts(val.key_characteristics, r.key_characteristics)
        &&& <Vec<Certificate> as Fromm<Vec<wire::types::Certificate>>>::converts(
            val.certificate_chain,
            r.certificate_chain,
        )
    }

    fn fromm(val: wire::types::KeyCreationResult) -> (r: KeyCreationResult) {
        KeyCreationResult {
            key_blob: val.key_blob,
            key_characteristics: val.key_characteristics.innto(),
            certificate_chain: val.certificate_chain.innto(),
        }
    }
}

/// The description of a KeyMint implementation, as the layer has it.
#[derive(Clone, Debug, PartialEq, Eq)]
pub struct KeyMintHardwareInfo {
    pub version_number: i32,
    pub security_level: SecurityLevel,
    pub key_mint_name: String,
    pub key_mint_author_name: String,
    pub timestamp_token_required: bool,
}

impl Fromm<wire::types::KeyMintHardwareInfo> for KeyMintHardwareInfo {
    open spec fn converts(val: wire::types::KeyMintHardwareInfo, r: KeyMintHardwareInfo) -> bool {
        &&& r.version_number == val.version_number
        &&& r.security_level.0 == val.security_level.code()
        &&& r.key_mint_name@ == val.key_mint_name@
        &&& r.key_mint_author_name@ == val.key_mint_author_name@
        &&& r.timestamp_token_required == val.timestamp_token_required
    }

    fn fromm(val: wire::types::KeyMintHardwareInfo) -> (r: KeyMintHardwareInfo) {
        KeyMintHardwareInfo {
            version_number: val.version_number,
            security_level: val.security_level.innto(),
            key_mint_name: val.key_mint_name,
            key_mint_author_name: val.key_mint_author_name,
            timestamp_token_required: val.timestamp_token_required,
        }
    }
}

/// The description of remote provisioning, as the layer has it.
#[derive(Clone, Debug, PartialEq, Eq)]
pub struct RpcHardwareInfo {
    pub version_number: i32,
    pub rpc_author_name: String,
    pub supported_eek_curve: i32,
    pub unique_id: Option<String>,
    pub supported_num_keys_in_csr: i32,
}

impl Fromm<wire::types::RpcHardwareInfo> for RpcHardwareInfo {
    open spec fn converts(val: wire::types::RpcHardwareInfo, r: RpcHardwareInfo) -> bool {
        &&& r.version_number == val.version_number
        &&& r.rpc_author_name@ == val.rpc_author_name@
        &&& r.supported_eek_curve == val.supported_eek_curve.code()
        &&& match (r.unique_id, val.unique_id) {
            (Some(a), Some(b)) => a@ == b@,
            (None, None) => true,
            _ => false,
        }
        &&& r.supported_num_keys_in_csr == val.supported_num_keys_in_csr
    }

    fn fromm(val: wire::types::RpcHardwareInfo) -> (r: RpcHardwareInfo) {
        RpcHardwareInfo {
            version_number: val.version_number,
            rpc_author_name: val.rpc_author_name,
            supported_eek_curve: val.supported_eek_curve.to_i32(),
            unique_id: val.unique_id,
            supported_num_keys_in_csr: val.supported_num_keys_in_csr,
        }
    }
}

/// A key that signs the attestation of another key, as the layer has it.
#[derive(Clone, Debug, PartialEq, Eq)]
pub struct AttestationKey {
    pub key_blob: Vec<u8>,
    pub attest_key_params: Vec<KeyParameter>,
    pub issuer_subject_name: Vec<u8>,
}

/// The key parameters that a list of key parameters of the layer stands
/// for: those of its elements in order, without the elements that stand for
/// none, or the error of the first element that cannot be converted.
pub open spec fn wire_params(params: Seq<KeyParameterView>) -> Result<
    Seq<wire::params::KeyParamView>,
    ValueNotRecognized,
>
    decreases params.len(),
{
    if params.len() == 0 {
        Ok(Seq::empty())
    } else {
        match wire_params(params.drop_last()) {
            Err(e) => Err(e),
            Ok(front) => match wire_param(params.last()) {
                Err(e) => Err(e),
                Ok(None) => Ok(front),
                Ok(Some(p)) => Ok(front.push(p)),
            },
        }
    }
}

/// An error met while converting the first `i` parameters is the error of
/// converting them all.
pub proof fn lemma_wire_params_error(params: Seq<KeyParameterView>, i: int)
    requires
        0 <= i <= params.len(),
        wire_params(params.take(i)) is Err,
    ensures
        wire_params(params) == wire_params(params.take(i)),
    decreases params.len() - i,
{
    if i == params.len() {
        assert(params.take(i) =~= params);
    } else {
        assert(params.take(i + 1).drop_last() =~= params.take(i));
        lemma_wire_params_error(params, i + 1);
    }
}

/// Converts a list of key parameters of the layer.
pub fn convert_params(params: &Vec<KeyParameter>) -> (r: Result<Vec<KeyParam>, ValueNotRecognized>)
    ensures
        match r {
            Ok(p) => wire_params(crate::cbor::views(params@)) == Ok::<
                Seq<wire::params::KeyParamView>,
                ValueNotRecognized,
            >(crate::cbor::views(p@)),
            Err(e) => wire_params(crate::cbor::views(params@)) == Err::<
                Seq<wire::params::KeyParamView>,
                ValueNotRecognized,
            >(e),
        },
{
    let ghost all = crate::cbor::views(params@);
    let mut out: Vec<KeyParam> = Vec::new();
    let mut i: usize = 0;
    assert(all.take(0) =~= Seq::<KeyParameterView>::empty());
    assert(crate::cbor::views(out@) =~= Seq::<wire::params::KeyParamView>::empty());
    while i < params.len()
        invariant
            i <= params.len(),
            all == crate::cbor::views(params@),
            wire_params(all.take(i as int)) == Ok::<
                Seq<wire::params::KeyParamView>,
                ValueNotRecognized,
            >(crate::cbor::views(out@)),
        decreases params.len() - i,
    {
        let ghost next = all.take(i as int + 1);
        assert(next.drop_last() =~= all.take(i as int));
        assert(next.last() == params@[i as int]@);
        let converted: Result<Option<KeyParam>, ValueNotRecognized> = (&params[i]).try_innto();
        match converted {
            Err(e) => {
                proof {
                    lemma_wire_params_error(all, i as int + 1);
                }
                return Err(e);
            },
            Ok(None) => {},
            Ok(Some(p)) => {
                let ghost before = crate::cbor::views(out@);
                out.push(p);
                assert(crate::cbor::views(out@) =~= before.push(p@));
            },
        }
        i += 1;
    }
    assert(all.take(i as int) =~= all);
    Ok(out)
}

impl TryFromm<AttestationKey> for wire::types::AttestationKey {
    type Error = ValueNotRecognized;

    open spec fn try_converts(
        val: AttestationKey,
        r: Result<wire::types::AttestationKey, ValueNotRecognized>,
    ) -> bool {
        match wire_params(crate::cbor::views(val.attest_key_params@)) {
            Err(e) => r is Err && r->Err_0 == e,
            Ok(params) => r is Ok && r->Ok_0@ == (wire::types::AttestationKeyView {
                key_blob: val.key_blob@,
                attest_key_params: params,
                issuer_subject_name: val.issuer_subject_name@,
            }),
        }
    }

    fn try_fromm(val: AttestationKey) -> (r: Result<
        wire::types::AttestationKey,
        ValueNotRecognized,
    >) {
        let attest_key_params = match convert_params(&val.attest_key_params) {
            Err(e) => { return Err(e); },
            Ok(p) => p,
        };
        Ok(
            wire::types::AttestationKey {
                key_blob: val.key_blob,
                attest_key_params,
                issuer_subject_name: val.issuer_subject_name,
            },
        )
    }
}

} // verus!
