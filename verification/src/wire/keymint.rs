//! The enumerations of the KeyMint interface, with the numbers that stand
//! for them on the wire.

use crate::cbor::{i32_of, value_i32, CborError, CborValue, Item};
use vstd::prelude::*;

verus! {

/// Key algorithm.
#[derive(Clone, Copy, Debug, PartialEq, Eq, Structural)]
pub enum Algorithm {
    Rsa,
    Ec,
    Aes,
    TripleDes,
    Hmac,
}

impl Algorithm {
    /// The number that stands for this value on the wire.
    pub open spec fn code(self) -> int {
        match self {
            Algorithm::Rsa => 1,
            Algorithm::Ec => 3,
            Algorithm::Aes => 32,
            Algorithm::TripleDes => 33,
            Algorithm::Hmac => 128,
        }
    }

    /// The value that a number stands for, if there is one.
    pub open spec fn of_code(c: int) -> Option<Algorithm> {
        if c == 1 {
            Some(Algorithm::Rsa)
        } else if c == 3 {
            Some(Algorithm::Ec)
        } else if c == 32 {
            Some(Algorithm::Aes)
        } else if c == 33 {
            Some(Algorithm::TripleDes)
        } else if c == 128 {
            Some(Algorithm::Hmac)
        } else {
            None
        }
    }

    /// The number of this value.
    pub fn to_i32(self) -> (r: i32)
        ensures
            r == self.code(),
    {
        match self {
            Algorithm::Rsa => 1,
            Algorithm::Ec => 3,
            Algorithm::Aes => 32,
            Algorithm::TripleDes => 33,
            Algorithm::Hmac => 128,
        }
    }

    /// The value of a number, or nothing where the number stands for none.
    pub fn from_i32(c: i32) -> (r: Option<Algorithm>)
        ensures
            r == Self::of_code(c as int),
    {
        if c == 1 {
            Some(Algorithm::Rsa)
        } else if c == 3 {
            Some(Algorithm::Ec)
        } else if c == 32 {
            Some(Algorithm::Aes)
        } else if c == 33 {
            Some(Algorithm::TripleDes)
        } else if c == 128 {
            Some(Algorithm::Hmac)
        } else {
            None
        }
    }

    /// What [`Self::from_cbor_value`] makes of an item: an integer that fits
    /// 32 bits and stands for a value.
    pub open spec fn from_item(item: Item) -> Result<Algorithm, CborError> {
        match i32_of(item) {
            Err(e) => Err(e),
            Ok(c) => match Self::of_code(c as int) {
                Some(x) => Ok(x),
                None => Err(CborError::NonEnumValue),
            },
        }
    }

    /// The integer item that holds this value's number.
    pub fn to_cbor_value(self) -> (r: CborValue)
        ensures
            r@ == Item::Integer(self.code()),
    {
        CborValue::Integer(self.to_i32() as i128)
    }

    /// Reads a value from an integer item.
    pub fn from_cbor_value(v: &CborValue) -> (r: Result<Algorithm, CborError>)
        ensures
            r == Self::from_item(v@),
    {
        match value_i32(v) {
            Err(e) => Err(e),
            Ok(c) => match Self::from_i32(c) {
                Some(x) => Ok(x),
                None => Err(CborError::NonEnumValue),
            },
        }
    }

    /// A value is recovered from its number, and from the item that holds it.
    pub proof fn lemma_round_trip(self)
        ensures
            Self::of_code(self.code()) == Some(self),
            Self::from_item(Item::Integer(self.code())) == Ok::<Self, CborError>(self),
    {
    }
}

/// Block cipher mode.
#[derive(Clone, Copy, Debug, PartialEq, Eq, Structural)]
pub enum BlockMode {
    Ecb,
    Cbc,
    Ctr,
    Gcm,
}

impl BlockMode {
    /// The number that stands for this value on the wire.
    pub open spec fn code(self) -> int {
        match self {
            BlockMode::Ecb => 1,
            BlockMode::Cbc => 2,
            BlockMode::Ctr => 3,
            BlockMode::Gcm => 32,
        }
    }

    /// The value that a number stands for, if there is one.
    pub open spec fn of_code(c: int) -> Option<BlockMode> {
        if c == 1 {
            Some(BlockMode::Ecb)
        } else if c == 2 {
            Some(BlockMode::Cbc)
        } else if c == 3 {
            Some(BlockMode::Ctr)
        } else if c == 32 {
            Some(BlockMode::Gcm)
        } else {
            None
        }
    }

    /// The number of this value.
    pub fn to_i32(self) -> (r: i32)
        ensures
            r == self.code(),
    {
        match self {
            BlockMode::Ecb => 1,
            BlockMode::Cbc => 2,
            BlockMode::Ctr => 3,
            BlockMode::Gcm => 32,
        }
    }

    /// The value of a number, or nothing where the number stands for none.
    pub fn from_i32(c: i32) -> (r: Option<BlockMode>)
        ensures
            r == Self::of_code(c as int),
    {
        if c == 1 {
            Some(BlockMode::Ecb)
        } else if c == 2 {
            Some(BlockMode::Cbc)
        } else if c == 3 {
            Some(BlockMode::Ctr)
        } else if c == 32 {
            Some(BlockMode::Gcm)
        } else {
            None
        }
    }

    /// What [`Self::from_cbor_value`] makes of an item: an integer that fits
    /// 32 bits and stands for a value.
    pub open spec fn from_item(item: Item) -> Result<BlockMode, CborError> {
        match i32_of(item) {
            Err(e) => Err(e),
            Ok(c) => match Self::of_code(c as int) {
                Some(x) => Ok(x),
                None => Err(CborError::NonEnumValue),
            },
        }
    }

    /// The integer item that holds this value's number.
    pub fn to_cbor_value(self) -> (r: CborValue)
        ensures
            r@ == Item::Integer(self.code()),
    {
        CborValue::Integer(self.to_i32() as i128)
    }

    /// Reads a value from an integer item.
    pub fn from_cbor_value(v: &CborValue) -> (r: Result<BlockMode, CborError>)
        ensures
            r == Self::from_item(v@),
    {
        match value_i32(v) {
            Err(e) => Err(e),
            Ok(c) => match Self::from_i32(c) {
                Some(x) => Ok(x),
                None => Err(CborError::NonEnumValue),
            },
        }
    }

    /// A value is recovered from its number, and from the item that holds it.
    pub proof fn lemma_round_trip(self)
        ensures
            Self::of_code(self.code()) == Some(self),
            Self::from_item(Item::Integer(self.code())) == Ok::<Self, CborError>(self),
    {
    }
}

/// Digest algorithm.
#[derive(Clone, Copy, Debug, PartialEq, Eq, Structural)]
pub enum Digest {
    NoDigest,
    Md5,
    Sha1,
    Sha224,
    Sha256,
    Sha384,
    Sha512,
}

impl Digest {
    /// The number that stands for this value on the wire.
    pub open spec fn code(self) -> int {
        match self {
            Digest::NoDigest => 0,
            Digest::Md5 => 1,
            Digest::Sha1 => 2,
            Digest::Sha224 => 3,
            Digest::Sha256 => 4,
            Digest::Sha384 => 5,
            Digest::Sha512 => 6,
        }
    }

    /// The value that a number stands for, if there is one.
    pub open spec fn of_code(c: int) -> Option<Digest> {
        if c == 0 {
            Some(Digest::NoDigest)
        } else if c == 1 {
            Some(Digest::Md5)
        } else if c == 2 {
            Some(Digest::Sha1)
        } else if c == 3 {
            Some(Digest::Sha224)
        } else if c == 4 {
            Some(Digest::Sha256)
        } else if c == 5 {
            Some(Digest::Sha384)
        } else if c == 6 {
            Some(Digest::Sha512)
        } else {
            None
        }
    }

    /// The number of this value.
    pub fn to_i32(self) -> (r: i32)
        ensures
            r == self.code(),
    {
        match self {
            Digest::NoDigest => 0,
            Digest::Md5 => 1,
            Digest::Sha1 => 2,
            Digest::Sha224 => 3,
            Digest::Sha256 => 4,
            Digest::Sha384 => 5,
            Digest::Sha512 => 6,
        }
    }

    /// The value of a number, or nothing where the number stands for none.
    pub fn from_i32(c: i32) -> (r: Option<Digest>)
        ensures
            r == Self::of_code(c as int),
    {
        if c == 0 {
            Some(Digest::NoDigest)
        } else if c == 1 {
            Some(Digest::Md5)
        } else if c == 2 {
            Some(Digest::Sha1)
        } else if c == 3 {
            Some(Digest::Sha224)
        } else if c == 4 {
            Some(Digest::Sha256)
        } else if c == 5 {
            Some(Digest::Sha384)
        } else if c == 6 {
            Some(Digest::Sha512)
        } else {
            None
        }
    }

    /// What [`Self::from_cbor_value`] makes of an item: an integer that fits
    /// 32 bits and stands for a value.
    pub open spec fn from_item(item: Item) -> Result<Digest, CborError> {
        match i32_of(item) {
            Err(e) => Err(e),
            Ok(c) => match Self::of_code(c as int) {
                Some(x) => Ok(x),
                None => Err(CborError::NonEnumValue),
            },
        }
    }

    /// The integer item that holds this value's number.
    pub fn to_cbor_value(self) -> (r: CborValue)
        ensures
            r@ == Item::Integer(self.code()),
    {
        CborValue::Integer(self.to_i32() as i128)
    }

    /// Reads a value from an integer item.
    pub fn from_cbor_value(v: &CborValue) -> (r: Result<Digest, CborError>)
        ensures
            r == Self::from_item(v@),
    {
        match value_i32(v) {
            Err(e) => Err(e),
            Ok(c) => match Self::from_i32(c) {
                Some(x) => Ok(x),
                None => Err(CborError::NonEnumValue),
            },
        }
    }

    /// A value is recovered from its number, and from the item that holds it.
    pub proof fn lemma_round_trip(self)
        ensures
            Self::of_code(self.code()) == Some(self),
            Self::from_item(Item::Integer(self.code())) == Ok::<Self, CborError>(self),
    {
    }
}

/// Elliptic curve.
#[derive(Clone, Copy, Debug, PartialEq, Eq, Structural)]
pub enum EcCurve {
    P224,
    P256,
    P384,
    P521,
    Curve25519,
}

impl EcCurve {
    /// The number that stands for this value on the wire.
    pub open spec fn code(self) -> int {
        match self {
            EcCurve::P224 => 0,
            EcCurve::P256 => 1,
            EcCurve::P384 => 2,
            EcCurve::P521 => 3,
            EcCurve::Curve25519 => 4,
        }
    }

    /// The value that a number stands for, if there is one.
    pub open spec fn of_code(c: int) -> Option<EcCurve> {
        if c == 0 {
            Some(EcCurve::P224)
        } else if c == 1 {
            Some(EcCurve::P256)
        } else if c == 2 {
            Some(EcCurve::P384)
        } else if c == 3 {
            Some(EcCurve::P521)
        } else if c == 4 {
            Some(EcCurve::Curve25519)
        } else {
            None
        }
    }

    /// The number of this value.
    pub fn to_i32(self) -> (r: i32)
        ensures
            r == self.code(),
    {
        match self {
            EcCurve::P224 => 0,
            EcCurve::P256 => 1,
            EcCurve::P384 => 2,
            EcCurve::P521 => 3,
            EcCurve::Curve25519 => 4,
        }
    }

    /// The value of a number, or nothing where the number stands for none.
    pub fn from_i32(c: i32) -> (r: Option<EcCurve>)
        ensures
            r == Self::of_code(c as int),
    {
        if c == 0 {
            Some(EcCurve::P224)
        } else if c == 1 {
            Some(EcCurve::P256)
        } else if c == 2 {
            Some(EcCurve::P384)
        } else if c == 3 {
            Some(EcCurve::P521)
        } else if c == 4 {
            Some(EcCurve::Curve25519)
        } else {
            None
        }
    }

    /// What [`Self::from_cbor_value`] makes of an item: an integer that fits
    /// 32 bits and stands for a value.
    pub open spec fn from_item(item: Item) -> Result<EcCurve, CborError> {
        match i32_of(item) {
            Err(e) => Err(e),
            Ok(c) => match Self::of_code(c as int) {
                Some(x) => Ok(x),
                None => Err(CborError::NonEnumValue),
            },
        }
    }

    /// The integer item that holds this value's number.
    pub fn to_cbor_value(self) -> (r: CborValue)
        ensures
            r@ == Item::Integer(self.code()),
    {
        CborValue::Integer(self.to_i32() as i128)
    }

    /// Reads a value from an integer item.
    pub fn from_cbor_value(v: &CborValue) -> (r: Result<EcCurve, CborError>)
        ensures
            r == Self::from_item(v@),
    {
        match value_i32(v) {
            Err(e) => Err(e),
            Ok(c) => match Self::from_i32(c) {
                Some(x) => Ok(x),
                None => Err(CborError::NonEnumValue),
            },
        }
    }

    /// A value is recovered from its number, and from the item that holds it.
    pub proof fn lemma_round_trip(self)
        ensures
            Self::of_code(self.code()) == Some(self),
            Self::from_item(Item::Integer(self.code())) == Ok::<Self, CborError>(self),
    {
    }
}

/// Kind of authenticator that produced an auth token.
#[derive(Clone, Copy, Debug, PartialEq, Eq, Structural)]
pub enum HardwareAuthenticatorType {
    NoAuthenticator,
    Password,
    Fingerprint,
    Any,
}

impl HardwareAuthenticatorType {
    /// The number that stands for this value on the wire.
    pub open spec fn code(self) -> int {
        match self {
            HardwareAuthenticatorType::NoAuthenticator => 0,
            HardwareAuthenticatorType::Password => 1,
            HardwareAuthenticatorType::Fingerprint => 2,
            HardwareAuthenticatorType::Any => -1,
        }
    }

    /// The value that a number stands for, if there is one.
    pub open spec fn of_code(c: int) -> Option<HardwareAuthenticatorType> {
        if c == 0 {
            Some(HardwareAuthenticatorType::NoAuthenticator)
        } else if c == 1 {
            Some(HardwareAuthenticatorType::Password)
        } else if c == 2 {
            Some(HardwareAuthenticatorType::Fingerprint)
        } else if c == -1 {
            Some(HardwareAuthenticatorType::Any)
        } else {
            None
        }
    }

    /// The number of this value.
    pub fn to_i32(self) -> (r: i32)
        ensures
            r == self.code(),
    {
        match self {
            HardwareAuthenticatorType::NoAuthenticator => 0,
            HardwareAuthenticatorType::Password => 1,
            HardwareAuthenticatorType::Fingerprint => 2,
            HardwareAuthenticatorType::Any => -1,
        }
    }

    /// The value of a number, or nothing where the number stands for none.
    pub fn from_i32(c: i32) -> (r: Option<HardwareAuthenticatorType>)
        ensures
            r == Self::of_code(c as int),
    {
        if c == 0 {
            Some(HardwareAuthenticatorType::NoAuthenticator)
        } else if c == 1 {
            Some(HardwareAuthenticatorType::Password)
        } else if c == 2 {
            Some(HardwareAuthenticatorType::Fingerprint)
        } else if c == -1 {
            Some(HardwareAuthenticatorType::Any)
        } else {
            None
        }
    }

    /// What [`Self::from_cbor_value`] makes of an item: an integer that fits
    /// 32 bits and stands for a value.
    pub open spec fn from_item(item: Item) -> Result<HardwareAuthenticatorType, CborError> {
        match i32_of(item) {
            Err(e) => Err(e),
            Ok(c) => match Self::of_code(c as int) {
                Some(x) => Ok(x),
                None => Err(CborError::NonEnumValue),
            },
        }
    }

    /// The integer item that holds this value's number.
    pub fn to_cbor_value(self) -> (r: CborValue)
        ensures
            r@ == Item::Integer(self.code()),
    {
        CborValue::Integer(self.to_i32() as i128)
    }

    /// Reads a value from an integer item.
    pub fn from_cbor_value(v: &CborValue) -> (r: Result<HardwareAuthenticatorType, CborError>)
        ensures
            r == Self::from_item(v@),
    {
        match value_i32(v) {
            Err(e) => Err(e),
            Ok(c) => match Self::from_i32(c) {
                Some(x) => Ok(x),
                None => Err(CborError::NonEnumValue),
            },
        }
    }

    /// A value is recovered from its number, and from the item that holds it.
    pub proof fn lemma_round_trip(self)
        ensures
            Self::of_code(self.code()) == Some(self),
            Self::from_item(Item::Integer(self.code())) == Ok::<Self, CborError>(self),
    {
    }
}

/// Format of imported or exported key data.
#[derive(Clone, Copy, Debug, PartialEq, Eq, Structural)]
pub enum KeyFormat {
    X509,
    Pkcs8,
    Raw,
}

impl KeyFormat {
    /// The number that stands for this value on the wire.
    pub open spec fn code(self) -> int {
        match self {
            KeyFormat::X509 => 0,
            KeyFormat::Pkcs8 => 1,
            KeyFormat::Raw => 3,
        }
    }

    /// The value that a number stands for, if there is one.
    pub open spec fn of_code(c: int) -> Option<KeyFormat> {
        if c == 0 {
            Some(KeyFormat::X509)
        } else if c == 1 {
            Some(KeyFormat::Pkcs8)
        } else if c == 3 {
            Some(KeyFormat::Raw)
        } else {
            None
        }
    }

    /// The number of this value.
    pub fn to_i32(self) -> (r: i32)
        ensures
            r == self.code(),
    {
        match self {
            KeyFormat::X509 => 0,
            KeyFormat::Pkcs8 => 1,
            KeyFormat::Raw => 3,
        }
    }

    /// The value of a number, or nothing where the number stands for none.
    pub fn from_i32(c: i32) -> (r: Option<KeyFormat>)
        ensures
            r == Self::of_code(c as int),
    {
        if c == 0 {
            Some(KeyFormat::X509)
        } else if c == 1 {
            Some(KeyFormat::Pkcs8)
        } else if c == 3 {
            Some(KeyFormat::Raw)
        } else {
            None
        }
    }

    /// What [`Self::from_cbor_value`] makes of an item: an integer that fits
    /// 32 bits and stands for a value.
    pub open spec fn from_item(item: Item) -> Result<KeyFormat, CborError> {
        match i32_of(item) {
            Err(e) => Err(e),
            Ok(c) => match Self::of_code(c as int) {
                Some(x) => Ok(x),
                None => Err(CborError::NonEnumValue),
            },
        }
    }

    /// The integer item that holds this value's number.
    pub fn to_cbor_value(self) -> (r: CborValue)
        ensures
            r@ == Item::Integer(self.code()),
    {
        CborValue::Integer(self.to_i32() as i128)
    }

    /// Reads a value from an integer item.
    pub fn from_cbor_value(v: &CborValue) -> (r: Result<KeyFormat, CborError>)
        ensures
            r == Self::from_item(v@),
    {
        match value_i32(v) {
            Err(e) => Err(e),
            Ok(c) => match Self::from_i32(c) {
                Some(x) => Ok(x),
                None => Err(CborError::NonEnumValue),
            },
        }
    }

    /// A value is recovered from its number, and from the item that holds it.
    pub proof fn lemma_round_trip(self)
        ensures
            Self::of_code(self.code()) == Some(self),
            Self::from_item(Item::Integer(self.code())) == Ok::<Self, CborError>(self),
    {
    }
}

/// Where a key came from.
#[derive(Clone, Copy, Debug, PartialEq, Eq, Structural)]
pub enum KeyOrigin {
    Generated,
    Derived,
    Imported,
    Reserved,
    SecurelyImported,
}

impl KeyOrigin {
    /// The number that stands for this value on the wire.
    pub open spec fn code(self) -> int {
        match self {
            KeyOrigin::Generated => 0,
            KeyOrigin::Derived => 1,
            KeyOrigin::Imported => 2,
            KeyOrigin::Reserved => 3,
            KeyOrigin::SecurelyImported => 4,
        }
    }

    /// The value that a number stands for, if there is one.
    pub open spec fn of_code(c: int) -> Option<KeyOrigin> {
        if c == 0 {
            Some(KeyOrigin::Generated)
        } else if c == 1 {
            Some(KeyOrigin::Derived)
        } else if c == 2 {
            Some(KeyOrigin::Imported)
        } else if c == 3 {
            Some(KeyOrigin::Reserved)
        } else if c == 4 {
            Some(KeyOrigin::SecurelyImported)
        } else {
            None
        }
    }

    /// The number of this value.
    pub fn to_i32(self) -> (r: i32)
        ensures
            r == self.code(),
    {
        match self {
            KeyOrigin::Generated => 0,
            KeyOrigin::Derived => 1,
            KeyOrigin::Imported => 2,
            KeyOrigin::Reserved => 3,
            KeyOrigin::SecurelyImported => 4,
        }
    }

    /// The value of a number, or nothing where the number stands for none.
    pub fn from_i32(c: i32) -> (r: Option<KeyOrigin>)
        ensures
            r == Self::of_code(c as int),
    {
        if c == 0 {
            Some(KeyOrigin::Generated)
        } else if c == 1 {
            Some(KeyOrigin::Derived)
        } else if c == 2 {
            Some(KeyOrigin::Imported)
        } else if c == 3 {
            Some(KeyOrigin::Reserved)
        } else if c == 4 {
            Some(KeyOrigin::SecurelyImported)
        } else {
            None
        }
    }

    /// What [`Self::from_cbor_value`] makes of an item: an integer that fits
    /// 32 bits and stands for a value.
    pub open spec fn from_item(item: Item) -> Result<KeyOrigin, CborError> {
        match i32_of(item) {
            Err(e) => Err(e),
            Ok(c) => match Self::of_code(c as int) {
                Some(x) => Ok(x),
                None => Err(CborError::NonEnumValue),
            },
        }
    }

    /// The integer item that holds this value's number.
    pub fn to_cbor_value(self) -> (r: CborValue)
        ensures
            r@ == Item::Integer(self.code()),
    {
        CborValue::Integer(self.to_i32() as i128)
    }

    /// Reads a value from an integer item.
    pub fn from_cbor_value(v: &CborValue) -> (r: Result<KeyOrigin, CborError>)
        ensures
            r == Self::from_item(v@),
    {
        match value_i32(v) {
            Err(e) => Err(e),
            Ok(c) => match Self::from_i32(c) {
                Some(x) => Ok(x),
                None => Err(CborError::NonEnumValue),
            },
        }
    }

    /// A value is recovered from its number, and from the item that holds it.
    pub proof fn lemma_round_trip(self)
        ensures
            Self::of_code(self.code()) == Some(self),
            Self::from_item(Item::Integer(self.code())) == Ok::<Self, CborError>(self),
    {
    }
}

/// What a key may be used for.
#[derive(Clone, Copy, Debug, PartialEq, Eq, Structural)]
pub enum KeyPurpose {
    Encrypt,
    Decrypt,
    Sign,
    Verify,
    WrapKey,
    AgreeKey,
    AttestKey,
}

impl KeyPurpose {
    /// The number that stands for this value on the wire.
    pub open spec fn code(self) -> int {
        match self {
            KeyPurpose::Encrypt => 0,
            KeyPurpose::Decrypt => 1,
            KeyPurpose::Sign => 2,
            KeyPurpose::Verify => 3,
            KeyPurpose::WrapKey => 5,
            KeyPurpose::AgreeKey => 6,
            KeyPurpose::AttestKey => 7,
        }
    }

    /// The value that a number stands for, if there is one.
    pub open spec fn of_code(c: int) -> Option<KeyPurpose> {
        if c == 0 {
            Some(KeyPurpose::Encrypt)
        } else if c == 1 {
            Some(KeyPurpose::Decrypt)
        } else if c == 2 {
            Some(KeyPurpose::Sign)
        } else if c == 3 {
            Some(KeyPurpose::Verify)
        } else if c == 5 {
            Some(KeyPurpose::WrapKey)
        } else if c == 6 {
            Some(KeyPurpose::AgreeKey)
        } else if c == 7 {
            Some(KeyPurpose::AttestKey)
        } else {
            None
        }
    }

    /// The number of this value.
    pub fn to_i32(self) -> (r: i32)
        ensures
            r == self.code(),
    {
        match self {
            KeyPurpose::Encrypt => 0,
            KeyPurpose::Decrypt => 1,
            KeyPurpose::Sign => 2,
            KeyPurpose::Verify => 3,
            KeyPurpose::WrapKey => 5,
            KeyPurpose::AgreeKey => 6,
            KeyPurpose::AttestKey => 7,
        }
    }

    /// The value of a number, or nothing where the number stands for none.
    pub fn from_i32(c: i32) -> (r: Option<KeyPurpose>)
        ensures
            r == Self::of_code(c as int),
    {
        if c == 0 {
            Some(KeyPurpose::Encrypt)
        } else if c == 1 {
            Some(KeyPurpose::Decrypt)
        } else if c == 2 {
            Some(KeyPurpose::Sign)
        } else if c == 3 {
            Some(KeyPurpose::Verify)
        } else if c == 5 {
            Some(KeyPurpose::WrapKey)
        } else if c == 6 {
            Some(KeyPurpose::AgreeKey)
        } else if c == 7 {
            Some(KeyPurpose::AttestKey)
        } else {
            None
        }
    }

    /// What [`Self::from_cbor_value`] makes of an item: an integer that fits
    /// 32 bits and stands for a value.
    pub open spec fn from_item(item: Item) -> Result<KeyPurpose, CborError> {
        match i32_of(item) {
            Err(e) => Err(e),
            Ok(c) => match Self::of_code(c as int) {
                Some(x) => Ok(x),
                None => Err(CborError::NonEnumValue),
            },
        }
    }

    /// The integer item that holds this value's number.
    pub fn to_cbor_value(self) -> (r: CborValue)
        ensures
            r@ == Item::Integer(self.code()),
    {
        CborValue::Integer(self.to_i32() as i128)
    }

    /// Reads a value from an integer item.
    pub fn from_cbor_value(v: &CborValue) -> (r: Result<KeyPurpose, CborError>)
        ensures
            r == Self::from_item(v@),
    {
        match value_i32(v) {
            Err(e) => Err(e),
            Ok(c) => match Self::from_i32(c) {
                Some(x) => Ok(x),
                None => Err(CborError::NonEnumValue),
            },
        }
    }

    /// A value is recovered from its number, and from the item that holds it.
    pub proof fn lemma_round_trip(self)
        ensures
            Self::of_code(self.code()) == Some(self),
            Self::from_item(Item::Integer(self.code())) == Ok::<Self, CborError>(self),
    {
    }
}

/// Padding mode.
#[derive(Clone, Copy, Debug, PartialEq, Eq, Structural)]
pub enum PaddingMode {
    NoPadding,
    RsaOaep,
    RsaPss,
    RsaPkcs115Encrypt,
    RsaPkcs115Sign,
    Pkcs7,
}

impl PaddingMode {
    /// The number that stands for this value on the wire.
    pub open spec fn code(self) -> int {
        match self {
            PaddingMode::NoPadding => 1,
            PaddingMode::RsaOaep => 2,
            PaddingMode::RsaPss => 3,
            PaddingMode::RsaPkcs115Encrypt => 4,
            PaddingMode::RsaPkcs115Sign => 5,
            PaddingMode::Pkcs7 => 64,
        }
    }

    /// The value that a number stands for, if there is one.
    pub open spec fn of_code(c: int) -> Option<PaddingMode> {
        if c == 1 {
            Some(PaddingMode::NoPadding)
        } else if c == 2 {
            Some(PaddingMode::RsaOaep)
        } else if c == 3 {
            Some(PaddingMode::RsaPss)
        } else if c == 4 {
            Some(PaddingMode::RsaPkcs115Encrypt)
        } else if c == 5 {
            Some(PaddingMode::RsaPkcs115Sign)
        } else if c == 64 {
            Some(PaddingMode::Pkcs7)
        } else {
            None
        }
    }

    /// The number of this value.
    pub fn to_i32(self) -> (r: i32)
        ensures
            r == self.code(),
    {
        match self {
            PaddingMode::NoPadding => 1,
            PaddingMode::RsaOaep => 2,
            PaddingMode::RsaPss => 3,
            PaddingMode::RsaPkcs115Encrypt => 4,
            PaddingMode::RsaPkcs115Sign => 5,
            PaddingMode::Pkcs7 => 64,
        }
    }

    /// The value of a number, or nothing where the number stands for none.
    pub fn from_i32(c: i32) -> (r: Option<PaddingMode>)
        ensures
            r == Self::of_code(c as int),
    {
        if c == 1 {
            Some(PaddingMode::NoPadding)
        } else if c == 2 {
            Some(PaddingMode::RsaOaep)
        } else if c == 3 {
            Some(PaddingMode::RsaPss)
        } else if c == 4 {
            Some(PaddingMode::RsaPkcs115Encrypt)
        } else if c == 5 {
            Some(PaddingMode::RsaPkcs115Sign)
        } else if c == 64 {
            Some(PaddingMode::Pkcs7)
        } else {
            None
        }
    }

    /// What [`Self::from_cbor_value`] makes of an item: an integer that fits
    /// 32 bits and stands for a value.
    pub open spec fn from_item(item: Item) -> Result<PaddingMode, CborError> {
        match i32_of(item) {
            Err(e) => Err(e),
            Ok(c) => match Self::of_code(c as int) {
                Some(x) => Ok(x),
                None => Err(CborError::NonEnumValue),
            },
        }
    }

    /// The integer item that holds this value's number.
    pub fn to_cbor_value(self) -> (r: CborValue)
        ensures
            r@ == Item::Integer(self.code()),
    {
        CborValue::Integer(self.to_i32() as i128)
    }

    /// Reads a value from an integer item.
    pub fn from_cbor_value(v: &CborValue) -> (r: Result<PaddingMode, CborError>)
        ensures
            r == Self::from_item(v@),
    {
        match value_i32(v) {
            Err(e) => Err(e),
            Ok(c) => match Self::from_i32(c) {
                Some(x) => Ok(x),
                None => Err(CborError::NonEnumValue),
            },
        }
    }

    /// A value is recovered from its number, and from the item that holds it.
    pub proof fn lemma_round_trip(self)
        ensures
            Self::of_code(self.code()) == Some(self),
            Self::from_item(Item::Integer(self.code())) == Ok::<Self, CborError>(self),
    {
    }
}

/// Security level of an environment that holds keys.
#[derive(Clone, Copy, Debug, PartialEq, Eq, Structural)]
pub enum SecurityLevel {
    Software,
    TrustedEnvironment,
    Strongbox,
    Keystore,
}

impl SecurityLevel {
    /// The number that stands for this value on the wire.
    pub open spec fn code(self) -> int {
        match self {
            SecurityLevel::Software => 0,
            SecurityLevel::TrustedEnvironment => 1,
            SecurityLevel::Strongbox => 2,
            SecurityLevel::Keystore => 100,
        }
    }

    /// The value that a number stands for, if there is one.
    pub open spec fn of_code(c: int) -> Option<SecurityLevel> {
        if c == 0 {
            Some(SecurityLevel::Software)
        } else if c == 1 {
            Some(SecurityLevel::TrustedEnvironment)
        } else if c == 2 {
            Some(SecurityLevel::Strongbox)
        } else if c == 100 {
            Some(SecurityLevel::Keystore)
        } else {
            None
        }
    }

    /// The number of this value.
    pub fn to_i32(self) -> (r: i32)
        ensures
            r == self.code(),
    {
        match self {
            SecurityLevel::Software => 0,
            SecurityLevel::TrustedEnvironment => 1,
            SecurityLevel::Strongbox => 2,
            SecurityLevel::Keystore => 100,
        }
    }

    /// The value of a number, or nothing where the number stands for none.
    pub fn from_i32(c: i32) -> (r: Option<SecurityLevel>)
        ensures
            r == Self::of_code(c as int),
    {
        if c == 0 {
            Some(SecurityLevel::Software)
        } else if c == 1 {
            Some(SecurityLevel::TrustedEnvironment)
        } else if c == 2 {
            Some(SecurityLevel::Strongbox)
        } else if c == 100 {
            Some(SecurityLevel::Keystore)
        } else {
            None
        }
    }

    /// What [`Self::from_cbor_value`] makes of an item: an integer that fits
    /// 32 bits and stands for a value.
    pub open spec fn from_item(item: Item) -> Result<SecurityLevel, CborError> {
        match i32_of(item) {
            Err(e) => Err(e),
            Ok(c) => match Self::of_code(c as int) {
                Some(x) => Ok(x),
                None => Err(CborError::NonEnumValue),
            },
        }
    }

    /// The integer item that holds this value's number.
    pub fn to_cbor_value(self) -> (r: CborValue)
        ensures
            r@ == Item::Integer(self.code()),
    {
        CborValue::Integer(self.to_i32() as i128)
    }

    /// Reads a value from an integer item.
    pub fn from_cbor_value(v: &CborValue) -> (r: Result<SecurityLevel, CborError>)
        ensures
            r == Self::from_item(v@),
    {
        match value_i32(v) {
            Err(e) => Err(e),
            Ok(c) => match Self::from_i32(c) {
                Some(x) => Ok(x),
                None => Err(CborError::NonEnumValue),
            },
        }
    }

    /// A value is recovered from its number, and from the item that holds it.
    pub proof fn lemma_round_trip(self)
        ensures
            Self::of_code(self.code()) == Some(self),
            Self::from_item(Item::Integer(self.code())) == Ok::<Self, CborError>(self),
    {
    }
}

/// Outcome of verified boot.
#[derive(Clone, Copy, Debug, PartialEq, Eq, Structural)]
pub enum VerifiedBootState {
    Verified,
    SelfSigned,
    Unverified,
    Failed,
}

impl VerifiedBootState {
    /// The number that stands for this value on the wire.
    pub open spec fn code(self) -> int {
        match self {
            VerifiedBootState::Verified => 0,
            VerifiedBootState::SelfSigned => 1,
            VerifiedBootState::Unverified => 2,
            VerifiedBootState::Failed => 3,
        }
    }

    /// The value that a number stands for, if there is one.
    pub open spec fn of_code(c: int) -> Option<VerifiedBootState> {
        if c == 0 {
            Some(VerifiedBootState::Verified)
        } else if c == 1 {
            Some(VerifiedBootState::SelfSigned)
        } else if c == 2 {
            Some(VerifiedBootState::Unverified)
        } else if c == 3 {
            Some(VerifiedBootState::Failed)
        } else {
            None
        }
    }

    /// The number of this value.
    pub fn to_i32(self) -> (r: i32)
        ensures
            r == self.code(),
    {
        match self {
            VerifiedBootState::Verified => 0,
            VerifiedBootState::SelfSigned => 1,
            VerifiedBootState::Unverified => 2,
            VerifiedBootState::Failed => 3,
        }
    }

    /// The value of a number, or nothing where the number stands for none.
    pub fn from_i32(c: i32) -> (r: Option<VerifiedBootState>)
        ensures
            r == Self::of_code(c as int),
    {
        if c == 0 {
            Some(VerifiedBootState::Verified)
        } else if c == 1 {
            Some(VerifiedBootState::SelfSigned)
        } else if c == 2 {
            Some(VerifiedBootState::Unverified)
        } else if c == 3 {
            Some(VerifiedBootState::Failed)
        } else {
            None
        }
    }

    /// What [`Self::from_cbor_value`] makes of an item: an integer that fits
    /// 32 bits and stands for a value.
    pub open spec fn from_item(item: Item) -> Result<VerifiedBootState, CborError> {
        match i32_of(item) {
            Err(e) => Err(e),
            Ok(c) => match Self::of_code(c as int) {
                Some(x) => Ok(x),
                None => Err(CborError::NonEnumValue),
            },
        }
    }

    /// The integer item that holds this value's number.
    pub fn to_cbor_value(self) -> (r: CborValue)
        ensures
            r@ == Item::Integer(self.code()),
    {
        CborValue::Integer(self.to_i32() as i128)
    }

    /// Reads a value from an integer item.
    pub fn from_cbor_value(v: &CborValue) -> (r: Result<VerifiedBootState, CborError>)
        ensures
            r == Self::from_item(v@),
    {
        match value_i32(v) {
            Err(e) => Err(e),
            Ok(c) => match Self::from_i32(c) {
                Some(x) => Ok(x),
                None => Err(CborError::NonEnumValue),
            },
        }
    }

    /// A value is recovered from its number, and from the item that holds it.
    pub proof fn lemma_round_trip(self)
        ensures
            Self::of_code(self.code()) == Some(self),
            Self::from_item(Item::Integer(self.code())) == Ok::<Self, CborError>(self),
    {
    }
}

/// Kind of value that a tag carries, held in the top four bits of the tag number.
#[derive(Clone, Copy, Debug, PartialEq, Eq, Structural)]
pub enum TagType {
    Invalid,
    Enum,
    EnumRep,
    Uint,
    UintRep,
    Ulong,
    Date,
    Bool,
    Bignum,
    Bytes,
    UlongRep,
}

impl TagType {
    /// The number that stands for this value on the wire.
    pub open spec fn code(self) -> int {
        match self {
            TagType::Invalid => 0,
            TagType::Enum => 268435456,
            TagType::EnumRep => 536870912,
            TagType::Uint => 805306368,
            TagType::UintRep => 1073741824,
            TagType::Ulong => 1342177280,
            TagType::Date => 1610612736,
            TagType::Bool => 1879048192,
            TagType::Bignum => -2147483648,
            TagType::Bytes => -1879048192,
            TagType::UlongRep => -1610612736,
        }
    }

    /// The value that a number stands for, if there is one.
    pub open spec fn of_code(c: int) -> Option<TagType> {
        if c == 0 {
            Some(TagType::Invalid)
        } else if c == 268435456 {
            Some(TagType::Enum)
        } else if c == 536870912 {
            Some(TagType::EnumRep)
        } else if c == 805306368 {
            Some(TagType::Uint)
        } else if c == 1073741824 {
            Some(TagType::UintRep)
        } else if c == 1342177280 {
            Some(TagType::Ulong)
        } else if c == 1610612736 {
            Some(TagType::Date)
        } else if c == 1879048192 {
            Some(TagType::Bool)
        } else if c == -2147483648 {
            Some(TagType::Bignum)
        } else if c == -1879048192 {
            Some(TagType::Bytes)
        } else if c == -1610612736 {
            Some(TagType::UlongRep)
        } else {
            None
        }
    }

    /// The number of this value.
    pub fn to_i32(self) -> (r: i32)
        ensures
            r == self.code(),
    {
        match self {
            TagType::Invalid => 0,
            TagType::Enum => 268435456,
            TagType::EnumRep => 536870912,
            TagType::Uint => 805306368,
            TagType::UintRep => 1073741824,
            TagType::Ulong => 1342177280,
            TagType::Date => 1610612736,
            TagType::Bool => 1879048192,
            TagType::Bignum => -2147483648,
            TagType::Bytes => -1879048192,
            TagType::UlongRep => -1610612736,
        }
    }

    /// The value of a number, or nothing where the number stands for none.
    pub fn from_i32(c: i32) -> (r: Option<TagType>)
        ensures
            r == Self::of_code(c as int),
    {
        if c == 0 {
            Some(TagType::Invalid)
        } else if c == 268435456 {
            Some(TagType::Enum)
        } else if c == 536870912 {
            Some(TagType::EnumRep)
        } else if c == 805306368 {
            Some(TagType::Uint)
        } else if c == 1073741824 {
            Some(TagType::UintRep)
        } else if c == 1342177280 {
            Some(TagType::Ulong)
        } else if c == 1610612736 {
            Some(TagType::Date)
        } else if c == 1879048192 {
            Some(TagType::Bool)
        } else if c == -2147483648 {
            Some(TagType::Bignum)
        } else if c == -1879048192 {
            Some(TagType::Bytes)
        } else if c == -1610612736 {
            Some(TagType::UlongRep)
        } else {
            None
        }
    }

    /// What [`Self::from_cbor_value`] makes of an item: an integer that fits
    /// 32 bits and stands for a value.
    pub open spec fn from_item(item: Item) -> Result<TagType, CborError> {
        match i32_of(item) {
            Err(e) => Err(e),
            Ok(c) => match Self::of_code(c as int) {
                Some(x) => Ok(x),
                None => Err(CborError::NonEnumValue),
            },
        }
    }

    /// The integer item that holds this value's number.
    pub fn to_cbor_value(self) -> (r: CborValue)
        ensures
            r@ == Item::Integer(self.code()),
    {
        CborValue::Integer(self.to_i32() as i128)
    }

    /// Reads a value from an integer item.
    pub fn from_cbor_value(v: &CborValue) -> (r: Result<TagType, CborError>)
        ensures
            r == Self::from_item(v@),
    {
        match value_i32(v) {
            Err(e) => Err(e),
            Ok(c) => match Self::from_i32(c) {
                Some(x) => Ok(x),
                None => Err(CborError::NonEnumValue),
            },
        }
    }

    /// A value is recovered from its number, and from the item that holds it.
    pub proof fn lemma_round_trip(self)
        ensures
            Self::of_code(self.code()) == Some(self),
            Self::from_item(Item::Integer(self.code())) == Ok::<Self, CborError>(self),
    {
    }
}

/// Identifier of a key parameter: the kind of its value in the top four bits, its number below.
#[derive(Clone, Copy, Debug, PartialEq, Eq, Structural)]
pub enum Tag {
    Invalid,
    Purpose,
    Algorithm,
    KeySize,
    BlockMode,
    Digest,
    Padding,
    CallerNonce,
    MinMacLength,
    EcCurve,
    RsaPublicExponent,
    IncludeUniqueId,
    RsaOaepMgfDigest,
    BootloaderOnly,
    RollbackResistance,
    HardwareType,
    EarlyBootOnly,
    ActiveDatetime,
    OriginationExpireDatetime,
    UsageExpireDatetime,
    MinSecondsBetweenOps,
    MaxUsesPerBoot,
    UsageCountLimit,
    UserId,
    UserSecureId,
    NoAuthRequired,
    UserAuthType,
    AuthTimeout,
    AllowWhileOnBody,
    TrustedUserPresenceRequired,
    TrustedConfirmationRequired,
    UnlockedDeviceRequired,
    ApplicationId,
    ApplicationData,
    CreationDatetime,
    Origin,
    RootOfTrust,
    OsVersion,
    OsPatchlevel,
    UniqueId,
    AttestationChallenge,
    AttestationApplicationId,
    AttestationIdBrand,
    AttestationIdDevice,
    AttestationIdProduct,
    AttestationIdSerial,
    AttestationIdImei,
    AttestationIdMeid,
    AttestationIdManufacturer,
    AttestationIdModel,
    VendorPatchlevel,
    BootPatchlevel,
    DeviceUniqueAttestation,
    IdentityCredentialKey,
    StorageKey,
    AssociatedData,
    Nonce,
    MacLength,
    ResetSinceIdRotation,
    ConfirmationToken,
    CertificateSerial,
    CertificateSubject,
    CertificateNotBefore,
    CertificateNotAfter,
    MaxBootLevel,
}

impl Tag {
    /// The number that stands for this value on the wire.
    pub open spec fn code(self) -> int {
        match self {
            Tag::Invalid => 0,
            Tag::Purpose => 536870913,
            Tag::Algorithm => 268435458,
            Tag::KeySize => 805306371,
            Tag::BlockMode => 536870916,
            Tag::Digest => 536870917,
            Tag::Padding => 536870918,
            Tag::CallerNonce => 1879048199,
            Tag::MinMacLength => 805306376,
            Tag::EcCurve => 268435466,
            Tag::RsaPublicExponent => 1342177480,
            Tag::IncludeUniqueId => 1879048394,
            Tag::RsaOaepMgfDigest => 536871115,
            Tag::BootloaderOnly => 1879048494,
            Tag::RollbackResistance => 1879048495,
            Tag::HardwareType => 268435760,
            Tag::EarlyBootOnly => 1879048497,
            Tag::ActiveDatetime => 1610613136,
            Tag::OriginationExpireDatetime => 1610613137,
            Tag::UsageExpireDatetime => 1610613138,
            Tag::MinSecondsBetweenOps => 805306771,
            Tag::MaxUsesPerBoot => 805306772,
            Tag::UsageCountLimit => 805306773,
            Tag::UserId => 805306869,
            Tag::UserSecureId => -1610612234,
            Tag::NoAuthRequired => 1879048695,
            Tag::UserAuthType => 268435960,
            Tag::AuthTimeout => 805306873,
            Tag::AllowWhileOnBody => 1879048698,
            Tag::TrustedUserPresenceRequired => 1879048699,
            Tag::TrustedConfirmationRequired => 1879048700,
            Tag::UnlockedDeviceRequired => 1879048701,
            Tag::ApplicationId => -1879047591,
            Tag::ApplicationData => -1879047492,
            Tag::CreationDatetime => 1610613437,
            Tag::Origin => 268436158,
            Tag::RootOfTrust => -1879047488,
            Tag::OsVersion => 805307073,
            Tag::OsPatchlevel => 805307074,
            Tag::UniqueId => -1879047485,
            Tag::AttestationChallenge => -1879047484,
            Tag::AttestationApplicationId => -1879047483,
            Tag::AttestationIdBrand => -1879047482,
            Tag::AttestationIdDevice => -1879047481,
            Tag::AttestationIdProduct => -1879047480,
            Tag::AttestationIdSerial => -1879047479,
            Tag::AttestationIdImei => -1879047478,
            Tag::AttestationIdMeid => -1879047477,
            Tag::AttestationIdManufacturer => -1879047476,
            Tag::AttestationIdModel => -1879047475,
            Tag::VendorPatchlevel => 805307086,
            Tag::BootPatchlevel => 805307087,
            Tag::DeviceUniqueAttestation => 1879048912,
            Tag::IdentityCredentialKey => 1879048913,
            Tag::StorageKey => 1879048914,
            Tag::AssociatedData => -1879047192,
            Tag::Nonce => -1879047191,
            Tag::MacLength => 805307371,
            Tag::ResetSinceIdRotation => 1879049196,
            Tag::ConfirmationToken => -1879047187,
            Tag::CertificateSerial => -2147482642,
            Tag::CertificateSubject => -1879047185,
            Tag::CertificateNotBefore => 1610613744,
            Tag::CertificateNotAfter => 1610613745,
            Tag::MaxBootLevel => 805307378,
        }
    }

    /// The value that a number stands for, if there is one.
    pub open spec fn of_code(c: int) -> Option<Tag> {
        if c == 0 {
            Some(Tag::Invalid)
        } else if c == 536870913 {
            Some(Tag::Purpose)
        } else if c == 268435458 {
            Some(Tag::Algorithm)
        } else if c == 805306371 {
            Some(Tag::KeySize)
        } else if c == 536870916 {
            Some(Tag::BlockMode)
        } else if c == 536870917 {
            Some(Tag::Digest)
        } else if c == 536870918 {
            Some(Tag::Padding)
        } else if c == 1879048199 {
            Some(Tag::CallerNonce)
        } else if c == 805306376 {
            Some(Tag::MinMacLength)
        } else if c == 268435466 {
            Some(Tag::EcCurve)
        } else if c == 1342177480 {
            Some(Tag::RsaPublicExponent)
        } else if c == 1879048394 {
            Some(Tag::IncludeUniqueId)
        } else if c == 536871115 {
            Some(Tag::RsaOaepMgfDigest)
        } else if c == 1879048494 {
            Some(Tag::BootloaderOnly)
        } else if c == 1879048495 {
            Some(Tag::RollbackResistance)
        } else if c == 268435760 {
            Some(Tag::HardwareType)
        } else if c == 1879048497 {
            Some(Tag::EarlyBootOnly)
        } else if c == 1610613136 {
            Some(Tag::ActiveDatetime)
        } else if c == 1610613137 {
            Some(Tag::OriginationExpireDatetime)
        } else if c == 1610613138 {
            Some(Tag::UsageExpireDatetime)
        } else if c == 805306771 {
            Some(Tag::MinSecondsBetweenOps)
        } else if c == 805306772 {
            Some(Tag::MaxUsesPerBoot)
        } else if c == 805306773 {
            Some(Tag::UsageCountLimit)
        } else if c == 805306869 {
            Some(Tag::UserId)
        } else if c == -1610612234 {
            Some(Tag::UserSecureId)
        } else if c == 1879048695 {
            Some(Tag::NoAuthRequired)
        } else if c == 268435960 {
            Some(Tag::UserAuthType)
        } else if c == 805306873 {
            Some(Tag::AuthTimeout)
        } else if c == 1879048698 {
            Some(Tag::AllowWhileOnBody)
        } else if c == 1879048699 {
            Some(Tag::TrustedUserPresenceRequired)
        } else if c == 1879048700 {
            Some(Tag::TrustedConfirmationRequired)
        } else if c == 1879048701 {
            Some(Tag::UnlockedDeviceRequired)
        } else if c == -1879047591 {
            Some(Tag::ApplicationId)
        } else if c == -1879047492 {
            Some(Tag::ApplicationData)
        } else if c == 1610613437 {
            Some(Tag::CreationDatetime)
        } else if c == 268436158 {
            Some(Tag::Origin)
        } else if c == -1879047488 {
            Some(Tag::RootOfTrust)
        } else if c == 805307073 {
            Some(Tag::OsVersion)
        } else if c == 805307074 {
            Some(Tag::OsPatchlevel)
        } else if c == -1879047485 {
            Some(Tag::UniqueId)
        } else if c == -1879047484 {
            Some(Tag::AttestationChallenge)
        } else if c == -1879047483 {
            Some(Tag::AttestationApplicationId)
        } else if c == -1879047482 {
            Some(Tag::AttestationIdBrand)
        } else if c == -1879047481 {
            Some(Tag::AttestationIdDevice)
        } else if c == -1879047480 {
            Some(Tag::AttestationIdProduct)
        } else if c == -1879047479 {
            Some(Tag::AttestationIdSerial)
        } else if c == -1879047478 {
            Some(Tag::AttestationIdImei)
        } else if c == -1879047477 {
            Some(Tag::AttestationIdMeid)
        } else if c == -1879047476 {
            Some(Tag::AttestationIdManufacturer)
        } else if c == -1879047475 {
            Some(Tag::AttestationIdModel)
        } else if c == 805307086 {
            Some(Tag::VendorPatchlevel)
        } else if c == 805307087 {
            Some(Tag::BootPatchlevel)
        } else if c == 1879048912 {
            Some(Tag::DeviceUniqueAttestation)
        } else if c == 1879048913 {
            Some(Tag::IdentityCredentialKey)
        } else if c == 1879048914 {
            Some(Tag::StorageKey)
        } else if c == -1879047192 {
            Some(Tag::AssociatedData)
        } else if c == -1879047191 {
            Some(Tag::Nonce)
        } else if c == 805307371 {
            Some(Tag::MacLength)
        } else if c == 1879049196 {
            Some(Tag::ResetSinceIdRotation)
        } else if c == -1879047187 {
            Some(Tag::ConfirmationToken)
        } else if c == -2147482642 {
            Some(Tag::CertificateSerial)
        } else if c == -1879047185 {
            Some(Tag::CertificateSubject)
        } else if c == 1610613744 {
            Some(Tag::CertificateNotBefore)
        } else if c == 1610613745 {
            Some(Tag::CertificateNotAfter)
        } else if c == 805307378 {
            Some(Tag::MaxBootLevel)
        } else {
            None
        }
    }

    /// The number of this value.
    pub fn to_i32(self) -> (r: i32)
        ensures
            r == self.code(),
    {
        match self {
            Tag::Invalid => 0,
            Tag::Purpose => 536870913,
            Tag::Algorithm => 268435458,
            Tag::KeySize => 805306371,
            Tag::BlockMode => 536870916,
            Tag::Digest => 536870917,
            Tag::Padding => 536870918,
            Tag::CallerNonce => 1879048199,
            Tag::MinMacLength => 805306376,
            Tag::EcCurve => 268435466,
            Tag::RsaPublicExponent => 1342177480,
            Tag::IncludeUniqueId => 1879048394,
            Tag::RsaOaepMgfDigest => 536871115,
            Tag::BootloaderOnly => 1879048494,
            Tag::RollbackResistance => 1879048495,
            Tag::HardwareType => 268435760,
            Tag::EarlyBootOnly => 1879048497,
            Tag::ActiveDatetime => 1610613136,
            Tag::OriginationExpireDatetime => 1610613137,
            Tag::UsageExpireDatetime => 1610613138,
            Tag::MinSecondsBetweenOps => 805306771,
            Tag::MaxUsesPerBoot => 805306772,
            Tag::UsageCountLimit => 805306773,
            Tag::UserId => 805306869,
            Tag::UserSecureId => -1610612234,
            Tag::NoAuthRequired => 1879048695,
            Tag::UserAuthType => 268435960,
            Tag::AuthTimeout => 805306873,
            Tag::AllowWhileOnBody => 1879048698,
            Tag::TrustedUserPresenceRequired => 1879048699,
            Tag::TrustedConfirmationRequired => 1879048700,
            Tag::UnlockedDeviceRequired => 1879048701,
            Tag::ApplicationId => -1879047591,
            Tag::ApplicationData => -1879047492,
            Tag::CreationDatetime => 1610613437,
            Tag::Origin => 268436158,
            Tag::RootOfTrust => -1879047488,
            Tag::OsVersion => 805307073,
            Tag::OsPatchlevel => 805307074,
            Tag::UniqueId => -1879047485,
            Tag::AttestationChallenge => -1879047484,
            Tag::AttestationApplicationId => -1879047483,
            Tag::AttestationIdBrand => -1879047482,
            Tag::AttestationIdDevice => -1879047481,
            Tag::AttestationIdProduct => -1879047480,
            Tag::AttestationIdSerial => -1879047479,
            Tag::AttestationIdImei => -1879047478,
            Tag::AttestationIdMeid => -1879047477,
            Tag::AttestationIdManufacturer => -1879047476,
            Tag::AttestationIdModel => -1879047475,
            Tag::VendorPatchlevel => 805307086,
            Tag::BootPatchlevel => 805307087,
            Tag::DeviceUniqueAttestation => 1879048912,
            Tag::IdentityCredentialKey => 1879048913,
            Tag::StorageKey => 1879048914,
            Tag::AssociatedData => -1879047192,
            Tag::Nonce => -1879047191,
            Tag::MacLength => 805307371,
            Tag::ResetSinceIdRotation => 1879049196,
            Tag::ConfirmationToken => -1879047187,
            Tag::CertificateSerial => -2147482642,
            Tag::CertificateSubject => -1879047185,
            Tag::CertificateNotBefore => 1610613744,
            Tag::CertificateNotAfter => 1610613745,
            Tag::MaxBootLevel => 805307378,
        }
    }

    /// The value of a number, or nothing where the number stands for none.
    pub fn from_i32(c: i32) -> (r: Option<Tag>)
        ensures
            r == Self::of_code(c as int),
    {
        if c == 0 {
            Some(Tag::Invalid)
        } else if c == 536870913 {
            Some(Tag::Purpose)
        } else if c == 268435458 {
            Some(Tag::Algorithm)
        } else if c == 805306371 {
            Some(Tag::KeySize)
        } else if c == 536870916 {
            Some(Tag::BlockMode)
        } else if c == 536870917 {
            Some(Tag::Digest)
        } else if c == 536870918 {
            Some(Tag::Padding)
        } else if c == 1879048199 {
            Some(Tag::CallerNonce)
        } else if c == 805306376 {
            Some(Tag::MinMacLength)
        } else if c == 268435466 {
            Some(Tag::EcCurve)
        } else if c == 1342177480 {
            Some(Tag::RsaPublicExponent)
        } else if c == 1879048394 {
            Some(Tag::IncludeUniqueId)
        } else if c == 536871115 {
            Some(Tag::RsaOaepMgfDigest)
        } else if c == 1879048494 {
            Some(Tag::BootloaderOnly)
        } else if c == 1879048495 {
            Some(Tag::RollbackResistance)
        } else if c == 268435760 {
            Some(Tag::HardwareType)
        } else if c == 1879048497 {
            Some(Tag::EarlyBootOnly)
        } else if c == 1610613136 {
            Some(Tag::ActiveDatetime)
        } else if c == 1610613137 {
            Some(Tag::OriginationExpireDatetime)
        } else if c == 1610613138 {
            Some(Tag::UsageExpireDatetime)
        } else if c == 805306771 {
            Some(Tag::MinSecondsBetweenOps)
        } else if c == 805306772 {
            Some(Tag::MaxUsesPerBoot)
        } else if c == 805306773 {
            Some(Tag::UsageCountLimit)
        } else if c == 805306869 {
            Some(Tag::UserId)
        } else if c == -1610612234 {
            Some(Tag::UserSecureId)
        } else if c == 1879048695 {
            Some(Tag::NoAuthRequired)
        } else if c == 268435960 {
            Some(Tag::UserAuthType)
        } else if c == 805306873 {
            Some(Tag::AuthTimeout)
        } else if c == 1879048698 {
            Some(Tag::AllowWhileOnBody)
        } else if c == 1879048699 {
            Some(Tag::TrustedUserPresenceRequired)
        } else if c == 1879048700 {
            Some(Tag::TrustedConfirmationRequired)
        } else if c == 1879048701 {
            Some(Tag::UnlockedDeviceRequired)
        } else if c == -1879047591 {
            Some(Tag::ApplicationId)
        } else if c == -1879047492 {
            Some(Tag::ApplicationData)
        } else if c == 1610613437 {
            Some(Tag::CreationDatetime)
        } else if c == 268436158 {
            Some(Tag::Origin)
        } else if c == -1879047488 {
            Some(Tag::RootOfTrust)
        } else if c == 805307073 {
            Some(Tag::OsVersion)
        } else if c == 805307074 {
            Some(Tag::OsPatchlevel)
        } else if c == -1879047485 {
            Some(Tag::UniqueId)
        } else if c == -1879047484 {
            Some(Tag::AttestationChallenge)
        } else if c == -1879047483 {
            Some(Tag::AttestationApplicationId)
        } else if c == -1879047482 {
            Some(Tag::AttestationIdBrand)
        } else if c == -1879047481 {
            Some(Tag::AttestationIdDevice)
        } else if c == -1879047480 {
            Some(Tag::AttestationIdProduct)
        } else if c == -1879047479 {
            Some(Tag::AttestationIdSerial)
        } else if c == -1879047478 {
            Some(Tag::AttestationIdImei)
        } else if c == -1879047477 {
            Some(Tag::AttestationIdMeid)
        } else if c == -1879047476 {
            Some(Tag::AttestationIdManufacturer)
        } else if c == -1879047475 {
            Some(Tag::AttestationIdModel)
        } else if c == 805307086 {
            Some(Tag::VendorPatchlevel)
        } else if c == 805307087 {
            Some(Tag::BootPatchlevel)
        } else if c == 1879048912 {
            Some(Tag::DeviceUniqueAttestation)
        } else if c == 1879048913 {
            Some(Tag::IdentityCredentialKey)
        } else if c == 1879048914 {
            Some(Tag::StorageKey)
        } else if c == -1879047192 {
            Some(Tag::AssociatedData)
        } else if c == -1879047191 {
            Some(Tag::Nonce)
        } else if c == 805307371 {
            Some(Tag::MacLength)
        } else if c == 1879049196 {
            Some(Tag::ResetSinceIdRotation)
        } else if c == -1879047187 {
            Some(Tag::ConfirmationToken)
        } else if c == -2147482642 {
            Some(Tag::CertificateSerial)
        } else if c == -1879047185 {
            Some(Tag::CertificateSubject)
        } else if c == 1610613744 {
            Some(Tag::CertificateNotBefore)
        } else if c == 1610613745 {
            Some(Tag::CertificateNotAfter)
        } else if c == 805307378 {
            Some(Tag::MaxBootLevel)
        } else {
            None
        }
    }

    /// What [`Self::from_cbor_value`] makes of an item: an integer that fits
    /// 32 bits and stands for a value.
    pub open spec fn from_item(item: Item) -> Result<Tag, CborError> {
        match i32_of(item) {
            Err(e) => Err(e),
            Ok(c) => match Self::of_code(c as int) {
                Some(x) => Ok(x),
                None => Err(CborError::NonEnumValue),
            },
        }
    }

    /// The integer item that holds this value's number.
    pub fn to_cbor_value(self) -> (r: CborValue)
        ensures
            r@ == Item::Integer(self.code()),
    {
        CborValue::Integer(self.to_i32() as i128)
    }

    /// Reads a value from an integer item.
    pub fn from_cbor_value(v: &CborValue) -> (r: Result<Tag, CborError>)
        ensures
            r == Self::from_item(v@),
    {
        match value_i32(v) {
            Err(e) => Err(e),
            Ok(c) => match Self::from_i32(c) {
                Some(x) => Ok(x),
                None => Err(CborError::NonEnumValue),
            },
        }
    }

    /// A value is recovered from its number, and from the item that holds it.
    pub proof fn lemma_round_trip(self)
        ensures
            Self::of_code(self.code()) == Some(self),
            Self::from_item(Item::Integer(self.code())) == Ok::<Self, CborError>(self),
    {
    }
}

/// Result code of a request, as the host sees it.
#[derive(Clone, Copy, Debug, PartialEq, Eq, Structural)]
pub enum ErrorCode {
    Success,
    RootOfTrustAlreadySet,
    UnsupportedPurpose,
    IncompatiblePurpose,
    UnsupportedAlgorithm,
    IncompatibleAlgorithm,
    UnsupportedKeySize,
    UnsupportedBlockMode,
    IncompatibleBlockMode,
    UnsupportedMacLength,
    UnsupportedPaddingMode,
    IncompatiblePaddingMode,
    UnsupportedDigest,
    IncompatibleDigest,
    InvalidExpirationTime,
    InvalidUserId,
    InvalidAuthorizationTimeout,
    UnsupportedKeyFormat,
    IncompatibleKeyFormat,
    UnsupportedKeyEncryptionAlgorithm,
    UnsupportedKeyVerificationAlgorithm,
    InvalidInputLength,
    KeyExportOptionsInvalid,
    DelegationNotAllowed,
    KeyNotYetValid,
    KeyExpired,
    KeyUserNotAuthenticated,
    OutputParameterNull,
    InvalidOperationHandle,
    InsufficientBufferSpace,
    VerificationFailed,
    TooManyOperations,
    UnexpectedNullPointer,
    InvalidKeyBlob,
    ImportedKeyNotEncrypted,
    ImportedKeyDecryptionFailed,
    ImportedKeyNotSigned,
    ImportedKeyVerificationFailed,
    InvalidArgument,
    UnsupportedTag,
    InvalidTag,
    MemoryAllocationFailed,
    ImportParameterMismatch,
    SecureHwAccessDenied,
    OperationCancelled,
    ConcurrentAccessConflict,
    SecureHwBusy,
    SecureHwCommunicationFailed,
    UnsupportedEcField,
    MissingNonce,
    InvalidNonce,
    MissingMacLength,
    KeyRateLimitExceeded,
    CallerNonceProhibited,
    KeyMaxOpsExceeded,
    InvalidMacLength,
    MissingMinMacLength,
    UnsupportedMinMacLength,
    UnsupportedKdf,
    UnsupportedEcCurve,
    KeyRequiresUpgrade,
    AttestationChallengeMissing,
    KeymintNotConfigured,
    AttestationApplicationIdMissing,
    CannotAttestIds,
    RollbackResistanceUnavailable,
    HardwareTypeUnavailable,
    ProofOfPresenceRequired,
    ConcurrentProofOfPresenceRequested,
    NoUserConfirmation,
    DeviceLocked,
    EarlyBootEnded,
    AttestationKeysNotProvisioned,
    AttestationIdsNotProvisioned,
    InvalidOperation,
    StorageKeyUnsupported,
    IncompatibleMgfDigest,
    UnsupportedMgfDigest,
    MissingNotBefore,
    MissingNotAfter,
    MissingIssuerSubject,
    InvalidIssuerSubject,
    BootLevelExceeded,
    HardwareNotYetAvailable,
    Unimplemented,
    VersionMismatch,
    UnknownError,
}

impl ErrorCode {
    /// The number that stands for this value on the wire.
    pub open spec fn code(self) -> int {
        match self {
            ErrorCode::Success => 0,
            ErrorCode::RootOfTrustAlreadySet => -1,
            ErrorCode::UnsupportedPurpose => -2,
            ErrorCode::IncompatiblePurpose => -3,
            ErrorCode::UnsupportedAlgorithm => -4,
            ErrorCode::IncompatibleAlgorithm => -5,
            ErrorCode::UnsupportedKeySize => -6,
            ErrorCode::UnsupportedBlockMode => -7,
            ErrorCode::IncompatibleBlockMode => -8,
            ErrorCode::UnsupportedMacLength => -9,
            ErrorCode::UnsupportedPaddingMode => -10,
            ErrorCode::IncompatiblePaddingMode => -11,
            ErrorCode::UnsupportedDigest => -12,
            ErrorCode::IncompatibleDigest => -13,
            ErrorCode::InvalidExpirationTime => -14,
            ErrorCode::InvalidUserId => -15,
            ErrorCode::InvalidAuthorizationTimeout => -16,
            ErrorCode::UnsupportedKeyFormat => -17,
            ErrorCode::IncompatibleKeyFormat => -18,
            ErrorCode::UnsupportedKeyEncryptionAlgorithm => -19,
            ErrorCode::UnsupportedKeyVerificationAlgorithm => -20,
            ErrorCode::InvalidInputLength => -21,
            ErrorCode::KeyExportOptionsInvalid => -22,
            ErrorCode::DelegationNotAllowed => -23,
            ErrorCode::KeyNotYetValid => -24,
            ErrorCode::KeyExpired => -25,
            ErrorCode::KeyUserNotAuthenticated => -26,
            ErrorCode::OutputParameterNull => -27,
            ErrorCode::InvalidOperationHandle => -28,
            ErrorCode::InsufficientBufferSpace => -29,
            ErrorCode::VerificationFailed => -30,
            ErrorCode::TooManyOperations => -31,
            ErrorCode::UnexpectedNullPointer => -32,
            ErrorCode::InvalidKeyBlob => -33,
            ErrorCode::ImportedKeyNotEncrypted => -34,
            ErrorCode::ImportedKeyDecryptionFailed => -35,
            ErrorCode::ImportedKeyNotSigned => -36,
            ErrorCode::ImportedKeyVerificationFailed => -37,
            ErrorCode::InvalidArgument => -38,
            ErrorCode::UnsupportedTag => -39,
            ErrorCode::InvalidTag => -40,
            ErrorCode::MemoryAllocationFailed => -41,
            ErrorCode::ImportParameterMismatch => -44,
            ErrorCode::SecureHwAccessDenied => -45,
            ErrorCode::OperationCancelled => -46,
            ErrorCode::ConcurrentAccessConflict => -47,
            ErrorCode::SecureHwBusy => -48,
            ErrorCode::SecureHwCommunicationFailed => -49,
            ErrorCode::UnsupportedEcField => -50,
            ErrorCode::MissingNonce => -51,
            ErrorCode::InvalidNonce => -52,
            ErrorCode::MissingMacLength => -53,
            ErrorCode::KeyRateLimitExceeded => -54,
            ErrorCode::CallerNonceProhibited => -55,
            ErrorCode::KeyMaxOpsExceeded => -56,
            ErrorCode::InvalidMacLength => -57,
            ErrorCode::MissingMinMacLength => -58,
            ErrorCode::UnsupportedMinMacLength => -59,
            ErrorCode::UnsupportedKdf => -60,
            ErrorCode::UnsupportedEcCurve => -61,
            ErrorCode::KeyRequiresUpgrade => -62,
            ErrorCode::AttestationChallengeMissing => -63,
            ErrorCode::KeymintNotConfigured => -64,
            ErrorCode::AttestationApplicationIdMissing => -65,
            ErrorCode::CannotAttestIds => -66,
            ErrorCode::RollbackResistanceUnavailable => -67,
            ErrorCode::HardwareTypeUnavailable => -68,
            ErrorCode::ProofOfPresenceRequired => -69,
            ErrorCode::ConcurrentProofOfPresenceRequested => -70,
            ErrorCode::NoUserConfirmation => -71,
            ErrorCode::DeviceLocked => -72,
            ErrorCode::EarlyBootEnded => -73,
            ErrorCode::AttestationKeysNotProvisioned => -74,
            ErrorCode::AttestationIdsNotProvisioned => -75,
            ErrorCode::InvalidOperation => -76,
            ErrorCode::StorageKeyUnsupported => -77,
            ErrorCode::IncompatibleMgfDigest => -78,
            ErrorCode::UnsupportedMgfDigest => -79,
            ErrorCode::MissingNotBefore => -80,
            ErrorCode::MissingNotAfter => -81,
            ErrorCode::MissingIssuerSubject => -82,
            ErrorCode::InvalidIssuerSubject => -83,
            ErrorCode::BootLevelExceeded => -84,
            ErrorCode::HardwareNotYetAvailable => -85,
            ErrorCode::Unimplemented => -100,
            ErrorCode::VersionMismatch => -101,
            ErrorCode::UnknownError => -1000,
        }
    }

    /// The value that a number stands for, if there is one.
    pub open spec fn of_code(c: int) -> Option<ErrorCode> {
        if c == 0 {
            Some(ErrorCode::Success)
        } else if c == -1 {
            Some(ErrorCode::RootOfTrustAlreadySet)
        } else if c == -2 {
            Some(ErrorCode::UnsupportedPurpose)
        } else if c == -3 {
            Some(ErrorCode::IncompatiblePurpose)
        } else if c == -4 {
            Some(ErrorCode::UnsupportedAlgorithm)
        } else if c == -5 {
            Some(ErrorCode::IncompatibleAlgorithm)
        } else if c == -6 {
            Some(ErrorCode::UnsupportedKeySize)
        } else if c == -7 {
            Some(ErrorCode::UnsupportedBlockMode)
        } else if c == -8 {
            Some(ErrorCode::IncompatibleBlockMode)
        } else if c == -9 {
            Some(ErrorCode::UnsupportedMacLength)
        } else if c == -10 {
            Some(ErrorCode::UnsupportedPaddingMode)
        } else if c == -11 {
            Some(ErrorCode::IncompatiblePaddingMode)
        } else if c == -12 {
            Some(ErrorCode::UnsupportedDigest)
        } else if c == -13 {
            Some(ErrorCode::IncompatibleDigest)
        } else if c == -14 {
            Some(ErrorCode::InvalidExpirationTime)
        } else if c == -15 {
            Some(ErrorCode::InvalidUserId)
        } else if c == -16 {
            Some(ErrorCode::InvalidAuthorizationTimeout)
        } else if c == -17 {
            Some(ErrorCode::UnsupportedKeyFormat)
        } else if c == -18 {
            Some(ErrorCode::IncompatibleKeyFormat)
        } else if c == -19 {
            Some(ErrorCode::UnsupportedKeyEncryptionAlgorithm)
        } else if c == -20 {
            Some(ErrorCode::UnsupportedKeyVerificationAlgorithm)
        } else if c == -21 {
            Some(ErrorCode::InvalidInputLength)
        } else if c == -22 {
            Some(ErrorCode::KeyExportOptionsInvalid)
        } else if c == -23 {
            Some(ErrorCode::DelegationNotAllowed)
        } else if c == -24 {
            Some(ErrorCode::KeyNotYetValid)
        } else if c == -25 {
            Some(ErrorCode::KeyExpired)
        } else if c == -26 {
            Some(ErrorCode::KeyUserNotAuthenticated)
        } else if c == -27 {
            Some(ErrorCode::OutputParameterNull)
        } else if c == -28 {
            Some(ErrorCode::InvalidOperationHandle)
        } else if c == -29 {
            Some(ErrorCode::InsufficientBufferSpace)
        } else if c == -30 {
            Some(ErrorCode::VerificationFailed)
        } else if c == -31 {
            Some(ErrorCode::TooManyOperations)
        } else if c == -32 {
            Some(ErrorCode::UnexpectedNullPointer)
        } else if c == -33 {
            Some(ErrorCode::InvalidKeyBlob)
        } else if c == -34 {
            Some(ErrorCode::ImportedKeyNotEncrypted)
        } else if c == -35 {
            Some(ErrorCode::ImportedKeyDecryptionFailed)
        } else if c == -36 {
            Some(ErrorCode::ImportedKeyNotSigned)
        } else if c == -37 {
            Some(ErrorCode::ImportedKeyVerificationFailed)
        } else if c == -38 {
            Some(ErrorCode::InvalidArgument)
        } else if c == -39 {
            Some(ErrorCode::UnsupportedTag)
        } else if c == -40 {
            Some(ErrorCode::InvalidTag)
        } else if c == -41 {
            Some(ErrorCode::MemoryAllocationFailed)
        } else if c == -44 {
            Some(ErrorCode::ImportParameterMismatch)
        } else if c == -45 {
            Some(ErrorCode::SecureHwAccessDenied)
        } else if c == -46 {
            Some(ErrorCode::OperationCancelled)
        } else if c == -47 {
            Some(ErrorCode::ConcurrentAccessConflict)
        } else if c == -48 {
            Some(ErrorCode::SecureHwBusy)
        } else if c == -49 {
            Some(ErrorCode::SecureHwCommunicationFailed)
        } else if c == -50 {
            Some(ErrorCode::UnsupportedEcField)
        } else if c == -51 {
            Some(ErrorCode::MissingNonce)
        } else if c == -52 {
            Some(ErrorCode::InvalidNonce)
        } else if c == -53 {
            Some(ErrorCode::MissingMacLength)
        } else if c == -54 {
            Some(ErrorCode::KeyRateLimitExceeded)
        } else if c == -55 {
            Some(ErrorCode::CallerNonceProhibited)
        } else if c == -56 {
            Some(ErrorCode::KeyMaxOpsExceeded)
        } else if c == -57 {
            Some(ErrorCode::InvalidMacLength)
        } else if c == -58 {
            Some(ErrorCode::MissingMinMacLength)
        } else if c == -59 {
            Some(ErrorCode::UnsupportedMinMacLength)
        } else if c == -60 {
            Some(ErrorCode::UnsupportedKdf)
        } else if c == -61 {
            Some(ErrorCode::UnsupportedEcCurve)
        } else if c == -62 {
            Some(ErrorCode::KeyRequiresUpgrade)
        } else if c == -63 {
            Some(ErrorCode::AttestationChallengeMissing)
        } else if c == -64 {
            Some(ErrorCode::KeymintNotConfigured)
        } else if c == -65 {
            Some(ErrorCode::AttestationApplicationIdMissing)
        } else if c == -66 {
            Some(ErrorCode::CannotAttestIds)
        } else if c == -67 {
            Some(ErrorCode::RollbackResistanceUnavailable)
        } else if c == -68 {
            Some(ErrorCode::HardwareTypeUnavailable)
        } else if c == -69 {
            Some(ErrorCode::ProofOfPresenceRequired)
        } else if c == -70 {
            Some(ErrorCode::ConcurrentProofOfPresenceRequested)
        } else if c == -71 {
            Some(ErrorCode::NoUserConfirmation)
        } else if c == -72 {
            Some(ErrorCode::DeviceLocked)
        } else if c == -73 {
            Some(ErrorCode::EarlyBootEnded)
        } else if c == -74 {
            Some(ErrorCode::AttestationKeysNotProvisioned)
        } else if c == -75 {
            Some(ErrorCode::AttestationIdsNotProvisioned)
        } else if c == -76 {
            Some(ErrorCode::InvalidOperation)
        } else if c == -77 {
            Some(ErrorCode::StorageKeyUnsupported)
        } else if c == -78 {
            Some(ErrorCode::IncompatibleMgfDigest)
        } else if c == -79 {
            Some(ErrorCode::UnsupportedMgfDigest)
        } else if c == -80 {
            Some(ErrorCode::MissingNotBefore)
        } else if c == -81 {
            Some(ErrorCode::MissingNotAfter)
        } else if c == -82 {
            Some(ErrorCode::MissingIssuerSubject)
        } else if c == -83 {
            Some(ErrorCode::InvalidIssuerSubject)
        } else if c == -84 {
            Some(ErrorCode::BootLevelExceeded)
        } else if c == -85 {
            Some(ErrorCode::HardwareNotYetAvailable)
        } else if c == -100 {
            Some(ErrorCode::Unimplemented)
        } else if c == -101 {
            Some(ErrorCode::VersionMismatch)
        } else if c == -1000 {
            Some(ErrorCode::UnknownError)
        } else {
            None
        }
    }

    /// The number of this value.
    pub fn to_i32(self) -> (r: i32)
        ensures
            r == self.code(),
    {
        match self {
            ErrorCode::Success => 0,
            ErrorCode::RootOfTrustAlreadySet => -1,
            ErrorCode::UnsupportedPurpose => -2,
            ErrorCode::IncompatiblePurpose => -3,
            ErrorCode::UnsupportedAlgorithm => -4,
            ErrorCode::IncompatibleAlgorithm => -5,
            ErrorCode::UnsupportedKeySize => -6,
            ErrorCode::UnsupportedBlockMode => -7,
            ErrorCode::IncompatibleBlockMode => -8,
            ErrorCode::UnsupportedMacLength => -9,
            ErrorCode::UnsupportedPaddingMode => -10,
            ErrorCode::IncompatiblePaddingMode => -11,
            ErrorCode::UnsupportedDigest => -12,
            ErrorCode::IncompatibleDigest => -13,
            ErrorCode::InvalidExpirationTime => -14,
            ErrorCode::InvalidUserId => -15,
            ErrorCode::InvalidAuthorizationTimeout => -16,
            ErrorCode::UnsupportedKeyFormat => -17,
            ErrorCode::IncompatibleKeyFormat => -18,
            ErrorCode::UnsupportedKeyEncryptionAlgorithm => -19,
            ErrorCode::UnsupportedKeyVerificationAlgorithm => -20,
            ErrorCode::InvalidInputLength => -21,
            ErrorCode::KeyExportOptionsInvalid => -22,
            ErrorCode::DelegationNotAllowed => -23,
            ErrorCode::KeyNotYetValid => -24,
            ErrorCode::KeyExpired => -25,
            ErrorCode::KeyUserNotAuthenticated => -26,
            ErrorCode::OutputParameterNull => -27,
            ErrorCode::InvalidOperationHandle => -28,
            ErrorCode::InsufficientBufferSpace => -29,
            ErrorCode::VerificationFailed => -30,
            ErrorCode::TooManyOperations => -31,
            ErrorCode::UnexpectedNullPointer => -32,
            ErrorCode::InvalidKeyBlob => -33,
            ErrorCode::ImportedKeyNotEncrypted => -34,
            ErrorCode::ImportedKeyDecryptionFailed => -35,
            ErrorCode::ImportedKeyNotSigned => -36,
            ErrorCode::ImportedKeyVerificationFailed => -37,
            ErrorCode::InvalidArgument => -38,
            ErrorCode::UnsupportedTag => -39,
            ErrorCode::InvalidTag => -40,
            ErrorCode::MemoryAllocationFailed => -41,
            ErrorCode::ImportParameterMismatch => -44,
            ErrorCode::SecureHwAccessDenied => -45,
            ErrorCode::OperationCancelled => -46,
            ErrorCode::ConcurrentAccessConflict => -47,
            ErrorCode::SecureHwBusy => -48,
            ErrorCode::SecureHwCommunicationFailed => -49,
            ErrorCode::UnsupportedEcField => -50,
            ErrorCode::MissingNonce => -51,
            ErrorCode::InvalidNonce => -52,
            ErrorCode::MissingMacLength => -53,
            ErrorCode::KeyRateLimitExceeded => -54,
            ErrorCode::CallerNonceProhibited => -55,
            ErrorCode::KeyMaxOpsExceeded => -56,
            ErrorCode::InvalidMacLength => -57,
            ErrorCode::MissingMinMacLength => -58,
            ErrorCode::UnsupportedMinMacLength => -59,
            ErrorCode::UnsupportedKdf => -60,
            ErrorCode::UnsupportedEcCurve => -61,
            ErrorCode::KeyRequiresUpgrade => -62,
            ErrorCode::AttestationChallengeMissing => -63,
            ErrorCode::KeymintNotConfigured => -64,
            ErrorCode::AttestationApplicationIdMissing => -65,
            ErrorCode::CannotAttestIds => -66,
            ErrorCode::RollbackResistanceUnavailable => -67,
            ErrorCode::HardwareTypeUnavailable => -68,
            ErrorCode::ProofOfPresenceRequired => -69,
            ErrorCode::ConcurrentProofOfPresenceRequested => -70,
            ErrorCode::NoUserConfirmation => -71,
            ErrorCode::DeviceLocked => -72,
            ErrorCode::EarlyBootEnded => -73,
            ErrorCode::AttestationKeysNotProvisioned => -74,
            ErrorCode::AttestationIdsNotProvisioned => -75,
            ErrorCode::InvalidOperation => -76,
            ErrorCode::StorageKeyUnsupported => -77,
            ErrorCode::IncompatibleMgfDigest => -78,
            ErrorCode::UnsupportedMgfDigest => -79,
            ErrorCode::MissingNotBefore => -80,
            ErrorCode::MissingNotAfter => -81,
            ErrorCode::MissingIssuerSubject => -82,
            ErrorCode::InvalidIssuerSubject => -83,
            ErrorCode::BootLevelExceeded => -84,
            ErrorCode::HardwareNotYetAvailable => -85,
            ErrorCode::Unimplemented => -100,
            ErrorCode::VersionMismatch => -101,
            ErrorCode::UnknownError => -1000,
        }
    }

    /// The value of a number, or nothing where the number stands for none.
    pub fn from_i32(c: i32) -> (r: Option<ErrorCode>)
        ensures
            r == Self::of_code(c as int),
    {
        if c == 0 {
            Some(ErrorCode::Success)
        } else if c == -1 {
            Some(ErrorCode::RootOfTrustAlreadySet)
        } else if c == -2 {
            Some(ErrorCode::UnsupportedPurpose)
        } else if c == -3 {
            Some(ErrorCode::IncompatiblePurpose)
        } else if c == -4 {
            Some(ErrorCode::UnsupportedAlgorithm)
        } else if c == -5 {
            Some(ErrorCode::IncompatibleAlgorithm)
        } else if c == -6 {
            Some(ErrorCode::UnsupportedKeySize)
        } else if c == -7 {
            Some(ErrorCode::UnsupportedBlockMode)
        } else if c == -8 {
            Some(ErrorCode::IncompatibleBlockMode)
        } else if c == -9 {
            Some(ErrorCode::UnsupportedMacLength)
        } else if c == -10 {
            Some(ErrorCode::UnsupportedPaddingMode)
        } else if c == -11 {
            Some(ErrorCode::IncompatiblePaddingMode)
        } else if c == -12 {
            Some(ErrorCode::UnsupportedDigest)
        } else if c == -13 {
            Some(ErrorCode::IncompatibleDigest)
        } else if c == -14 {
            Some(ErrorCode::InvalidExpirationTime)
        } else if c == -15 {
            Some(ErrorCode::InvalidUserId)
        } else if c == -16 {
            Some(ErrorCode::InvalidAuthorizationTimeout)
        } else if c == -17 {
            Some(ErrorCode::UnsupportedKeyFormat)
        } else if c == -18 {
            Some(ErrorCode::IncompatibleKeyFormat)
        } else if c == -19 {
            Some(ErrorCode::UnsupportedKeyEncryptionAlgorithm)
        } else if c == -20 {
            Some(ErrorCode::UnsupportedKeyVerificationAlgorithm)
        } else if c == -21 {
            Some(ErrorCode::InvalidInputLength)
        } else if c == -22 {
            Some(ErrorCode::KeyExportOptionsInvalid)
        } else if c == -23 {
            Some(ErrorCode::DelegationNotAllowed)
        } else if c == -24 {
            Some(ErrorCode::KeyNotYetValid)
        } else if c == -25 {
            Some(ErrorCode::KeyExpired)
        } else if c == -26 {
            Some(ErrorCode::KeyUserNotAuthenticated)
        } else if c == -27 {
            Some(ErrorCode::OutputParameterNull)
        } else if c == -28 {
            Some(ErrorCode::InvalidOperationHandle)
        } else if c == -29 {
            Some(ErrorCode::InsufficientBufferSpace)
        } else if c == -30 {
            Some(ErrorCode::VerificationFailed)
        } else if c == -31 {
            Some(ErrorCode::TooManyOperations)
        } else if c == -32 {
            Some(ErrorCode::UnexpectedNullPointer)
        } else if c == -33 {
            Some(ErrorCode::InvalidKeyBlob)
        } else if c == -34 {
            Some(ErrorCode::ImportedKeyNotEncrypted)
        } else if c == -35 {
            Some(ErrorCode::ImportedKeyDecryptionFailed)
        } else if c == -36 {
            Some(ErrorCode::ImportedKeyNotSigned)
        } else if c == -37 {
            Some(ErrorCode::ImportedKeyVerificationFailed)
        } else if c == -38 {
            Some(ErrorCode::InvalidArgument)
        } else if c == -39 {
            Some(ErrorCode::UnsupportedTag)
        } else if c == -40 {
            Some(ErrorCode::InvalidTag)
        } else if c == -41 {
            Some(ErrorCode::MemoryAllocationFailed)
        } else if c == -44 {
            Some(ErrorCode::ImportParameterMismatch)
        } else if c == -45 {
            Some(ErrorCode::SecureHwAccessDenied)
        } else if c == -46 {
            Some(ErrorCode::OperationCancelled)
        } else if c == -47 {
            Some(ErrorCode::ConcurrentAccessConflict)
        } else if c == -48 {
            Some(ErrorCode::SecureHwBusy)
        } else if c == -49 {
            Some(ErrorCode::SecureHwCommunicationFailed)
        } else if c == -50 {
            Some(ErrorCode::UnsupportedEcField)
        } else if c == -51 {
            Some(ErrorCode::MissingNonce)
        } else if c == -52 {
            Some(ErrorCode::InvalidNonce)
        } else if c == -53 {
            Some(ErrorCode::MissingMacLength)
        } else if c == -54 {
            Some(ErrorCode::KeyRateLimitExceeded)
        } else if c == -55 {
            Some(ErrorCode::CallerNonceProhibited)
        } else if c == -56 {
            Some(ErrorCode::KeyMaxOpsExceeded)
        } else if c == -57 {
            Some(ErrorCode::InvalidMacLength)
        } else if c == -58 {
            Some(ErrorCode::MissingMinMacLength)
        } else if c == -59 {
            Some(ErrorCode::UnsupportedMinMacLength)
        } else if c == -60 {
            Some(ErrorCode::UnsupportedKdf)
        } else if c == -61 {
            Some(ErrorCode::UnsupportedEcCurve)
        } else if c == -62 {
            Some(ErrorCode::KeyRequiresUpgrade)
        } else if c == -63 {
            Some(ErrorCode::AttestationChallengeMissing)
        } else if c == -64 {
            Some(ErrorCode::KeymintNotConfigured)
        } else if c == -65 {
            Some(ErrorCode::AttestationApplicationIdMissing)
        } else if c == -66 {
            Some(ErrorCode::CannotAttestIds)
        } else if c == -67 {
            Some(ErrorCode::RollbackResistanceUnavailable)
        } else if c == -68 {
            Some(ErrorCode::HardwareTypeUnavailable)
        } else if c == -69 {
            Some(ErrorCode::ProofOfPresenceRequired)
        } else if c == -70 {
            Some(ErrorCode::ConcurrentProofOfPresenceRequested)
        } else if c == -71 {
            Some(ErrorCode::NoUserConfirmation)
        } else if c == -72 {
            Some(ErrorCode::DeviceLocked)
        } else if c == -73 {
            Some(ErrorCode::EarlyBootEnded)
        } else if c == -74 {
            Some(ErrorCode::AttestationKeysNotProvisioned)
        } else if c == -75 {
            Some(ErrorCode::AttestationIdsNotProvisioned)
        } else if c == -76 {
            Some(ErrorCode::InvalidOperation)
        } else if c == -77 {
            Some(ErrorCode::StorageKeyUnsupported)
        } else if c == -78 {
            Some(ErrorCode::IncompatibleMgfDigest)
        } else if c == -79 {
            Some(ErrorCode::UnsupportedMgfDigest)
        } else if c == -80 {
            Some(ErrorCode::MissingNotBefore)
        } else if c == -81 {
            Some(ErrorCode::MissingNotAfter)
        } else if c == -82 {
            Some(ErrorCode::MissingIssuerSubject)
        } else if c == -83 {
            Some(ErrorCode::InvalidIssuerSubject)
        } else if c == -84 {
            Some(ErrorCode::BootLevelExceeded)
        } else if c == -85 {
            Some(ErrorCode::HardwareNotYetAvailable)
        } else if c == -100 {
            Some(ErrorCode::Unimplemented)
        } else if c == -101 {
            Some(ErrorCode::VersionMismatch)
        } else if c == -1000 {
            Some(ErrorCode::UnknownError)
        } else {
            None
        }
    }

    /// What [`Self::from_cbor_value`] makes of an item: an integer that fits
    /// 32 bits and stands for a value.
    pub open spec fn from_item(item: Item) -> Result<ErrorCode, CborError> {
        match i32_of(item) {
            Err(e) => Err(e),
            Ok(c) => match Self::of_code(c as int) {
                Some(x) => Ok(x),
                None => Err(CborError::NonEnumValue),
            },
        }
    }

    /// The integer item that holds this value's number.
    pub fn to_cbor_value(self) -> (r: CborValue)
        ensures
            r@ == Item::Integer(self.code()),
    {
        CborValue::Integer(self.to_i32() as i128)
    }

    /// Reads a value from an integer item.
    pub fn from_cbor_value(v: &CborValue) -> (r: Result<ErrorCode, CborError>)
        ensures
            r == Self::from_item(v@),
    {
        match value_i32(v) {
            Err(e) => Err(e),
            Ok(c) => match Self::from_i32(c) {
                Some(x) => Ok(x),
                None => Err(CborError::NonEnumValue),
            },
        }
    }

    /// A value is recovered from its number, and from the item that holds it.
    pub proof fn lemma_round_trip(self)
        ensures
            Self::of_code(self.code()) == Some(self),
            Self::from_item(Item::Integer(self.code())) == Ok::<Self, CborError>(self),
    {
    }
}

} // verus!
