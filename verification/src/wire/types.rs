//! The structures that requests and responses carry, and their CBOR form:
//! each is written as the array of its fields in order, an optional value as
//! an array of at most one element.

use crate::bytes::copy_bytes;
use crate::cbor::{
    array_of, array_value, bool_of, bytes_decoder, bytes_of, bytes_value, decode_all, decode_array,
    decode_option, encoded, i32_of, i64_of, items_of, lemma_decode_all_error,
    lemma_decode_all_round_trip, lemma_decode_all_step, lemma_decode_option_round_trip,
    option_item, option_view, result_option_view, result_view, result_views, text_decoder,
    text_encoder, text_of, text_value, tuple_of, value_array, value_bool, value_bytes, value_i32,
    value_i64, value_text, value_tuple, views, CborError, CborValue, Item,
};
use crate::wire::characteristics::{
    characteristics_from_cbor_value, characteristics_from_item, characteristics_item,
    characteristics_to_cbor_value, duplicate_characteristics, duplicate_params,
    lemma_characteristics_round_trip, lemma_params_round_trip, params_from_cbor_value,
    params_from_item, params_item, params_to_cbor_value, KeyCharacteristics,
    KeyCharacteristicsView,
};
use crate::wire::keymint::{HardwareAuthenticatorType, SecurityLevel};
use crate::wire::params::{KeyParam, KeyParamView};
use vstd::prelude::*;

verus! {

/// Curve of the endpoint encryption key that remote provisioning supports.
#[derive(Clone, Copy, Debug, PartialEq, Eq, Structural)]
pub enum EekCurve {
    NoCurve,
    P256,
    Curve25519,
}

impl EekCurve {
    /// The number that stands for this value on the wire.
    pub open spec fn code(self) -> int {
        match self {
            EekCurve::NoCurve => 0,
            EekCurve::P256 => 1,
            EekCurve::Curve25519 => 2,
        }
    }

    /// The value that a number stands for, if there is one.
    pub open spec fn of_code(c: int) -> Option<EekCurve> {
        if c == 0 {
            Some(EekCurve::NoCurve)
        } else if c == 1 {
            Some(EekCurve::P256)
        } else if c == 2 {
            Some(EekCurve::Curve25519)
        } else {
            None
        }
    }

    /// The number of this value.
    pub fn to_i32(self) -> (r: i32)
        ensures
            r == self.code(),
    {
        match self {
            EekCurve::NoCurve => 0,
            EekCurve::P256 => 1,
            EekCurve::Curve25519 => 2,
        }
    }

    /// The value of a number, or nothing where the number stands for none.
    pub fn from_i32(c: i32) -> (r: Option<EekCurve>)
        ensures
            r == Self::of_code(c as int),
    {
        if c == 0 {
            Some(EekCurve::NoCurve)
        } else if c == 1 {
            Some(EekCurve::P256)
        } else if c == 2 {
            Some(EekCurve::Curve25519)
        } else {
            None
        }
    }

    /// What [`Self::from_cbor_value`] makes of an item: an integer that fits
    /// 32 bits and stands for a value.
    pub open spec fn from_item(item: Item) -> Result<EekCurve, CborError> {
        match i32_of(item) {
            Err(e) => Err(e),
            Ok(c) => match Self::of_code(c as int) {
                Some(x) => Ok(x),
                None => Err(CborError::NonEnumValue),
            },
        }
    }

    /// The integer item that holds this value's number.
    pub fn to_cbor_value(self) -> (r: CborValue)
        ensures
            r@ == Item::Integer(self.code()),
    {
        CborValue::Integer(self.to_i32() as i128)
    }

    /// Reads a value from an integer item.
    pub fn from_cbor_value(v: &CborValue) -> (r: Result<EekCurve, CborError>)
        ensures
            r == Self::from_item(v@),
    {
        match value_i32(v) {
            Err(e) => Err(e),
            Ok(c) => match Self::from_i32(c) {
                Some(x) => Ok(x),
                None => Err(CborError::NonEnumValue),
            },
        }
    }

    /// A value is recovered from its number, and from the item that holds it.
    pub proof fn lemma_round_trip(self)
        ensures
            Self::of_code(self.code()) == Some(self),
            Self::from_item(Item::Integer(self.code())) == Ok::<Self, CborError>(self),
    {
    }
}

/// A time in milliseconds since an epoch that the secure clock defines.
#[derive(Clone, Copy, Debug, PartialEq, Eq, Structural)]
pub struct Timestamp {
    pub milliseconds: i64,
}

impl Timestamp {
    /// The CBOR form: the array of the fields in order.
    pub open spec fn item(self) -> Item {
        Item::Array(
            seq![
                Item::Integer(self.milliseconds as int),
            ],
        )
    }

    /// What [`Timestamp::from_cbor_value`] makes of an item: an array of exactly
    /// 1 element, read in order.
    pub open spec fn from_item(item: Item) -> Result<Timestamp, CborError> {
        match tuple_of(item, 1) {
            Err(e) => Err(e),
            Ok(a) => match i64_of(a[0]) {
                Err(e) => Err(e),
                Ok(milliseconds) => Ok(Timestamp { milliseconds }),
            },
        }
    }

    /// Reading the CBOR form gives the value back.
    pub proof fn lemma_round_trip(self)
        ensures
            Self::from_item(self.item()) == Ok::<Timestamp, CborError>(self),
    {
        let a = self.item()->Array_0;
        assert(tuple_of(self.item(), 1) == Ok::<Seq<Item>, CborError>(a));
        assert(a[0] == Item::Integer(self.milliseconds as int));
    }
}

impl Timestamp {
    /// Writes this value as the array of its fields.
    pub fn to_cbor_value(&self) -> (r: CborValue)
        ensures
            r@ == self.item(),
    {
        let mut a: Vec<CborValue> = Vec::new();
        a.push(CborValue::Integer(self.milliseconds as i128));
        assert(items_of(a@) =~= self.item()->Array_0);
        array_value(a)
    }

    /// Reads a value from the array of its fields.
    pub fn from_cbor_value(v: &CborValue) -> (r: Result<Timestamp, CborError>)
        ensures
            r == Timestamp::from_item(v@),
    {
        let a = match value_tuple(v, 1) {
            Err(e) => { return Err(e); },
            Ok(a) => a,
        };
        assert(items_of(a@)[0] == a@[0]@);
        let milliseconds = match value_i64(&a[0]) {
            Err(e) => { return Err(e); },
            Ok(x) => x,
        };
        Ok(Timestamp { milliseconds })
    }
}

/// A time stamp that a secure clock has authenticated.
#[derive(Clone, Debug, PartialEq, Eq)]
pub struct TimeStampToken {
    pub challenge: i64,
    pub timestamp: Timestamp,
    pub mac: Vec<u8>,
}

/// The content of a [`TimeStampToken`].
pub ghost struct TimeStampTokenView {
    pub challenge: i64,
    pub timestamp: Timestamp,
    pub mac: Seq<u8>,
}

impl View for TimeStampToken {
    type V = TimeStampTokenView;

    open spec fn view(&self) -> TimeStampTokenView {
        TimeStampTokenView {
            challenge: self.challenge,
            timestamp: self.timestamp,
            mac: self.mac@,
        }
    }
}

impl TimeStampTokenView {
    /// The CBOR form: the array of the fields in order.
    pub open spec fn item(self) -> Item {
        Item::Array(
            seq![
                Item::Integer(self.challenge as int),
                self.timestamp.item(),
                Item::Bytes(self.mac),
            ],
        )
    }

    /// What [`TimeStampToken::from_cbor_value`] makes of an item: an array of exactly
    /// 3 elements, read in order.
    pub open spec fn from_item(item: Item) -> Result<TimeStampTokenView, CborError> {
        match tuple_of(item, 3) {
            Err(e) => Err(e),
            Ok(a) => match i64_of(a[0]) {
                Err(e) => Err(e),
                Ok(challenge) => match Timestamp::from_item(a[1]) {
                    Err(e) => Err(e),
                    Ok(timestamp) => match bytes_of(a[2]) {
                        Err(e) => Err(e),
                        Ok(mac) => Ok(TimeStampTokenView { challenge, timestamp, mac }),
                    },
                },
            },
        }
    }

    /// How a [`TimeStampToken`] is written.
    pub open spec fn encoder() -> spec_fn(TimeStampTokenView) -> Item {
        |x: TimeStampTokenView| x.item()
    }

    /// How a [`TimeStampToken`] is read.
    pub open spec fn decoder() -> spec_fn(Item) -> Result<TimeStampTokenView, CborError> {
        |item: Item| TimeStampTokenView::from_item(item)
    }

    /// Reading the CBOR form gives the value back.
    pub proof fn lemma_round_trip(self)
        ensures
            Self::from_item(self.item()) == Ok::<TimeStampTokenView, CborError>(self),
    {
        let a = self.item()->Array_0;
        assert(tuple_of(self.item(), 3) == Ok::<Seq<Item>, CborError>(a));
        assert(a[0] == Item::Integer(self.challenge as int));
        assert(a[1] == self.timestamp.item());
        assert(a[2] == Item::Bytes(self.mac));
        self.timestamp.lemma_round_trip();
    }
}

impl TimeStampToken {
    /// A copy of this value.
    pub fn duplicate(&self) -> (r: TimeStampToken)
        ensures
            r@ == self@,
    {
        TimeStampToken {
            challenge: self.challenge,
            timestamp: self.timestamp,
            mac: copy_bytes(self.mac.as_slice()),
        }
    }

    /// Writes this value as the array of its fields.
    pub fn to_cbor_value(&self) -> (r: CborValue)
        ensures
            r@ == self@.item(),
    {
        let mut a: Vec<CborValue> = Vec::new();
        a.push(CborValue::Integer(self.challenge as i128));
        a.push(self.timestamp.to_cbor_value());
        a.push(bytes_value(self.mac.as_slice()));
        assert(items_of(a@) =~= self@.item()->Array_0);
        array_value(a)
    }

    /// Reads a value from the array of its fields.
    pub fn from_cbor_value(v: &CborValue) -> (r: Result<TimeStampToken, CborError>)
        ensures
            result_view(r) == TimeStampTokenView::from_item(v@),
    {
        let a = match value_tuple(v, 3) {
            Err(e) => { return Err(e); },
            Ok(a) => a,
        };
        assert(items_of(a@)[0] == a@[0]@);
        assert(items_of(a@)[1] == a@[1]@);
        assert(items_of(a@)[2] == a@[2]@);
        let challenge = match value_i64(&a[0]) {
            Err(e) => { return Err(e); },
            Ok(x) => x,
        };
        let timestamp = match Timestamp::from_cbor_value(&a[1]) {
            Err(e) => { return Err(e); },
            Ok(x) => x,
        };
        let mac = match value_bytes(&a[2]) {
            Err(e) => { return Err(e); },
            Ok(x) => x,
        };
        Ok(TimeStampToken { challenge, timestamp, mac })
    }
}

/// Proof of a user authentication, authenticated by the authenticator.
#[derive(Clone, Debug, PartialEq, Eq)]
pub struct HardwareAuthToken {
    pub challenge: i64,
    pub user_id: i64,
    pub authenticator_id: i64,
    pub authenticator_type: HardwareAuthenticatorType,
    pub timestamp: Timestamp,
    pub mac: Vec<u8>,
}

/// The content of a [`HardwareAuthToken`].
pub ghost struct HardwareAuthTokenView {
    pub challenge: i64,
    pub user_id: i64,
    pub authenticator_id: i64,
    pub authenticator_type: HardwareAuthenticatorType,
    pub timestamp: Timestamp,
    pub mac: Seq<u8>,
}

impl View for HardwareAuthToken {
    type V = HardwareAuthTokenView;

    open spec fn view(&self) -> HardwareAuthTokenView {
        HardwareAuthTokenView {
            challenge: self.challenge,
            user_id: self.user_id,
            authenticator_id: self.authenticator_id,
            authenticator_type: self.authenticator_type,
            timestamp: self.timestamp,
            mac: self.mac@,
        }
    }
}

impl HardwareAuthTokenView {
    /// The CBOR form: the array of the fields in order.
    pub open spec fn item(self) -> Item {
        Item::Array(
            seq![
                Item::Integer(self.challenge as int),
                Item::Integer(self.user_id as int),
                Item::Integer(self.authenticator_id as int),
                Item::Integer(self.authenticator_type.code()),
                self.timestamp.item(),
                Item::Bytes(self.mac),
            ],
        )
    }

    /// What [`HardwareAuthToken::from_cbor_value`] makes of an item: an array of exactly
    /// 6 elements, read in order.
    pub open spec fn from_item(item: Item) -> Result<HardwareAuthTokenView, CborError> {
        match tuple_of(item, 6) {
            Err(e) => Err(e),
            Ok(a) => match i64_of(a[0]) {
                Err(e) => Err(e),
                Ok(challenge) => match i64_of(a[1]) {
                    Err(e) => Err(e),
                    Ok(user_id) => match i64_of(a[2]) {
                        Err(e) => Err(e),
                        Ok(authenticator_id) => match HardwareAuthenticatorType::from_item(a[3]) {
                            Err(e) => Err(e),
                            Ok(authenticator_type) => match Timestamp::from_item(a[4]) {
                                Err(e) => Err(e),
                                Ok(timestamp) => match bytes_of(a[5]) {
                                    Err(e) => Err(e),
                                    Ok(mac) => Ok(
                                        HardwareAuthTokenView {
                                            challenge,
                                            user_id,
                                            authenticator_id,
                                            authenticator_type,
                                            timestamp,
                                            mac,
                                        },
                                    ),
                                },
                            },
                        },
                    },
                },
            },
        }
    }

    /// How a [`HardwareAuthToken`] is written.
    pub open spec fn encoder() -> spec_fn(HardwareAuthTokenView) -> Item {
        |x: HardwareAuthTokenView| x.item()
    }

    /// How a [`HardwareAuthToken`] is read.
    pub open spec fn decoder() -> spec_fn(Item) -> Result<HardwareAuthTokenView, CborError> {
        |item: Item| HardwareAuthTokenView::from_item(item)
    }

    /// Reading the CBOR form gives the value back.
    pub proof fn lemma_round_trip(self)
        ensures
            Self::from_item(self.item()) == Ok::<HardwareAuthTokenView, CborError>(self),
    {
        let a = self.item()->Array_0;
        assert(tuple_of(self.item(), 6) == Ok::<Seq<Item>, CborError>(a));
        assert(a[0] == Item::Integer(self.challenge as int));
        assert(a[1] == Item::Integer(self.user_id as int));
        assert(a[2] == Item::Integer(self.authenticator_id as int));
        assert(a[3] == Item::Integer(self.authenticator_type.code()));
        assert(a[4] == self.timestamp.item());
        assert(a[5] == Item::Bytes(self.mac));
        self.authenticator_type.lemma_round_trip();
        self.timestamp.lemma_round_trip();
    }
}

impl HardwareAuthToken {
    /// A copy of this value.
    pub fn duplicate(&self) -> (r: HardwareAuthToken)
        ensures
            r@ == self@,
    {
        HardwareAuthToken {
            challenge: self.challenge,
            user_id: self.user_id,
            authenticator_id: self.authenticator_id,
            authenticator_type: self.authenticator_type,
            timestamp: self.timestamp,
            mac: copy_bytes(self.mac.as_slice()),
        }
    }

    /// Writes this value as the array of its fields.
    pub fn to_cbor_value(&self) -> (r: CborValue)
        ensures
            r@ == self@.item(),
    {
        let mut a: Vec<CborValue> = Vec::new();
        a.push(CborValue::Integer(self.challenge as i128));
        a.push(CborValue::Integer(self.user_id as i128));
        a.push(CborValue::Integer(self.authenticator_id as i128));
        a.push(self.authenticator_type.to_cbor_value());
        a.push(self.timestamp.to_cbor_value());
        a.push(bytes_value(self.mac.as_slice()));
        assert(items_of(a@) =~= self@.item()->Array_0);
        array_value(a)
    }

    /// Reads a value from the array of its fields.
    pub fn from_cbor_value(v: &CborValue) -> (r: Result<HardwareAuthToken, CborError>)
        ensures
            result_view(r) == HardwareAuthTokenView::from_item(v@),
    {
        let a = match value_tuple(v, 6) {
            Err(e) => { return Err(e); },
            Ok(a) => a,
        };
        assert(items_of(a@)[0] == a@[0]@);
        assert(items_of(a@)[1] == a@[1]@);
        assert(items_of(a@)[2] == a@[2]@);
        assert(items_of(a@)[3] == a@[3]@);
        assert(items_of(a@)[4] == a@[4]@);
        assert(items_of(a@)[5] == a@[5]@);
        let challenge = match value_i64(&a[0]) {
            Err(e) => { return Err(e); },
            Ok(x) => x,
        };
        let user_id = match value_i64(&a[1]) {
            Err(e) => { return Err(e); },
            Ok(x) => x,
        };
        let authenticator_id = match value_i64(&a[2]) {
            Err(e) => { return Err(e); },
            Ok(x) => x,
        };
        let authenticator_type = match HardwareAuthenticatorType::from_cbor_value(&a[3]) {
            Err(e) => { return Err(e); },
            Ok(x) => x,
        };
        let timestamp = match Timestamp::from_cbor_value(&a[4]) {
            Err(e) => { return Err(e); },
            Ok(x) => x,
        };
        let mac = match value_bytes(&a[5]) {
            Err(e) => { return Err(e); },
            Ok(x) => x,
        };
        Ok(
            HardwareAuthToken {
                challenge,
                user_id,
                authenticator_id,
                authenticator_type,
                timestamp,
                mac,
            },
        )
    }
}

/// What one party contributes to the agreement on a shared HMAC key.
#[derive(Clone, Debug, PartialEq, Eq)]
pub struct SharedSecretParameters {
    pub seed: Vec<u8>,
    pub nonce: Vec<u8>,
}

/// The content of a [`SharedSecretParameters`].
pub ghost struct SharedSecretParametersView {
    pub seed: Seq<u8>,
    pub nonce: Seq<u8>,
}

impl View for SharedSecretParameters {
    type V = SharedSecretParametersView;

    open spec fn view(&self) -> SharedSecretParametersView {
        SharedSecretParametersView {
            seed: self.seed@,
            nonce: self.nonce@,
        }
    }
}

impl SharedSecretParametersView {
    /// The CBOR form: the array of the fields in order.
    pub open spec fn item(self) -> Item {
        Item::Array(
            seq![
                Item::Bytes(self.seed),
                Item::Bytes(self.nonce),
            ],
        )
    }

    /// What [`SharedSecretParameters::from_cbor_value`] makes of an item: an array of exactly
    /// 2 elements, read in order.
    pub open spec fn from_item(item: Item) -> Result<SharedSecretParametersView, CborError> {
        match tuple_of(item, 2) {
            Err(e) => Err(e),
            Ok(a) => match bytes_of(a[0]) {
                Err(e) => Err(e),
                Ok(seed) => match bytes_of(a[1]) {
                    Err(e) => Err(e),
                    Ok(nonce) => Ok(SharedSecretParametersView { seed, nonce }),
                },
            },
        }
    }

    /// How a [`SharedSecretParameters`] is written.
    pub open spec fn encoder() -> spec_fn(SharedSecretParametersView) -> Item {
        |x: SharedSecretParametersView| x.item()
    }

    /// How a [`SharedSecretParameters`] is read.
    pub open spec fn decoder() -> spec_fn(Item) -> Result<SharedSecretParametersView, CborError> {
        |item: Item| SharedSecretParametersView::from_item(item)
    }

    /// Reading the CBOR form gives the value back.
    pub proof fn lemma_round_trip(self)
        ensures
            Self::from_item(self.item()) == Ok::<SharedSecretParametersView, CborError>(self),
    {
        let a = self.item()->Array_0;
        assert(tuple_of(self.item(), 2) == Ok::<Seq<Item>, CborError>(a));
        assert(a[0] == Item::Bytes(self.seed));
        assert(a[1] == Item::Bytes(self.nonce));
    }
}

impl SharedSecretParameters {
    /// A copy of this value.
    pub fn duplicate(&self) -> (r: SharedSecretParameters)
        ensures
            r@ == self@,
    {
        SharedSecretParameters {
            seed: copy_bytes(self.seed.as_slice()),
            nonce: copy_bytes(self.nonce.as_slice()),
        }
    }

    /// Writes this value as the array of its fields.
    pub fn to_cbor_value(&self) -> (r: CborValue)
        ensures
            r@ == self@.item(),
    {
        let mut a: Vec<CborValue> = Vec::new();
        a.push(bytes_value(self.seed.as_slice()));
        a.push(bytes_value(self.nonce.as_slice()));
        assert(items_of(a@) =~= self@.item()->Array_0);
        array_value(a)
    }

    /// Reads a value from the array of its fields.
    pub fn from_cbor_value(v: &CborValue) -> (r: Result<SharedSecretParameters, CborError>)
        ensures
            result_view(r) == SharedSecretParametersView::from_item(v@),
    {
        let a = match value_tuple(v, 2) {
            Err(e) => { return Err(e); },
            Ok(a) => a,
        };
        assert(items_of(a@)[0] == a@[0]@);
        assert(items_of(a@)[1] == a@[1]@);
        let seed = match value_bytes(&a[0]) {
            Err(e) => { return Err(e); },
            Ok(x) => x,
        };
        let nonce = match value_bytes(&a[1]) {
            Err(e) => { return Err(e); },
            Ok(x) => x,
        };
        Ok(SharedSecretParameters { seed, nonce })
    }
}

/// An X.509 certificate, DER-encoded.
#[derive(Clone, Debug, PartialEq, Eq)]
pub struct Certificate {
    pub encoded_certificate: Vec<u8>,
}

/// The content of a [`Certificate`].
pub ghost struct CertificateView {
    pub encoded_certificate: Seq<u8>,
}

impl View for Certificate {
    type V = CertificateView;

    open spec fn view(&self) -> CertificateView {
        CertificateView {
            encoded_certificate: self.encoded_certificate@,
        }
    }
}

impl CertificateView {
    /// The CBOR form: the array of the fields in order.
    pub open spec fn item(self) -> Item {
        Item::Array(
            seq![
                Item::Bytes(self.encoded_certificate),
            ],
        )
    }

    /// What [`Certificate::from_cbor_value`] makes of an item: an array of exactly
    /// 1 element, read in order.
    pub open spec fn from_item(item: Item) -> Result<CertificateView, CborError> {
        match tuple_of(item, 1) {
            Err(e) => Err(e),
            Ok(a) => match bytes_of(a[0]) {
                Err(e) => Err(e),
                Ok(encoded_certificate) => Ok(CertificateView { encoded_certificate }),
            },
        }
    }

    /// How a [`Certificate`] is written.
    pub open spec fn encoder() -> spec_fn(CertificateView) -> Item {
        |x: CertificateView| x.item()
    }

    /// How a [`Certificate`] is read.
    pub open spec fn decoder() -> spec_fn(Item) -> Result<CertificateView, CborError> {
        |item: Item| CertificateView::from_item(item)
    }

    /// Reading the CBOR form gives the value back.
    pub proof fn lemma_round_trip(self)
        ensures
            Self::from_item(self.item()) == Ok::<CertificateView, CborError>(self),
    {
        let a = self.item()->Array_0;
        assert(tuple_of(self.item(), 1) == Ok::<Seq<Item>, CborError>(a));
        assert(a[0] == Item::Bytes(self.encoded_certificate));
    }
}

impl Certificate {
    /// A copy of this value.
    pub fn duplicate(&self) -> (r: Certificate)
        ensures
            r@ == self@,
    {
        Certificate {
            encoded_certificate: copy_bytes(self.encoded_certificate.as_slice()),
        }
    }

    /// Writes this value as the array of its fields.
    pub fn to_cbor_value(&self) -> (r: CborValue)
        ensures
            r@ == self@.item(),
    {
        let mut a: Vec<CborValue> = Vec::new();
        a.push(bytes_value(self.encoded_certificate.as_slice()));
        assert(items_of(a@) =~= self@.item()->Array_0);
        array_value(a)
    }

    /// Reads a value from the array of its fields.
    pub fn from_cbor_value(v: &CborValue) -> (r: Result<Certificate, CborError>)
        ensures
            result_view(r) == CertificateView::from_item(v@),
    {
        let a = match value_tuple(v, 1) {
            Err(e) => { return Err(e); },
            Ok(a) => a,
        };
        assert(items_of(a@)[0] == a@[0]@);
        let encoded_certificate = match value_bytes(&a[0]) {
            Err(e) => { return Err(e); },
            Ok(x) => x,
        };
        Ok(Certificate { encoded_certificate })
    }
}

/// A key that signs the attestation of another key.
#[derive(Clone, Debug, PartialEq, Eq)]
pub struct AttestationKey {
    pub key_blob: Vec<u8>,
    pub attest_key_params: Vec<KeyParam>,
    pub issuer_subject_name: Vec<u8>,
}

/// The content of a [`AttestationKey`].
pub ghost struct AttestationKeyView {
    pub key_blob: Seq<u8>,
    pub attest_key_params: Seq<KeyParamView>,
    pub issuer_subject_name: Seq<u8>,
}

impl View for AttestationKey {
    type V = AttestationKeyView;

    open spec fn view(&self) -> AttestationKeyView {
        AttestationKeyView {
            key_blob: self.key_blob@,
            attest_key_params: views(self.attest_key_params@),
            issuer_subject_name: self.issuer_subject_name@,
        }
    }
}

impl AttestationKeyView {
    /// The CBOR form: the array of the fields in order.
    pub open spec fn item(self) -> Item {
        Item::Array(
            seq![
                Item::Bytes(self.key_blob),
                params_item(self.attest_key_params),
                Item::Bytes(self.issuer_subject_name),
            ],
        )
    }

    /// What [`AttestationKey::from_cbor_value`] makes of an item: an array of exactly
    /// 3 elements, read in order.
    pub open spec fn from_item(item: Item) -> Result<AttestationKeyView, CborError> {
        match tuple_of(item, 3) {
            Err(e) => Err(e),
            Ok(a) => match bytes_of(a[0]) {
                Err(e) => Err(e),
                Ok(key_blob) => match params_from_item(a[1]) {
                    Err(e) => Err(e),
                    Ok(attest_key_params) => match bytes_of(a[2]) {
                        Err(e) => Err(e),
                        Ok(issuer_subject_name) => Ok(
                            AttestationKeyView { key_blob, attest_key_params, issuer_subject_name },
                        ),
                    },
                },
            },
        }
    }

    /// How a [`AttestationKey`] is written.
    pub open spec fn encoder() -> spec_fn(AttestationKeyView) -> Item {
        |x: AttestationKeyView| x.item()
    }

    /// How a [`AttestationKey`] is read.
    pub open spec fn decoder() -> spec_fn(Item) -> Result<AttestationKeyView, CborError> {
        |item: Item| AttestationKeyView::from_item(item)
    }

    /// Reading the CBOR form gives the value back.
    pub proof fn lemma_round_trip(self)
        ensures
            Self::from_item(self.item()) == Ok::<AttestationKeyView, CborError>(self),
    {
        let a = self.item()->Array_0;
        assert(tuple_of(self.item(), 3) == Ok::<Seq<Item>, CborError>(a));
        assert(a[0] == Item::Bytes(self.key_blob));
        assert(a[1] == params_item(self.attest_key_params));
        assert(a[2] == Item::Bytes(self.issuer_subject_name));
        lemma_params_round_trip(self.attest_key_params);
    }
}

impl AttestationKey {
    /// A copy of this value.
    pub fn duplicate(&self) -> (r: AttestationKey)
        ensures
            r@ == self@,
    {
        AttestationKey {
            key_blob: copy_bytes(self.key_blob.as_slice()),
            attest_key_params: duplicate_params(&self.attest_key_params),
            issuer_subject_name: copy_bytes(self.issuer_subject_name.as_slice()),
        }
    }

    /// Writes this value as the array of its fields.
    pub fn to_cbor_value(&self) -> (r: CborValue)
        ensures
            r@ == self@.item(),
    {
        let mut a: Vec<CborValue> = Vec::new();
        a.push(bytes_value(self.key_blob.as_slice()));
        a.push(params_to_cbor_value(&self.attest_key_params));
        a.push(bytes_value(self.issuer_subject_name.as_slice()));
        assert(items_of(a@) =~= self@.item()->Array_0);
        array_value(a)
    }

    /// Reads a value from the array of its fields.
    pub fn from_cbor_value(v: &CborValue) -> (r: Result<AttestationKey, CborError>)
        ensures
            result_view(r) == AttestationKeyView::from_item(v@),
    {
        let a = match value_tuple(v, 3) {
            Err(e) => { return Err(e); },
            Ok(a) => a,
        };
        assert(items_of(a@)[0] == a@[0]@);
        assert(items_of(a@)[1] == a@[1]@);
        assert(items_of(a@)[2] == a@[2]@);
        let key_blob = match value_bytes(&a[0]) {
            Err(e) => { return Err(e); },
            Ok(x) => x,
        };
        let attest_key_params = match params_from_cbor_value(&a[1]) {
            Err(e) => { return Err(e); },
            Ok(x) => x,
        };
        let issuer_subject_name = match value_bytes(&a[2]) {
            Err(e) => { return Err(e); },
            Ok(x) => x,
        };
        Ok(AttestationKey { key_blob, attest_key_params, issuer_subject_name })
    }
}

/// Copies a list of certificate values.
pub fn vec_certificate_duplicate(list: &Vec<Certificate>) -> (r: Vec<Certificate>)
    ensures
        views(r@) == views(list@),
{
    let mut out: Vec<Certificate> = Vec::new();
    let mut i: usize = 0;
    while i < list.len()
        invariant
            i <= list.len(),
            out@.len() == i,
            forall|j: int| 0 <= j < i ==> out@[j]@ == list@[j]@,
        decreases list.len() - i,
    {
        out.push(list[i].duplicate());
        i += 1;
    }
    assert(views(out@) =~= views(list@));
    out
}

/// Writes a list of certificate values as an array.
pub fn vec_certificate_to_cbor_value(list: &Vec<Certificate>) -> (r: CborValue)
    ensures
        r@ == Item::Array(views(list@).map_values(CertificateView::encoder())),
{
    let mut out: Vec<CborValue> = Vec::new();
    let mut i: usize = 0;
    while i < list.len()
        invariant
            i <= list.len(),
            out@.len() == i,
            forall|j: int| 0 <= j < i ==> out@[j]@ == CertificateView::encoder()(list@[j]@),
        decreases list.len() - i,
    {
        out.push(list[i].to_cbor_value());
        i += 1;
    }
    assert(items_of(out@) =~= views(list@).map_values(CertificateView::encoder()));
    array_value(out)
}

/// Reads a list of certificate values from an array, stopping at the
/// first element that cannot be read.
pub fn vec_certificate_from_cbor_value(v: &CborValue) -> (r: Result<Vec<Certificate>, CborError>)
    ensures
        result_views(r) == decode_array(v@, CertificateView::decoder()),
{
    let a = match value_array(v) {
        Err(e) => { return Err(e); },
        Ok(a) => a,
    };
    let ghost items = items_of(a@);
    let mut out: Vec<Certificate> = Vec::new();
    let mut i: usize = 0;
    assert(items.take(0) =~= Seq::<Item>::empty());
    assert(views(out@) =~= Seq::<CertificateView>::empty());
    while i < a.len()
        invariant
            i <= a.len(),
            items == items_of(a@),
            array_of(v@) == Ok::<Seq<Item>, CborError>(items),
            decode_all(items.take(i as int), CertificateView::decoder()) == Ok::<Seq<CertificateView>, CborError>(
                views(out@),
            ),
        decreases a.len() - i,
    {
        proof {
            lemma_decode_all_step(items, CertificateView::decoder(), i as int);
        }
        match Certificate::from_cbor_value(&a[i]) {
            Err(e) => {
                proof {
                    lemma_decode_all_error(items, CertificateView::decoder(), i as int + 1);
                }
                return Err(e);
            },
            Ok(x) => {
                let ghost before = views(out@);
                out.push(x);
                assert(views(out@) =~= before.push(x@));
            },
        }
        i += 1;
    }
    assert(items.take(i as int) =~= items);
    Ok(out)
}

/// What the creation of a key returns to the host.
#[derive(Clone, Debug, PartialEq, Eq)]
pub struct KeyCreationResult {
    pub key_blob: Vec<u8>,
    pub key_characteristics: Vec<KeyCharacteristics>,
    pub certificate_chain: Vec<Certificate>,
}

/// The content of a [`KeyCreationResult`].
pub ghost struct KeyCreationResultView {
    pub key_blob: Seq<u8>,
    pub key_characteristics: Seq<KeyCharacteristicsView>,
    pub certificate_chain: Seq<CertificateView>,
}

impl View for KeyCreationResult {
    type V = KeyCreationResultView;

    open spec fn view(&self) -> KeyCreationResultView {
        KeyCreationResultView {
            key_blob: self.key_blob@,
            key_characteristics: views(self.key_characteristics@),
            certificate_chain: views(self.certificate_chain@),
        }
    }
}

impl KeyCreationResultView {
    /// The CBOR form: the array of the fields in order.
    pub open spec fn item(self) -> Item {
        Item::Array(
            seq![
                Item::Bytes(self.key_blob),
                characteristics_item(self.key_characteristics),
                Item::Array(self.certificate_chain.map_values(CertificateView::encoder())),
            ],
        )
    }

    /// What [`KeyCreationResult::from_cbor_value`] makes of an item: an array of exactly
    /// 3 elements, read in order.
    pub open spec fn from_item(item: Item) -> Result<KeyCreationResultView, CborError> {
        match tuple_of(item, 3) {
            Err(e) => Err(e),
            Ok(a) => match bytes_of(a[0]) {
                Err(e) => Err(e),
                Ok(key_blob) => match characteristics_from_item(a[1]) {
                    Err(e) => Err(e),
                    Ok(key_characteristics) => match decode_array(
                        a[2],
                        CertificateView::decoder(),
                    ) {
                        Err(e) => Err(e),
                        Ok(certificate_chain) => Ok(
                            KeyCreationResultView {
                                key_blob,
                                key_characteristics,
                                certificate_chain,
                            },
                        ),
                    },
                },
            },
        }
    }

    /// How a [`KeyCreationResult`] is written.
    pub open spec fn encoder() -> spec_fn(KeyCreationResultView) -> Item {
        |x: KeyCreationResultView| x.item()
    }

    /// How a [`KeyCreationResult`] is read.
    pub open spec fn decoder() -> spec_fn(Item) -> Result<KeyCreationResultView, CborError> {
        |item: Item| KeyCreationResultView::from_item(item)
    }

    /// Reading the CBOR form gives the value back.
    pub proof fn lemma_round_trip(self)
        ensures
            Self::from_item(self.item()) == Ok::<KeyCreationResultView, CborError>(self),
    {
        let a = self.item()->Array_0;
        assert(tuple_of(self.item(), 3) == Ok::<Seq<Item>, CborError>(a));
        assert(a[0] == Item::Bytes(self.key_blob));
        assert(a[1] == characteristics_item(self.key_characteristics));
        assert(a[2] == Item::Array(self.certificate_chain.map_values(CertificateView::encoder())));
        lemma_characteristics_round_trip(self.key_characteristics);
        assert forall|x: CertificateView| #[trigger] CertificateView::decoder()(CertificateView::encoder()(x)) == Ok::<CertificateView, CborError>(x) by { x.lemma_round_trip(); }
        lemma_decode_all_round_trip(
            self.certificate_chain,
            CertificateView::encoder(),
            CertificateView::decoder(),
        );
    }
}

impl KeyCreationResult {
    /// A copy of this value.
    pub fn duplicate(&self) -> (r: KeyCreationResult)
        ensures
            r@ == self@,
    {
        KeyCreationResult {
            key_blob: copy_bytes(self.key_blob.as_slice()),
            key_characteristics: duplicate_characteristics(&self.key_characteristics),
            certificate_chain: vec_certificate_duplicate(&self.certificate_chain),
        }
    }

    /// Writes this value as the array of its fields.
    pub fn to_cbor_value(&self) -> (r: CborValue)
        ensures
            r@ == self@.item(),
    {
        let mut a: Vec<CborValue> = Vec::new();
        a.push(bytes_value(self.key_blob.as_slice()));
        a.push(characteristics_to_cbor_value(&self.key_characteristics));
        a.push(vec_certificate_to_cbor_value(&self.certificate_chain));
        assert(items_of(a@) =~= self@.item()->Array_0);
        array_value(a)
    }

    /// Reads a value from the array of its fields.
    pub fn from_cbor_value(v: &CborValue) -> (r: Result<KeyCreationResult, CborError>)
        ensures
            result_view(r) == KeyCreationResultView::from_item(v@),
    {
        let a = match value_tuple(v, 3) {
            Err(e) => { return Err(e); },
            Ok(a) => a,
        };
        assert(items_of(a@)[0] == a@[0]@);
        assert(items_of(a@)[1] == a@[1]@);
        assert(items_of(a@)[2] == a@[2]@);
        let key_blob = match value_bytes(&a[0]) {
            Err(e) => { return Err(e); },
            Ok(x) => x,
        };
        let key_characteristics = match characteristics_from_cbor_value(&a[1]) {
            Err(e) => { return Err(e); },
            Ok(x) => x,
        };
        let certificate_chain = match vec_certificate_from_cbor_value(&a[2]) {
            Err(e) => { return Err(e); },
            Ok(x) => x,
        };
        Ok(KeyCreationResult { key_blob, key_characteristics, certificate_chain })
    }
}

/// Description of this KeyMint implementation.
#[derive(Clone, Debug, PartialEq, Eq)]
pub struct KeyMintHardwareInfo {
    pub version_number: i32,
    pub security_level: SecurityLevel,
    pub key_mint_name: String,
    pub key_mint_author_name: String,
    pub timestamp_token_required: bool,
}

/// The content of a [`KeyMintHardwareInfo`].
pub ghost struct KeyMintHardwareInfoView {
    pub version_number: i32,
    pub security_level: SecurityLevel,
    pub key_mint_name: Seq<char>,
    pub key_mint_author_name: Seq<char>,
    pub timestamp_token_required: bool,
}

impl View for KeyMintHardwareInfo {
    type V = KeyMintHardwareInfoView;

    open spec fn view(&self) -> KeyMintHardwareInfoView {
        KeyMintHardwareInfoView {
            version_number: self.version_number,
            security_level: self.security_level,
            key_mint_name: self.key_mint_name@,
            key_mint_author_name: self.key_mint_author_name@,
            timestamp_token_required: self.timestamp_token_required,
        }
    }
}

impl KeyMintHardwareInfoView {
    /// The CBOR form: the array of the fields in order.
    pub open spec fn item(self) -> Item {
        Item::Array(
            seq![
                Item::Integer(self.version_number as int),
                Item::Integer(self.security_level.code()),
                Item::Text(self.key_mint_name),
                Item::Text(self.key_mint_author_name),
                Item::Bool(self.timestamp_token_required),
            ],
        )
    }

    /// What [`KeyMintHardwareInfo::from_cbor_value`] makes of an item: an array of exactly
    /// 5 elements, read in order.
    pub open spec fn from_item(item: Item) -> Result<KeyMintHardwareInfoView, CborError> {
        match tuple_of(item, 5) {
            Err(e) => Err(e),
            Ok(a) => match i32_of(a[0]) {
                Err(e) => Err(e),
                Ok(version_number) => match SecurityLevel::from_item(a[1]) {
                    Err(e) => Err(e),
                    Ok(security_level) => match text_of(a[2]) {
                        Err(e) => Err(e),
                        Ok(key_mint_name) => match text_of(a[3]) {
                            Err(e) => Err(e),
                            Ok(key_mint_author_name) => match bool_of(a[4]) {
                                Err(e) => Err(e),
                                Ok(timestamp_token_required) => Ok(
                                    KeyMintHardwareInfoView {
                                        version_number,
                                        security_level,
                                        key_mint_name,
                                        key_mint_author_name,
                                        timestamp_token_required,
                                    },
                                ),
                            },
                        },
                    },
                },
            },
        }
    }

    /// How a [`KeyMintHardwareInfo`] is written.
    pub open spec fn encoder() -> spec_fn(KeyMintHardwareInfoView) -> Item {
        |x: KeyMintHardwareInfoView| x.item()
    }

    /// How a [`KeyMintHardwareInfo`] is read.
    pub open spec fn decoder() -> spec_fn(Item) -> Result<KeyMintHardwareInfoView, CborError> {
        |item: Item| KeyMintHardwareInfoView::from_item(item)
    }

    /// Reading the CBOR form gives the value back.
    pub proof fn lemma_round_trip(self)
        ensures
            Self::from_item(self.item()) == Ok::<KeyMintHardwareInfoView, CborError>(self),
    {
        let a = self.item()->Array_0;
        assert(tuple_of(self.item(), 5) == Ok::<Seq<Item>, CborError>(a));
        assert(a[0] == Item::Integer(self.version_number as int));
        assert(a[1] == Item::Integer(self.security_level.code()));
        assert(a[2] == Item::Text(self.key_mint_name));
        assert(a[3] == Item::Text(self.key_mint_author_name));
        assert(a[4] == Item::Bool(self.timestamp_token_required));
        self.security_level.lemma_round_trip();
    }
}

impl KeyMintHardwareInfo {
    /// A copy of this value.
    pub fn duplicate(&self) -> (r: KeyMintHardwareInfo)
        ensures
            r@ == self@,
    {
        KeyMintHardwareInfo {
            version_number: self.version_number,
            security_level: self.security_level,
            key_mint_name: self.key_mint_name.clone(),
            key_mint_author_name: self.key_mint_author_name.clone(),
            timestamp_token_required: self.timestamp_token_required,
        }
    }

    /// Writes this value as the array of its fields.
    pub fn to_cbor_value(&self) -> (r: CborValue)
        ensures
            r@ == self@.item(),
    {
        let mut a: Vec<CborValue> = Vec::new();
        a.push(CborValue::Integer(self.version_number as i128));
        a.push(self.security_level.to_cbor_value());
        a.push(text_value(&self.key_mint_name));
        a.push(text_value(&self.key_mint_author_name));
        a.push(CborValue::Bool(self.timestamp_token_required));
        assert(items_of(a@) =~= self@.item()->Array_0);
        array_value(a)
    }

    /// Reads a value from the array of its fields.
    pub fn from_cbor_value(v: &CborValue) -> (r: Result<KeyMintHardwareInfo, CborError>)
        ensures
            result_view(r) == KeyMintHardwareInfoView::from_item(v@),
    {
        let a = match value_tuple(v, 5) {
            Err(e) => { return Err(e); },
            Ok(a) => a,
        };
        assert(items_of(a@)[0] == a@[0]@);
        assert(items_of(a@)[1] == a@[1]@);
        assert(items_of(a@)[2] == a@[2]@);
        assert(items_of(a@)[3] == a@[3]@);
        assert(items_of(a@)[4] == a@[4]@);
        let version_number = match value_i32(&a[0]) {
            Err(e) => { return Err(e); },
            Ok(x) => x,
        };
        let security_level = match SecurityLevel::from_cbor_value(&a[1]) {
            Err(e) => { return Err(e); },
            Ok(x) => x,
        };
        let key_mint_name = match value_text(&a[2]) {
            Err(e) => { return Err(e); },
            Ok(x) => x,
        };
        let key_mint_author_name = match value_text(&a[3]) {
            Err(e) => { return Err(e); },
            Ok(x) => x,
        };
        let timestamp_token_required = match value_bool(&a[4]) {
            Err(e) => { return Err(e); },
            Ok(x) => x,
        };
        Ok(
            KeyMintHardwareInfo {
                version_number,
                security_level,
                key_mint_name,
                key_mint_author_name,
                timestamp_token_required,
            },
        )
    }
}

/// What the start of an operation returns to the host.
#[derive(Clone, Debug, PartialEq, Eq)]
pub struct InternalBeginResult {
    pub challenge: i64,
    pub params: Vec<KeyParam>,
    pub op_handle: i64,
}

/// The content of a [`InternalBeginResult`].
pub ghost struct InternalBeginResultView {
    pub challenge: i64,
    pub params: Seq<KeyParamView>,
    pub op_handle: i64,
}

impl View for InternalBeginResult {
    type V = InternalBeginResultView;

    open spec fn view(&self) -> InternalBeginResultView {
        InternalBeginResultView {
            challenge: self.challenge,
            params: views(self.params@),
            op_handle: self.op_handle,
        }
    }
}

impl InternalBeginResultView {
    /// The CBOR form: the array of the fields in order.
    pub open spec fn item(self) -> Item {
        Item::Array(
            seq![
                Item::Integer(self.challenge as int),
                params_item(self.params),
                Item::Integer(self.op_handle as int),
            ],
        )
    }

    /// What [`InternalBeginResult::from_cbor_value`] makes of an item: an array of exactly
    /// 3 elements, read in order.
    pub open spec fn from_item(item: Item) -> Result<InternalBeginResultView, CborError> {
        match tuple_of(item, 3) {
            Err(e) => Err(e),
            Ok(a) => match i64_of(a[0]) {
                Err(e) => Err(e),
                Ok(challenge) => match params_from_item(a[1]) {
                    Err(e) => Err(e),
                    Ok(params) => match i64_of(a[2]) {
                        Err(e) => Err(e),
                        Ok(op_handle) => Ok(
                            InternalBeginResultView { challenge, params, op_handle },
                        ),
                    },
                },
            },
        }
    }

    /// How a [`InternalBeginResult`] is written.
    pub open spec fn encoder() -> spec_fn(InternalBeginResultView) -> Item {
        |x: InternalBeginResultView| x.item()
    }

    /// How a [`InternalBeginResult`] is read.
    pub open spec fn decoder() -> spec_fn(Item) -> Result<InternalBeginResultView, CborError> {
        |item: Item| InternalBeginResultView::from_item(item)
    }

    /// Reading the CBOR form gives the value back.
    pub proof fn lemma_round_trip(self)
        ensures
            Self::from_item(self.item()) == Ok::<InternalBeginResultView, CborError>(self),
    {
        let a = self.item()->Array_0;
        assert(tuple_of(self.item(), 3) == Ok::<Seq<Item>, CborError>(a));
        assert(a[0] == Item::Integer(self.challenge as int));
        assert(a[1] == params_item(self.params));
        assert(a[2] == Item::Integer(self.op_handle as int));
        lemma_params_round_trip(self.params);
    }
}

impl InternalBeginResult {
    /// A copy of this value.
    pub fn duplicate(&self) -> (r: InternalBeginResult)
        ensures
            r@ == self@,
    {
        InternalBeginResult {
            challenge: self.challenge,
            params: duplicate_params(&self.params),
            op_handle: self.op_handle,
        }
    }

    /// Writes this value as the array of its fields.
    pub fn to_cbor_value(&self) -> (r: CborValue)
        ensures
            r@ == self@.item(),
    {
        let mut a: Vec<CborValue> = Vec::new();
        a.push(CborValue::Integer(self.challenge as i128));
        a.push(params_to_cbor_value(&self.params));
        a.push(CborValue::Integer(self.op_handle as i128));
        assert(items_of(a@) =~= self@.item()->Array_0);
        array_value(a)
    }

    /// Reads a value from the array of its fields.
    pub fn from_cbor_value(v: &CborValue) -> (r: Result<InternalBeginResult, CborError>)
        ensures
            result_view(r) == InternalBeginResultView::from_item(v@),
    {
        let a = match value_tuple(v, 3) {
            Err(e) => { return Err(e); },
            Ok(a) => a,
        };
        assert(items_of(a@)[0] == a@[0]@);
        assert(items_of(a@)[1] == a@[1]@);
        assert(items_of(a@)[2] == a@[2]@);
        let challenge = match value_i64(&a[0]) {
            Err(e) => { return Err(e); },
            Ok(x) => x,
        };
        let params = match params_from_cbor_value(&a[1]) {
            Err(e) => { return Err(e); },
            Ok(x) => x,
        };
        let op_handle = match value_i64(&a[2]) {
            Err(e) => { return Err(e); },
            Ok(x) => x,
        };
        Ok(InternalBeginResult { challenge, params, op_handle })
    }
}

/// The identifiers of the device that an attestation may include.
#[derive(Clone, Debug, PartialEq, Eq)]
pub struct AttestationIdInfo {
    pub brand: Vec<u8>,
    pub device: Vec<u8>,
    pub product: Vec<u8>,
    pub serial: Vec<u8>,
    pub imei: Vec<u8>,
    pub imei2: Vec<u8>,
    pub meid: Vec<u8>,
    pub manufacturer: Vec<u8>,
    pub model: Vec<u8>,
}

/// The content of a [`AttestationIdInfo`].
pub ghost struct AttestationIdInfoView {
    pub brand: Seq<u8>,
    pub device: Seq<u8>,
    pub product: Seq<u8>,
    pub serial: Seq<u8>,
    pub imei: Seq<u8>,
    pub imei2: Seq<u8>,
    pub meid: Seq<u8>,
    pub manufacturer: Seq<u8>,
    pub model: Seq<u8>,
}

impl View for AttestationIdInfo {
    type V = AttestationIdInfoView;

    open spec fn view(&self) -> AttestationIdInfoView {
        AttestationIdInfoView {
            brand: self.brand@,
            device: self.device@,
            product: self.product@,
            serial: self.serial@,
            imei: self.imei@,
            imei2: self.imei2@,
            meid: self.meid@,
            manufacturer: self.manufacturer@,
            model: self.model@,
        }
    }
}

impl AttestationIdInfoView {
    /// The CBOR form: the array of the fields in order.
    pub open spec fn item(self) -> Item {
        Item::Array(
            seq![
                Item::Bytes(self.brand),
                Item::Bytes(self.device),
                Item::Bytes(self.product),
                Item::Bytes(self.serial),
                Item::Bytes(self.imei),
                Item::Bytes(self.imei2),
                Item::Bytes(self.meid),
                Item::Bytes(self.manufacturer),
                Item::Bytes(self.model),
            ],
        )
    }

    /// What [`AttestationIdInfo::from_cbor_value`] makes of an item: an array of exactly
    /// 9 elements, read in order.
    pub open spec fn from_item(item: Item) -> Result<AttestationIdInfoView, CborError> {
        match tuple_of(item, 9) {
            Err(e) => Err(e),
            Ok(a) => match bytes_of(a[0]) {
                Err(e) => Err(e),
                Ok(brand) => match bytes_of(a[1]) {
                    Err(e) => Err(e),
                    Ok(device) => match bytes_of(a[2]) {
                        Err(e) => Err(e),
                        Ok(product) => match bytes_of(a[3]) {
                            Err(e) => Err(e),
                            Ok(serial) => match bytes_of(a[4]) {
                                Err(e) => Err(e),
                                Ok(imei) => match bytes_of(a[5]) {
                                    Err(e) => Err(e),
                                    Ok(imei2) => match bytes_of(a[6]) {
                                        Err(e) => Err(e),
                                        Ok(meid) => match bytes_of(a[7]) {
                                            Err(e) => Err(e),
                                            Ok(manufacturer) => match bytes_of(a[8]) {
                                                Err(e) => Err(e),
                                                Ok(model) => Ok(
                                                    AttestationIdInfoView {
                                                        brand,
                                                        device,
                                                        product,
                                                        serial,
                                                        imei,
                                                        imei2,
                                                        meid,
                                                        manufacturer,
                                                        model,
                                                    },
                                                ),
                                            },
                                        },
                                    },
                                },
                            },
                        },
                    },
                },
            },
        }
    }

    /// How a [`AttestationIdInfo`] is written.
    pub open spec fn encoder() -> spec_fn(AttestationIdInfoView) -> Item {
        |x: AttestationIdInfoView| x.item()
    }

    /// How a [`AttestationIdInfo`] is read.
    pub open spec fn decoder() -> spec_fn(Item) -> Result<AttestationIdInfoView, CborError> {
        |item: Item| AttestationIdInfoView::from_item(item)
    }

    /// Reading the CBOR form gives the value back.
    pub proof fn lemma_round_trip(self)
        ensures
            Self::from_item(self.item()) == Ok::<AttestationIdInfoView, CborError>(self),
    {
        let a = self.item()->Array_0;
        assert(tuple_of(self.item(), 9) == Ok::<Seq<Item>, CborError>(a));
        assert(a[0] == Item::Bytes(self.brand));
        assert(a[1] == Item::Bytes(self.device));
        assert(a[2] == Item::Bytes(self.product));
        assert(a[3] == Item::Bytes(self.serial));
        assert(a[4] == Item::Bytes(self.imei));
        assert(a[5] == Item::Bytes(self.imei2));
        assert(a[6] == Item::Bytes(self.meid));
        assert(a[7] == Item::Bytes(self.manufacturer));
        assert(a[8] == Item::Bytes(self.model));
    }
}

impl AttestationIdInfo {
    /// A copy of this value.
    pub fn duplicate(&self) -> (r: AttestationIdInfo)
        ensures
            r@ == self@,
    {
        AttestationIdInfo {
            brand: copy_bytes(self.brand.as_slice()),
            device: copy_bytes(self.device.as_slice()),
            product: copy_bytes(self.product.as_slice()),
            serial: copy_bytes(self.serial.as_slice()),
            imei: copy_bytes(self.imei.as_slice()),
            imei2: copy_bytes(self.imei2.as_slice()),
            meid: copy_bytes(self.meid.as_slice()),
            manufacturer: copy_bytes(self.manufacturer.as_slice()),
            model: copy_bytes(self.model.as_slice()),
        }
    }

    /// Writes this value as the array of its fields.
    pub fn to_cbor_value(&self) -> (r: CborValue)
        ensures
            r@ == self@.item(),
    {
        let mut a: Vec<CborValue> = Vec::new();
        a.push(bytes_value(self.brand.as_slice()));
        a.push(bytes_value(self.device.as_slice()));
        a.push(bytes_value(self.product.as_slice()));
        a.push(bytes_value(self.serial.as_slice()));
        a.push(bytes_value(self.imei.as_slice()));
        a.push(bytes_value(self.imei2.as_slice()));
        a.push(bytes_value(self.meid.as_slice()));
        a.push(bytes_value(self.manufacturer.as_slice()));
        a.push(bytes_value(self.model.as_slice()));
        assert(items_of(a@) =~= self@.item()->Array_0);
        array_value(a)
    }

    /// Reads a value from the array of its fields.
    pub fn from_cbor_value(v: &CborValue) -> (r: Result<AttestationIdInfo, CborError>)
        ensures
            result_view(r) == AttestationIdInfoView::from_item(v@),
    {
        let a = match value_tuple(v, 9) {
            Err(e) => { return Err(e); },
            Ok(a) => a,
        };
        assert(items_of(a@)[0] == a@[0]@);
        assert(items_of(a@)[1] == a@[1]@);
        assert(items_of(a@)[2] == a@[2]@);
        assert(items_of(a@)[3] == a@[3]@);
        assert(items_of(a@)[4] == a@[4]@);
        assert(items_of(a@)[5] == a@[5]@);
        assert(items_of(a@)[6] == a@[6]@);
        assert(items_of(a@)[7] == a@[7]@);
        assert(items_of(a@)[8] == a@[8]@);
        let brand = match value_bytes(&a[0]) {
            Err(e) => { return Err(e); },
            Ok(x) => x,
        };
        let device = match value_bytes(&a[1]) {
            Err(e) => { return Err(e); },
            Ok(x) => x,
        };
        let product = match value_bytes(&a[2]) {
            Err(e) => { return Err(e); },
            Ok(x) => x,
        };
        let serial = match value_bytes(&a[3]) {
            Err(e) => { return Err(e); },
            Ok(x) => x,
        };
        let imei = match value_bytes(&a[4]) {
            Err(e) => { return Err(e); },
            Ok(x) => x,
        };
        let imei2 = match value_bytes(&a[5]) {
            Err(e) => { return Err(e); },
            Ok(x) => x,
        };
        let meid = match value_bytes(&a[6]) {
            Err(e) => { return Err(e); },
            Ok(x) => x,
        };
        let manufacturer = match value_bytes(&a[7]) {
            Err(e) => { return Err(e); },
            Ok(x) => x,
        };
        let model = match value_bytes(&a[8]) {
            Err(e) => { return Err(e); },
            Ok(x) => x,
        };
        Ok(
            AttestationIdInfo {
                brand,
                device,
                product,
                serial,
                imei,
                imei2,
                meid,
                manufacturer,
                model,
            },
        )
    }
}

/// Writes an optional text as an array of at most one element.
pub fn opt_text_to_cbor_value(o: &Option<String>) -> (r: CborValue)
    ensures
        r@ == option_item(
            match o {
                None => None,
                Some(x) => Some(Item::Text(x@)),
            },
        ),
{
    let mut a: Vec<CborValue> = Vec::new();
    match o {
        None => {
            assert(items_of(a@) =~= Seq::<Item>::empty());
        },
        Some(x) => {
            a.push(text_value(&x));
            assert(items_of(a@) =~= seq![Item::Text(x@)]);
        },
    }
    array_value(a)
}

/// Reads an optional text from an array of at most one element.
pub fn opt_text_from_cbor_value(v: &CborValue) -> (r: Result<Option<String>, CborError>)
    ensures
        result_option_view(r) == decode_option(v@, text_decoder()),
{
    let a = match value_array(v) {
        Err(e) => { return Err(e); },
        Ok(a) => a,
    };
    if a.len() == 0 {
        Ok(None)
    } else if a.len() == 1 {
        assert(items_of(a@)[0] == a@[0]@);
        match value_text(&a[0]) {
            Err(e) => Err(e),
            Ok(x) => Ok(Some(x)),
        }
    } else {
        Err(CborError::UnexpectedItem)
    }
}

/// Description of the remote provisioning that the device supports.
#[derive(Clone, Debug, PartialEq, Eq)]
pub struct RpcHardwareInfo {
    pub version_number: i32,
    pub rpc_author_name: String,
    pub supported_eek_curve: EekCurve,
    pub unique_id: Option<String>,
    pub supported_num_keys_in_csr: i32,
}

/// The content of a [`RpcHardwareInfo`].
pub ghost struct RpcHardwareInfoView {
    pub version_number: i32,
    pub rpc_author_name: Seq<char>,
    pub supported_eek_curve: EekCurve,
    pub unique_id: Option<Seq<char>>,
    pub supported_num_keys_in_csr: i32,
}

impl View for RpcHardwareInfo {
    type V = RpcHardwareInfoView;

    open spec fn view(&self) -> RpcHardwareInfoView {
        RpcHardwareInfoView {
            version_number: self.version_number,
            rpc_author_name: self.rpc_author_name@,
            supported_eek_curve: self.supported_eek_curve,
            unique_id: option_view(self.unique_id),
            supported_num_keys_in_csr: self.supported_num_keys_in_csr,
        }
    }
}

impl RpcHardwareInfoView {
    /// The CBOR form: the array of the fields in order.
    pub open spec fn item(self) -> Item {
        Item::Array(
            seq![
                Item::Integer(self.version_number as int),
                Item::Text(self.rpc_author_name),
                Item::Integer(self.supported_eek_curve.code()),
                option_item(
            match self.unique_id {
                None => None,
                Some(x) => Some(Item::Text(x)),
            },
        ),
                Item::Integer(self.supported_num_keys_in_csr as int),
            ],
        )
    }

    /// What [`RpcHardwareInfo::from_cbor_value`] makes of an item: an array of exactly
    /// 5 elements, read in order.
    pub open spec fn from_item(item: Item) -> Result<RpcHardwareInfoView, CborError> {
        match tuple_of(item, 5) {
            Err(e) => Err(e),
            Ok(a) => match i32_of(a[0]) {
                Err(e) => Err(e),
                Ok(version_number) => match text_of(a[1]) {
                    Err(e) => Err(e),
                    Ok(rpc_author_name) => match EekCurve::from_item(a[2]) {
                        Err(e) => Err(e),
                        Ok(supported_eek_curve) => match decode_option(a[3], text_decoder()) {
                            Err(e) => Err(e),
                            Ok(unique_id) => match i32_of(a[4]) {
                                Err(e) => Err(e),
                                Ok(supported_num_keys_in_csr) => Ok(
                                    RpcHardwareInfoView {
                                        version_number,
                                        rpc_author_name,
                                        supported_eek_curve,
                                        unique_id,
                                        supported_num_keys_in_csr,
                                    },
                                ),
                            },
                        },
                    },
                },
            },
        }
    }

    /// How a [`RpcHardwareInfo`] is written.
    pub open spec fn encoder() -> spec_fn(RpcHardwareInfoView) -> Item {
        |x: RpcHardwareInfoView| x.item()
    }

    /// How a [`RpcHardwareInfo`] is read.
    pub open spec fn decoder() -> spec_fn(Item) -> Result<RpcHardwareInfoView, CborError> {
        |item: Item| RpcHardwareInfoView::from_item(item)
    }

    /// Reading the CBOR form gives the value back.
    pub proof fn lemma_round_trip(self)
        ensures
            Self::from_item(self.item()) == Ok::<RpcHardwareInfoView, CborError>(self),
    {
        let a = self.item()->Array_0;
        assert(tuple_of(self.item(), 5) == Ok::<Seq<Item>, CborError>(a));
        assert(a[0] == Item::Integer(self.version_number as int));
        assert(a[1] == Item::Text(self.rpc_author_name));
        assert(a[2] == Item::Integer(self.supported_eek_curve.code()));
        assert(a[3] == option_item(
            match self.unique_id {
                None => None,
                Some(x) => Some(Item::Text(x)),
            },
        ));
        assert(a[4] == Item::Integer(self.supported_num_keys_in_csr as int));
        self.supported_eek_curve.lemma_round_trip();
        match self.unique_id { Some(x) => {  }, None => {}, }
        lemma_decode_option_round_trip(self.unique_id, text_encoder(), text_decoder());
    }
}

impl RpcHardwareInfo {
    /// A copy of this value.
    pub fn duplicate(&self) -> (r: RpcHardwareInfo)
        ensures
            r@ == self@,
    {
        RpcHardwareInfo {
            version_number: self.version_number,
            rpc_author_name: self.rpc_author_name.clone(),
            supported_eek_curve: self.supported_eek_curve,
            unique_id: match &self.unique_id {
                None => None,
                Some(x) => Some(x.clone()),
            },
            supported_num_keys_in_csr: self.supported_num_keys_in_csr,
        }
    }

    /// Writes this value as the array of its fields.
    pub fn to_cbor_value(&self) -> (r: CborValue)
        ensures
            r@ == self@.item(),
    {
        let mut a: Vec<CborValue> = Vec::new();
        a.push(CborValue::Integer(self.version_number as i128));
        a.push(text_value(&self.rpc_author_name));
        a.push(self.supported_eek_curve.to_cbor_value());
        a.push(opt_text_to_cbor_value(&self.unique_id));
        a.push(CborValue::Integer(self.supported_num_keys_in_csr as i128));
        assert(items_of(a@) =~= self@.item()->Array_0);
        array_value(a)
    }

    /// Reads a value from the array of its fields.
    pub fn from_cbor_value(v: &CborValue) -> (r: Result<RpcHardwareInfo, CborError>)
        ensures
            result_view(r) == RpcHardwareInfoView::from_item(v@),
    {
        let a = match value_tuple(v, 5) {
            Err(e) => { return Err(e); },
            Ok(a) => a,
        };
        assert(items_of(a@)[0] == a@[0]@);
        assert(items_of(a@)[1] == a@[1]@);
        assert(items_of(a@)[2] == a@[2]@);
        assert(items_of(a@)[3] == a@[3]@);
        assert(items_of(a@)[4] == a@[4]@);
        let version_number = match value_i32(&a[0]) {
            Err(e) => { return Err(e); },
            Ok(x) => x,
        };
        let rpc_author_name = match value_text(&a[1]) {
            Err(e) => { return Err(e); },
            Ok(x) => x,
        };
        let supported_eek_curve = match EekCurve::from_cbor_value(&a[2]) {
            Err(e) => { return Err(e); },
            Ok(x) => x,
        };
        let unique_id = match opt_text_from_cbor_value(&a[3]) {
            Err(e) => { return Err(e); },
            Ok(x) => x,
        };
        let supported_num_keys_in_csr = match value_i32(&a[4]) {
            Err(e) => { return Err(e); },
            Ok(x) => x,
        };
        Ok(
            RpcHardwareInfo {
                version_number,
                rpc_author_name,
                supported_eek_curve,
                unique_id,
                supported_num_keys_in_csr,
            },
        )
    }
}

/// A public key with a MAC over it, as a `COSE_Mac0`.
#[derive(Clone, Debug, PartialEq, Eq)]
pub struct MacedPublicKey {
    pub maced_key: Vec<u8>,
}

/// The content of a [`MacedPublicKey`].
pub ghost struct MacedPublicKeyView {
    pub maced_key: Seq<u8>,
}

impl View for MacedPublicKey {
    type V = MacedPublicKeyView;

    open spec fn view(&self) -> MacedPublicKeyView {
        MacedPublicKeyView {
            maced_key: self.maced_key@,
        }
    }
}

impl MacedPublicKeyView {
    /// The CBOR form: the array of the fields in order.
    pub open spec fn item(self) -> Item {
        Item::Array(
            seq![
                Item::Bytes(self.maced_key),
            ],
        )
    }

    /// What [`MacedPublicKey::from_cbor_value`] makes of an item: an array of exactly
    /// 1 element, read in order.
    pub open spec fn from_item(item: Item) -> Result<MacedPublicKeyView, CborError> {
        match tuple_of(item, 1) {
            Err(e) => Err(e),
            Ok(a) => match bytes_of(a[0]) {
                Err(e) => Err(e),
                Ok(maced_key) => Ok(MacedPublicKeyView { maced_key }),
            },
        }
    }

    /// How a [`MacedPublicKey`] is written.
    pub open spec fn encoder() -> spec_fn(MacedPublicKeyView) -> Item {
        |x: MacedPublicKeyView| x.item()
    }

    /// How a [`MacedPublicKey`] is read.
    pub open spec fn decoder() -> spec_fn(Item) -> Result<MacedPublicKeyView, CborError> {
        |item: Item| MacedPublicKeyView::from_item(item)
    }

    /// Reading the CBOR form gives the value back.
    pub proof fn lemma_round_trip(self)
        ensures
            Self::from_item(self.item()) == Ok::<MacedPublicKeyView, CborError>(self),
    {
        let a = self.item()->Array_0;
        assert(tuple_of(self.item(), 1) == Ok::<Seq<Item>, CborError>(a));
        assert(a[0] == Item::Bytes(self.maced_key));
    }
}

impl MacedPublicKey {
    /// A copy of this value.
    pub fn duplicate(&self) -> (r: MacedPublicKey)
        ensures
            r@ == self@,
    {
        MacedPublicKey {
            maced_key: copy_bytes(self.maced_key.as_slice()),
        }
    }

    /// Writes this value as the array of its fields.
    pub fn to_cbor_value(&self) -> (r: CborValue)
        ensures
            r@ == self@.item(),
    {
        let mut a: Vec<CborValue> = Vec::new();
        a.push(bytes_value(self.maced_key.as_slice()));
        assert(items_of(a@) =~= self@.item()->Array_0);
        array_value(a)
    }

    /// Reads a value from the array of its fields.
    pub fn from_cbor_value(v: &CborValue) -> (r: Result<MacedPublicKey, CborError>)
        ensures
            result_view(r) == MacedPublicKeyView::from_item(v@),
    {
        let a = match value_tuple(v, 1) {
            Err(e) => { return Err(e); },
            Ok(a) => a,
        };
        assert(items_of(a@)[0] == a@[0]@);
        let maced_key = match value_bytes(&a[0]) {
            Err(e) => { return Err(e); },
            Ok(x) => x,
        };
        Ok(MacedPublicKey { maced_key })
    }
}

/// Description of the device for remote provisioning, as CBOR.
#[derive(Clone, Debug, PartialEq, Eq)]
pub struct DeviceInfo {
    pub device_info: Vec<u8>,
}

/// The content of a [`DeviceInfo`].
pub ghost struct DeviceInfoView {
    pub device_info: Seq<u8>,
}

impl View for DeviceInfo {
    type V = DeviceInfoView;

    open spec fn view(&self) -> DeviceInfoView {
        DeviceInfoView {
            device_info: self.device_info@,
        }
    }
}

impl DeviceInfoView {
    /// The CBOR form: the array of the fields in order.
    pub open spec fn item(self) -> Item {
        Item::Array(
            seq![
                Item::Bytes(self.device_info),
            ],
        )
    }

    /// What [`DeviceInfo::from_cbor_value`] makes of an item: an array of exactly
    /// 1 element, read in order.
    pub open spec fn from_item(item: Item) -> Result<DeviceInfoView, CborError> {
        match tuple_of(item, 1) {
            Err(e) => Err(e),
            Ok(a) => match bytes_of(a[0]) {
                Err(e) => Err(e),
                Ok(device_info) => Ok(DeviceInfoView { device_info }),
            },
        }
    }

    /// How a [`DeviceInfo`] is written.
    pub open spec fn encoder() -> spec_fn(DeviceInfoView) -> Item {
        |x: DeviceInfoView| x.item()
    }

    /// How a [`DeviceInfo`] is read.
    pub open spec fn decoder() -> spec_fn(Item) -> Result<DeviceInfoView, CborError> {
        |item: Item| DeviceInfoView::from_item(item)
    }

    /// Reading the CBOR form gives the value back.
    pub proof fn lemma_round_trip(self)
        ensures
            Self::from_item(self.item()) == Ok::<DeviceInfoView, CborError>(self),
    {
        let a = self.item()->Array_0;
        assert(tuple_of(self.item(), 1) == Ok::<Seq<Item>, CborError>(a));
        assert(a[0] == Item::Bytes(self.device_info));
    }
}

impl DeviceInfo {
    /// A copy of this value.
    pub fn duplicate(&self) -> (r: DeviceInfo)
        ensures
            r@ == self@,
    {
        DeviceInfo {
            device_info: copy_bytes(self.device_info.as_slice()),
        }
    }

    /// Writes this value as the array of its fields.
    pub fn to_cbor_value(&self) -> (r: CborValue)
        ensures
            r@ == self@.item(),
    {
        let mut a: Vec<CborValue> = Vec::new();
        a.push(bytes_value(self.device_info.as_slice()));
        assert(items_of(a@) =~= self@.item()->Array_0);
        array_value(a)
    }

    /// Reads a value from the array of its fields.
    pub fn from_cbor_value(v: &CborValue) -> (r: Result<DeviceInfo, CborError>)
        ensures
            result_view(r) == DeviceInfoView::from_item(v@),
    {
        let a = match value_tuple(v, 1) {
            Err(e) => { return Err(e); },
            Ok(a) => a,
        };
        assert(items_of(a@)[0] == a@[0]@);
        let device_info = match value_bytes(&a[0]) {
            Err(e) => { return Err(e); },
            Ok(x) => x,
        };
        Ok(DeviceInfo { device_info })
    }
}

/// Data encrypted to the provisioning server, as a `COSE_Encrypt`.
#[derive(Clone, Debug, PartialEq, Eq)]
pub struct ProtectedData {
    pub protected_data: Vec<u8>,
}

/// The content of a [`ProtectedData`].
pub ghost struct ProtectedDataView {
    pub protected_data: Seq<u8>,
}

impl View for ProtectedData {
    type V = ProtectedDataView;

    open spec fn view(&self) -> ProtectedDataView {
        ProtectedDataView {
            protected_data: self.protected_data@,
        }
    }
}

impl ProtectedDataView {
    /// The CBOR form: the array of the fields in order.
    pub open spec fn item(self) -> Item {
        Item::Array(
            seq![
                Item::Bytes(self.protected_data),
            ],
        )
    }

    /// What [`ProtectedData::from_cbor_value`] makes of an item: an array of exactly
    /// 1 element, read in order.
    pub open spec fn from_item(item: Item) -> Result<ProtectedDataView, CborError> {
        match tuple_of(item, 1) {
            Err(e) => Err(e),
            Ok(a) => match bytes_of(a[0]) {
                Err(e) => Err(e),
                Ok(protected_data) => Ok(ProtectedDataView { protected_data }),
            },
        }
    }

    /// How a [`ProtectedData`] is written.
    pub open spec fn encoder() -> spec_fn(ProtectedDataView) -> Item {
        |x: ProtectedDataView| x.item()
    }

    /// How a [`ProtectedData`] is read.
    pub open spec fn decoder() -> spec_fn(Item) -> Result<ProtectedDataView, CborError> {
        |item: Item| ProtectedDataView::from_item(item)
    }

    /// Reading the CBOR form gives the value back.
    pub proof fn lemma_round_trip(self)
        ensures
            Self::from_item(self.item()) == Ok::<ProtectedDataView, CborError>(self),
    {
        let a = self.item()->Array_0;
        assert(tuple_of(self.item(), 1) == Ok::<Seq<Item>, CborError>(a));
        assert(a[0] == Item::Bytes(self.protected_data));
    }
}

impl ProtectedData {
    /// A copy of this value.
    pub fn duplicate(&self) -> (r: ProtectedData)
        ensures
            r@ == self@,
    {
        ProtectedData {
            protected_data: copy_bytes(self.protected_data.as_slice()),
        }
    }

    /// Writes this value as the array of its fields.
    pub fn to_cbor_value(&self) -> (r: CborValue)
        ensures
            r@ == self@.item(),
    {
        let mut a: Vec<CborValue> = Vec::new();
        a.push(bytes_value(self.protected_data.as_slice()));
        assert(items_of(a@) =~= self@.item()->Array_0);
        array_value(a)
    }

    /// Reads a value from the array of its fields.
    pub fn from_cbor_value(v: &CborValue) -> (r: Result<ProtectedData, CborError>)
        ensures
            result_view(r) == ProtectedDataView::from_item(v@),
    {
        let a = match value_tuple(v, 1) {
            Err(e) => { return Err(e); },
            Ok(a) => a,
        };
        assert(items_of(a@)[0] == a@[0]@);
        let protected_data = match value_bytes(&a[0]) {
            Err(e) => { return Err(e); },
            Ok(x) => x,
        };
        Ok(ProtectedData { protected_data })
    }
}

/// Writes an optional bytes as an array of at most one element.
pub fn opt_bytes_to_cbor_value(o: &Option<Vec<u8>>) -> (r: CborValue)
    ensures
        r@ == option_item(
            match o {
                None => None,
                Some(x) => Some(Item::Bytes(x@)),
            },
        ),
{
    let mut a: Vec<CborValue> = Vec::new();
    match o {
        None => {
            assert(items_of(a@) =~= Seq::<Item>::empty());
        },
        Some(x) => {
            a.push(bytes_value(x.as_slice()));
            assert(items_of(a@) =~= seq![Item::Bytes(x@)]);
        },
    }
    array_value(a)
}

/// Reads an optional bytes from an array of at most one element.
pub fn opt_bytes_from_cbor_value(v: &CborValue) -> (r: Result<Option<Vec<u8>>, CborError>)
    ensures
        result_option_view(r) == decode_option(v@, bytes_decoder()),
{
    let a = match value_array(v) {
        Err(e) => { return Err(e); },
        Ok(a) => a,
    };
    if a.len() == 0 {
        Ok(None)
    } else if a.len() == 1 {
        assert(items_of(a@)[0] == a@[0]@);
        match value_bytes(&a[0]) {
            Err(e) => Err(e),
            Ok(x) => Ok(Some(x)),
        }
    } else {
        Err(CborError::UnexpectedItem)
    }
}

/// Writes an optional hardware auth token as an array of at most one element.
pub fn opt_hardware_auth_token_to_cbor_value(o: &Option<HardwareAuthToken>) -> (r: CborValue)
    ensures
        r@ == option_item(
            match o {
                None => None,
                Some(x) => Some(x@.item()),
            },
        ),
{
    let mut a: Vec<CborValue> = Vec::new();
    match o {
        None => {
            assert(items_of(a@) =~= Seq::<Item>::empty());
        },
        Some(x) => {
            a.push(x.to_cbor_value());
            assert(items_of(a@) =~= seq![x@.item()]);
        },
    }
    array_value(a)
}

/// Reads an optional hardware auth token from an array of at most one element.
pub fn opt_hardware_auth_token_from_cbor_value(v: &CborValue) -> (r: Result<
    Option<HardwareAuthToken>,
    CborError,
>)
    ensures
        result_option_view(r) == decode_option(v@, HardwareAuthTokenView::decoder()),
{
    let a = match value_array(v) {
        Err(e) => { return Err(e); },
        Ok(a) => a,
    };
    if a.len() == 0 {
        Ok(None)
    } else if a.len() == 1 {
        assert(items_of(a@)[0] == a@[0]@);
        match HardwareAuthToken::from_cbor_value(&a[0]) {
            Err(e) => Err(e),
            Ok(x) => Ok(Some(x)),
        }
    } else {
        Err(CborError::UnexpectedItem)
    }
}

/// Writes an optional time stamp token as an array of at most one element.
pub fn opt_time_stamp_token_to_cbor_value(o: &Option<TimeStampToken>) -> (r: CborValue)
    ensures
        r@ == option_item(
            match o {
                None => None,
                Some(x) => Some(x@.item()),
            },
        ),
{
    let mut a: Vec<CborValue> = Vec::new();
    match o {
        None => {
            assert(items_of(a@) =~= Seq::<Item>::empty());
        },
        Some(x) => {
            a.push(x.to_cbor_value());
            assert(items_of(a@) =~= seq![x@.item()]);
        },
    }
    array_value(a)
}

/// Reads an optional time stamp token from an array of at most one element.
pub fn opt_time_stamp_token_from_cbor_value(v: &CborValue) -> (r: Result<
    Option<TimeStampToken>,
    CborError,
>)
    ensures
        result_option_view(r) == decode_option(v@, TimeStampTokenView::decoder()),
{
    let a = match value_array(v) {
        Err(e) => { return Err(e); },
        Ok(a) => a,
    };
    if a.len() == 0 {
        Ok(None)
    } else if a.len() == 1 {
        assert(items_of(a@)[0] == a@[0]@);
        match TimeStampToken::from_cbor_value(&a[0]) {
            Err(e) => Err(e),
            Ok(x) => Ok(Some(x)),
        }
    } else {
        Err(CborError::UnexpectedItem)
    }
}

/// Writes an optional attestation key as an array of at most one element.
pub fn opt_attestation_key_to_cbor_value(o: &Option<AttestationKey>) -> (r: CborValue)
    ensures
        r@ == option_item(
            match o {
                None => None,
                Some(x) => Some(x@.item()),
            },
        ),
{
    let mut a: Vec<CborValue> = Vec::new();
    match o {
        None => {
            assert(items_of(a@) =~= Seq::<Item>::empty());
        },
        Some(x) => {
            a.push(x.to_cbor_value());
            assert(items_of(a@) =~= seq![x@.item()]);
        },
    }
    array_value(a)
}

/// Reads an optional attestation key from an array of at most one element.
pub fn opt_attestation_key_from_cbor_value(v: &CborValue) -> (r: Result<
    Option<AttestationKey>,
    CborError,
>)
    ensures
        result_option_view(r) == decode_option(v@, AttestationKeyView::decoder()),
{
    let a = match value_array(v) {
        Err(e) => { return Err(e); },
        Ok(a) => a,
    };
    if a.len() == 0 {
        Ok(None)
    } else if a.len() == 1 {
        assert(items_of(a@)[0] == a@[0]@);
        match AttestationKey::from_cbor_value(&a[0]) {
            Err(e) => Err(e),
            Ok(x) => Ok(Some(x)),
        }
    } else {
        Err(CborError::UnexpectedItem)
    }
}

/// Copies a list of shared secret parameters values.
pub fn vec_shared_secret_parameters_duplicate(list: &Vec<SharedSecretParameters>) -> (r: Vec<
    SharedSecretParameters,
>)
    ensures
        views(r@) == views(list@),
{
    let mut out: Vec<SharedSecretParameters> = Vec::new();
    let mut i: usize = 0;
    while i < list.len()
        invariant
            i <= list.len(),
            out@.len() == i,
            forall|j: int| 0 <= j < i ==> out@[j]@ == list@[j]@,
        decreases list.len() - i,
    {
        out.push(list[i].duplicate());
        i += 1;
    }
    assert(views(out@) =~= views(list@));
    out
}

/// Writes a list of shared secret parameters values as an array.
pub fn vec_shared_secret_parameters_to_cbor_value(list: &Vec<SharedSecretParameters>) -> (r: CborValue)
    ensures
        r@ == Item::Array(views(list@).map_values(SharedSecretParametersView::encoder())),
{
    let mut out: Vec<CborValue> = Vec::new();
    let mut i: usize = 0;
    while i < list.len()
        invariant
            i <= list.len(),
            out@.len() == i,
            forall|j: int| 0 <= j < i ==> out@[j]@ == SharedSecretParametersView::encoder()(
                list@[j]@,
            ),
        decreases list.len() - i,
    {
        out.push(list[i].to_cbor_value());
        i += 1;
    }
    assert(items_of(out@) =~= views(list@).map_values(SharedSecretParametersView::encoder()));
    array_value(out)
}

/// Reads a list of shared secret parameters values from an array, stopping at the
/// first element that cannot be read.
pub fn vec_shared_secret_parameters_from_cbor_value(v: &CborValue) -> (r: Result<
    Vec<SharedSecretParameters>,
    CborError,
>)
    ensures
        result_views(r) == decode_array(v@, SharedSecretParametersView::decoder()),
{
    let a = match value_array(v) {
        Err(e) => { return Err(e); },
        Ok(a) => a,
    };
    let ghost items = items_of(a@);
    let mut out: Vec<SharedSecretParameters> = Vec::new();
    let mut i: usize = 0;
    assert(items.take(0) =~= Seq::<Item>::empty());
    assert(views(out@) =~= Seq::<SharedSecretParametersView>::empty());
    while i < a.len()
        invariant
            i <= a.len(),
            items == items_of(a@),
            array_of(v@) == Ok::<Seq<Item>, CborError>(items),
            decode_all(items.take(i as int), SharedSecretParametersView::decoder()) == Ok::<Seq<SharedSecretParametersView>, CborError>(
                views(out@),
            ),
        decreases a.len() - i,
    {
        proof {
            lemma_decode_all_step(items, SharedSecretParametersView::decoder(), i as int);
        }
        match SharedSecretParameters::from_cbor_value(&a[i]) {
            Err(e) => {
                proof {
                    lemma_decode_all_error(
                        items,
                        SharedSecretParametersView::decoder(),
                        i as int + 1,
                    );
                }
                return Err(e);
            },
            Ok(x) => {
                let ghost before = views(out@);
                out.push(x);
                assert(views(out@) =~= before.push(x@));
            },
        }
        i += 1;
    }
    assert(items.take(i as int) =~= items);
    Ok(out)
}

/// Copies a list of maced public key values.
pub fn vec_maced_public_key_duplicate(list: &Vec<MacedPublicKey>) -> (r: Vec<MacedPublicKey>)
    ensures
        views(r@) == views(list@),
{
    let mut out: Vec<MacedPublicKey> = Vec::new();
    let mut i: usize = 0;
    while i < list.len()
        invariant
            i <= list.len(),
            out@.len() == i,
            forall|j: int| 0 <= j < i ==> out@[j]@ == list@[j]@,
        decreases list.len() - i,
    {
        out.push(list[i].duplicate());
        i += 1;
    }
    assert(views(out@) =~= views(list@));
    out
}

/// Writes a list of maced public key values as an array.
pub fn vec_maced_public_key_to_cbor_value(list: &Vec<MacedPublicKey>) -> (r: CborValue)
    ensures
        r@ == Item::Array(views(list@).map_values(MacedPublicKeyView::encoder())),
{
    let mut out: Vec<CborValue> = Vec::new();
    let mut i: usize = 0;
    while i < list.len()
        invariant
            i <= list.len(),
            out@.len() == i,
            forall|j: int| 0 <= j < i ==> out@[j]@ == MacedPublicKeyView::encoder()(list@[j]@),
        decreases list.len() - i,
    {
        out.push(list[i].to_cbor_value());
        i += 1;
    }
    assert(items_of(out@) =~= views(list@).map_values(MacedPublicKeyView::encoder()));
    array_value(out)
}

/// Reads a list of maced public key values from an array, stopping at the
/// first element that cannot be read.
pub fn vec_maced_public_key_from_cbor_value(v: &CborValue) -> (r: Result<
    Vec<MacedPublicKey>,
    CborError,
>)
    ensures
        result_views(r) == decode_array(v@, MacedPublicKeyView::decoder()),
{
    let a = match value_array(v) {
        Err(e) => { return Err(e); },
        Ok(a) => a,
    };
    let ghost items = items_of(a@);
    let mut out: Vec<MacedPublicKey> = Vec::new();
    let mut i: usize = 0;
    assert(items.take(0) =~= Seq::<Item>::empty());
    assert(views(out@) =~= Seq::<MacedPublicKeyView>::empty());
    while i < a.len()
        invariant
            i <= a.len(),
            items == items_of(a@),
            array_of(v@) == Ok::<Seq<Item>, CborError>(items),
            decode_all(items.take(i as int), MacedPublicKeyView::decoder()) == Ok::<Seq<MacedPublicKeyView>, CborError>(
                views(out@),
            ),
        decreases a.len() - i,
    {
        proof {
            lemma_decode_all_step(items, MacedPublicKeyView::decoder(), i as int);
        }
        match MacedPublicKey::from_cbor_value(&a[i]) {
            Err(e) => {
                proof {
                    lemma_decode_all_error(items, MacedPublicKeyView::decoder(), i as int + 1);
                }
                return Err(e);
            },
            Ok(x) => {
                let ghost before = views(out@);
                out.push(x);
                assert(views(out@) =~= before.push(x@));
            },
        }
        i += 1;
    }
    assert(items.take(i as int) =~= items);
    Ok(out)
}

} // verus!
