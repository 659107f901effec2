//! The requests that the host sends and the responses that it gets. A
//! request is written as the array of the operation's number and the
//! request itself, a response as the array of an error code and an optional
//! payload.

use crate::bytes::copy_bytes;
use crate::cbor::{
    array_value, bool_of, bytes_decoder, bytes_encoder, bytes_of, bytes_value, decode_array,
    decode_option, decoded, encoded, fixed_bytes_of, from_slice, i32_of, i64_of, items_of,
    lemma_decode_all_round_trip, lemma_decode_option_round_trip, option_item, option_view,
    result_option_view, result_view, to_vec, tuple_of, u32_of, value_array, value_bool,
    value_bytes, value_bytes16, value_bytes32, value_i32, value_i64, value_tuple, value_u32, views,
    CborError, CborValue, Item,
};
use crate::wire::characteristics::{
    characteristics_from_cbor_value, characteristics_from_item, characteristics_item,
    characteristics_to_cbor_value, duplicate_characteristics, duplicate_params,
    lemma_characteristics_round_trip, lemma_params_round_trip, params_from_cbor_value,
    params_from_item, params_item, params_to_cbor_value, KeyCharacteristics,
    KeyCharacteristicsView,
};
use crate::wire::keymint::{ErrorCode, KeyFormat, KeyPurpose};
use crate::wire::params::{KeyParam, KeyParamView};
use crate::wire::types::{
    opt_attestation_key_from_cbor_value, opt_attestation_key_to_cbor_value,
    opt_bytes_from_cbor_value, opt_bytes_to_cbor_value, opt_hardware_auth_token_from_cbor_value,
    opt_hardware_auth_token_to_cbor_value, opt_time_stamp_token_from_cbor_value,
    opt_time_stamp_token_to_cbor_value, vec_maced_public_key_duplicate,
    vec_maced_public_key_from_cbor_value, vec_maced_public_key_to_cbor_value,
    vec_shared_secret_parameters_duplicate, vec_shared_secret_parameters_from_cbor_value,
    vec_shared_secret_parameters_to_cbor_value, AttestationIdInfo, AttestationIdInfoView,
    AttestationKey, AttestationKeyView, DeviceInfo, DeviceInfoView, HardwareAuthToken,
    HardwareAuthTokenView, InternalBeginResult, InternalBeginResultView, KeyCreationResult,
    KeyCreationResultView, KeyMintHardwareInfo, KeyMintHardwareInfoView, MacedPublicKey,
    MacedPublicKeyView, ProtectedData, ProtectedDataView, RpcHardwareInfo, RpcHardwareInfoView,
    SharedSecretParameters, SharedSecretParametersView, TimeStampToken, TimeStampTokenView,
};
use vstd::prelude::*;

verus! {

/// The operations that the host can ask for, with the numbers that stand for them in a request.
#[derive(Clone, Copy, Debug, PartialEq, Eq, Structural)]
pub enum KeyMintOperation {
    DeviceGetHardwareInfo,
    DeviceAddRngEntropy,
    DeviceGenerateKey,
    DeviceImportKey,
    DeviceImportWrappedKey,
    DeviceUpgradeKey,
    DeviceDeleteKey,
    DeviceDeleteAllKeys,
    DeviceDestroyAttestationIds,
    DeviceBegin,
    DeviceDeviceLocked,
    DeviceEarlyBootEnded,
    DeviceConvertStorageKeyToEphemeral,
    DeviceGetKeyCharacteristics,
    OperationUpdateAad,
    OperationUpdate,
    OperationFinish,
    OperationAbort,
    RpcGetHardwareInfo,
    RpcGenerateEcdsaP256KeyPair,
    RpcGenerateCertificateRequest,
    RpcGenerateCertificateV2Request,
    SharedSecretGetSharedSecretParameters,
    SharedSecretComputeSharedSecret,
    SecureClockGenerateTimeStamp,
    GetRootOfTrustChallenge,
    GetRootOfTrust,
    SendRootOfTrust,
    SetHalInfo,
    SetBootInfo,
    SetAttestationIds,
}

impl KeyMintOperation {
    /// The number that stands for this value on the wire.
    pub open spec fn code(self) -> int {
        match self {
            KeyMintOperation::DeviceGetHardwareInfo => 17,
            KeyMintOperation::DeviceAddRngEntropy => 18,
            KeyMintOperation::DeviceGenerateKey => 19,
            KeyMintOperation::DeviceImportKey => 20,
            KeyMintOperation::DeviceImportWrappedKey => 21,
            KeyMintOperation::DeviceUpgradeKey => 22,
            KeyMintOperation::DeviceDeleteKey => 23,
            KeyMintOperation::DeviceDeleteAllKeys => 24,
            KeyMintOperation::DeviceDestroyAttestationIds => 25,
            KeyMintOperation::DeviceBegin => 26,
            KeyMintOperation::DeviceDeviceLocked => 27,
            KeyMintOperation::DeviceEarlyBootEnded => 28,
            KeyMintOperation::DeviceConvertStorageKeyToEphemeral => 29,
            KeyMintOperation::DeviceGetKeyCharacteristics => 30,
            KeyMintOperation::OperationUpdateAad => 49,
            KeyMintOperation::OperationUpdate => 50,
            KeyMintOperation::OperationFinish => 51,
            KeyMintOperation::OperationAbort => 52,
            KeyMintOperation::RpcGetHardwareInfo => 65,
            KeyMintOperation::RpcGenerateEcdsaP256KeyPair => 66,
            KeyMintOperation::RpcGenerateCertificateRequest => 67,
            KeyMintOperation::RpcGenerateCertificateV2Request => 68,
            KeyMintOperation::SharedSecretGetSharedSecretParameters => 81,
            KeyMintOperation::SharedSecretComputeSharedSecret => 82,
            KeyMintOperation::SecureClockGenerateTimeStamp => 97,
            KeyMintOperation::GetRootOfTrustChallenge => 113,
            KeyMintOperation::GetRootOfTrust => 114,
            KeyMintOperation::SendRootOfTrust => 115,
            KeyMintOperation::SetHalInfo => 129,
            KeyMintOperation::SetBootInfo => 130,
            KeyMintOperation::SetAttestationIds => 131,
        }
    }

    /// The value that a number stands for, if there is one.
    pub open spec fn of_code(c: int) -> Option<KeyMintOperation> {
        if c == 17 {
            Some(KeyMintOperation::DeviceGetHardwareInfo)
        } else if c == 18 {
            Some(KeyMintOperation::DeviceAddRngEntropy)
        } else if c == 19 {
            Some(KeyMintOperation::DeviceGenerateKey)
        } else if c == 20 {
            Some(KeyMintOperation::DeviceImportKey)
        } else if c == 21 {
            Some(KeyMintOperation::DeviceImportWrappedKey)
        } else if c == 22 {
            Some(KeyMintOperation::DeviceUpgradeKey)
        } else if c == 23 {
            Some(KeyMintOperation::DeviceDeleteKey)
        } else if c == 24 {
            Some(KeyMintOperation::DeviceDeleteAllKeys)
        } else if c == 25 {
            Some(KeyMintOperation::DeviceDestroyAttestationIds)
        } else if c == 26 {
            Some(KeyMintOperation::DeviceBegin)
        } else if c == 27 {
            Some(KeyMintOperation::DeviceDeviceLocked)
        } else if c == 28 {
            Some(KeyMintOperation::DeviceEarlyBootEnded)
        } else if c == 29 {
            Some(KeyMintOperation::DeviceConvertStorageKeyToEphemeral)
        } else if c == 30 {
            Some(KeyMintOperation::DeviceGetKeyCharacteristics)
        } else if c == 49 {
            Some(KeyMintOperation::OperationUpdateAad)
        } else if c == 50 {
            Some(KeyMintOperation::OperationUpdate)
        } else if c == 51 {
            Some(KeyMintOperation::OperationFinish)
        } else if c == 52 {
            Some(KeyMintOperation::OperationAbort)
        } else if c == 65 {
            Some(KeyMintOperation::RpcGetHardwareInfo)
        } else if c == 66 {
            Some(KeyMintOperation::RpcGenerateEcdsaP256KeyPair)
        } else if c == 67 {
            Some(KeyMintOperation::RpcGenerateCertificateRequest)
        } else if c == 68 {
            Some(KeyMintOperation::RpcGenerateCertificateV2Request)
        } else if c == 81 {
            Some(KeyMintOperation::SharedSecretGetSharedSecretParameters)
        } else if c == 82 {
            Some(KeyMintOperation::SharedSecretComputeSharedSecret)
        } else if c == 97 {
            Some(KeyMintOperation::SecureClockGenerateTimeStamp)
        } else if c == 113 {
            Some(KeyMintOperation::GetRootOfTrustChallenge)
        } else if c == 114 {
            Some(KeyMintOperation::GetRootOfTrust)
        } else if c == 115 {
            Some(KeyMintOperation::SendRootOfTrust)
        } else if c == 129 {
            Some(KeyMintOperation::SetHalInfo)
        } else if c == 130 {
            Some(KeyMintOperation::SetBootInfo)
        } else if c == 131 {
            Some(KeyMintOperation::SetAttestationIds)
        } else {
            None
        }
    }

    /// The number of this value.
    pub fn to_i32(self) -> (r: i32)
        ensures
            r == self.code(),
    {
        match self {
            KeyMintOperation::DeviceGetHardwareInfo => 17,
            KeyMintOperation::DeviceAddRngEntropy => 18,
            KeyMintOperation::DeviceGenerateKey => 19,
            KeyMintOperation::DeviceImportKey => 20,
            KeyMintOperation::DeviceImportWrappedKey => 21,
            KeyMintOperation::DeviceUpgradeKey => 22,
            KeyMintOperation::DeviceDeleteKey => 23,
            KeyMintOperation::DeviceDeleteAllKeys => 24,
            KeyMintOperation::DeviceDestroyAttestationIds => 25,
            KeyMintOperation::DeviceBegin => 26,
            KeyMintOperation::DeviceDeviceLocked => 27,
            KeyMintOperation::DeviceEarlyBootEnded => 28,
            KeyMintOperation::DeviceConvertStorageKeyToEphemeral => 29,
            KeyMintOperation::DeviceGetKeyCharacteristics => 30,
            KeyMintOperation::OperationUpdateAad => 49,
            KeyMintOperation::OperationUpdate => 50,
            KeyMintOperation::OperationFinish => 51,
            KeyMintOperation::OperationAbort => 52,
            KeyMintOperation::RpcGetHardwareInfo => 65,
            KeyMintOperation::RpcGenerateEcdsaP256KeyPair => 66,
            KeyMintOperation::RpcGenerateCertificateRequest => 67,
            KeyMintOperation::RpcGenerateCertificateV2Request => 68,
            KeyMintOperation::SharedSecretGetSharedSecretParameters => 81,
            KeyMintOperation::SharedSecretComputeSharedSecret => 82,
            KeyMintOperation::SecureClockGenerateTimeStamp => 97,
            KeyMintOperation::GetRootOfTrustChallenge => 113,
            KeyMintOperation::GetRootOfTrust => 114,
            KeyMintOperation::SendRootOfTrust => 115,
            KeyMintOperation::SetHalInfo => 129,
            KeyMintOperation::SetBootInfo => 130,
            KeyMintOperation::SetAttestationIds => 131,
        }
    }

    /// The value of a number, or nothing where the number stands for none.
    pub fn from_i32(c: i32) -> (r: Option<KeyMintOperation>)
        ensures
            r == Self::of_code(c as int),
    {
        if c == 17 {
            Some(KeyMintOperation::DeviceGetHardwareInfo)
        } else if c == 18 {
            Some(KeyMintOperation::DeviceAddRngEntropy)
        } else if c == 19 {
            Some(KeyMintOperation::DeviceGenerateKey)
        } else if c == 20 {
            Some(KeyMintOperation::DeviceImportKey)
        } else if c == 21 {
            Some(KeyMintOperation::DeviceImportWrappedKey)
        } else if c == 22 {
            Some(KeyMintOperation::DeviceUpgradeKey)
        } else if c == 23 {
            Some(KeyMintOperation::DeviceDeleteKey)
        } else if c == 24 {
            Some(KeyMintOperation::DeviceDeleteAllKeys)
        } else if c == 25 {
            Some(KeyMintOperation::DeviceDestroyAttestationIds)
        } else if c == 26 {
            Some(KeyMintOperation::DeviceBegin)
        } else if c == 27 {
            Some(KeyMintOperation::DeviceDeviceLocked)
        } else if c == 28 {
            Some(KeyMintOperation::DeviceEarlyBootEnded)
        } else if c == 29 {
            Some(KeyMintOperation::DeviceConvertStorageKeyToEphemeral)
        } else if c == 30 {
            Some(KeyMintOperation::DeviceGetKeyCharacteristics)
        } else if c == 49 {
            Some(KeyMintOperation::OperationUpdateAad)
        } else if c == 50 {
            Some(KeyMintOperation::OperationUpdate)
        } else if c == 51 {
            Some(KeyMintOperation::OperationFinish)
        } else if c == 52 {
            Some(KeyMintOperation::OperationAbort)
        } else if c == 65 {
            Some(KeyMintOperation::RpcGetHardwareInfo)
        } else if c == 66 {
            Some(KeyMintOperation::RpcGenerateEcdsaP256KeyPair)
        } else if c == 67 {
            Some(KeyMintOperation::RpcGenerateCertificateRequest)
        } else if c == 68 {
            Some(KeyMintOperation::RpcGenerateCertificateV2Request)
        } else if c == 81 {
            Some(KeyMintOperation::SharedSecretGetSharedSecretParameters)
        } else if c == 82 {
            Some(KeyMintOperation::SharedSecretComputeSharedSecret)
        } else if c == 97 {
            Some(KeyMintOperation::SecureClockGenerateTimeStamp)
        } else if c == 113 {
            Some(KeyMintOperation::GetRootOfTrustChallenge)
        } else if c == 114 {
            Some(KeyMintOperation::GetRootOfTrust)
        } else if c == 115 {
            Some(KeyMintOperation::SendRootOfTrust)
        } else if c == 129 {
            Some(KeyMintOperation::SetHalInfo)
        } else if c == 130 {
            Some(KeyMintOperation::SetBootInfo)
        } else if c == 131 {
            Some(KeyMintOperation::SetAttestationIds)
        } else {
            None
        }
    }

    /// What [`Self::from_cbor_value`] makes of an item: an integer that fits
    /// 32 bits and stands for a value.
    pub open spec fn from_item(item: Item) -> Result<KeyMintOperation, CborError> {
        match i32_of(item) {
            Err(e) => Err(e),
            Ok(c) => match Self::of_code(c as int) {
                Some(x) => Ok(x),
                None => Err(CborError::NonEnumValue),
            },
        }
    }

    /// The integer item that holds this value's number.
    pub fn to_cbor_value(self) -> (r: CborValue)
        ensures
            r@ == Item::Integer(self.code()),
    {
        CborValue::Integer(self.to_i32() as i128)
    }

    /// Reads a value from an integer item.
    pub fn from_cbor_value(v: &CborValue) -> (r: Result<KeyMintOperation, CborError>)
        ensures
            r == Self::from_item(v@),
    {
        match value_i32(v) {
            Err(e) => Err(e),
            Ok(c) => match Self::from_i32(c) {
                Some(x) => Ok(x),
                None => Err(CborError::NonEnumValue),
            },
        }
    }

    /// A value is recovered from its number, and from the item that holds it.
    pub proof fn lemma_round_trip(self)
        ensures
            Self::of_code(self.code()) == Some(self),
            Self::from_item(Item::Integer(self.code())) == Ok::<Self, CborError>(self),
    {
    }
}

/// Request to get hardware info.
#[derive(Clone, Copy, Debug, PartialEq, Eq, Structural)]
pub struct GetHardwareInfoRequest {}

impl GetHardwareInfoRequest {
    /// The CBOR form: the array of the fields in order.
    pub open spec fn item(self) -> Item {
        Item::Array(Seq::empty())
    }

    /// What [`GetHardwareInfoRequest::from_cbor_value`] makes of an item: an array of exactly
    /// 0 elements, read in order.
    pub open spec fn from_item(item: Item) -> Result<GetHardwareInfoRequest, CborError> {
        match tuple_of(item, 0) {
            Err(e) => Err(e),
            Ok(a) => Ok(GetHardwareInfoRequest {}),
        }
    }

    /// Reading the CBOR form gives the value back.
    pub proof fn lemma_round_trip(self)
        ensures
            Self::from_item(self.item()) == Ok::<GetHardwareInfoRequest, CborError>(self),
    {
        assert(tuple_of(self.item(), 0) == Ok::<Seq<Item>, CborError>(Seq::empty()));
    }
}

impl GetHardwareInfoRequest {
    /// Writes this value as the array of its fields.
    pub fn to_cbor_value(&self) -> (r: CborValue)
        ensures
            r@ == self.item(),
    {
        let mut a: Vec<CborValue> = Vec::new();
        assert(items_of(a@) =~= Seq::<Item>::empty());
        array_value(a)
    }

    /// Reads a value from the array of its fields.
    pub fn from_cbor_value(v: &CborValue) -> (r: Result<GetHardwareInfoRequest, CborError>)
        ensures
            r == GetHardwareInfoRequest::from_item(v@),
    {
        let a = match value_tuple(v, 0) {
            Err(e) => { return Err(e); },
            Ok(a) => a,
        };
        Ok(GetHardwareInfoRequest {})
    }
}

/// Response to a request to get hardware info.
#[derive(Clone, Debug, PartialEq, Eq)]
pub struct GetHardwareInfoResponse {
    pub ret: KeyMintHardwareInfo,
}

/// The content of a [`GetHardwareInfoResponse`].
pub ghost struct GetHardwareInfoResponseView {
    pub ret: KeyMintHardwareInfoView,
}

impl View for GetHardwareInfoResponse {
    type V = GetHardwareInfoResponseView;

    open spec fn view(&self) -> GetHardwareInfoResponseView {
        GetHardwareInfoResponseView {
            ret: self.ret@,
        }
    }
}

impl GetHardwareInfoResponseView {
    /// The CBOR form: the array of the fields in order.
    pub open spec fn item(self) -> Item {
        Item::Array(
            seq![
                self.ret.item(),
            ],
        )
    }

    /// What [`GetHardwareInfoResponse::from_cbor_value`] makes of an item: an array of exactly
    /// 1 element, read in order.
    pub open spec fn from_item(item: Item) -> Result<GetHardwareInfoResponseView, CborError> {
        match tuple_of(item, 1) {
            Err(e) => Err(e),
            Ok(a) => match KeyMintHardwareInfoView::from_item(a[0]) {
                Err(e) => Err(e),
                Ok(ret) => Ok(GetHardwareInfoResponseView { ret }),
            },
        }
    }

    /// How a [`GetHardwareInfoResponse`] is written.
    pub open spec fn encoder() -> spec_fn(GetHardwareInfoResponseView) -> Item {
        |x: GetHardwareInfoResponseView| x.item()
    }

    /// How a [`GetHardwareInfoResponse`] is read.
    pub open spec fn decoder() -> spec_fn(Item) -> Result<GetHardwareInfoResponseView, CborError> {
        |item: Item| GetHardwareInfoResponseView::from_item(item)
    }

    /// Reading the CBOR form gives the value back.
    pub proof fn lemma_round_trip(self)
        ensures
            Self::from_item(self.item()) == Ok::<GetHardwareInfoResponseView, CborError>(self),
    {
        let a = self.item()->Array_0;
        assert(tuple_of(self.item(), 1) == Ok::<Seq<Item>, CborError>(a));
        assert(a[0] == self.ret.item());
        self.ret.lemma_round_trip();
    }
}

impl GetHardwareInfoResponse {
    /// A copy of this value.
    pub fn duplicate(&self) -> (r: GetHardwareInfoResponse)
        ensures
            r@ == self@,
    {
        GetHardwareInfoResponse {
            ret: self.ret.duplicate(),
        }
    }

    /// Writes this value as the array of its fields.
    pub fn to_cbor_value(&self) -> (r: CborValue)
        ensures
            r@ == self@.item(),
    {
        let mut a: Vec<CborValue> = Vec::new();
        a.push(self.ret.to_cbor_value());
        assert(items_of(a@) =~= self@.item()->Array_0);
        array_value(a)
    }

    /// Reads a value from the array of its fields.
    pub fn from_cbor_value(v: &CborValue) -> (r: Result<GetHardwareInfoResponse, CborError>)
        ensures
            result_view(r) == GetHardwareInfoResponseView::from_item(v@),
    {
        let a = match value_tuple(v, 1) {
            Err(e) => { return Err(e); },
            Ok(a) => a,
        };
        assert(items_of(a@)[0] == a@[0]@);
        let ret = match KeyMintHardwareInfo::from_cbor_value(&a[0]) {
            Err(e) => { return Err(e); },
            Ok(x) => x,
        };
        Ok(GetHardwareInfoResponse { ret })
    }
}

/// Request to add rng entropy.
#[derive(Clone, Debug, PartialEq, Eq)]
pub struct AddRngEntropyRequest {
    pub data: Vec<u8>,
}

/// The content of a [`AddRngEntropyRequest`].
pub ghost struct AddRngEntropyRequestView {
    pub data: Seq<u8>,
}

impl View for AddRngEntropyRequest {
    type V = AddRngEntropyRequestView;

    open spec fn view(&self) -> AddRngEntropyRequestView {
        AddRngEntropyRequestView {
            data: self.data@,
        }
    }
}

impl AddRngEntropyRequestView {
    /// The CBOR form: the array of the fields in order.
    pub open spec fn item(self) -> Item {
        Item::Array(
            seq![
                Item::Bytes(self.data),
            ],
        )
    }

    /// What [`AddRngEntropyRequest::from_cbor_value`] makes of an item: an array of exactly
    /// 1 element, read in order.
    pub open spec fn from_item(item: Item) -> Result<AddRngEntropyRequestView, CborError> {
        match tuple_of(item, 1) {
            Err(e) => Err(e),
            Ok(a) => match bytes_of(a[0]) {
                Err(e) => Err(e),
                Ok(data) => Ok(AddRngEntropyRequestView { data }),
            },
        }
    }

    /// How a [`AddRngEntropyRequest`] is written.
    pub open spec fn encoder() -> spec_fn(AddRngEntropyRequestView) -> Item {
        |x: AddRngEntropyRequestView| x.item()
    }

    /// How a [`AddRngEntropyRequest`] is read.
    pub open spec fn decoder() -> spec_fn(Item) -> Result<AddRngEntropyRequestView, CborError> {
        |item: Item| AddRngEntropyRequestView::from_item(item)
    }

    /// Reading the CBOR form gives the value back.
    pub proof fn lemma_round_trip(self)
        ensures
            Self::from_item(self.item()) == Ok::<AddRngEntropyRequestView, CborError>(self),
    {
        let a = self.item()->Array_0;
        assert(tuple_of(self.item(), 1) == Ok::<Seq<Item>, CborError>(a));
        assert(a[0] == Item::Bytes(self.data));
    }
}

impl AddRngEntropyRequest {
    /// A copy of this value.
    pub fn duplicate(&self) -> (r: AddRngEntropyRequest)
        ensures
            r@ == self@,
    {
        AddRngEntropyRequest {
            data: copy_bytes(self.data.as_slice()),
        }
    }

    /// Writes this value as the array of its fields.
    pub fn to_cbor_value(&self) -> (r: CborValue)
        ensures
            r@ == self@.item(),
    {
        let mut a: Vec<CborValue> = Vec::new();
        a.push(bytes_value(self.data.as_slice()));
        assert(items_of(a@) =~= self@.item()->Array_0);
        array_value(a)
    }

    /// Reads a value from the array of its fields.
    pub fn from_cbor_value(v: &CborValue) -> (r: Result<AddRngEntropyRequest, CborError>)
        ensures
            result_view(r) == AddRngEntropyRequestView::from_item(v@),
    {
        let a = match value_tuple(v, 1) {
            Err(e) => { return Err(e); },
            Ok(a) => a,
        };
        assert(items_of(a@)[0] == a@[0]@);
        let data = match value_bytes(&a[0]) {
            Err(e) => { return Err(e); },
            Ok(x) => x,
        };
        Ok(AddRngEntropyRequest { data })
    }
}

/// Response to a request to add rng entropy.
#[derive(Clone, Copy, Debug, PartialEq, Eq, Structural)]
pub struct AddRngEntropyResponse {}

impl AddRngEntropyResponse {
    /// The CBOR form: the array of the fields in order.
    pub open spec fn item(self) -> Item {
        Item::Array(Seq::empty())
    }

    /// What [`AddRngEntropyResponse::from_cbor_value`] makes of an item: an array of exactly
    /// 0 elements, read in order.
    pub open spec fn from_item(item: Item) -> Result<AddRngEntropyResponse, CborError> {
        match tuple_of(item, 0) {
            Err(e) => Err(e),
            Ok(a) => Ok(AddRngEntropyResponse {}),
        }
    }

    /// Reading the CBOR form gives the value back.
    pub proof fn lemma_round_trip(self)
        ensures
            Self::from_item(self.item()) == Ok::<AddRngEntropyResponse, CborError>(self),
    {
        assert(tuple_of(self.item(), 0) == Ok::<Seq<Item>, CborError>(Seq::empty()));
    }
}

impl AddRngEntropyResponse {
    /// Writes this value as the array of its fields.
    pub fn to_cbor_value(&self) -> (r: CborValue)
        ensures
            r@ == self.item(),
    {
        let mut a: Vec<CborValue> = Vec::new();
        assert(items_of(a@) =~= Seq::<Item>::empty());
        array_value(a)
    }

    /// Reads a value from the array of its fields.
    pub fn from_cbor_value(v: &CborValue) -> (r: Result<AddRngEntropyResponse, CborError>)
        ensures
            r == AddRngEntropyResponse::from_item(v@),
    {
        let a = match value_tuple(v, 0) {
            Err(e) => { return Err(e); },
            Ok(a) => a,
        };
        Ok(AddRngEntropyResponse {})
    }
}

/// Request to generate key.
#[derive(Clone, Debug, PartialEq, Eq)]
pub struct GenerateKeyRequest {
    pub key_params: Vec<KeyParam>,
    pub attestation_key: Option<AttestationKey>,
}

/// The content of a [`GenerateKeyRequest`].
pub ghost struct GenerateKeyRequestView {
    pub key_params: Seq<KeyParamView>,
    pub attestation_key: Option<AttestationKeyView>,
}

impl View for GenerateKeyRequest {
    type V = GenerateKeyRequestView;

    open spec fn view(&self) -> GenerateKeyRequestView {
        GenerateKeyRequestView {
            key_params: views(self.key_params@),
            attestation_key: option_view(self.attestation_key),
        }
    }
}

impl GenerateKeyRequestView {
    /// The CBOR form: the array of the fields in order.
    pub open spec fn item(self) -> Item {
        Item::Array(
            seq![
                params_item(self.key_params),
                option_item(
            match self.attestation_key {
                None => None,
                Some(x) => Some(x.item()),
            },
        ),
            ],
        )
    }

    /// What [`GenerateKeyRequest::from_cbor_value`] makes of an item: an array of exactly
    /// 2 elements, read in order.
    pub open spec fn from_item(item: Item) -> Result<GenerateKeyRequestView, CborError> {
        match tuple_of(item, 2) {
            Err(e) => Err(e),
            Ok(a) => match params_from_item(a[0]) {
                Err(e) => Err(e),
                Ok(key_params) => match decode_option(a[1], AttestationKeyView::decoder()) {
                    Err(e) => Err(e),
                    Ok(attestation_key) => Ok(
                        GenerateKeyRequestView { key_params, attestation_key },
                    ),
                },
            },
        }
    }

    /// How a [`GenerateKeyRequest`] is written.
    pub open spec fn encoder() -> spec_fn(GenerateKeyRequestView) -> Item {
        |x: GenerateKeyRequestView| x.item()
    }

    /// How a [`GenerateKeyRequest`] is read.
    pub open spec fn decoder() -> spec_fn(Item) -> Result<GenerateKeyRequestView, CborError> {
        |item: Item| GenerateKeyRequestView::from_item(item)
    }

    /// Reading the CBOR form gives the value back.
    pub proof fn lemma_round_trip(self)
        ensures
            Self::from_item(self.item()) == Ok::<GenerateKeyRequestView, CborError>(self),
    {
        let a = self.item()->Array_0;
        assert(tuple_of(self.item(), 2) == Ok::<Seq<Item>, CborError>(a));
        assert(a[0] == params_item(self.key_params));
        assert(a[1] == option_item(
            match self.attestation_key {
                None => None,
                Some(x) => Some(x.item()),
            },
        ));
        lemma_params_round_trip(self.key_params);
        match self.attestation_key { Some(x) => { x.lemma_round_trip(); }, None => {}, }
        lemma_decode_option_round_trip(
            self.attestation_key,
            AttestationKeyView::encoder(),
            AttestationKeyView::decoder(),
        );
    }
}

impl GenerateKeyRequest {
    /// A copy of this value.
    pub fn duplicate(&self) -> (r: GenerateKeyRequest)
        ensures
            r@ == self@,
    {
        GenerateKeyRequest {
            key_params: duplicate_params(&self.key_params),
            attestation_key: match &self.attestation_key {
                None => None,
                Some(x) => Some(x.duplicate()),
            },
        }
    }

    /// Writes this value as the array of its fields.
    pub fn to_cbor_value(&self) -> (r: CborValue)
        ensures
            r@ == self@.item(),
    {
        let mut a: Vec<CborValue> = Vec::new();
        a.push(params_to_cbor_value(&self.key_params));
        a.push(opt_attestation_key_to_cbor_value(&self.attestation_key));
        assert(items_of(a@) =~= self@.item()->Array_0);
        array_value(a)
    }

    /// Reads a value from the array of its fields.
    pub fn from_cbor_value(v: &CborValue) -> (r: Result<GenerateKeyRequest, CborError>)
        ensures
            result_view(r) == GenerateKeyRequestView::from_item(v@),
    {
        let a = match value_tuple(v, 2) {
            Err(e) => { return Err(e); },
            Ok(a) => a,
        };
        assert(items_of(a@)[0] == a@[0]@);
        assert(items_of(a@)[1] == a@[1]@);
        let key_params = match params_from_cbor_value(&a[0]) {
            Err(e) => { return Err(e); },
            Ok(x) => x,
        };
        let attestation_key = match opt_attestation_key_from_cbor_value(&a[1]) {
            Err(e) => { return Err(e); },
            Ok(x) => x,
        };
        Ok(GenerateKeyRequest { key_params, attestation_key })
    }
}

/// Response to a request to generate key.
#[derive(Clone, Debug, PartialEq, Eq)]
pub struct GenerateKeyResponse {
    pub ret: KeyCreationResult,
}

/// The content of a [`GenerateKeyResponse`].
pub ghost struct GenerateKeyResponseView {
    pub ret: KeyCreationResultView,
}

impl View for GenerateKeyResponse {
    type V = GenerateKeyResponseView;

    open spec fn view(&self) -> GenerateKeyResponseView {
        GenerateKeyResponseView {
            ret: self.ret@,
        }
    }
}

impl GenerateKeyResponseView {
    /// The CBOR form: the array of the fields in order.
    pub open spec fn item(self) -> Item {
        Item::Array(
            seq![
                self.ret.item(),
            ],
        )
    }

    /// What [`GenerateKeyResponse::from_cbor_value`] makes of an item: an array of exactly
    /// 1 element, read in order.
    pub open spec fn from_item(item: Item) -> Result<GenerateKeyResponseView, CborError> {
        match tuple_of(item, 1) {
            Err(e) => Err(e),
            Ok(a) => match KeyCreationResultView::from_item(a[0]) {
                Err(e) => Err(e),
                Ok(ret) => Ok(GenerateKeyResponseView { ret }),
            },
        }
    }

    /// How a [`GenerateKeyResponse`] is written.
    pub open spec fn encoder() -> spec_fn(GenerateKeyResponseView) -> Item {
        |x: GenerateKeyResponseView| x.item()
    }

    /// How a [`GenerateKeyResponse`] is read.
    pub open spec fn decoder() -> spec_fn(Item) -> Result<GenerateKeyResponseView, CborError> {
        |item: Item| GenerateKeyResponseView::from_item(item)
    }

    /// Reading the CBOR form gives the value back.
    pub proof fn lemma_round_trip(self)
        ensures
            Self::from_item(self.item()) == Ok::<GenerateKeyResponseView, CborError>(self),
    {
        let a = self.item()->Array_0;
        assert(tuple_of(self.item(), 1) == Ok::<Seq<Item>, CborError>(a));
        assert(a[0] == self.ret.item());
        self.ret.lemma_round_trip();
    }
}

impl GenerateKeyResponse {
    /// A copy of this value.
    pub fn duplicate(&self) -> (r: GenerateKeyResponse)
        ensures
            r@ == self@,
    {
        GenerateKeyResponse {
            ret: self.ret.duplicate(),
        }
    }

    /// Writes this value as the array of its fields.
    pub fn to_cbor_value(&self) -> (r: CborValue)
        ensures
            r@ == self@.item(),
    {
        let mut a: Vec<CborValue> = Vec::new();
        a.push(self.ret.to_cbor_value());
        assert(items_of(a@) =~= self@.item()->Array_0);
        array_value(a)
    }

    /// Reads a value from the array of its fields.
    pub fn from_cbor_value(v: &CborValue) -> (r: Result<GenerateKeyResponse, CborError>)
        ensures
            result_view(r) == GenerateKeyResponseView::from_item(v@),
    {
        let a = match value_tuple(v, 1) {
            Err(e) => { return Err(e); },
            Ok(a) => a,
        };
        assert(items_of(a@)[0] == a@[0]@);
        let ret = match KeyCreationResult::from_cbor_value(&a[0]) {
            Err(e) => { return Err(e); },
            Ok(x) => x,
        };
        Ok(GenerateKeyResponse { ret })
    }
}

/// Request to import key.
#[derive(Clone, Debug, PartialEq, Eq)]
pub struct ImportKeyRequest {
    pub key_params: Vec<KeyParam>,
    pub key_format: KeyFormat,
    pub key_data: Vec<u8>,
    pub attestation_key: Option<AttestationKey>,
}

/// The content of a [`ImportKeyRequest`].
pub ghost struct ImportKeyRequestView {
    pub key_params: Seq<KeyParamView>,
    pub key_format: KeyFormat,
    pub key_data: Seq<u8>,
    pub attestation_key: Option<AttestationKeyView>,
}

impl View for ImportKeyRequest {
    type V = ImportKeyRequestView;

    open spec fn view(&self) -> ImportKeyRequestView {
        ImportKeyRequestView {
            key_params: views(self.key_params@),
            key_format: self.key_format,
            key_data: self.key_data@,
            attestation_key: option_view(self.attestation_key),
        }
    }
}

impl ImportKeyRequestView {
    /// The CBOR form: the array of the fields in order.
    pub open spec fn item(self) -> Item {
        Item::Array(
            seq![
                params_item(self.key_params),
                Item::Integer(self.key_format.code()),
                Item::Bytes(self.key_data),
                option_item(
            match self.attestation_key {
                None => None,
                Some(x) => Some(x.item()),
            },
        ),
            ],
        )
    }

    /// What [`ImportKeyRequest::from_cbor_value`] makes of an item: an array of exactly
    /// 4 elements, read in order.
    pub open spec fn from_item(item: Item) -> Result<ImportKeyRequestView, CborError> {
        match tuple_of(item, 4) {
            Err(e) => Err(e),
            Ok(a) => match params_from_item(a[0]) {
                Err(e) => Err(e),
                Ok(key_params) => match KeyFormat::from_item(a[1]) {
                    Err(e) => Err(e),
                    Ok(key_format) => match bytes_of(a[2]) {
                        Err(e) => Err(e),
                        Ok(key_data) => match decode_option(a[3], AttestationKeyView::decoder()) {
                            Err(e) => Err(e),
                            Ok(attestation_key) => Ok(
                                ImportKeyRequestView {
                                    key_params,
                                    key_format,
                                    key_data,
                                    attestation_key,
                                },
                            ),
                        },
                    },
                },
            },
        }
    }

    /// How a [`ImportKeyRequest`] is written.
    pub open spec fn encoder() -> spec_fn(ImportKeyRequestView) -> Item {
        |x: ImportKeyRequestView| x.item()
    }

    /// How a [`ImportKeyRequest`] is read.
    pub open spec fn decoder() -> spec_fn(Item) -> Result<ImportKeyRequestView, CborError> {
        |item: Item| ImportKeyRequestView::from_item(item)
    }

    /// Reading the CBOR form gives the value back.
    pub proof fn lemma_round_trip(self)
        ensures
            Self::from_item(self.item()) == Ok::<ImportKeyRequestView, CborError>(self),
    {
        let a = self.item()->Array_0;
        assert(tuple_of(self.item(), 4) == Ok::<Seq<Item>, CborError>(a));
        assert(a[0] == params_item(self.key_params));
        assert(a[1] == Item::Integer(self.key_format.code()));
        assert(a[2] == Item::Bytes(self.key_data));
        assert(a[3] == option_item(
            match self.attestation_key {
                None => None,
                Some(x) => Some(x.item()),
            },
        ));
        lemma_params_round_trip(self.key_params);
        self.key_format.lemma_round_trip();
        match self.attestation_key { Some(x) => { x.lemma_round_trip(); }, None => {}, }
        lemma_decode_option_round_trip(
            self.attestation_key,
            AttestationKeyView::encoder(),
            AttestationKeyView::decoder(),
        );
    }
}

impl ImportKeyRequest {
    /// A copy of this value.
    pub fn duplicate(&self) -> (r: ImportKeyRequest)
        ensures
            r@ == self@,
    {
        ImportKeyRequest {
            key_params: duplicate_params(&self.key_params),
            key_format: self.key_format,
            key_data: copy_bytes(self.key_data.as_slice()),
            attestation_key: match &self.attestation_key {
                None => None,
                Some(x) => Some(x.duplicate()),
            },
        }
    }

    /// Writes this value as the array of its fields.
    pub fn to_cbor_value(&self) -> (r: CborValue)
        ensures
            r@ == self@.item(),
    {
        let mut a: Vec<CborValue> = Vec::new();
        a.push(params_to_cbor_value(&self.key_params));
        a.push(self.key_format.to_cbor_value());
        a.push(bytes_value(self.key_data.as_slice()));
        a.push(opt_attestation_key_to_cbor_value(&self.attestation_key));
        assert(items_of(a@) =~= self@.item()->Array_0);
        array_value(a)
    }

    /// Reads a value from the array of its fields.
    pub fn from_cbor_value(v: &CborValue) -> (r: Result<ImportKeyRequest, CborError>)
        ensures
            result_view(r) == ImportKeyRequestView::from_item(v@),
    {
        let a = match value_tuple(v, 4) {
            Err(e) => { return Err(e); },
            Ok(a) => a,
        };
        assert(items_of(a@)[0] == a@[0]@);
        assert(items_of(a@)[1] == a@[1]@);
        assert(items_of(a@)[2] == a@[2]@);
        assert(items_of(a@)[3] == a@[3]@);
        let key_params = match params_from_cbor_value(&a[0]) {
            Err(e) => { return Err(e); },
            Ok(x) => x,
        };
        let key_format = match KeyFormat::from_cbor_value(&a[1]) {
            Err(e) => { return Err(e); },
            Ok(x) => x,
        };
        let key_data = match value_bytes(&a[2]) {
            Err(e) => { return Err(e); },
            Ok(x) => x,
        };
        let attestation_key = match opt_attestation_key_from_cbor_value(&a[3]) {
            Err(e) => { return Err(e); },
            Ok(x) => x,
        };
        Ok(ImportKeyRequest { key_params, key_format, key_data, attestation_key })
    }
}

/// Response to a request to import key.
#[derive(Clone, Debug, PartialEq, Eq)]
pub struct ImportKeyResponse {
    pub ret: KeyCreationResult,
}

/// The content of a [`ImportKeyResponse`].
pub ghost struct ImportKeyResponseView {
    pub ret: KeyCreationResultView,
}

impl View for ImportKeyResponse {
    type V = ImportKeyResponseView;

    open spec fn view(&self) -> ImportKeyResponseView {
        ImportKeyResponseView {
            ret: self.ret@,
        }
    }
}

impl ImportKeyResponseView {
    /// The CBOR form: the array of the fields in order.
    pub open spec fn item(self) -> Item {
        Item::Array(
            seq![
                self.ret.item(),
            ],
        )
    }

    /// What [`ImportKeyResponse::from_cbor_value`] makes of an item: an array of exactly
    /// 1 element, read in order.
    pub open spec fn from_item(item: Item) -> Result<ImportKeyResponseView, CborError> {
        match tuple_of(item, 1) {
            Err(e) => Err(e),
            Ok(a) => match KeyCreationResultView::from_item(a[0]) {
                Err(e) => Err(e),
                Ok(ret) => Ok(ImportKeyResponseView { ret }),
            },
        }
    }

    /// How a [`ImportKeyResponse`] is written.
    pub open spec fn encoder() -> spec_fn(ImportKeyResponseView) -> Item {
        |x: ImportKeyResponseView| x.item()
    }

    /// How a [`ImportKeyResponse`] is read.
    pub open spec fn decoder() -> spec_fn(Item) -> Result<ImportKeyResponseView, CborError> {
        |item: Item| ImportKeyResponseView::from_item(item)
    }

    /// Reading the CBOR form gives the value back.
    pub proof fn lemma_round_trip(self)
        ensures
            Self::from_item(self.item()) == Ok::<ImportKeyResponseView, CborError>(self),
    {
        let a = self.item()->Array_0;
        assert(tuple_of(self.item(), 1) == Ok::<Seq<Item>, CborError>(a));
        assert(a[0] == self.ret.item());
        self.ret.lemma_round_trip();
    }
}

impl ImportKeyResponse {
    /// A copy of this value.
    pub fn duplicate(&self) -> (r: ImportKeyResponse)
        ensures
            r@ == self@,
    {
        ImportKeyResponse {
            ret: self.ret.duplicate(),
        }
    }

    /// Writes this value as the array of its fields.
    pub fn to_cbor_value(&self) -> (r: CborValue)
        ensures
            r@ == self@.item(),
    {
        let mut a: Vec<CborValue> = Vec::new();
        a.push(self.ret.to_cbor_value());
        assert(items_of(a@) =~= self@.item()->Array_0);
        array_value(a)
    }

    /// Reads a value from the array of its fields.
    pub fn from_cbor_value(v: &CborValue) -> (r: Result<ImportKeyResponse, CborError>)
        ensures
            result_view(r) == ImportKeyResponseView::from_item(v@),
    {
        let a = match value_tuple(v, 1) {
            Err(e) => { return Err(e); },
            Ok(a) => a,
        };
        assert(items_of(a@)[0] == a@[0]@);
        let ret = match KeyCreationResult::from_cbor_value(&a[0]) {
            Err(e) => { return Err(e); },
            Ok(x) => x,
        };
        Ok(ImportKeyResponse { ret })
    }
}

/// Request to import wrapped key.
#[derive(Clone, Debug, PartialEq, Eq)]
pub struct ImportWrappedKeyRequest {
    pub wrapped_key_data: Vec<u8>,
    pub wrapping_key_blob: Vec<u8>,
    pub masking_key: Vec<u8>,
    pub unwrapping_params: Vec<KeyParam>,
    pub password_sid: i64,
    pub biometric_sid: i64,
}

/// The content of a [`ImportWrappedKeyRequest`].
pub ghost struct ImportWrappedKeyRequestView {
    pub wrapped_key_data: Seq<u8>,
    pub wrapping_key_blob: Seq<u8>,
    pub masking_key: Seq<u8>,
    pub unwrapping_params: Seq<KeyParamView>,
    pub password_sid: i64,
    pub biometric_sid: i64,
}

impl View for ImportWrappedKeyRequest {
    type V = ImportWrappedKeyRequestView;

    open spec fn view(&self) -> ImportWrappedKeyRequestView {
        ImportWrappedKeyRequestView {
            wrapped_key_data: self.wrapped_key_data@,
            wrapping_key_blob: self.wrapping_key_blob@,
            masking_key: self.masking_key@,
            unwrapping_params: views(self.unwrapping_params@),
            password_sid: self.password_sid,
            biometric_sid: self.biometric_sid,
        }
    }
}

impl ImportWrappedKeyRequestView {
    /// The CBOR form: the array of the fields in order.
    pub open spec fn item(self) -> Item {
        Item::Array(
            seq![
                Item::Bytes(self.wrapped_key_data),
                Item::Bytes(self.wrapping_key_blob),
                Item::Bytes(self.masking_key),
                params_item(self.unwrapping_params),
                Item::Integer(self.password_sid as int),
                Item::Integer(self.biometric_sid as int),
            ],
        )
    }

    /// What [`ImportWrappedKeyRequest::from_cbor_value`] makes of an item: an array of exactly
    /// 6 elements, read in order.
    pub open spec fn from_item(item: Item) -> Result<ImportWrappedKeyRequestView, CborError> {
        match tuple_of(item, 6) {
            Err(e) => Err(e),
            Ok(a) => match bytes_of(a[0]) {
                Err(e) => Err(e),
                Ok(wrapped_key_data) => match bytes_of(a[1]) {
                    Err(e) => Err(e),
                    Ok(wrapping_key_blob) => match bytes_of(a[2]) {
                        Err(e) => Err(e),
                        Ok(masking_key) => match params_from_item(a[3]) {
                            Err(e) => Err(e),
                            Ok(unwrapping_params) => match i64_of(a[4]) {
                                Err(e) => Err(e),
                                Ok(password_sid) => match i64_of(a[5]) {
                                    Err(e) => Err(e),
                                    Ok(biometric_sid) => Ok(
                                        ImportWrappedKeyRequestView {
                                            wrapped_key_data,
                                            wrapping_key_blob,
                                            masking_key,
                                            unwrapping_params,
                                            password_sid,
                                            biometric_sid,
                                        },
                                    ),
                                },
                            },
                        },
                    },
                },
            },
        }
    }

    /// How a [`ImportWrappedKeyRequest`] is written.
    pub open spec fn encoder() -> spec_fn(ImportWrappedKeyRequestView) -> Item {
        |x: ImportWrappedKeyRequestView| x.item()
    }

    /// How a [`ImportWrappedKeyRequest`] is read.
    pub open spec fn decoder() -> spec_fn(Item) -> Result<ImportWrappedKeyRequestView, CborError> {
        |item: Item| ImportWrappedKeyRequestView::from_item(item)
    }

    /// Reading the CBOR form gives the value back.
    pub proof fn lemma_round_trip(self)
        ensures
            Self::from_item(self.item()) == Ok::<ImportWrappedKeyRequestView, CborError>(self),
    {
        let a = self.item()->Array_0;
        assert(tuple_of(self.item(), 6) == Ok::<Seq<Item>, CborError>(a));
        assert(a[0] == Item::Bytes(self.wrapped_key_data));
        assert(a[1] == Item::Bytes(self.wrapping_key_blob));
        assert(a[2] == Item::Bytes(self.masking_key));
        assert(a[3] == params_item(self.unwrapping_params));
        assert(a[4] == Item::Integer(self.password_sid as int));
        assert(a[5] == Item::Integer(self.biometric_sid as int));
        lemma_params_round_trip(self.unwrapping_params);
    }
}

impl ImportWrappedKeyRequest {
    /// A copy of this value.
    pub fn duplicate(&self) -> (r: ImportWrappedKeyRequest)
        ensures
            r@ == self@,
    {
        ImportWrappedKeyRequest {
            wrapped_key_data: copy_bytes(self.wrapped_key_data.as_slice()),
            wrapping_key_blob: copy_bytes(self.wrapping_key_blob.as_slice()),
            masking_key: copy_bytes(self.masking_key.as_slice()),
            unwrapping_params: duplicate_params(&self.unwrapping_params),
            password_sid: self.password_sid,
            biometric_sid: self.biometric_sid,
        }
    }

    /// Writes this value as the array of its fields.
    pub fn to_cbor_value(&self) -> (r: CborValue)
        ensures
            r@ == self@.item(),
    {
        let mut a: Vec<CborValue> = Vec::new();
        a.push(bytes_value(self.wrapped_key_data.as_slice()));
        a.push(bytes_value(self.wrapping_key_blob.as_slice()));
        a.push(bytes_value(self.masking_key.as_slice()));
        a.push(params_to_cbor_value(&self.unwrapping_params));
        a.push(CborValue::Integer(self.password_sid as i128));
        a.push(CborValue::Integer(self.biometric_sid as i128));
        assert(items_of(a@) =~= self@.item()->Array_0);
        array_value(a)
    }

    /// Reads a value from the array of its fields.
    pub fn from_cbor_value(v: &CborValue) -> (r: Result<ImportWrappedKeyRequest, CborError>)
        ensures
            result_view(r) == ImportWrappedKeyRequestView::from_item(v@),
    {
        let a = match value_tuple(v, 6) {
            Err(e) => { return Err(e); },
            Ok(a) => a,
        };
        assert(items_of(a@)[0] == a@[0]@);
        assert(items_of(a@)[1] == a@[1]@);
        assert(items_of(a@)[2] == a@[2]@);
        assert(items_of(a@)[3] == a@[3]@);
        assert(items_of(a@)[4] == a@[4]@);
        assert(items_of(a@)[5] == a@[5]@);
        let wrapped_key_data = match value_bytes(&a[0]) {
            Err(e) => { return Err(e); },
            Ok(x) => x,
        };
        let wrapping_key_blob = match value_bytes(&a[1]) {
            Err(e) => { return Err(e); },
            Ok(x) => x,
        };
        let masking_key = match value_bytes(&a[2]) {
            Err(e) => { return Err(e); },
            Ok(x) => x,
        };
        let unwrapping_params = match params_from_cbor_value(&a[3]) {
            Err(e) => { return Err(e); },
            Ok(x) => x,
        };
        let password_sid = match value_i64(&a[4]) {
            Err(e) => { return Err(e); },
            Ok(x) => x,
        };
        let biometric_sid = match value_i64(&a[5]) {
            Err(e) => { return Err(e); },
            Ok(x) => x,
        };
        Ok(
            ImportWrappedKeyRequest {
                wrapped_key_data,
                wrapping_key_blob,
                masking_key,
                unwrapping_params,
                password_sid,
                biometric_sid,
            },
        )
    }
}

/// Response to a request to import wrapped key.
#[derive(Clone, Debug, PartialEq, Eq)]
pub struct ImportWrappedKeyResponse {
    pub ret: KeyCreationResult,
}

/// The content of a [`ImportWrappedKeyResponse`].
pub ghost struct ImportWrappedKeyResponseView {
    pub ret: KeyCreationResultView,
}

impl View for ImportWrappedKeyResponse {
    type V = ImportWrappedKeyResponseView;

    open spec fn view(&self) -> ImportWrappedKeyResponseView {
        ImportWrappedKeyResponseView {
            ret: self.ret@,
        }
    }
}

impl ImportWrappedKeyResponseView {
    /// The CBOR form: the array of the fields in order.
    pub open spec fn item(self) -> Item {
        Item::Array(
            seq![
                self.ret.item(),
            ],
        )
    }

    /// What [`ImportWrappedKeyResponse::from_cbor_value`] makes of an item: an array of exactly
    /// 1 element, read in order.
    pub open spec fn from_item(item: Item) -> Result<ImportWrappedKeyResponseView, CborError> {
        match tuple_of(item, 1) {
            Err(e) => Err(e),
            Ok(a) => match KeyCreationResultView::from_item(a[0]) {
                Err(e) => Err(e),
                Ok(ret) => Ok(ImportWrappedKeyResponseView { ret }),
            },
        }
    }

    /// How a [`ImportWrappedKeyResponse`] is written.
    pub open spec fn encoder() -> spec_fn(ImportWrappedKeyResponseView) -> Item {
        |x: ImportWrappedKeyResponseView| x.item()
    }

    /// How a [`ImportWrappedKeyResponse`] is read.
    pub open spec fn decoder() -> spec_fn(Item) -> Result<ImportWrappedKeyResponseView, CborError> {
        |item: Item| ImportWrappedKeyResponseView::from_item(item)
    }

    /// Reading the CBOR form gives the value back.
    pub proof fn lemma_round_trip(self)
        ensures
            Self::from_item(self.item()) == Ok::<ImportWrappedKeyResponseView, CborError>(self),
    {
        let a = self.item()->Array_0;
        assert(tuple_of(self.item(), 1) == Ok::<Seq<Item>, CborError>(a));
        assert(a[0] == self.ret.item());
        self.ret.lemma_round_trip();
    }
}

impl ImportWrappedKeyResponse {
    /// A copy of this value.
    pub fn duplicate(&self) -> (r: ImportWrappedKeyResponse)
        ensures
            r@ == self@,
    {
        ImportWrappedKeyResponse {
            ret: self.ret.duplicate(),
        }
    }

    /// Writes this value as the array of its fields.
    pub fn to_cbor_value(&self) -> (r: CborValue)
        ensures
            r@ == self@.item(),
    {
        let mut a: Vec<CborValue> = Vec::new();
        a.push(self.ret.to_cbor_value());
        assert(items_of(a@) =~= self@.item()->Array_0);
        array_value(a)
    }

    /// Reads a value from the array of its fields.
    pub fn from_cbor_value(v: &CborValue) -> (r: Result<ImportWrappedKeyResponse, CborError>)
        ensures
            result_view(r) == ImportWrappedKeyResponseView::from_item(v@),
    {
        let a = match value_tuple(v, 1) {
            Err(e) => { return Err(e); },
            Ok(a) => a,
        };
        assert(items_of(a@)[0] == a@[0]@);
        let ret = match KeyCreationResult::from_cbor_value(&a[0]) {
            Err(e) => { return Err(e); },
            Ok(x) => x,
        };
        Ok(ImportWrappedKeyResponse { ret })
    }
}

/// Request to upgrade key.
#[derive(Clone, Debug, PartialEq, Eq)]
pub struct UpgradeKeyRequest {
    pub key_blob_to_upgrade: Vec<u8>,
    pub upgrade_params: Vec<KeyParam>,
}

/// The content of a [`UpgradeKeyRequest`].
pub ghost struct UpgradeKeyRequestView {
    pub key_blob_to_upgrade: Seq<u8>,
    pub upgrade_params: Seq<KeyParamView>,
}

impl View for UpgradeKeyRequest {
    type V = UpgradeKeyRequestView;

    open spec fn view(&self) -> UpgradeKeyRequestView {
        UpgradeKeyRequestView {
            key_blob_to_upgrade: self.key_blob_to_upgrade@,
            upgrade_params: views(self.upgrade_params@),
        }
    }
}

impl UpgradeKeyRequestView {
    /// The CBOR form: the array of the fields in order.
    pub open spec fn item(self) -> Item {
        Item::Array(
            seq![
                Item::Bytes(self.key_blob_to_upgrade),
                params_item(self.upgrade_params),
            ],
        )
    }

    /// What [`UpgradeKeyRequest::from_cbor_value`] makes of an item: an array of exactly
    /// 2 elements, read in order.
    pub open spec fn from_item(item: Item) -> Result<UpgradeKeyRequestView, CborError> {
        match tuple_of(item, 2) {
            Err(e) => Err(e),
            Ok(a) => match bytes_of(a[0]) {
                Err(e) => Err(e),
                Ok(key_blob_to_upgrade) => match params_from_item(a[1]) {
                    Err(e) => Err(e),
                    Ok(upgrade_params) => Ok(
                        UpgradeKeyRequestView { key_blob_to_upgrade, upgrade_params },
                    ),
                },
            },
        }
    }

    /// How a [`UpgradeKeyRequest`] is written.
    pub open spec fn encoder() -> spec_fn(UpgradeKeyRequestView) -> Item {
        |x: UpgradeKeyRequestView| x.item()
    }

    /// How a [`UpgradeKeyRequest`] is read.
    pub open spec fn decoder() -> spec_fn(Item) -> Result<UpgradeKeyRequestView, CborError> {
        |item: Item| UpgradeKeyRequestView::from_item(item)
    }

    /// Reading the CBOR form gives the value back.
    pub proof fn lemma_round_trip(self)
        ensures
            Self::from_item(self.item()) == Ok::<UpgradeKeyRequestView, CborError>(self),
    {
        let a = self.item()->Array_0;
        assert(tuple_of(self.item(), 2) == Ok::<Seq<Item>, CborError>(a));
        assert(a[0] == Item::Bytes(self.key_blob_to_upgrade));
        assert(a[1] == params_item(self.upgrade_params));
        lemma_params_round_trip(self.upgrade_params);
    }
}

impl UpgradeKeyRequest {
    /// A copy of this value.
    pub fn duplicate(&self) -> (r: UpgradeKeyRequest)
        ensures
            r@ == self@,
    {
        UpgradeKeyRequest {
            key_blob_to_upgrade: copy_bytes(self.key_blob_to_upgrade.as_slice()),
            upgrade_params: duplicate_params(&self.upgrade_params),
        }
    }

    /// Writes this value as the array of its fields.
    pub fn to_cbor_value(&self) -> (r: CborValue)
        ensures
            r@ == self@.item(),
    {
        let mut a: Vec<CborValue> = Vec::new();
        a.push(bytes_value(self.key_blob_to_upgrade.as_slice()));
        a.push(params_to_cbor_value(&self.upgrade_params));
        assert(items_of(a@) =~= self@.item()->Array_0);
        array_value(a)
    }

    /// Reads a value from the array of its fields.
    pub fn from_cbor_value(v: &CborValue) -> (r: Result<UpgradeKeyRequest, CborError>)
        ensures
            result_view(r) == UpgradeKeyRequestView::from_item(v@),
    {
        let a = match value_tuple(v, 2) {
            Err(e) => { return Err(e); },
            Ok(a) => a,
        };
        assert(items_of(a@)[0] == a@[0]@);
        assert(items_of(a@)[1] == a@[1]@);
        let key_blob_to_upgrade = match value_bytes(&a[0]) {
            Err(e) => { return Err(e); },
            Ok(x) => x,
        };
        let upgrade_params = match params_from_cbor_value(&a[1]) {
            Err(e) => { return Err(e); },
            Ok(x) => x,
        };
        Ok(UpgradeKeyRequest { key_blob_to_upgrade, upgrade_params })
    }
}

/// Response to a request to upgrade key.
#[derive(Clone, Debug, PartialEq, Eq)]
pub struct UpgradeKeyResponse {
    pub ret: Vec<u8>,
}

/// The content of a [`UpgradeKeyResponse`].
pub ghost struct UpgradeKeyResponseView {
    pub ret: Seq<u8>,
}

impl View for UpgradeKeyResponse {
    type V = UpgradeKeyResponseView;

    open spec fn view(&self) -> UpgradeKeyResponseView {
        UpgradeKeyResponseView {
            ret: self.ret@,
        }
    }
}

impl UpgradeKeyResponseView {
    /// The CBOR form: the array of the fields in order.
    pub open spec fn item(self) -> Item {
        Item::Array(
            seq![
                Item::Bytes(self.ret),
            ],
        )
    }

    /// What [`UpgradeKeyResponse::from_cbor_value`] makes of an item: an array of exactly
    /// 1 element, read in order.
    pub open spec fn from_item(item: Item) -> Result<UpgradeKeyResponseView, CborError> {
        match tuple_of(item, 1) {
            Err(e) => Err(e),
            Ok(a) => match bytes_of(a[0]) {
                Err(e) => Err(e),
                Ok(ret) => Ok(UpgradeKeyResponseView { ret }),
            },
        }
    }

    /// How a [`UpgradeKeyResponse`] is written.
    pub open spec fn encoder() -> spec_fn(UpgradeKeyResponseView) -> Item {
        |x: UpgradeKeyResponseView| x.item()
    }

    /// How a [`UpgradeKeyResponse`] is read.
    pub open spec fn decoder() -> spec_fn(Item) -> Result<UpgradeKeyResponseView, CborError> {
        |item: Item| UpgradeKeyResponseView::from_item(item)
    }

    /// Reading the CBOR form gives the value back.
    pub proof fn lemma_round_trip(self)
        ensures
            Self::from_item(self.item()) == Ok::<UpgradeKeyResponseView, CborError>(self),
    {
        let a = self.item()->Array_0;
        assert(tuple_of(self.item(), 1) == Ok::<Seq<Item>, CborError>(a));
        assert(a[0] == Item::Bytes(self.ret));
    }
}

impl UpgradeKeyResponse {
    /// A copy of this value.
    pub fn duplicate(&self) -> (r: UpgradeKeyResponse)
        ensures
            r@ == self@,
    {
        UpgradeKeyResponse {
            ret: copy_bytes(self.ret.as_slice()),
        }
    }

    /// Writes this value as the array of its fields.
    pub fn to_cbor_value(&self) -> (r: CborValue)
        ensures
            r@ == self@.item(),
    {
        let mut a: Vec<CborValue> = Vec::new();
        a.push(bytes_value(self.ret.as_slice()));
        assert(items_of(a@) =~= self@.item()->Array_0);
        array_value(a)
    }

    /// Reads a value from the array of its fields.
    pub fn from_cbor_value(v: &CborValue) -> (r: Result<UpgradeKeyResponse, CborError>)
        ensures
            result_view(r) == UpgradeKeyResponseView::from_item(v@),
    {
        let a = match value_tuple(v, 1) {
            Err(e) => { return Err(e); },
            Ok(a) => a,
        };
        assert(items_of(a@)[0] == a@[0]@);
        let ret = match value_bytes(&a[0]) {
            Err(e) => { return Err(e); },
            Ok(x) => x,
        };
        Ok(UpgradeKeyResponse { ret })
    }
}

/// Request to delete key.
#[derive(Clone, Debug, PartialEq, Eq)]
pub struct DeleteKeyRequest {
    pub key_blob: Vec<u8>,
}

/// The content of a [`DeleteKeyRequest`].
pub ghost struct DeleteKeyRequestView {
    pub key_blob: Seq<u8>,
}

impl View for DeleteKeyRequest {
    type V = DeleteKeyRequestView;

    open spec fn view(&self) -> DeleteKeyRequestView {
        DeleteKeyRequestView {
            key_blob: self.key_blob@,
        }
    }
}

impl DeleteKeyRequestView {
    /// The CBOR form: the array of the fields in order.
    pub open spec fn item(self) -> Item {
        Item::Array(
            seq![
                Item::Bytes(self.key_blob),
            ],
        )
    }

    /// What [`DeleteKeyRequest::from_cbor_value`] makes of an item: an array of exactly
    /// 1 element, read in order.
    pub open spec fn from_item(item: Item) -> Result<DeleteKeyRequestView, CborError> {
        match tuple_of(item, 1) {
            Err(e) => Err(e),
            Ok(a) => match bytes_of(a[0]) {
                Err(e) => Err(e),
                Ok(key_blob) => Ok(DeleteKeyRequestView { key_blob }),
            },
        }
    }

    /// How a [`DeleteKeyRequest`] is written.
    pub open spec fn encoder() -> spec_fn(DeleteKeyRequestView) -> Item {
        |x: DeleteKeyRequestView| x.item()
    }

    /// How a [`DeleteKeyRequest`] is read.
    pub open spec fn decoder() -> spec_fn(Item) -> Result<DeleteKeyRequestView, CborError> {
        |item: Item| DeleteKeyRequestView::from_item(item)
    }

    /// Reading the CBOR form gives the value back.
    pub proof fn lemma_round_trip(self)
        ensures
            Self::from_item(self.item()) == Ok::<DeleteKeyRequestView, CborError>(self),
    {
        let a = self.item()->Array_0;
        assert(tuple_of(self.item(), 1) == Ok::<Seq<Item>, CborError>(a));
        assert(a[0] == Item::Bytes(self.key_blob));
    }
}

impl DeleteKeyRequest {
    /// A copy of this value.
    pub fn duplicate(&self) -> (r: DeleteKeyRequest)
        ensures
            r@ == self@,
    {
        DeleteKeyRequest {
            key_blob: copy_bytes(self.key_blob.as_slice()),
        }
    }

    /// Writes this value as the array of its fields.
    pub fn to_cbor_value(&self) -> (r: CborValue)
        ensures
            r@ == self@.item(),
    {
        let mut a: Vec<CborValue> = Vec::new();
        a.push(bytes_value(self.key_blob.as_slice()));
        assert(items_of(a@) =~= self@.item()->Array_0);
        array_value(a)
    }

    /// Reads a value from the array of its fields.
    pub fn from_cbor_value(v: &CborValue) -> (r: Result<DeleteKeyRequest, CborError>)
        ensures
            result_view(r) == DeleteKeyRequestView::from_item(v@),
    {
        let a = match value_tuple(v, 1) {
            Err(e) => { return Err(e); },
            Ok(a) => a,
        };
        assert(items_of(a@)[0] == a@[0]@);
        let key_blob = match value_bytes(&a[0]) {
            Err(e) => { return Err(e); },
            Ok(x) => x,
        };
        Ok(DeleteKeyRequest { key_blob })
    }
}

/// Response to a request to delete key.
#[derive(Clone, Copy, Debug, PartialEq, Eq, Structural)]
pub struct DeleteKeyResponse {}

impl DeleteKeyResponse {
    /// The CBOR form: the array of the fields in order.
    pub open spec fn item(self) -> Item {
        Item::Array(Seq::empty())
    }

    /// What [`DeleteKeyResponse::from_cbor_value`] makes of an item: an array of exactly
    /// 0 elements, read in order.
    pub open spec fn from_item(item: Item) -> Result<DeleteKeyResponse, CborError> {
        match tuple_of(item, 0) {
            Err(e) => Err(e),
            Ok(a) => Ok(DeleteKeyResponse {}),
        }
    }

    /// Reading the CBOR form gives the value back.
    pub proof fn lemma_round_trip(self)
        ensures
            Self::from_item(self.item()) == Ok::<DeleteKeyResponse, CborError>(self),
    {
        assert(tuple_of(self.item(), 0) == Ok::<Seq<Item>, CborError>(Seq::empty()));
    }
}

impl DeleteKeyResponse {
    /// Writes this value as the array of its fields.
    pub fn to_cbor_value(&self) -> (r: CborValue)
        ensures
            r@ == self.item(),
    {
        let mut a: Vec<CborValue> = Vec::new();
        assert(items_of(a@) =~= Seq::<Item>::empty());
        array_value(a)
    }

    /// Reads a value from the array of its fields.
    pub fn from_cbor_value(v: &CborValue) -> (r: Result<DeleteKeyResponse, CborError>)
        ensures
            r == DeleteKeyResponse::from_item(v@),
    {
        let a = match value_tuple(v, 0) {
            Err(e) => { return Err(e); },
            Ok(a) => a,
        };
        Ok(DeleteKeyResponse {})
    }
}

/// Request to delete all keys.
#[derive(Clone, Copy, Debug, PartialEq, Eq, Structural)]
pub struct DeleteAllKeysRequest {}

impl DeleteAllKeysRequest {
    /// The CBOR form: the array of the fields in order.
    pub open spec fn item(self) -> Item {
        Item::Array(Seq::empty())
    }

    /// What [`DeleteAllKeysRequest::from_cbor_value`] makes of an item: an array of exactly
    /// 0 elements, read in order.
    pub open spec fn from_item(item: Item) -> Result<DeleteAllKeysRequest, CborError> {
        match tuple_of(item, 0) {
            Err(e) => Err(e),
            Ok(a) => Ok(DeleteAllKeysRequest {}),
        }
    }

    /// Reading the CBOR form gives the value back.
    pub proof fn lemma_round_trip(self)
        ensures
            Self::from_item(self.item()) == Ok::<DeleteAllKeysRequest, CborError>(self),
    {
        assert(tuple_of(self.item(), 0) == Ok::<Seq<Item>, CborError>(Seq::empty()));
    }
}

impl DeleteAllKeysRequest {
    /// Writes this value as the array of its fields.
    pub fn to_cbor_value(&self) -> (r: CborValue)
        ensures
            r@ == self.item(),
    {
        let mut a: Vec<CborValue> = Vec::new();
        assert(items_of(a@) =~= Seq::<Item>::empty());
        array_value(a)
    }

    /// Reads a value from the array of its fields.
    pub fn from_cbor_value(v: &CborValue) -> (r: Result<DeleteAllKeysRequest, CborError>)
        ensures
            r == DeleteAllKeysRequest::from_item(v@),
    {
        let a = match value_tuple(v, 0) {
            Err(e) => { return Err(e); },
            Ok(a) => a,
        };
        Ok(DeleteAllKeysRequest {})
    }
}

/// Response to a request to delete all keys.
#[derive(Clone, Copy, Debug, PartialEq, Eq, Structural)]
pub struct DeleteAllKeysResponse {}

impl DeleteAllKeysResponse {
    /// The CBOR form: the array of the fields in order.
    pub open spec fn item(self) -> Item {
        Item::Array(Seq::empty())
    }

    /// What [`DeleteAllKeysResponse::from_cbor_value`] makes of an item: an array of exactly
    /// 0 elements, read in order.
    pub open spec fn from_item(item: Item) -> Result<DeleteAllKeysResponse, CborError> {
        match tuple_of(item, 0) {
            Err(e) => Err(e),
            Ok(a) => Ok(DeleteAllKeysResponse {}),
        }
    }

    /// Reading the CBOR form gives the value back.
    pub proof fn lemma_round_trip(self)
        ensures
            Self::from_item(self.item()) == Ok::<DeleteAllKeysResponse, CborError>(self),
    {
        assert(tuple_of(self.item(), 0) == Ok::<Seq<Item>, CborError>(Seq::empty()));
    }
}

impl DeleteAllKeysResponse {
    /// Writes this value as the array of its fields.
    pub fn to_cbor_value(&self) -> (r: CborValue)
        ensures
            r@ == self.item(),
    {
        let mut a: Vec<CborValue> = Vec::new();
        assert(items_of(a@) =~= Seq::<Item>::empty());
        array_value(a)
    }

    /// Reads a value from the array of its fields.
    pub fn from_cbor_value(v: &CborValue) -> (r: Result<DeleteAllKeysResponse, CborError>)
        ensures
            r == DeleteAllKeysResponse::from_item(v@),
    {
        let a = match value_tuple(v, 0) {
            Err(e) => { return Err(e); },
            Ok(a) => a,
        };
        Ok(DeleteAllKeysResponse {})
    }
}

/// Request to destroy attestation ids.
#[derive(Clone, Copy, Debug, PartialEq, Eq, Structural)]
pub struct DestroyAttestationIdsRequest {}

impl DestroyAttestationIdsRequest {
    /// The CBOR form: the array of the fields in order.
    pub open spec fn item(self) -> Item {
        Item::Array(Seq::empty())
    }

    /// What [`DestroyAttestationIdsRequest::from_cbor_value`] makes of an item: an array of exactly
    /// 0 elements, read in order.
    pub open spec fn from_item(item: Item) -> Result<DestroyAttestationIdsRequest, CborError> {
        match tuple_of(item, 0) {
            Err(e) => Err(e),
            Ok(a) => Ok(DestroyAttestationIdsRequest {}),
        }
    }

    /// Reading the CBOR form gives the value back.
    pub proof fn lemma_round_trip(self)
        ensures
            Self::from_item(self.item()) == Ok::<DestroyAttestationIdsRequest, CborError>(self),
    {
        assert(tuple_of(self.item(), 0) == Ok::<Seq<Item>, CborError>(Seq::empty()));
    }
}

impl DestroyAttestationIdsRequest {
    /// Writes this value as the array of its fields.
    pub fn to_cbor_value(&self) -> (r: CborValue)
        ensures
            r@ == self.item(),
    {
        let mut a: Vec<CborValue> = Vec::new();
        assert(items_of(a@) =~= Seq::<Item>::empty());
        array_value(a)
    }

    /// Reads a value from the array of its fields.
    pub fn from_cbor_value(v: &CborValue) -> (r: Result<DestroyAttestationIdsRequest, CborError>)
        ensures
            r == DestroyAttestationIdsRequest::from_item(v@),
    {
        let a = match value_tuple(v, 0) {
            Err(e) => { return Err(e); },
            Ok(a) => a,
        };
        Ok(DestroyAttestationIdsRequest {})
    }
}

/// Response to a request to destroy attestation ids.
#[derive(Clone, Copy, Debug, PartialEq, Eq, Structural)]
pub struct DestroyAttestationIdsResponse {}

impl DestroyAttestationIdsResponse {
    /// The CBOR form: the array of the fields in order.
    pub open spec fn item(self) -> Item {
        Item::Array(Seq::empty())
    }

    /// What [`DestroyAttestationIdsResponse::from_cbor_value`] makes of an
    /// item: an array of exactly
    /// 0 elements, read in order.
    pub open spec fn from_item(item: Item) -> Result<DestroyAttestationIdsResponse, CborError> {
        match tuple_of(item, 0) {
            Err(e) => Err(e),
            Ok(a) => Ok(DestroyAttestationIdsResponse {}),
        }
    }

    /// Reading the CBOR form gives the value back.
    pub proof fn lemma_round_trip(self)
        ensures
            Self::from_item(self.item()) == Ok::<DestroyAttestationIdsResponse, CborError>(self),
    {
        assert(tuple_of(self.item(), 0) == Ok::<Seq<Item>, CborError>(Seq::empty()));
    }
}

impl DestroyAttestationIdsResponse {
    /// Writes this value as the array of its fields.
    pub fn to_cbor_value(&self) -> (r: CborValue)
        ensures
            r@ == self.item(),
    {
        let mut a: Vec<CborValue> = Vec::new();
        assert(items_of(a@) =~= Seq::<Item>::empty());
        array_value(a)
    }

    /// Reads a value from the array of its fields.
    pub fn from_cbor_value(v: &CborValue) -> (r: Result<DestroyAttestationIdsResponse, CborError>)
        ensures
            r == DestroyAttestationIdsResponse::from_item(v@),
    {
        let a = match value_tuple(v, 0) {
            Err(e) => { return Err(e); },
            Ok(a) => a,
        };
        Ok(DestroyAttestationIdsResponse {})
    }
}

/// Request to begin.
#[derive(Clone, Debug, PartialEq, Eq)]
pub struct BeginRequest {
    pub purpose: KeyPurpose,
    pub key_blob: Vec<u8>,
    pub params: Vec<KeyParam>,
    pub auth_token: Option<HardwareAuthToken>,
}

/// The content of a [`BeginRequest`].
pub ghost struct BeginRequestView {
    pub purpose: KeyPurpose,
    pub key_blob: Seq<u8>,
    pub params: Seq<KeyParamView>,
    pub auth_token: Option<HardwareAuthTokenView>,
}

impl View for BeginRequest {
    type V = BeginRequestView;

    open spec fn view(&self) -> BeginRequestView {
        BeginRequestView {
            purpose: self.purpose,
            key_blob: self.key_blob@,
            params: views(self.params@),
            auth_token: option_view(self.auth_token),
        }
    }
}

impl BeginRequestView {
    /// The CBOR form: the array of the fields in order.
    pub open spec fn item(self) -> Item {
        Item::Array(
            seq![
                Item::Integer(self.purpose.code()),
                Item::Bytes(self.key_blob),
                params_item(self.params),
                option_item(
            match self.auth_token {
                None => None,
                Some(x) => Some(x.item()),
            },
        ),
            ],
        )
    }

    /// What [`BeginRequest::from_cbor_value`] makes of an item: an array of exactly
    /// 4 elements, read in order.
    pub open spec fn from_item(item: Item) -> Result<BeginRequestView, CborError> {
        match tuple_of(item, 4) {
            Err(e) => Err(e),
            Ok(a) => match KeyPurpose::from_item(a[0]) {
                Err(e) => Err(e),
                Ok(purpose) => match bytes_of(a[1]) {
                    Err(e) => Err(e),
                    Ok(key_blob) => match params_from_item(a[2]) {
                        Err(e) => Err(e),
                        Ok(params) => match decode_option(a[3], HardwareAuthTokenView::decoder()) {
                            Err(e) => Err(e),
                            Ok(auth_token) => Ok(
                                BeginRequestView { purpose, key_blob, params, auth_token },
                            ),
                        },
                    },
                },
            },
        }
    }

    /// How a [`BeginRequest`] is written.
    pub open spec fn encoder() -> spec_fn(BeginRequestView) -> Item {
        |x: BeginRequestView| x.item()
    }

    /// How a [`BeginRequest`] is read.
    pub open spec fn decoder() -> spec_fn(Item) -> Result<BeginRequestView, CborError> {
        |item: Item| BeginRequestView::from_item(item)
    }

    /// Reading the CBOR form gives the value back.
    pub proof fn lemma_round_trip(self)
        ensures
            Self::from_item(self.item()) == Ok::<BeginRequestView, CborError>(self),
    {
        let a = self.item()->Array_0;
        assert(tuple_of(self.item(), 4) == Ok::<Seq<Item>, CborError>(a));
        assert(a[0] == Item::Integer(self.purpose.code()));
        assert(a[1] == Item::Bytes(self.key_blob));
        assert(a[2] == params_item(self.params));
        assert(a[3] == option_item(
            match self.auth_token {
                None => None,
                Some(x) => Some(x.item()),
            },
        ));
        self.purpose.lemma_round_trip();
        lemma_params_round_trip(self.params);
        match self.auth_token { Some(x) => { x.lemma_round_trip(); }, None => {}, }
        lemma_decode_option_round_trip(
            self.auth_token,
            HardwareAuthTokenView::encoder(),
            HardwareAuthTokenView::decoder(),
        );
    }
}

impl BeginRequest {
    /// A copy of this value.
    pub fn duplicate(&self) -> (r: BeginRequest)
        ensures
            r@ == self@,
    {
        BeginRequest {
            purpose: self.purpose,
            key_blob: copy_bytes(self.key_blob.as_slice()),
            params: duplicate_params(&self.params),
            auth_token: match &self.auth_token {
                None => None,
                Some(x) => Some(x.duplicate()),
            },
        }
    }

    /// Writes this value as the array of its fields.
    pub fn to_cbor_value(&self) -> (r: CborValue)
        ensures
            r@ == self@.item(),
    {
        let mut a: Vec<CborValue> = Vec::new();
        a.push(self.purpose.to_cbor_value());
        a.push(bytes_value(self.key_blob.as_slice()));
        a.push(params_to_cbor_value(&self.params));
        a.push(opt_hardware_auth_token_to_cbor_value(&self.auth_token));
        assert(items_of(a@) =~= self@.item()->Array_0);
        array_value(a)
    }

    /// Reads a value from the array of its fields.
    pub fn from_cbor_value(v: &CborValue) -> (r: Result<BeginRequest, CborError>)
        ensures
            result_view(r) == BeginRequestView::from_item(v@),
    {
        let a = match value_tuple(v, 4) {
            Err(e) => { return Err(e); },
            Ok(a) => a,
        };
        assert(items_of(a@)[0] == a@[0]@);
        assert(items_of(a@)[1] == a@[1]@);
        assert(items_of(a@)[2] == a@[2]@);
        assert(items_of(a@)[3] == a@[3]@);
        let purpose = match KeyPurpose::from_cbor_value(&a[0]) {
            Err(e) => { return Err(e); },
            Ok(x) => x,
        };
        let key_blob = match value_bytes(&a[1]) {
            Err(e) => { return Err(e); },
            Ok(x) => x,
        };
        let params = match params_from_cbor_value(&a[2]) {
            Err(e) => { return Err(e); },
            Ok(x) => x,
        };
        let auth_token = match opt_hardware_auth_token_from_cbor_value(&a[3]) {
            Err(e) => { return Err(e); },
            Ok(x) => x,
        };
        Ok(BeginRequest { purpose, key_blob, params, auth_token })
    }
}

/// Response to a request to begin.
#[derive(Clone, Debug, PartialEq, Eq)]
pub struct BeginResponse {
    pub ret: InternalBeginResult,
}

/// The content of a [`BeginResponse`].
pub ghost struct BeginResponseView {
    pub ret: InternalBeginResultView,
}

impl View for BeginResponse {
    type V = BeginResponseView;

    open spec fn view(&self) -> BeginResponseView {
        BeginResponseView {
            ret: self.ret@,
        }
    }
}

impl BeginResponseView {
    /// The CBOR form: the array of the fields in order.
    pub open spec fn item(self) -> Item {
        Item::Array(
            seq![
                self.ret.item(),
            ],
        )
    }

    /// What [`BeginResponse::from_cbor_value`] makes of an item: an array of exactly
    /// 1 element, read in order.
    pub open spec fn from_item(item: Item) -> Result<BeginResponseView, CborError> {
        match tuple_of(item, 1) {
            Err(e) => Err(e),
            Ok(a) => match InternalBeginResultView::from_item(a[0]) {
                Err(e) => Err(e),
                Ok(ret) => Ok(BeginResponseView { ret }),
            },
        }
    }

    /// How a [`BeginResponse`] is written.
    pub open spec fn encoder() -> spec_fn(BeginResponseView) -> Item {
        |x: BeginResponseView| x.item()
    }

    /// How a [`BeginResponse`] is read.
    pub open spec fn decoder() -> spec_fn(Item) -> Result<BeginResponseView, CborError> {
        |item: Item| BeginResponseView::from_item(item)
    }

    /// Reading the CBOR form gives the value back.
    pub proof fn lemma_round_trip(self)
        ensures
            Self::from_item(self.item()) == Ok::<BeginResponseView, CborError>(self),
    {
        let a = self.item()->Array_0;
        assert(tuple_of(self.item(), 1) == Ok::<Seq<Item>, CborError>(a));
        assert(a[0] == self.ret.item());
        self.ret.lemma_round_trip();
    }
}

impl BeginResponse {
    /// A copy of this value.
    pub fn duplicate(&self) -> (r: BeginResponse)
        ensures
            r@ == self@,
    {
        BeginResponse {
            ret: self.ret.duplicate(),
        }
    }

    /// Writes this value as the array of its fields.
    pub fn to_cbor_value(&self) -> (r: CborValue)
        ensures
            r@ == self@.item(),
    {
        let mut a: Vec<CborValue> = Vec::new();
        a.push(self.ret.to_cbor_value());
        assert(items_of(a@) =~= self@.item()->Array_0);
        array_value(a)
    }

    /// Reads a value from the array of its fields.
    pub fn from_cbor_value(v: &CborValue) -> (r: Result<BeginResponse, CborError>)
        ensures
            result_view(r) == BeginResponseView::from_item(v@),
    {
        let a = match value_tuple(v, 1) {
            Err(e) => { return Err(e); },
            Ok(a) => a,
        };
        assert(items_of(a@)[0] == a@[0]@);
        let ret = match InternalBeginResult::from_cbor_value(&a[0]) {
            Err(e) => { return Err(e); },
            Ok(x) => x,
        };
        Ok(BeginResponse { ret })
    }
}

/// Request to device locked.
#[derive(Clone, Debug, PartialEq, Eq)]
pub struct DeviceLockedRequest {
    pub password_only: bool,
    pub timestamp_token: Option<TimeStampToken>,
}

/// The content of a [`DeviceLockedRequest`].
pub ghost struct DeviceLockedRequestView {
    pub password_only: bool,
    pub timestamp_token: Option<TimeStampTokenView>,
}

impl View for DeviceLockedRequest {
    type V = DeviceLockedRequestView;

    open spec fn view(&self) -> DeviceLockedRequestView {
        DeviceLockedRequestView {
            password_only: self.password_only,
            timestamp_token: option_view(self.timestamp_token),
        }
    }
}

impl DeviceLockedRequestView {
    /// The CBOR form: the array of the fields in order.
    pub open spec fn item(self) -> Item {
        Item::Array(
            seq![
                Item::Bool(self.password_only),
                option_item(
            match self.timestamp_token {
                None => None,
                Some(x) => Some(x.item()),
            },
        ),
            ],
        )
    }

    /// What [`DeviceLockedRequest::from_cbor_value`] makes of an item: an array of exactly
    /// 2 elements, read in order.
    pub open spec fn from_item(item: Item) -> Result<DeviceLockedRequestView, CborError> {
        match tuple_of(item, 2) {
            Err(e) => Err(e),
            Ok(a) => match bool_of(a[0]) {
                Err(e) => Err(e),
                Ok(password_only) => match decode_option(a[1], TimeStampTokenView::decoder()) {
                    Err(e) => Err(e),
                    Ok(timestamp_token) => Ok(
                        DeviceLockedRequestView { password_only, timestamp_token },
                    ),
                },
            },
        }
    }

    /// How a [`DeviceLockedRequest`] is written.
    pub open spec fn encoder() -> spec_fn(DeviceLockedRequestView) -> Item {
        |x: DeviceLockedRequestView| x.item()
    }

    /// How a [`DeviceLockedRequest`] is read.
    pub open spec fn decoder() -> spec_fn(Item) -> Result<DeviceLockedRequestView, CborError> {
        |item: Item| DeviceLockedRequestView::from_item(item)
    }

    /// Reading the CBOR form gives the value back.
    pub proof fn lemma_round_trip(self)
        ensures
            Self::from_item(self.item()) == Ok::<DeviceLockedRequestView, CborError>(self),
    {
        let a = self.item()->Array_0;
        assert(tuple_of(self.item(), 2) == Ok::<Seq<Item>, CborError>(a));
        assert(a[0] == Item::Bool(self.password_only));
        assert(a[1] == option_item(
            match self.timestamp_token {
                None => None,
                Some(x) => Some(x.item()),
            },
        ));
        match self.timestamp_token { Some(x) => { x.lemma_round_trip(); }, None => {}, }
        lemma_decode_option_round_trip(
            self.timestamp_token,
            TimeStampTokenView::encoder(),
            TimeStampTokenView::decoder(),
        );
    }
}

impl DeviceLockedRequest {
    /// A copy of this value.
    pub fn duplicate(&self) -> (r: DeviceLockedRequest)
        ensures
            r@ == self@,
    {
        DeviceLockedRequest {
            password_only: self.password_only,
            timestamp_token: match &self.timestamp_token {
                None => None,
                Some(x) => Some(x.duplicate()),
            },
        }
    }

    /// Writes this value as the array of its fields.
    pub fn to_cbor_value(&self) -> (r: CborValue)
        ensures
            r@ == self@.item(),
    {
        let mut a: Vec<CborValue> = Vec::new();
        a.push(CborValue::Bool(self.password_only));
        a.push(opt_time_stamp_token_to_cbor_value(&self.timestamp_token));
        assert(items_of(a@) =~= self@.item()->Array_0);
        array_value(a)
    }

    /// Reads a value from the array of its fields.
    pub fn from_cbor_value(v: &CborValue) -> (r: Result<DeviceLockedRequest, CborError>)
        ensures
            result_view(r) == DeviceLockedRequestView::from_item(v@),
    {
        let a = match value_tuple(v, 2) {
            Err(e) => { return Err(e); },
            Ok(a) => a,
        };
        assert(items_of(a@)[0] == a@[0]@);
        assert(items_of(a@)[1] == a@[1]@);
        let password_only = match value_bool(&a[0]) {
            Err(e) => { return Err(e); },
            Ok(x) => x,
        };
        let timestamp_token = match opt_time_stamp_token_from_cbor_value(&a[1]) {
            Err(e) => { return Err(e); },
            Ok(x) => x,
        };
        Ok(DeviceLockedRequest { password_only, timestamp_token })
    }
}

/// Response to a request to device locked.
#[derive(Clone, Copy, Debug, PartialEq, Eq, Structural)]
pub struct DeviceLockedResponse {}

impl DeviceLockedResponse {
    /// The CBOR form: the array of the fields in order.
    pub open spec fn item(self) -> Item {
        Item::Array(Seq::empty())
    }

    /// What [`DeviceLockedResponse::from_cbor_value`] makes of an item: an array of exactly
    /// 0 elements, read in order.
    pub open spec fn from_item(item: Item) -> Result<DeviceLockedResponse, CborError> {
        match tuple_of(item, 0) {
            Err(e) => Err(e),
            Ok(a) => Ok(DeviceLockedResponse {}),
        }
    }

    /// Reading the CBOR form gives the value back.
    pub proof fn lemma_round_trip(self)
        ensures
            Self::from_item(self.item()) == Ok::<DeviceLockedResponse, CborError>(self),
    {
        assert(tuple_of(self.item(), 0) == Ok::<Seq<Item>, CborError>(Seq::empty()));
    }
}

impl DeviceLockedResponse {
    /// Writes this value as the array of its fields.
    pub fn to_cbor_value(&self) -> (r: CborValue)
        ensures
            r@ == self.item(),
    {
        let mut a: Vec<CborValue> = Vec::new();
        assert(items_of(a@) =~= Seq::<Item>::empty());
        array_value(a)
    }

    /// Reads a value from the array of its fields.
    pub fn from_cbor_value(v: &CborValue) -> (r: Result<DeviceLockedResponse, CborError>)
        ensures
            r == DeviceLockedResponse::from_item(v@),
    {
        let a = match value_tuple(v, 0) {
            Err(e) => { return Err(e); },
            Ok(a) => a,
        };
        Ok(DeviceLockedResponse {})
    }
}

/// Request to early boot ended.
#[derive(Clone, Copy, Debug, PartialEq, Eq, Structural)]
pub struct EarlyBootEndedRequest {}

impl EarlyBootEndedRequest {
    /// The CBOR form: the array of the fields in order.
    pub open spec fn item(self) -> Item {
        Item::Array(Seq::empty())
    }

    /// What [`EarlyBootEndedRequest::from_cbor_value`] makes of an item: an array of exactly
    /// 0 elements, read in order.
    pub open spec fn from_item(item: Item) -> Result<EarlyBootEndedRequest, CborError> {
        match tuple_of(item, 0) {
            Err(e) => Err(e),
            Ok(a) => Ok(EarlyBootEndedRequest {}),
        }
    }

    /// Reading the CBOR form gives the value back.
    pub proof fn lemma_round_trip(self)
        ensures
            Self::from_item(self.item()) == Ok::<EarlyBootEndedRequest, CborError>(self),
    {
        assert(tuple_of(self.item(), 0) == Ok::<Seq<Item>, CborError>(Seq::empty()));
    }
}

impl EarlyBootEndedRequest {
    /// Writes this value as the array of its fields.
    pub fn to_cbor_value(&self) -> (r: CborValue)
        ensures
            r@ == self.item(),
    {
        let mut a: Vec<CborValue> = Vec::new();
        assert(items_of(a@) =~= Seq::<Item>::empty());
        array_value(a)
    }

    /// Reads a value from the array of its fields.
    pub fn from_cbor_value(v: &CborValue) -> (r: Result<EarlyBootEndedRequest, CborError>)
        ensures
            r == EarlyBootEndedRequest::from_item(v@),
    {
        let a = match value_tuple(v, 0) {
            Err(e) => { return Err(e); },
            Ok(a) => a,
        };
        Ok(EarlyBootEndedRequest {})
    }
}

/// Response to a request to early boot ended.
#[derive(Clone, Copy, Debug, PartialEq, Eq, Structural)]
pub struct EarlyBootEndedResponse {}

impl EarlyBootEndedResponse {
    /// The CBOR form: the array of the fields in order.
    pub open spec fn item(self) -> Item {
        Item::Array(Seq::empty())
    }

    /// What [`EarlyBootEndedResponse::from_cbor_value`] makes of an item: an array of exactly
    /// 0 elements, read in order.
    pub open spec fn from_item(item: Item) -> Result<EarlyBootEndedResponse, CborError> {
        match tuple_of(item, 0) {
            Err(e) => Err(e),
            Ok(a) => Ok(EarlyBootEndedResponse {}),
        }
    }

    /// Reading the CBOR form gives the value back.
    pub proof fn lemma_round_trip(self)
        ensures
            Self::from_item(self.item()) == Ok::<EarlyBootEndedResponse, CborError>(self),
    {
        assert(tuple_of(self.item(), 0) == Ok::<Seq<Item>, CborError>(Seq::empty()));
    }
}

impl EarlyBootEndedResponse {
    /// Writes this value as the array of its fields.
    pub fn to_cbor_value(&self) -> (r: CborValue)
        ensures
            r@ == self.item(),
    {
        let mut a: Vec<CborValue> = Vec::new();
        assert(items_of(a@) =~= Seq::<Item>::empty());
        array_value(a)
    }

    /// Reads a value from the array of its fields.
    pub fn from_cbor_value(v: &CborValue) -> (r: Result<EarlyBootEndedResponse, CborError>)
        ensures
            r == EarlyBootEndedResponse::from_item(v@),
    {
        let a = match value_tuple(v, 0) {
            Err(e) => { return Err(e); },
            Ok(a) => a,
        };
        Ok(EarlyBootEndedResponse {})
    }
}

/// Request to convert storage key to ephemeral.
#[derive(Clone, Debug, PartialEq, Eq)]
pub struct ConvertStorageKeyToEphemeralRequest {
    pub storage_key_blob: Vec<u8>,
}

/// The content of a [`ConvertStorageKeyToEphemeralRequest`].
pub ghost struct ConvertStorageKeyToEphemeralRequestView {
    pub storage_key_blob: Seq<u8>,
}

impl View for ConvertStorageKeyToEphemeralRequest {
    type V = ConvertStorageKeyToEphemeralRequestView;

    open spec fn view(&self) -> ConvertStorageKeyToEphemeralRequestView {
        ConvertStorageKeyToEphemeralRequestView {
            storage_key_blob: self.storage_key_blob@,
        }
    }
}

impl ConvertStorageKeyToEphemeralRequestView {
    /// The CBOR form: the array of the fields in order.
    pub open spec fn item(self) -> Item {
        Item::Array(
            seq![
                Item::Bytes(self.storage_key_blob),
            ],
        )
    }

    /// What [`ConvertStorageKeyToEphemeralRequest::from_cbor_value`] makes of
    /// an item: an array of exactly
    /// 1 element, read in order.
    pub open spec fn from_item(item: Item) -> Result<
        ConvertStorageKeyToEphemeralRequestView,
        CborError,
    > {
        match tuple_of(item, 1) {
            Err(e) => Err(e),
            Ok(a) => match bytes_of(a[0]) {
                Err(e) => Err(e),
                Ok(storage_key_blob) => Ok(
                    ConvertStorageKeyToEphemeralRequestView { storage_key_blob },
                ),
            },
        }
    }

    /// How a [`ConvertStorageKeyToEphemeralRequest`] is written.
    pub open spec fn encoder() -> spec_fn(ConvertStorageKeyToEphemeralRequestView) -> Item {
        |x: ConvertStorageKeyToEphemeralRequestView| x.item()
    }

    /// How a [`ConvertStorageKeyToEphemeralRequest`] is read.
    pub open spec fn decoder() -> spec_fn(Item) -> Result<
        ConvertStorageKeyToEphemeralRequestView,
        CborError,
    > {
        |item: Item| ConvertStorageKeyToEphemeralRequestView::from_item(item)
    }

    /// Reading the CBOR form gives the value back.
    pub proof fn lemma_round_trip(self)
        ensures
            Self::from_item(self.item()) == Ok::<ConvertStorageKeyToEphemeralRequestView, CborError>(self),
    {
        let a = self.item()->Array_0;
        assert(tuple_of(self.item(), 1) == Ok::<Seq<Item>, CborError>(a));
        assert(a[0] == Item::Bytes(self.storage_key_blob));
    }
}

impl ConvertStorageKeyToEphemeralRequest {
    /// A copy of this value.
    pub fn duplicate(&self) -> (r: ConvertStorageKeyToEphemeralRequest)
        ensures
            r@ == self@,
    {
        ConvertStorageKeyToEphemeralRequest {
            storage_key_blob: copy_bytes(self.storage_key_blob.as_slice()),
        }
    }

    /// Writes this value as the array of its fields.
    pub fn to_cbor_value(&self) -> (r: CborValue)
        ensures
            r@ == self@.item(),
    {
        let mut a: Vec<CborValue> = Vec::new();
        a.push(bytes_value(self.storage_key_blob.as_slice()));
        assert(items_of(a@) =~= self@.item()->Array_0);
        array_value(a)
    }

    /// Reads a value from the array of its fields.
    pub fn from_cbor_value(v: &CborValue) -> (r: Result<
        ConvertStorageKeyToEphemeralRequest,
        CborError,
    >)
        ensures
            result_view(r) == ConvertStorageKeyToEphemeralRequestView::from_item(v@),
    {
        let a = match value_tuple(v, 1) {
            Err(e) => { return Err(e); },
            Ok(a) => a,
        };
        assert(items_of(a@)[0] == a@[0]@);
        let storage_key_blob = match value_bytes(&a[0]) {
            Err(e) => { return Err(e); },
            Ok(x) => x,
        };
        Ok(ConvertStorageKeyToEphemeralRequest { storage_key_blob })
    }
}

/// Response to a request to convert storage key to ephemeral.
#[derive(Clone, Debug, PartialEq, Eq)]
pub struct ConvertStorageKeyToEphemeralResponse {
    pub ret: Vec<u8>,
}

/// The content of a [`ConvertStorageKeyToEphemeralResponse`].
pub ghost struct ConvertStorageKeyToEphemeralResponseView {
    pub ret: Seq<u8>,
}

impl View for ConvertStorageKeyToEphemeralResponse {
    type V = ConvertStorageKeyToEphemeralResponseView;

    open spec fn view(&self) -> ConvertStorageKeyToEphemeralResponseView {
        ConvertStorageKeyToEphemeralResponseView {
            ret: self.ret@,
        }
    }
}

impl ConvertStorageKeyToEphemeralResponseView {
    /// The CBOR form: the array of the fields in order.
    pub open spec fn item(self) -> Item {
        Item::Array(
            seq![
                Item::Bytes(self.ret),
            ],
        )
    }

    /// What [`ConvertStorageKeyToEphemeralResponse::from_cbor_value`] makes of
    /// an item: an array of exactly
    /// 1 element, read in order.
    pub open spec fn from_item(item: Item) -> Result<
        ConvertStorageKeyToEphemeralResponseView,
        CborError,
    > {
        match tuple_of(item, 1) {
            Err(e) => Err(e),
            Ok(a) => match bytes_of(a[0]) {
                Err(e) => Err(e),
                Ok(ret) => Ok(ConvertStorageKeyToEphemeralResponseView { ret }),
            },
        }
    }

    /// How a [`ConvertStorageKeyToEphemeralResponse`] is written.
    pub open spec fn encoder() -> spec_fn(ConvertStorageKeyToEphemeralResponseView) -> Item {
        |x: ConvertStorageKeyToEphemeralResponseView| x.item()
    }

    /// How a [`ConvertStorageKeyToEphemeralResponse`] is read.
    pub open spec fn decoder() -> spec_fn(Item) -> Result<
        ConvertStorageKeyToEphemeralResponseView,
        CborError,
    > {
        |item: Item| ConvertStorageKeyToEphemeralResponseView::from_item(item)
    }

    /// Reading the CBOR form gives the value back.
    pub proof fn lemma_round_trip(self)
        ensures
            Self::from_item(self.item()) == Ok::<ConvertStorageKeyToEphemeralResponseView, CborError>(self),
    {
        let a = self.item()->Array_0;
        assert(tuple_of(self.item(), 1) == Ok::<Seq<Item>, CborError>(a));
        assert(a[0] == Item::Bytes(self.ret));
    }
}

impl ConvertStorageKeyToEphemeralResponse {
    /// A copy of this value.
    pub fn duplicate(&self) -> (r: ConvertStorageKeyToEphemeralResponse)
        ensures
            r@ == self@,
    {
        ConvertStorageKeyToEphemeralResponse {
            ret: copy_bytes(self.ret.as_slice()),
        }
    }

    /// Writes this value as the array of its fields.
    pub fn to_cbor_value(&self) -> (r: CborValue)
        ensures
            r@ == self@.item(),
    {
        let mut a: Vec<CborValue> = Vec::new();
        a.push(bytes_value(self.ret.as_slice()));
        assert(items_of(a@) =~= self@.item()->Array_0);
        array_value(a)
    }

    /// Reads a value from the array of its fields.
    pub fn from_cbor_value(v: &CborValue) -> (r: Result<
        ConvertStorageKeyToEphemeralResponse,
        CborError,
    >)
        ensures
            result_view(r) == ConvertStorageKeyToEphemeralResponseView::from_item(v@),
    {
        let a = match value_tuple(v, 1) {
            Err(e) => { return Err(e); },
            Ok(a) => a,
        };
        assert(items_of(a@)[0] == a@[0]@);
        let ret = match value_bytes(&a[0]) {
            Err(e) => { return Err(e); },
            Ok(x) => x,
        };
        Ok(ConvertStorageKeyToEphemeralResponse { ret })
    }
}

/// Request to get key characteristics.
#[derive(Clone, Debug, PartialEq, Eq)]
pub struct GetKeyCharacteristicsRequest {
    pub key_blob: Vec<u8>,
    pub app_id: Vec<u8>,
    pub app_data: Vec<u8>,
}

/// The content of a [`GetKeyCharacteristicsRequest`].
pub ghost struct GetKeyCharacteristicsRequestView {
    pub key_blob: Seq<u8>,
    pub app_id: Seq<u8>,
    pub app_data: Seq<u8>,
}

impl View for GetKeyCharacteristicsRequest {
    type V = GetKeyCharacteristicsRequestView;

    open spec fn view(&self) -> GetKeyCharacteristicsRequestView {
        GetKeyCharacteristicsRequestView {
            key_blob: self.key_blob@,
            app_id: self.app_id@,
            app_data: self.app_data@,
        }
    }
}

impl GetKeyCharacteristicsRequestView {
    /// The CBOR form: the array of the fields in order.
    pub open spec fn item(self) -> Item {
        Item::Array(
            seq![
                Item::Bytes(self.key_blob),
                Item::Bytes(self.app_id),
                Item::Bytes(self.app_data),
            ],
        )
    }

    /// What [`GetKeyCharacteristicsRequest::from_cbor_value`] makes of an item: an array of exactly
    /// 3 elements, read in order.
    pub open spec fn from_item(item: Item) -> Result<GetKeyCharacteristicsRequestView, CborError> {
        match tuple_of(item, 3) {
            Err(e) => Err(e),
            Ok(a) => match bytes_of(a[0]) {
                Err(e) => Err(e),
                Ok(key_blob) => match bytes_of(a[1]) {
                    Err(e) => Err(e),
                    Ok(app_id) => match bytes_of(a[2]) {
                        Err(e) => Err(e),
                        Ok(app_data) => Ok(
                            GetKeyCharacteristicsRequestView { key_blob, app_id, app_data },
                        ),
                    },
                },
            },
        }
    }

    /// How a [`GetKeyCharacteristicsRequest`] is written.
    pub open spec fn encoder() -> spec_fn(GetKeyCharacteristicsRequestView) -> Item {
        |x: GetKeyCharacteristicsRequestView| x.item()
    }

    /// How a [`GetKeyCharacteristicsRequest`] is read.
    pub open spec fn decoder() -> spec_fn(Item) -> Result<
        GetKeyCharacteristicsRequestView,
        CborError,
    > {
        |item: Item| GetKeyCharacteristicsRequestView::from_item(item)
    }

    /// Reading the CBOR form gives the value back.
    pub proof fn lemma_round_trip(self)
        ensures
            Self::from_item(self.item()) == Ok::<GetKeyCharacteristicsRequestView, CborError>(self),
    {
        let a = self.item()->Array_0;
        assert(tuple_of(self.item(), 3) == Ok::<Seq<Item>, CborError>(a));
        assert(a[0] == Item::Bytes(self.key_blob));
        assert(a[1] == Item::Bytes(self.app_id));
        assert(a[2] == Item::Bytes(self.app_data));
    }
}

impl GetKeyCharacteristicsRequest {
    /// A copy of this value.
    pub fn duplicate(&self) -> (r: GetKeyCharacteristicsRequest)
        ensures
            r@ == self@,
    {
        GetKeyCharacteristicsRequest {
            key_blob: copy_bytes(self.key_blob.as_slice()),
            app_id: copy_bytes(self.app_id.as_slice()),
            app_data: copy_bytes(self.app_data.as_slice()),
        }
    }

    /// Writes this value as the array of its fields.
    pub fn to_cbor_value(&self) -> (r: CborValue)
        ensures
            r@ == self@.item(),
    {
        let mut a: Vec<CborValue> = Vec::new();
        a.push(bytes_value(self.key_blob.as_slice()));
        a.push(bytes_value(self.app_id.as_slice()));
        a.push(bytes_value(self.app_data.as_slice()));
        assert(items_of(a@) =~= self@.item()->Array_0);
        array_value(a)
    }

    /// Reads a value from the array of its fields.
    pub fn from_cbor_value(v: &CborValue) -> (r: Result<GetKeyCharacteristicsRequest, CborError>)
        ensures
            result_view(r) == GetKeyCharacteristicsRequestView::from_item(v@),
    {
        let a = match value_tuple(v, 3) {
            Err(e) => { return Err(e); },
            Ok(a) => a,
        };
        assert(items_of(a@)[0] == a@[0]@);
        assert(items_of(a@)[1] == a@[1]@);
        assert(items_of(a@)[2] == a@[2]@);
        let key_blob = match value_bytes(&a[0]) {
            Err(e) => { return Err(e); },
            Ok(x) => x,
        };
        let app_id = match value_bytes(&a[1]) {
            Err(e) => { return Err(e); },
            Ok(x) => x,
        };
        let app_data = match value_bytes(&a[2]) {
            Err(e) => { return Err(e); },
            Ok(x) => x,
        };
        Ok(GetKeyCharacteristicsRequest { key_blob, app_id, app_data })
    }
}

/// Response to a request to get key characteristics.
#[derive(Clone, Debug, PartialEq, Eq)]
pub struct GetKeyCharacteristicsResponse {
    pub ret: Vec<KeyCharacteristics>,
}

/// The content of a [`GetKeyCharacteristicsResponse`].
pub ghost struct GetKeyCharacteristicsResponseView {
    pub ret: Seq<KeyCharacteristicsView>,
}

impl View for GetKeyCharacteristicsResponse {
    type V = GetKeyCharacteristicsResponseView;

    open spec fn view(&self) -> GetKeyCharacteristicsResponseView {
        GetKeyCharacteristicsResponseView {
            ret: views(self.ret@),
        }
    }
}

impl GetKeyCharacteristicsResponseView {
    /// The CBOR form: the array of the fields in order.
    pub open spec fn item(self) -> Item {
        Item::Array(
            seq![
                characteristics_item(self.ret),
            ],
        )
    }

    /// What [`GetKeyCharacteristicsResponse::from_cbor_value`] makes of an
    /// item: an array of exactly
    /// 1 element, read in order.
    pub open spec fn from_item(item: Item) -> Result<GetKeyCharacteristicsResponseView, CborError> {
        match tuple_of(item, 1) {
            Err(e) => Err(e),
            Ok(a) => match characteristics_from_item(a[0]) {
                Err(e) => Err(e),
                Ok(ret) => Ok(GetKeyCharacteristicsResponseView { ret }),
            },
        }
    }

    /// How a [`GetKeyCharacteristicsResponse`] is written.
    pub open spec fn encoder() -> spec_fn(GetKeyCharacteristicsResponseView) -> Item {
        |x: GetKeyCharacteristicsResponseView| x.item()
    }

    /// How a [`GetKeyCharacteristicsResponse`] is read.
    pub open spec fn decoder() -> spec_fn(Item) -> Result<
        GetKeyCharacteristicsResponseView,
        CborError,
    > {
        |item: Item| GetKeyCharacteristicsResponseView::from_item(item)
    }

    /// Reading the CBOR form gives the value back.
    pub proof fn lemma_round_trip(self)
        ensures
            Self::from_item(self.item()) == Ok::<GetKeyCharacteristicsResponseView, CborError>(
                self,
            ),
    {
        let a = self.item()->Array_0;
        assert(tuple_of(self.item(), 1) == Ok::<Seq<Item>, CborError>(a));
        assert(a[0] == characteristics_item(self.ret));
        lemma_characteristics_round_trip(self.ret);
    }
}

impl GetKeyCharacteristicsResponse {
    /// A copy of this value.
    pub fn duplicate(&self) -> (r: GetKeyCharacteristicsResponse)
        ensures
            r@ == self@,
    {
        GetKeyCharacteristicsResponse {
            ret: duplicate_characteristics(&self.ret),
        }
    }

    /// Writes this value as the array of its fields.
    pub fn to_cbor_value(&self) -> (r: CborValue)
        ensures
            r@ == self@.item(),
    {
        let mut a: Vec<CborValue> = Vec::new();
        a.push(characteristics_to_cbor_value(&self.ret));
        assert(items_of(a@) =~= self@.item()->Array_0);
        array_value(a)
    }

    /// Reads a value from the array of its fields.
    pub fn from_cbor_value(v: &CborValue) -> (r: Result<GetKeyCharacteristicsResponse, CborError>)
        ensures
            result_view(r) == GetKeyCharacteristicsResponseView::from_item(v@),
    {
        let a = match value_tuple(v, 1) {
            Err(e) => { return Err(e); },
            Ok(a) => a,
        };
        assert(items_of(a@)[0] == a@[0]@);
        let ret = match characteristics_from_cbor_value(&a[0]) {
            Err(e) => { return Err(e); },
            Ok(x) => x,
        };
        Ok(GetKeyCharacteristicsResponse { ret })
    }
}

/// Request to update aad.
#[derive(Clone, Debug, PartialEq, Eq)]
pub struct UpdateAadRequest {
    pub op_handle: i64,
    pub input: Vec<u8>,
    pub auth_token: Option<HardwareAuthToken>,
    pub timestamp_token: Option<TimeStampToken>,
}

/// The content of a [`UpdateAadRequest`].
pub ghost struct UpdateAadRequestView {
    pub op_handle: i64,
    pub input: Seq<u8>,
    pub auth_token: Option<HardwareAuthTokenView>,
    pub timestamp_token: Option<TimeStampTokenView>,
}

impl View for UpdateAadRequest {
    type V = UpdateAadRequestView;

    open spec fn view(&self) -> UpdateAadRequestView {
        UpdateAadRequestView {
            op_handle: self.op_handle,
            input: self.input@,
            auth_token: option_view(self.auth_token),
            timestamp_token: option_view(self.timestamp_token),
        }
    }
}

impl UpdateAadRequestView {
    /// The CBOR form: the array of the fields in order.
    pub open spec fn item(self) -> Item {
        Item::Array(
            seq![
                Item::Integer(self.op_handle as int),
                Item::Bytes(self.input),
                option_item(
            match self.auth_token {
                None => None,
                Some(x) => Some(x.item()),
            },
        ),
                option_item(
            match self.timestamp_token {
                None => None,
                Some(x) => Some(x.item()),
            },
        ),
            ],
        )
    }

    /// What [`UpdateAadRequest::from_cbor_value`] makes of an item: an array of exactly
    /// 4 elements, read in order.
    pub open spec fn from_item(item: Item) -> Result<UpdateAadRequestView, CborError> {
        match tuple_of(item, 4) {
            Err(e) => Err(e),
            Ok(a) => match i64_of(a[0]) {
                Err(e) => Err(e),
                Ok(op_handle) => match bytes_of(a[1]) {
                    Err(e) => Err(e),
                    Ok(input) => match decode_option(a[2], HardwareAuthTokenView::decoder()) {
                        Err(e) => Err(e),
                        Ok(auth_token) => match decode_option(a[3], TimeStampTokenView::decoder()) {
                            Err(e) => Err(e),
                            Ok(timestamp_token) => Ok(
                                UpdateAadRequestView {
                                    op_handle,
                                    input,
                                    auth_token,
                                    timestamp_token,
                                },
                            ),
                        },
                    },
                },
            },
        }
    }

    /// How a [`UpdateAadRequest`] is written.
    pub open spec fn encoder() -> spec_fn(UpdateAadRequestView) -> Item {
        |x: UpdateAadRequestView| x.item()
    }

    /// How a [`UpdateAadRequest`] is read.
    pub open spec fn decoder() -> spec_fn(Item) -> Result<UpdateAadRequestView, CborError> {
        |item: Item| UpdateAadRequestView::from_item(item)
    }

    /// Reading the CBOR form gives the value back.
    pub proof fn lemma_round_trip(self)
        ensures
            Self::from_item(self.item()) == Ok::<UpdateAadRequestView, CborError>(self),
    {
        let a = self.item()->Array_0;
        assert(tuple_of(self.item(), 4) == Ok::<Seq<Item>, CborError>(a));
        assert(a[0] == Item::Integer(self.op_handle as int));
        assert(a[1] == Item::Bytes(self.input));
        assert(a[2] == option_item(
            match self.auth_token {
                None => None,
                Some(x) => Some(x.item()),
            },
        ));
        assert(a[3] == option_item(
            match self.timestamp_token {
                None => None,
                Some(x) => Some(x.item()),
            },
        ));
        match self.auth_token { Some(x) => { x.lemma_round_trip(); }, None => {}, }
        lemma_decode_option_round_trip(
            self.auth_token,
            HardwareAuthTokenView::encoder(),
            HardwareAuthTokenView::decoder(),
        );
        match self.timestamp_token { Some(x) => { x.lemma_round_trip(); }, None => {}, }
        lemma_decode_option_round_trip(
            self.timestamp_token,
            TimeStampTokenView::encoder(),
            TimeStampTokenView::decoder(),
        );
    }
}

impl UpdateAadRequest {
    /// A copy of this value.
    pub fn duplicate(&self) -> (r: UpdateAadRequest)
        ensures
            r@ == self@,
    {
        UpdateAadRequest {
            op_handle: self.op_handle,
            input: copy_bytes(self.input.as_slice()),
            auth_token: match &self.auth_token {
                None => None,
                Some(x) => Some(x.duplicate()),
            },
            timestamp_token: match &self.timestamp_token {
                None => None,
                Some(x) => Some(x.duplicate()),
            },
        }
    }

    /// Writes this value as the array of its fields.
    pub fn to_cbor_value(&self) -> (r: CborValue)
        ensures
            r@ == self@.item(),
    {
        let mut a: Vec<CborValue> = Vec::new();
        a.push(CborValue::Integer(self.op_handle as i128));
        a.push(bytes_value(self.input.as_slice()));
        a.push(opt_hardware_auth_token_to_cbor_value(&self.auth_token));
        a.push(opt_time_stamp_token_to_cbor_value(&self.timestamp_token));
        assert(items_of(a@) =~= self@.item()->Array_0);
        array_value(a)
    }

    /// Reads a value from the array of its fields.
    pub fn from_cbor_value(v: &CborValue) -> (r: Result<UpdateAadRequest, CborError>)
        ensures
            result_view(r) == UpdateAadRequestView::from_item(v@),
    {
        let a = match value_tuple(v, 4) {
            Err(e) => { return Err(e); },
            Ok(a) => a,
        };
        assert(items_of(a@)[0] == a@[0]@);
        assert(items_of(a@)[1] == a@[1]@);
        assert(items_of(a@)[2] == a@[2]@);
        assert(items_of(a@)[3] == a@[3]@);
        let op_handle = match value_i64(&a[0]) {
            Err(e) => { return Err(e); },
            Ok(x) => x,
        };
        let input = match value_bytes(&a[1]) {
            Err(e) => { return Err(e); },
            Ok(x) => x,
        };
        let auth_token = match opt_hardware_auth_token_from_cbor_value(&a[2]) {
            Err(e) => { return Err(e); },
            Ok(x) => x,
        };
        let timestamp_token = match opt_time_stamp_token_from_cbor_value(&a[3]) {
            Err(e) => { return Err(e); },
            Ok(x) => x,
        };
        Ok(UpdateAadRequest { op_handle, input, auth_token, timestamp_token })
    }
}

/// Response to a request to update aad.
#[derive(Clone, Copy, Debug, PartialEq, Eq, Structural)]
pub struct UpdateAadResponse {}

impl UpdateAadResponse {
    /// The CBOR form: the array of the fields in order.
    pub open spec fn item(self) -> Item {
        Item::Array(Seq::empty())
    }

    /// What [`UpdateAadResponse::from_cbor_value`] makes of an item: an array of exactly
    /// 0 elements, read in order.
    pub open spec fn from_item(item: Item) -> Result<UpdateAadResponse, CborError> {
        match tuple_of(item, 0) {
            Err(e) => Err(e),
            Ok(a) => Ok(UpdateAadResponse {}),
        }
    }

    /// Reading the CBOR form gives the value back.
    pub proof fn lemma_round_trip(self)
        ensures
            Self::from_item(self.item()) == Ok::<UpdateAadResponse, CborError>(self),
    {
        assert(tuple_of(self.item(), 0) == Ok::<Seq<Item>, CborError>(Seq::empty()));
    }
}

impl UpdateAadResponse {
    /// Writes this value as the array of its fields.
    pub fn to_cbor_value(&self) -> (r: CborValue)
        ensures
            r@ == self.item(),
    {
        let mut a: Vec<CborValue> = Vec::new();
        assert(items_of(a@) =~= Seq::<Item>::empty());
        array_value(a)
    }

    /// Reads a value from the array of its fields.
    pub fn from_cbor_value(v: &CborValue) -> (r: Result<UpdateAadResponse, CborError>)
        ensures
            r == UpdateAadResponse::from_item(v@),
    {
        let a = match value_tuple(v, 0) {
            Err(e) => { return Err(e); },
            Ok(a) => a,
        };
        Ok(UpdateAadResponse {})
    }
}

/// Request to update.
#[derive(Clone, Debug, PartialEq, Eq)]
pub struct UpdateRequest {
    pub op_handle: i64,
    pub input: Vec<u8>,
    pub auth_token: Option<HardwareAuthToken>,
    pub timestamp_token: Option<TimeStampToken>,
}

/// The content of a [`UpdateRequest`].
pub ghost struct UpdateRequestView {
    pub op_handle: i64,
    pub input: Seq<u8>,
    pub auth_token: Option<HardwareAuthTokenView>,
    pub timestamp_token: Option<TimeStampTokenView>,
}

impl View for UpdateRequest {
    type V = UpdateRequestView;

    open spec fn view(&self) -> UpdateRequestView {
        UpdateRequestView {
            op_handle: self.op_handle,
            input: self.input@,
            auth_token: option_view(self.auth_token),
            timestamp_token: option_view(self.timestamp_token),
        }
    }
}

impl UpdateRequestView {
    /// The CBOR form: the array of the fields in order.
    pub open spec fn item(self) -> Item {
        Item::Array(
            seq![
                Item::Integer(self.op_handle as int),
                Item::Bytes(self.input),
                option_item(
            match self.auth_token {
                None => None,
                Some(x) => Some(x.item()),
            },
        ),
                option_item(
            match self.timestamp_token {
                None => None,
                Some(x) => Some(x.item()),
            },
        ),
            ],
        )
    }

    /// What [`UpdateRequest::from_cbor_value`] makes of an item: an array of exactly
    /// 4 elements, read in order.
    pub open spec fn from_item(item: Item) -> Result<UpdateRequestView, CborError> {
        match tuple_of(item, 4) {
            Err(e) => Err(e),
            Ok(a) => match i64_of(a[0]) {
                Err(e) => Err(e),
                Ok(op_handle) => match bytes_of(a[1]) {
                    Err(e) => Err(e),
                    Ok(input) => match decode_option(a[2], HardwareAuthTokenView::decoder()) {
                        Err(e) => Err(e),
                        Ok(auth_token) => match decode_option(a[3], TimeStampTokenView::decoder()) {
                            Err(e) => Err(e),
                            Ok(timestamp_token) => Ok(
                                UpdateRequestView { op_handle, input, auth_token, timestamp_token },
                            ),
                        },
                    },
                },
            },
        }
    }

    /// How a [`UpdateRequest`] is written.
    pub open spec fn encoder() -> spec_fn(UpdateRequestView) -> Item {
        |x: UpdateRequestView| x.item()
    }

    /// How a [`UpdateRequest`] is read.
    pub open spec fn decoder() -> spec_fn(Item) -> Result<UpdateRequestView, CborError> {
        |item: Item| UpdateRequestView::from_item(item)
    }

    /// Reading the CBOR form gives the value back.
    pub proof fn lemma_round_trip(self)
        ensures
            Self::from_item(self.item()) == Ok::<UpdateRequestView, CborError>(self),
    {
        let a = self.item()->Array_0;
        assert(tuple_of(self.item(), 4) == Ok::<Seq<Item>, CborError>(a));
        assert(a[0] == Item::Integer(self.op_handle as int));
        assert(a[1] == Item::Bytes(self.input));
        assert(a[2] == option_item(
            match self.auth_token {
                None => None,
                Some(x) => Some(x.item()),
            },
        ));
        assert(a[3] == option_item(
            match self.timestamp_token {
                None => None,
                Some(x) => Some(x.item()),
            },
        ));
        match self.auth_token { Some(x) => { x.lemma_round_trip(); }, None => {}, }
        lemma_decode_option_round_trip(
            self.auth_token,
            HardwareAuthTokenView::encoder(),
            HardwareAuthTokenView::decoder(),
        );
        match self.timestamp_token { Some(x) => { x.lemma_round_trip(); }, None => {}, }
        lemma_decode_option_round_trip(
            self.timestamp_token,
            TimeStampTokenView::encoder(),
            TimeStampTokenView::decoder(),
        );
    }
}

impl UpdateRequest {
    /// A copy of this value.
    pub fn duplicate(&self) -> (r: UpdateRequest)
        ensures
            r@ == self@,
    {
        UpdateRequest {
            op_handle: self.op_handle,
            input: copy_bytes(self.input.as_slice()),
            auth_token: match &self.auth_token {
                None => None,
                Some(x) => Some(x.duplicate()),
            },
            timestamp_token: match &self.timestamp_token {
                None => None,
                Some(x) => Some(x.duplicate()),
            },
        }
    }

    /// Writes this value as the array of its fields.
    pub fn to_cbor_value(&self) -> (r: CborValue)
        ensures
            r@ == self@.item(),
    {
        let mut a: Vec<CborValue> = Vec::new();
        a.push(CborValue::Integer(self.op_handle as i128));
        a.push(bytes_value(self.input.as_slice()));
        a.push(opt_hardware_auth_token_to_cbor_value(&self.auth_token));
        a.push(opt_time_stamp_token_to_cbor_value(&self.timestamp_token));
        assert(items_of(a@) =~= self@.item()->Array_0);
        array_value(a)
    }

    /// Reads a value from the array of its fields.
    pub fn from_cbor_value(v: &CborValue) -> (r: Result<UpdateRequest, CborError>)
        ensures
            result_view(r) == UpdateRequestView::from_item(v@),
    {
        let a = match value_tuple(v, 4) {
            Err(e) => { return Err(e); },
            Ok(a) => a,
        };
        assert(items_of(a@)[0] == a@[0]@);
        assert(items_of(a@)[1] == a@[1]@);
        assert(items_of(a@)[2] == a@[2]@);
        assert(items_of(a@)[3] == a@[3]@);
        let op_handle = match value_i64(&a[0]) {
            Err(e) => { return Err(e); },
            Ok(x) => x,
        };
        let input = match value_bytes(&a[1]) {
            Err(e) => { return Err(e); },
            Ok(x) => x,
        };
        let auth_token = match opt_hardware_auth_token_from_cbor_value(&a[2]) {
            Err(e) => { return Err(e); },
            Ok(x) => x,
        };
        let timestamp_token = match opt_time_stamp_token_from_cbor_value(&a[3]) {
            Err(e) => { return Err(e); },
            Ok(x) => x,
        };
        Ok(UpdateRequest { op_handle, input, auth_token, timestamp_token })
    }
}

/// Response to a request to update.
#[derive(Clone, Debug, PartialEq, Eq)]
pub struct UpdateResponse {
    pub ret: Vec<u8>,
}

/// The content of a [`UpdateResponse`].
pub ghost struct UpdateResponseView {
    pub ret: Seq<u8>,
}

impl View for UpdateResponse {
    type V = UpdateResponseView;

    open spec fn view(&self) -> UpdateResponseView {
        UpdateResponseView {
            ret: self.ret@,
        }
    }
}

impl UpdateResponseView {
    /// The CBOR form: the array of the fields in order.
    pub open spec fn item(self) -> Item {
        Item::Array(
            seq![
                Item::Bytes(self.ret),
            ],
        )
    }

    /// What [`UpdateResponse::from_cbor_value`] makes of an item: an array of exactly
    /// 1 element, read in order.
    pub open spec fn from_item(item: Item) -> Result<UpdateResponseView, CborError> {
        match tuple_of(item, 1) {
            Err(e) => Err(e),
            Ok(a) => match bytes_of(a[0]) {
                Err(e) => Err(e),
                Ok(ret) => Ok(UpdateResponseView { ret }),
            },
        }
    }

    /// How a [`UpdateResponse`] is written.
    pub open spec fn encoder() -> spec_fn(UpdateResponseView) -> Item {
        |x: UpdateResponseView| x.item()
    }

    /// How a [`UpdateResponse`] is read.
    pub open spec fn decoder() -> spec_fn(Item) -> Result<UpdateResponseView, CborError> {
        |item: Item| UpdateResponseView::from_item(item)
    }

    /// Reading the CBOR form gives the value back.
    pub proof fn lemma_round_trip(self)
        ensures
            Self::from_item(self.item()) == Ok::<UpdateResponseView, CborError>(self),
    {
        let a = self.item()->Array_0;
        assert(tuple_of(self.item(), 1) == Ok::<Seq<Item>, CborError>(a));
        assert(a[0] == Item::Bytes(self.ret));
    }
}

impl UpdateResponse {
    /// A copy of this value.
    pub fn duplicate(&self) -> (r: UpdateResponse)
        ensures
            r@ == self@,
    {
        UpdateResponse {
            ret: copy_bytes(self.ret.as_slice()),
        }
    }

    /// Writes this value as the array of its fields.
    pub fn to_cbor_value(&self) -> (r: CborValue)
        ensures
            r@ == self@.item(),
    {
        let mut a: Vec<CborValue> = Vec::new();
        a.push(bytes_value(self.ret.as_slice()));
        assert(items_of(a@) =~= self@.item()->Array_0);
        array_value(a)
    }

    /// Reads a value from the array of its fields.
    pub fn from_cbor_value(v: &CborValue) -> (r: Result<UpdateResponse, CborError>)
        ensures
            result_view(r) == UpdateResponseView::from_item(v@),
    {
        let a = match value_tuple(v, 1) {
            Err(e) => { return Err(e); },
            Ok(a) => a,
        };
        assert(items_of(a@)[0] == a@[0]@);
        let ret = match value_bytes(&a[0]) {
            Err(e) => { return Err(e); },
            Ok(x) => x,
        };
        Ok(UpdateResponse { ret })
    }
}

/// Request to finish.
#[derive(Clone, Debug, PartialEq, Eq)]
pub struct FinishRequest {
    pub op_handle: i64,
    pub input: Option<Vec<u8>>,
    pub signature: Option<Vec<u8>>,
    pub auth_token: Option<HardwareAuthToken>,
    pub timestamp_token: Option<TimeStampToken>,
    pub confirmation_token: Option<Vec<u8>>,
}

/// The content of a [`FinishRequest`].
pub ghost struct FinishRequestView {
    pub op_handle: i64,
    pub input: Option<Seq<u8>>,
    pub signature: Option<Seq<u8>>,
    pub auth_token: Option<HardwareAuthTokenView>,
    pub timestamp_token: Option<TimeStampTokenView>,
    pub confirmation_token: Option<Seq<u8>>,
}

impl View for FinishRequest {
    type V = FinishRequestView;

    open spec fn view(&self) -> FinishRequestView {
        FinishRequestView {
            op_handle: self.op_handle,
            input: option_view(self.input),
            signature: option_view(self.signature),
            auth_token: option_view(self.auth_token),
            timestamp_token: option_view(self.timestamp_token),
            confirmation_token: option_view(self.confirmation_token),
        }
    }
}

impl FinishRequestView {
    /// The CBOR form: the array of the fields in order.
    pub open spec fn item(self) -> Item {
        Item::Array(
            seq![
                Item::Integer(self.op_handle as int),
                option_item(
            match self.input {
                None => None,
                Some(x) => Some(Item::Bytes(x)),
            },
        ),
                option_item(
            match self.signature {
                None => None,
                Some(x) => Some(Item::Bytes(x)),
            },
        ),
                option_item(
            match self.auth_token {
                None => None,
                Some(x) => Some(x.item()),
            },
        ),
                option_item(
            match self.timestamp_token {
                None => None,
                Some(x) => Some(x.item()),
            },
        ),
                option_item(
            match self.confirmation_token {
                None => None,
                Some(x) => Some(Item::Bytes(x)),
            },
        ),
            ],
        )
    }

    /// What [`FinishRequest::from_cbor_value`] makes of an item: an array of exactly
    /// 6 elements, read in order.
    pub open spec fn from_item(item: Item) -> Result<FinishRequestView, CborError> {
        match tuple_of(item, 6) {
            Err(e) => Err(e),
            Ok(a) => match i64_of(a[0]) {
                Err(e) => Err(e),
                Ok(op_handle) => match decode_option(a[1], bytes_decoder()) {
                    Err(e) => Err(e),
                    Ok(input) => match decode_option(a[2], bytes_decoder()) {
                        Err(e) => Err(e),
                        Ok(signature) => match decode_option(
                            a[3],
                            HardwareAuthTokenView::decoder(),
                        ) {
                            Err(e) => Err(e),
                            Ok(auth_token) => match decode_option(
                                a[4],
                                TimeStampTokenView::decoder(),
                            ) {
                                Err(e) => Err(e),
                                Ok(timestamp_token) => match decode_option(a[5], bytes_decoder()) {
                                    Err(e) => Err(e),
                                    Ok(confirmation_token) => Ok(
                                        FinishRequestView {
                                            op_handle,
                                            input,
                                            signature,
                                            auth_token,
                                            timestamp_token,
                                            confirmation_token,
                                        },
                                    ),
                                },
                            },
                        },
                    },
                },
            },
        }
    }

    /// How a [`FinishRequest`] is written.
    pub open spec fn encoder() -> spec_fn(FinishRequestView) -> Item {
        |x: FinishRequestView| x.item()
    }

    /// How a [`FinishRequest`] is read.
    pub open spec fn decoder() -> spec_fn(Item) -> Result<FinishRequestView, CborError> {
        |item: Item| FinishRequestView::from_item(item)
    }

    /// Reading the CBOR form gives the value back.
    pub proof fn lemma_round_trip(self)
        ensures
            Self::from_item(self.item()) == Ok::<FinishRequestView, CborError>(self),
    {
        let a = self.item()->Array_0;
        assert(tuple_of(self.item(), 6) == Ok::<Seq<Item>, CborError>(a));
        assert(a[0] == Item::Integer(self.op_handle as int));
        assert(a[1] == option_item(
            match self.input {
                None => None,
                Some(x) => Some(Item::Bytes(x)),
            },
        ));
        assert(a[2] == option_item(
            match self.signature {
                None => None,
                Some(x) => Some(Item::Bytes(x)),
            },
        ));
        assert(a[3] == option_item(
            match self.auth_token {
                None => None,
                Some(x) => Some(x.item()),
            },
        ));
        assert(a[4] == option_item(
            match self.timestamp_token {
                None => None,
                Some(x) => Some(x.item()),
            },
        ));
        assert(a[5] == option_item(
            match self.confirmation_token {
                None => None,
                Some(x) => Some(Item::Bytes(x)),
            },
        ));
        match self.input { Some(x) => {  }, None => {}, }
        lemma_decode_option_round_trip(self.input, bytes_encoder(), bytes_decoder());
        match self.signature { Some(x) => {  }, None => {}, }
        lemma_decode_option_round_trip(self.signature, bytes_encoder(), bytes_decoder());
        match self.auth_token { Some(x) => { x.lemma_round_trip(); }, None => {}, }
        lemma_decode_option_round_trip(
            self.auth_token,
            HardwareAuthTokenView::encoder(),
            HardwareAuthTokenView::decoder(),
        );
        match self.timestamp_token { Some(x) => { x.lemma_round_trip(); }, None => {}, }
        lemma_decode_option_round_trip(
            self.timestamp_token,
            TimeStampTokenView::encoder(),
            TimeStampTokenView::decoder(),
        );
        match self.confirmation_token { Some(x) => {  }, None => {}, }
        lemma_decode_option_round_trip(self.confirmation_token, bytes_encoder(), bytes_decoder());
    }
}

impl FinishRequest {
    /// A copy of this value.
    pub fn duplicate(&self) -> (r: FinishRequest)
        ensures
            r@ == self@,
    {
        FinishRequest {
            op_handle: self.op_handle,
            input: match &self.input {
                None => None,
                Some(x) => Some(copy_bytes(x.as_slice())),
            },
            signature: match &self.signature {
                None => None,
                Some(x) => Some(copy_bytes(x.as_slice())),
            },
            auth_token: match &self.auth_token {
                None => None,
                Some(x) => Some(x.duplicate()),
            },
            timestamp_token: match &self.timestamp_token {
                None => None,
                Some(x) => Some(x.duplicate()),
            },
            confirmation_token: match &self.confirmation_token {
                None => None,
                Some(x) => Some(copy_bytes(x.as_slice())),
            },
        }
    }

    /// Writes this value as the array of its fields.
    pub fn to_cbor_value(&self) -> (r: CborValue)
        ensures
            r@ == self@.item(),
    {
        let mut a: Vec<CborValue> = Vec::new();
        a.push(CborValue::Integer(self.op_handle as i128));
        a.push(opt_bytes_to_cbor_value(&self.input));
        a.push(opt_bytes_to_cbor_value(&self.signature));
        a.push(opt_hardware_auth_token_to_cbor_value(&self.auth_token));
        a.push(opt_time_stamp_token_to_cbor_value(&self.timestamp_token));
        a.push(opt_bytes_to_cbor_value(&self.confirmation_token));
        assert(items_of(a@) =~= self@.item()->Array_0);
        array_value(a)
    }

    /// Reads a value from the array of its fields.
    pub fn from_cbor_value(v: &CborValue) -> (r: Result<FinishRequest, CborError>)
        ensures
            result_view(r) == FinishRequestView::from_item(v@),
    {
        let a = match value_tuple(v, 6) {
            Err(e) => { return Err(e); },
            Ok(a) => a,
        };
        assert(items_of(a@)[0] == a@[0]@);
        assert(items_of(a@)[1] == a@[1]@);
        assert(items_of(a@)[2] == a@[2]@);
        assert(items_of(a@)[3] == a@[3]@);
        assert(items_of(a@)[4] == a@[4]@);
        assert(items_of(a@)[5] == a@[5]@);
        let op_handle = match value_i64(&a[0]) {
            Err(e) => { return Err(e); },
            Ok(x) => x,
        };
        let input = match opt_bytes_from_cbor_value(&a[1]) {
            Err(e) => { return Err(e); },
            Ok(x) => x,
        };
        let signature = match opt_bytes_from_cbor_value(&a[2]) {
            Err(e) => { return Err(e); },
            Ok(x) => x,
        };
        let auth_token = match opt_hardware_auth_token_from_cbor_value(&a[3]) {
            Err(e) => { return Err(e); },
            Ok(x) => x,
        };
        let timestamp_token = match opt_time_stamp_token_from_cbor_value(&a[4]) {
            Err(e) => { return Err(e); },
            Ok(x) => x,
        };
        let confirmation_token = match opt_bytes_from_cbor_value(&a[5]) {
            Err(e) => { return Err(e); },
            Ok(x) => x,
        };
        Ok(
            FinishRequest {
                op_handle,
                input,
                signature,
                auth_token,
                timestamp_token,
                confirmation_token,
            },
        )
    }
}

/// Response to a request to finish.
#[derive(Clone, Debug, PartialEq, Eq)]
pub struct FinishResponse {
    pub ret: Vec<u8>,
}

/// The content of a [`FinishResponse`].
pub ghost struct FinishResponseView {
    pub ret: Seq<u8>,
}

impl View for FinishResponse {
    type V = FinishResponseView;

    open spec fn view(&self) -> FinishResponseView {
        FinishResponseView {
            ret: self.ret@,
        }
    }
}

impl FinishResponseView {
    /// The CBOR form: the array of the fields in order.
    pub open spec fn item(self) -> Item {
        Item::Array(
            seq![
                Item::Bytes(self.ret),
            ],
        )
    }

    /// What [`FinishResponse::from_cbor_value`] makes of an item: an array of exactly
    /// 1 element, read in order.
    pub open spec fn from_item(item: Item) -> Result<FinishResponseView, CborError> {
        match tuple_of(item, 1) {
            Err(e) => Err(e),
            Ok(a) => match bytes_of(a[0]) {
                Err(e) => Err(e),
                Ok(ret) => Ok(FinishResponseView { ret }),
            },
        }
    }

    /// How a [`FinishResponse`] is written.
    pub open spec fn encoder() -> spec_fn(FinishResponseView) -> Item {
        |x: FinishResponseView| x.item()
    }

    /// How a [`FinishResponse`] is read.
    pub open spec fn decoder() -> spec_fn(Item) -> Result<FinishResponseView, CborError> {
        |item: Item| FinishResponseView::from_item(item)
    }

    /// Reading the CBOR form gives the value back.
    pub proof fn lemma_round_trip(self)
        ensures
            Self::from_item(self.item()) == Ok::<FinishResponseView, CborError>(self),
    {
        let a = self.item()->Array_0;
        assert(tuple_of(self.item(), 1) == Ok::<Seq<Item>, CborError>(a));
        assert(a[0] == Item::Bytes(self.ret));
    }
}

impl FinishResponse {
    /// A copy of this value.
    pub fn duplicate(&self) -> (r: FinishResponse)
        ensures
            r@ == self@,
    {
        FinishResponse {
            ret: copy_bytes(self.ret.as_slice()),
        }
    }

    /// Writes this value as the array of its fields.
    pub fn to_cbor_value(&self) -> (r: CborValue)
        ensures
            r@ == self@.item(),
    {
        let mut a: Vec<CborValue> = Vec::new();
        a.push(bytes_value(self.ret.as_slice()));
        assert(items_of(a@) =~= self@.item()->Array_0);
        array_value(a)
    }

    /// Reads a value from the array of its fields.
    pub fn from_cbor_value(v: &CborValue) -> (r: Result<FinishResponse, CborError>)
        ensures
            result_view(r) == FinishResponseView::from_item(v@),
    {
        let a = match value_tuple(v, 1) {
            Err(e) => { return Err(e); },
            Ok(a) => a,
        };
        assert(items_of(a@)[0] == a@[0]@);
        let ret = match value_bytes(&a[0]) {
            Err(e) => { return Err(e); },
            Ok(x) => x,
        };
        Ok(FinishResponse { ret })
    }
}

/// Request to abort.
#[derive(Clone, Copy, Debug, PartialEq, Eq, Structural)]
pub struct AbortRequest {
    pub op_handle: i64,
}

impl AbortRequest {
    /// The CBOR form: the array of the fields in order.
    pub open spec fn item(self) -> Item {
        Item::Array(
            seq![
                Item::Integer(self.op_handle as int),
            ],
        )
    }

    /// What [`AbortRequest::from_cbor_value`] makes of an item: an array of exactly
    /// 1 element, read in order.
    pub open spec fn from_item(item: Item) -> Result<AbortRequest, CborError> {
        match tuple_of(item, 1) {
            Err(e) => Err(e),
            Ok(a) => match i64_of(a[0]) {
                Err(e) => Err(e),
                Ok(op_handle) => Ok(AbortRequest { op_handle }),
            },
        }
    }

    /// Reading the CBOR form gives the value back.
    pub proof fn lemma_round_trip(self)
        ensures
            Self::from_item(self.item()) == Ok::<AbortRequest, CborError>(self),
    {
        let a = self.item()->Array_0;
        assert(tuple_of(self.item(), 1) == Ok::<Seq<Item>, CborError>(a));
        assert(a[0] == Item::Integer(self.op_handle as int));
    }
}

impl AbortRequest {
    /// Writes this value as the array of its fields.
    pub fn to_cbor_value(&self) -> (r: CborValue)
        ensures
            r@ == self.item(),
    {
        let mut a: Vec<CborValue> = Vec::new();
        a.push(CborValue::Integer(self.op_handle as i128));
        assert(items_of(a@) =~= self.item()->Array_0);
        array_value(a)
    }

    /// Reads a value from the array of its fields.
    pub fn from_cbor_value(v: &CborValue) -> (r: Result<AbortRequest, CborError>)
        ensures
            r == AbortRequest::from_item(v@),
    {
        let a = match value_tuple(v, 1) {
            Err(e) => { return Err(e); },
            Ok(a) => a,
        };
        assert(items_of(a@)[0] == a@[0]@);
        let op_handle = match value_i64(&a[0]) {
            Err(e) => { return Err(e); },
            Ok(x) => x,
        };
        Ok(AbortRequest { op_handle })
    }
}

/// Response to a request to abort.
#[derive(Clone, Copy, Debug, PartialEq, Eq, Structural)]
pub struct AbortResponse {}

impl AbortResponse {
    /// The CBOR form: the array of the fields in order.
    pub open spec fn item(self) -> Item {
        Item::Array(Seq::empty())
    }

    /// What [`AbortResponse::from_cbor_value`] makes of an item: an array of exactly
    /// 0 elements, read in order.
    pub open spec fn from_item(item: Item) -> Result<AbortResponse, CborError> {
        match tuple_of(item, 0) {
            Err(e) => Err(e),
            Ok(a) => Ok(AbortResponse {}),
        }
    }

    /// Reading the CBOR form gives the value back.
    pub proof fn lemma_round_trip(self)
        ensures
            Self::from_item(self.item()) == Ok::<AbortResponse, CborError>(self),
    {
        assert(tuple_of(self.item(), 0) == Ok::<Seq<Item>, CborError>(Seq::empty()));
    }
}

impl AbortResponse {
    /// Writes this value as the array of its fields.
    pub fn to_cbor_value(&self) -> (r: CborValue)
        ensures
            r@ == self.item(),
    {
        let mut a: Vec<CborValue> = Vec::new();
        assert(items_of(a@) =~= Seq::<Item>::empty());
        array_value(a)
    }

    /// Reads a value from the array of its fields.
    pub fn from_cbor_value(v: &CborValue) -> (r: Result<AbortResponse, CborError>)
        ensures
            r == AbortResponse::from_item(v@),
    {
        let a = match value_tuple(v, 0) {
            Err(e) => { return Err(e); },
            Ok(a) => a,
        };
        Ok(AbortResponse {})
    }
}

/// Request to get rpc hardware info.
#[derive(Clone, Copy, Debug, PartialEq, Eq, Structural)]
pub struct GetRpcHardwareInfoRequest {}

impl GetRpcHardwareInfoRequest {
    /// The CBOR form: the array of the fields in order.
    pub open spec fn item(self) -> Item {
        Item::Array(Seq::empty())
    }

    /// What [`GetRpcHardwareInfoRequest::from_cbor_value`] makes of an item: an array of exactly
    /// 0 elements, read in order.
    pub open spec fn from_item(item: Item) -> Result<GetRpcHardwareInfoRequest, CborError> {
        match tuple_of(item, 0) {
            Err(e) => Err(e),
            Ok(a) => Ok(GetRpcHardwareInfoRequest {}),
        }
    }

    /// Reading the CBOR form gives the value back.
    pub proof fn lemma_round_trip(self)
        ensures
            Self::from_item(self.item()) == Ok::<GetRpcHardwareInfoRequest, CborError>(self),
    {
        assert(tuple_of(self.item(), 0) == Ok::<Seq<Item>, CborError>(Seq::empty()));
    }
}

impl GetRpcHardwareInfoRequest {
    /// Writes this value as the array of its fields.
    pub fn to_cbor_value(&self) -> (r: CborValue)
        ensures
            r@ == self.item(),
    {
        let mut a: Vec<CborValue> = Vec::new();
        assert(items_of(a@) =~= Seq::<Item>::empty());
        array_value(a)
    }

    /// Reads a value from the array of its fields.
    pub fn from_cbor_value(v: &CborValue) -> (r: Result<GetRpcHardwareInfoRequest, CborError>)
        ensures
            r == GetRpcHardwareInfoRequest::from_item(v@),
    {
        let a = match value_tuple(v, 0) {
            Err(e) => { return Err(e); },
            Ok(a) => a,
        };
        Ok(GetRpcHardwareInfoRequest {})
    }
}

/// Response to a request to get rpc hardware info.
#[derive(Clone, Debug, PartialEq, Eq)]
pub struct GetRpcHardwareInfoResponse {
    pub ret: RpcHardwareInfo,
}

/// The content of a [`GetRpcHardwareInfoResponse`].
pub ghost struct GetRpcHardwareInfoResponseView {
    pub ret: RpcHardwareInfoView,
}

impl View for GetRpcHardwareInfoResponse {
    type V = GetRpcHardwareInfoResponseView;

    open spec fn view(&self) -> GetRpcHardwareInfoResponseView {
        GetRpcHardwareInfoResponseView {
            ret: self.ret@,
        }
    }
}

impl GetRpcHardwareInfoResponseView {
    /// The CBOR form: the array of the fields in order.
    pub open spec fn item(self) -> Item {
        Item::Array(
            seq![
                self.ret.item(),
            ],
        )
    }

    /// What [`GetRpcHardwareInfoResponse::from_cbor_value`] makes of an item: an array of exactly
    /// 1 element, read in order.
    pub open spec fn from_item(item: Item) -> Result<GetRpcHardwareInfoResponseView, CborError> {
        match tuple_of(item, 1) {
            Err(e) => Err(e),
            Ok(a) => match RpcHardwareInfoView::from_item(a[0]) {
                Err(e) => Err(e),
                Ok(ret) => Ok(GetRpcHardwareInfoResponseView { ret }),
            },
        }
    }

    /// How a [`GetRpcHardwareInfoResponse`] is written.
    pub open spec fn encoder() -> spec_fn(GetRpcHardwareInfoResponseView) -> Item {
        |x: GetRpcHardwareInfoResponseView| x.item()
    }

    /// How a [`GetRpcHardwareInfoResponse`] is read.
    pub open spec fn decoder() -> spec_fn(Item) -> Result<
        GetRpcHardwareInfoResponseView,
        CborError,
    > {
        |item: Item| GetRpcHardwareInfoResponseView::from_item(item)
    }

    /// Reading the CBOR form gives the value back.
    pub proof fn lemma_round_trip(self)
        ensures
            Self::from_item(self.item()) == Ok::<GetRpcHardwareInfoResponseView, CborError>(self),
    {
        let a = self.item()->Array_0;
        assert(tuple_of(self.item(), 1) == Ok::<Seq<Item>, CborError>(a));
        assert(a[0] == self.ret.item());
        self.ret.lemma_round_trip();
    }
}

impl GetRpcHardwareInfoResponse {
    /// A copy of this value.
    pub fn duplicate(&self) -> (r: GetRpcHardwareInfoResponse)
        ensures
            r@ == self@,
    {
        GetRpcHardwareInfoResponse {
            ret: self.ret.duplicate(),
        }
    }

    /// Writes this value as the array of its fields.
    pub fn to_cbor_value(&self) -> (r: CborValue)
        ensures
            r@ == self@.item(),
    {
        let mut a: Vec<CborValue> = Vec::new();
        a.push(self.ret.to_cbor_value());
        assert(items_of(a@) =~= self@.item()->Array_0);
        array_value(a)
    }

    /// Reads a value from the array of its fields.
    pub fn from_cbor_value(v: &CborValue) -> (r: Result<GetRpcHardwareInfoResponse, CborError>)
        ensures
            result_view(r) == GetRpcHardwareInfoResponseView::from_item(v@),
    {
        let a = match value_tuple(v, 1) {
            Err(e) => { return Err(e); },
            Ok(a) => a,
        };
        assert(items_of(a@)[0] == a@[0]@);
        let ret = match RpcHardwareInfo::from_cbor_value(&a[0]) {
            Err(e) => { return Err(e); },
            Ok(x) => x,
        };
        Ok(GetRpcHardwareInfoResponse { ret })
    }
}

/// Request to generate ecdsa p256 key pair.
#[derive(Clone, Copy, Debug, PartialEq, Eq, Structural)]
pub struct GenerateEcdsaP256KeyPairRequest {
    pub test_mode: bool,
}

impl GenerateEcdsaP256KeyPairRequest {
    /// The CBOR form: the array of the fields in order.
    pub open spec fn item(self) -> Item {
        Item::Array(
            seq![
                Item::Bool(self.test_mode),
            ],
        )
    }

    /// What [`GenerateEcdsaP256KeyPairRequest::from_cbor_value`] makes of an
    /// item: an array of exactly
    /// 1 element, read in order.
    pub open spec fn from_item(item: Item) -> Result<GenerateEcdsaP256KeyPairRequest, CborError> {
        match tuple_of(item, 1) {
            Err(e) => Err(e),
            Ok(a) => match bool_of(a[0]) {
                Err(e) => Err(e),
                Ok(test_mode) => Ok(GenerateEcdsaP256KeyPairRequest { test_mode }),
            },
        }
    }

    /// Reading the CBOR form gives the value back.
    pub proof fn lemma_round_trip(self)
        ensures
            Self::from_item(self.item()) == Ok::<GenerateEcdsaP256KeyPairRequest, CborError>(self),
    {
        let a = self.item()->Array_0;
        assert(tuple_of(self.item(), 1) == Ok::<Seq<Item>, CborError>(a));
        assert(a[0] == Item::Bool(self.test_mode));
    }
}

impl GenerateEcdsaP256KeyPairRequest {
    /// Writes this value as the array of its fields.
    pub fn to_cbor_value(&self) -> (r: CborValue)
        ensures
            r@ == self.item(),
    {
        let mut a: Vec<CborValue> = Vec::new();
        a.push(CborValue::Bool(self.test_mode));
        assert(items_of(a@) =~= self.item()->Array_0);
        array_value(a)
    }

    /// Reads a value from the array of its fields.
    pub fn from_cbor_value(v: &CborValue) -> (r: Result<GenerateEcdsaP256KeyPairRequest, CborError>)
        ensures
            r == GenerateEcdsaP256KeyPairRequest::from_item(v@),
    {
        let a = match value_tuple(v, 1) {
            Err(e) => { return Err(e); },
            Ok(a) => a,
        };
        assert(items_of(a@)[0] == a@[0]@);
        let test_mode = match value_bool(&a[0]) {
            Err(e) => { return Err(e); },
            Ok(x) => x,
        };
        Ok(GenerateEcdsaP256KeyPairRequest { test_mode })
    }
}

/// Response to a request to generate ecdsa p256 key pair.
#[derive(Clone, Debug, PartialEq, Eq)]
pub struct GenerateEcdsaP256KeyPairResponse {
    pub maced_public_key: MacedPublicKey,
    pub ret: Vec<u8>,
}

/// The content of a [`GenerateEcdsaP256KeyPairResponse`].
pub ghost struct GenerateEcdsaP256KeyPairResponseView {
    pub maced_public_key: MacedPublicKeyView,
    pub ret: Seq<u8>,
}

impl View for GenerateEcdsaP256KeyPairResponse {
    type V = GenerateEcdsaP256KeyPairResponseView;

    open spec fn view(&self) -> GenerateEcdsaP256KeyPairResponseView {
        GenerateEcdsaP256KeyPairResponseView {
            maced_public_key: self.maced_public_key@,
            ret: self.ret@,
        }
    }
}

impl GenerateEcdsaP256KeyPairResponseView {
    /// The CBOR form: the array of the fields in order.
    pub open spec fn item(self) -> Item {
        Item::Array(
            seq![
                self.maced_public_key.item(),
                Item::Bytes(self.ret),
            ],
        )
    }

    /// What [`GenerateEcdsaP256KeyPairResponse::from_cbor_value`] makes of an
    /// item: an array of exactly
    /// 2 elements, read in order.
    pub open spec fn from_item(item: Item) -> Result<
        GenerateEcdsaP256KeyPairResponseView,
        CborError,
    > {
        match tuple_of(item, 2) {
            Err(e) => Err(e),
            Ok(a) => match MacedPublicKeyView::from_item(a[0]) {
                Err(e) => Err(e),
                Ok(maced_public_key) => match bytes_of(a[1]) {
                    Err(e) => Err(e),
                    Ok(ret) => Ok(GenerateEcdsaP256KeyPairResponseView { maced_public_key, ret }),
                },
            },
        }
    }

    /// How a [`GenerateEcdsaP256KeyPairResponse`] is written.
    pub open spec fn encoder() -> spec_fn(GenerateEcdsaP256KeyPairResponseView) -> Item {
        |x: GenerateEcdsaP256KeyPairResponseView| x.item()
    }

    /// How a [`GenerateEcdsaP256KeyPairResponse`] is read.
    pub open spec fn decoder() -> spec_fn(Item) -> Result<
        GenerateEcdsaP256KeyPairResponseView,
        CborError,
    > {
        |item: Item| GenerateEcdsaP256KeyPairResponseView::from_item(item)
    }

    /// Reading the CBOR form gives the value back.
    pub proof fn lemma_round_trip(self)
        ensures
            Self::from_item(self.item()) == Ok::<GenerateEcdsaP256KeyPairResponseView, CborError>(
                self,
            ),
    {
        let a = self.item()->Array_0;
        assert(tuple_of(self.item(), 2) == Ok::<Seq<Item>, CborError>(a));
        assert(a[0] == self.maced_public_key.item());
        assert(a[1] == Item::Bytes(self.ret));
        self.maced_public_key.lemma_round_trip();
    }
}

impl GenerateEcdsaP256KeyPairResponse {
    /// A copy of this value.
    pub fn duplicate(&self) -> (r: GenerateEcdsaP256KeyPairResponse)
        ensures
            r@ == self@,
    {
        GenerateEcdsaP256KeyPairResponse {
            maced_public_key: self.maced_public_key.duplicate(),
            ret: copy_bytes(self.ret.as_slice()),
        }
    }

    /// Writes this value as the array of its fields.
    pub fn to_cbor_value(&self) -> (r: CborValue)
        ensures
            r@ == self@.item(),
    {
        let mut a: Vec<CborValue> = Vec::new();
        a.push(self.maced_public_key.to_cbor_value());
        a.push(bytes_value(self.ret.as_slice()));
        assert(items_of(a@) =~= self@.item()->Array_0);
        array_value(a)
    }

    /// Reads a value from the array of its fields.
    pub fn from_cbor_value(v: &CborValue) -> (r: Result<
        GenerateEcdsaP256KeyPairResponse,
        CborError,
    >)
        ensures
            result_view(r) == GenerateEcdsaP256KeyPairResponseView::from_item(v@),
    {
        let a = match value_tuple(v, 2) {
            Err(e) => { return Err(e); },
            Ok(a) => a,
        };
        assert(items_of(a@)[0] == a@[0]@);
        assert(items_of(a@)[1] == a@[1]@);
        let maced_public_key = match MacedPublicKey::from_cbor_value(&a[0]) {
            Err(e) => { return Err(e); },
            Ok(x) => x,
        };
        let ret = match value_bytes(&a[1]) {
            Err(e) => { return Err(e); },
            Ok(x) => x,
        };
        Ok(GenerateEcdsaP256KeyPairResponse { maced_public_key, ret })
    }
}

/// Request to generate certificate request.
#[derive(Clone, Debug, PartialEq, Eq)]
pub struct GenerateCertificateRequestRequest {
    pub test_mode: bool,
    pub keys_to_sign: Vec<MacedPublicKey>,
    pub endpoint_encryption_cert_chain: Vec<u8>,
    pub challenge: Vec<u8>,
}

/// The content of a [`GenerateCertificateRequestRequest`].
pub ghost struct GenerateCertificateRequestRequestView {
    pub test_mode: bool,
    pub keys_to_sign: Seq<MacedPublicKeyView>,
    pub endpoint_encryption_cert_chain: Seq<u8>,
    pub challenge: Seq<u8>,
}

impl View for GenerateCertificateRequestRequest {
    type V = GenerateCertificateRequestRequestView;

    open spec fn view(&self) -> GenerateCertificateRequestRequestView {
        GenerateCertificateRequestRequestView {
            test_mode: self.test_mode,
            keys_to_sign: views(self.keys_to_sign@),
            endpoint_encryption_cert_chain: self.endpoint_encryption_cert_chain@,
            challenge: self.challenge@,
        }
    }
}

impl GenerateCertificateRequestRequestView {
    /// The CBOR form: the array of the fields in order.
    pub open spec fn item(self) -> Item {
        Item::Array(
            seq![
                Item::Bool(self.test_mode),
                Item::Array(self.keys_to_sign.map_values(MacedPublicKeyView::encoder())),
                Item::Bytes(self.endpoint_encryption_cert_chain),
                Item::Bytes(self.challenge),
            ],
        )
    }

    /// What [`GenerateCertificateRequestRequest::from_cbor_value`] makes of an
    /// item: an array of exactly
    /// 4 elements, read in order.
    pub open spec fn from_item(item: Item) -> Result<
        GenerateCertificateRequestRequestView,
        CborError,
    > {
        match tuple_of(item, 4) {
            Err(e) => Err(e),
            Ok(a) => match bool_of(a[0]) {
                Err(e) => Err(e),
                Ok(test_mode) => match decode_array(a[1], MacedPublicKeyView::decoder()) {
                    Err(e) => Err(e),
                    Ok(keys_to_sign) => match bytes_of(a[2]) {
                        Err(e) => Err(e),
                        Ok(endpoint_encryption_cert_chain) => match bytes_of(a[3]) {
                            Err(e) => Err(e),
                            Ok(challenge) => Ok(
                                GenerateCertificateRequestRequestView {
                                    test_mode,
                                    keys_to_sign,
                                    endpoint_encryption_cert_chain,
                                    challenge,
                                },
                            ),
                        },
                    },
                },
            },
        }
    }

    /// How a [`GenerateCertificateRequestRequest`] is written.
    pub open spec fn encoder() -> spec_fn(GenerateCertificateRequestRequestView) -> Item {
        |x: GenerateCertificateRequestRequestView| x.item()
    }

    /// How a [`GenerateCertificateRequestRequest`] is read.
    pub open spec fn decoder() -> spec_fn(Item) -> Result<
        GenerateCertificateRequestRequestView,
        CborError,
    > {
        |item: Item| GenerateCertificateRequestRequestView::from_item(item)
    }

    /// Reading the CBOR form gives the value back.
    pub proof fn lemma_round_trip(self)
        ensures
            Self::from_item(self.item()) == Ok::<GenerateCertificateRequestRequestView, CborError>(
                self,
            ),
    {
        let a = self.item()->Array_0;
        assert(tuple_of(self.item(), 4) == Ok::<Seq<Item>, CborError>(a));
        assert(a[0] == Item::Bool(self.test_mode));
        assert(a[1] == Item::Array(self.keys_to_sign.map_values(MacedPublicKeyView::encoder())));
        assert(a[2] == Item::Bytes(self.endpoint_encryption_cert_chain));
        assert(a[3] == Item::Bytes(self.challenge));
        assert forall|x: MacedPublicKeyView| #[trigger] MacedPublicKeyView::decoder()(MacedPublicKeyView::encoder()(x)) == Ok::<MacedPublicKeyView, CborError>(x) by { x.lemma_round_trip(); }
        lemma_decode_all_round_trip(
            self.keys_to_sign,
            MacedPublicKeyView::encoder(),
            MacedPublicKeyView::decoder(),
        );
    }
}

impl GenerateCertificateRequestRequest {
    /// A copy of this value.
    pub fn duplicate(&self) -> (r: GenerateCertificateRequestRequest)
        ensures
            r@ == self@,
    {
        GenerateCertificateRequestRequest {
            test_mode: self.test_mode,
            keys_to_sign: vec_maced_public_key_duplicate(&self.keys_to_sign),
            endpoint_encryption_cert_chain: copy_bytes(
                self.endpoint_encryption_cert_chain.as_slice(),
            ),
            challenge: copy_bytes(self.challenge.as_slice()),
        }
    }

    /// Writes this value as the array of its fields.
    pub fn to_cbor_value(&self) -> (r: CborValue)
        ensures
            r@ == self@.item(),
    {
        let mut a: Vec<CborValue> = Vec::new();
        a.push(CborValue::Bool(self.test_mode));
        a.push(vec_maced_public_key_to_cbor_value(&self.keys_to_sign));
        a.push(bytes_value(self.endpoint_encryption_cert_chain.as_slice()));
        a.push(bytes_value(self.challenge.as_slice()));
        assert(items_of(a@) =~= self@.item()->Array_0);
        array_value(a)
    }

    /// Reads a value from the array of its fields.
    pub fn from_cbor_value(v: &CborValue) -> (r: Result<
        GenerateCertificateRequestRequest,
        CborError,
    >)
        ensures
            result_view(r) == GenerateCertificateRequestRequestView::from_item(v@),
    {
        let a = match value_tuple(v, 4) {
            Err(e) => { return Err(e); },
            Ok(a) => a,
        };
        assert(items_of(a@)[0] == a@[0]@);
        assert(items_of(a@)[1] == a@[1]@);
        assert(items_of(a@)[2] == a@[2]@);
        assert(items_of(a@)[3] == a@[3]@);
        let test_mode = match value_bool(&a[0]) {
            Err(e) => { return Err(e); },
            Ok(x) => x,
        };
        let keys_to_sign = match vec_maced_public_key_from_cbor_value(&a[1]) {
            Err(e) => { return Err(e); },
            Ok(x) => x,
        };
        let endpoint_encryption_cert_chain = match value_bytes(&a[2]) {
            Err(e) => { return Err(e); },
            Ok(x) => x,
        };
        let challenge = match value_bytes(&a[3]) {
            Err(e) => { return Err(e); },
            Ok(x) => x,
        };
        Ok(
            GenerateCertificateRequestRequest {
                test_mode,
                keys_to_sign,
                endpoint_encryption_cert_chain,
                challenge,
            },
        )
    }
}

/// Response to a request to generate certificate request.
#[derive(Clone, Debug, PartialEq, Eq)]
pub struct GenerateCertificateRequestResponse {
    pub device_info: DeviceInfo,
    pub protected_data: ProtectedData,
    pub ret: Vec<u8>,
}

/// The content of a [`GenerateCertificateRequestResponse`].
pub ghost struct GenerateCertificateRequestResponseView {
    pub device_info: DeviceInfoView,
    pub protected_data: ProtectedDataView,
    pub ret: Seq<u8>,
}

impl View for GenerateCertificateRequestResponse {
    type V = GenerateCertificateRequestResponseView;

    open spec fn view(&self) -> GenerateCertificateRequestResponseView {
        GenerateCertificateRequestResponseView {
            device_info: self.device_info@,
            protected_data: self.protected_data@,
            ret: self.ret@,
        }
    }
}

impl GenerateCertificateRequestResponseView {
    /// The CBOR form: the array of the fields in order.
    pub open spec fn item(self) -> Item {
        Item::Array(
            seq![
                self.device_info.item(),
                self.protected_data.item(),
                Item::Bytes(self.ret),
            ],
        )
    }

    /// What [`GenerateCertificateRequestResponse::from_cbor_value`] makes of an
    /// item: an array of exactly
    /// 3 elements, read in order.
    pub open spec fn from_item(item: Item) -> Result<
        GenerateCertificateRequestResponseView,
        CborError,
    > {
        match tuple_of(item, 3) {
            Err(e) => Err(e),
            Ok(a) => match DeviceInfoView::from_item(a[0]) {
                Err(e) => Err(e),
                Ok(device_info) => match ProtectedDataView::from_item(a[1]) {
                    Err(e) => Err(e),
                    Ok(protected_data) => match bytes_of(a[2]) {
                        Err(e) => Err(e),
                        Ok(ret) => Ok(
                            GenerateCertificateRequestResponseView {
                                device_info,
                                protected_data,
                                ret,
                            },
                        ),
                    },
                },
            },
        }
    }

    /// How a [`GenerateCertificateRequestResponse`] is written.
    pub open spec fn encoder() -> spec_fn(GenerateCertificateRequestResponseView) -> Item {
        |x: GenerateCertificateRequestResponseView| x.item()
    }

    /// How a [`GenerateCertificateRequestResponse`] is read.
    pub open spec fn decoder() -> spec_fn(Item) -> Result<
        GenerateCertificateRequestResponseView,
        CborError,
    > {
        |item: Item| GenerateCertificateRequestResponseView::from_item(item)
    }

    /// Reading the CBOR form gives the value back.
    pub proof fn lemma_round_trip(self)
        ensures
            Self::from_item(self.item()) == Ok::<GenerateCertificateRequestResponseView, CborError>(
                self,
            ),
    {
        let a = self.item()->Array_0;
        assert(tuple_of(self.item(), 3) == Ok::<Seq<Item>, CborError>(a));
        assert(a[0] == self.device_info.item());
        assert(a[1] == self.protected_data.item());
        assert(a[2] == Item::Bytes(self.ret));
        self.device_info.lemma_round_trip();
        self.protected_data.lemma_round_trip();
    }
}

impl GenerateCertificateRequestResponse {
    /// A copy of this value.
    pub fn duplicate(&self) -> (r: GenerateCertificateRequestResponse)
        ensures
            r@ == self@,
    {
        GenerateCertificateRequestResponse {
            device_info: self.device_info.duplicate(),
            protected_data: self.protected_data.duplicate(),
            ret: copy_bytes(self.ret.as_slice()),
        }
    }

    /// Writes this value as the array of its fields.
    pub fn to_cbor_value(&self) -> (r: CborValue)
        ensures
            r@ == self@.item(),
    {
        let mut a: Vec<CborValue> = Vec::new();
        a.push(self.device_info.to_cbor_value());
        a.push(self.protected_data.to_cbor_value());
        a.push(bytes_value(self.ret.as_slice()));
        assert(items_of(a@) =~= self@.item()->Array_0);
        array_value(a)
    }

    /// Reads a value from the array of its fields.
    pub fn from_cbor_value(v: &CborValue) -> (r: Result<
        GenerateCertificateRequestResponse,
        CborError,
    >)
        ensures
            result_view(r) == GenerateCertificateRequestResponseView::from_item(v@),
    {
        let a = match value_tuple(v, 3) {
            Err(e) => { return Err(e); },
            Ok(a) => a,
        };
        assert(items_of(a@)[0] == a@[0]@);
        assert(items_of(a@)[1] == a@[1]@);
        assert(items_of(a@)[2] == a@[2]@);
        let device_info = match DeviceInfo::from_cbor_value(&a[0]) {
            Err(e) => { return Err(e); },
            Ok(x) => x,
        };
        let protected_data = match ProtectedData::from_cbor_value(&a[1]) {
            Err(e) => { return Err(e); },
            Ok(x) => x,
        };
        let ret = match value_bytes(&a[2]) {
            Err(e) => { return Err(e); },
            Ok(x) => x,
        };
        Ok(GenerateCertificateRequestResponse { device_info, protected_data, ret })
    }
}

/// Request to generate certificate request v2.
#[derive(Clone, Debug, PartialEq, Eq)]
pub struct GenerateCertificateRequestV2Request {
    pub keys_to_sign: Vec<MacedPublicKey>,
    pub challenge: Vec<u8>,
}

/// The content of a [`GenerateCertificateRequestV2Request`].
pub ghost struct GenerateCertificateRequestV2RequestView {
    pub keys_to_sign: Seq<MacedPublicKeyView>,
    pub challenge: Seq<u8>,
}

impl View for GenerateCertificateRequestV2Request {
    type V = GenerateCertificateRequestV2RequestView;

    open spec fn view(&self) -> GenerateCertificateRequestV2RequestView {
        GenerateCertificateRequestV2RequestView {
            keys_to_sign: views(self.keys_to_sign@),
            challenge: self.challenge@,
        }
    }
}

impl GenerateCertificateRequestV2RequestView {
    /// The CBOR form: the array of the fields in order.
    pub open spec fn item(self) -> Item {
        Item::Array(
            seq![
                Item::Array(self.keys_to_sign.map_values(MacedPublicKeyView::encoder())),
                Item::Bytes(self.challenge),
            ],
        )
    }

    /// What [`GenerateCertificateRequestV2Request::from_cbor_value`] makes of
    /// an item: an array of exactly
    /// 2 elements, read in order.
    pub open spec fn from_item(item: Item) -> Result<
        GenerateCertificateRequestV2RequestView,
        CborError,
    > {
        match tuple_of(item, 2) {
            Err(e) => Err(e),
            Ok(a) => match decode_array(a[0], MacedPublicKeyView::decoder()) {
                Err(e) => Err(e),
                Ok(keys_to_sign) => match bytes_of(a[1]) {
                    Err(e) => Err(e),
                    Ok(challenge) => Ok(
                        GenerateCertificateRequestV2RequestView { keys_to_sign, challenge },
                    ),
                },
            },
        }
    }

    /// How a [`GenerateCertificateRequestV2Request`] is written.
    pub open spec fn encoder() -> spec_fn(GenerateCertificateRequestV2RequestView) -> Item {
        |x: GenerateCertificateRequestV2RequestView| x.item()
    }

    /// How a [`GenerateCertificateRequestV2Request`] is read.
    pub open spec fn decoder() -> spec_fn(Item) -> Result<
        GenerateCertificateRequestV2RequestView,
        CborError,
    > {
        |item: Item| GenerateCertificateRequestV2RequestView::from_item(item)
    }

    /// Reading the CBOR form gives the value back.
    pub proof fn lemma_round_trip(self)
        ensures
            Self::from_item(self.item()) == Ok::<GenerateCertificateRequestV2RequestView, CborError>(self),
    {
        let a = self.item()->Array_0;
        assert(tuple_of(self.item(), 2) == Ok::<Seq<Item>, CborError>(a));
        assert(a[0] == Item::Array(self.keys_to_sign.map_values(MacedPublicKeyView::encoder())));
        assert(a[1] == Item::Bytes(self.challenge));
        assert forall|x: MacedPublicKeyView| #[trigger] MacedPublicKeyView::decoder()(MacedPublicKeyView::encoder()(x)) == Ok::<MacedPublicKeyView, CborError>(x) by { x.lemma_round_trip(); }
        lemma_decode_all_round_trip(
            self.keys_to_sign,
            MacedPublicKeyView::encoder(),
            MacedPublicKeyView::decoder(),
        );
    }
}

impl GenerateCertificateRequestV2Request {
    /// A copy of this value.
    pub fn duplicate(&self) -> (r: GenerateCertificateRequestV2Request)
        ensures
            r@ == self@,
    {
        GenerateCertificateRequestV2Request {
            keys_to_sign: vec_maced_public_key_duplicate(&self.keys_to_sign),
            challenge: copy_bytes(self.challenge.as_slice()),
        }
    }

    /// Writes this value as the array of its fields.
    pub fn to_cbor_value(&self) -> (r: CborValue)
        ensures
            r@ == self@.item(),
    {
        let mut a: Vec<CborValue> = Vec::new();
        a.push(vec_maced_public_key_to_cbor_value(&self.keys_to_sign));
        a.push(bytes_value(self.challenge.as_slice()));
        assert(items_of(a@) =~= self@.item()->Array_0);
        array_value(a)
    }

    /// Reads a value from the array of its fields.
    pub fn from_cbor_value(v: &CborValue) -> (r: Result<
        GenerateCertificateRequestV2Request,
        CborError,
    >)
        ensures
            result_view(r) == GenerateCertificateRequestV2RequestView::from_item(v@),
    {
        let a = match value_tuple(v, 2) {
            Err(e) => { return Err(e); },
            Ok(a) => a,
        };
        assert(items_of(a@)[0] == a@[0]@);
        assert(items_of(a@)[1] == a@[1]@);
        let keys_to_sign = match vec_maced_public_key_from_cbor_value(&a[0]) {
            Err(e) => { return Err(e); },
            Ok(x) => x,
        };
        let challenge = match value_bytes(&a[1]) {
            Err(e) => { return Err(e); },
            Ok(x) => x,
        };
        Ok(GenerateCertificateRequestV2Request { keys_to_sign, challenge })
    }
}

/// Response to a request to generate certificate request v2.
#[derive(Clone, Debug, PartialEq, Eq)]
pub struct GenerateCertificateRequestV2Response {
    pub ret: Vec<u8>,
}

/// The content of a [`GenerateCertificateRequestV2Response`].
pub ghost struct GenerateCertificateRequestV2ResponseView {
    pub ret: Seq<u8>,
}

impl View for GenerateCertificateRequestV2Response {
    type V = GenerateCertificateRequestV2ResponseView;

    open spec fn view(&self) -> GenerateCertificateRequestV2ResponseView {
        GenerateCertificateRequestV2ResponseView {
            ret: self.ret@,
        }
    }
}

impl GenerateCertificateRequestV2ResponseView {
    /// The CBOR form: the array of the fields in order.
    pub open spec fn item(self) -> Item {
        Item::Array(
            seq![
                Item::Bytes(self.ret),
            ],
        )
    }

    /// What [`GenerateCertificateRequestV2Response::from_cbor_value`] makes of
    /// an item: an array of exactly
    /// 1 element, read in order.
    pub open spec fn from_item(item: Item) -> Result<
        GenerateCertificateRequestV2ResponseView,
        CborError,
    > {
        match tuple_of(item, 1) {
            Err(e) => Err(e),
            Ok(a) => match bytes_of(a[0]) {
                Err(e) => Err(e),
                Ok(ret) => Ok(GenerateCertificateRequestV2ResponseView { ret }),
            },
        }
    }

    /// How a [`GenerateCertificateRequestV2Response`] is written.
    pub open spec fn encoder() -> spec_fn(GenerateCertificateRequestV2ResponseView) -> Item {
        |x: GenerateCertificateRequestV2ResponseView| x.item()
    }

    /// How a [`GenerateCertificateRequestV2Response`] is read.
    pub open spec fn decoder() -> spec_fn(Item) -> Result<
        GenerateCertificateRequestV2ResponseView,
        CborError,
    > {
        |item: Item| GenerateCertificateRequestV2ResponseView::from_item(item)
    }

    /// Reading the CBOR form gives the value back.
    pub proof fn lemma_round_trip(self)
        ensures
            Self::from_item(self.item()) == Ok::<GenerateCertificateRequestV2ResponseView, CborError>(self),
    {
        let a = self.item()->Array_0;
        assert(tuple_of(self.item(), 1) == Ok::<Seq<Item>, CborError>(a));
        assert(a[0] == Item::Bytes(self.ret));
    }
}

impl GenerateCertificateRequestV2Response {
    /// A copy of this value.
    pub fn duplicate(&self) -> (r: GenerateCertificateRequestV2Response)
        ensures
            r@ == self@,
    {
        GenerateCertificateRequestV2Response {
            ret: copy_bytes(self.ret.as_slice()),
        }
    }

    /// Writes this value as the array of its fields.
    pub fn to_cbor_value(&self) -> (r: CborValue)
        ensures
            r@ == self@.item(),
    {
        let mut a: Vec<CborValue> = Vec::new();
        a.push(bytes_value(self.ret.as_slice()));
        assert(items_of(a@) =~= self@.item()->Array_0);
        array_value(a)
    }

    /// Reads a value from the array of its fields.
    pub fn from_cbor_value(v: &CborValue) -> (r: Result<
        GenerateCertificateRequestV2Response,
        CborError,
    >)
        ensures
            result_view(r) == GenerateCertificateRequestV2ResponseView::from_item(v@),
    {
        let a = match value_tuple(v, 1) {
            Err(e) => { return Err(e); },
            Ok(a) => a,
        };
        assert(items_of(a@)[0] == a@[0]@);
        let ret = match value_bytes(&a[0]) {
            Err(e) => { return Err(e); },
            Ok(x) => x,
        };
        Ok(GenerateCertificateRequestV2Response { ret })
    }
}

/// Request to get shared secret parameters.
#[derive(Clone, Copy, Debug, PartialEq, Eq, Structural)]
pub struct GetSharedSecretParametersRequest {}

impl GetSharedSecretParametersRequest {
    /// The CBOR form: the array of the fields in order.
    pub open spec fn item(self) -> Item {
        Item::Array(Seq::empty())
    }

    /// What [`GetSharedSecretParametersRequest::from_cbor_value`] makes of an
    /// item: an array of exactly
    /// 0 elements, read in order.
    pub open spec fn from_item(item: Item) -> Result<GetSharedSecretParametersRequest, CborError> {
        match tuple_of(item, 0) {
            Err(e) => Err(e),
            Ok(a) => Ok(GetSharedSecretParametersRequest {}),
        }
    }

    /// Reading the CBOR form gives the value back.
    pub proof fn lemma_round_trip(self)
        ensures
            Self::from_item(self.item()) == Ok::<GetSharedSecretParametersRequest, CborError>(self),
    {
        assert(tuple_of(self.item(), 0) == Ok::<Seq<Item>, CborError>(Seq::empty()));
    }
}

impl GetSharedSecretParametersRequest {
    /// Writes this value as the array of its fields.
    pub fn to_cbor_value(&self) -> (r: CborValue)
        ensures
            r@ == self.item(),
    {
        let mut a: Vec<CborValue> = Vec::new();
        assert(items_of(a@) =~= Seq::<Item>::empty());
        array_value(a)
    }

    /// Reads a value from the array of its fields.
    pub fn from_cbor_value(v: &CborValue) -> (r: Result<
        GetSharedSecretParametersRequest,
        CborError,
    >)
        ensures
            r == GetSharedSecretParametersRequest::from_item(v@),
    {
        let a = match value_tuple(v, 0) {
            Err(e) => { return Err(e); },
            Ok(a) => a,
        };
        Ok(GetSharedSecretParametersRequest {})
    }
}

/// Response to a request to get shared secret parameters.
#[derive(Clone, Debug, PartialEq, Eq)]
pub struct GetSharedSecretParametersResponse {
    pub ret: SharedSecretParameters,
}

/// The content of a [`GetSharedSecretParametersResponse`].
pub ghost struct GetSharedSecretParametersResponseView {
    pub ret: SharedSecretParametersView,
}

impl View for GetSharedSecretParametersResponse {
    type V = GetSharedSecretParametersResponseView;

    open spec fn view(&self) -> GetSharedSecretParametersResponseView {
        GetSharedSecretParametersResponseView {
            ret: self.ret@,
        }
    }
}

impl GetSharedSecretParametersResponseView {
    /// The CBOR form: the array of the fields in order.
    pub open spec fn item(self) -> Item {
        Item::Array(
            seq![
                self.ret.item(),
            ],
        )
    }

    /// What [`GetSharedSecretParametersResponse::from_cbor_value`] makes of an
    /// item: an array of exactly
    /// 1 element, read in order.
    pub open spec fn from_item(item: Item) -> Result<
        GetSharedSecretParametersResponseView,
        CborError,
    > {
        match tuple_of(item, 1) {
            Err(e) => Err(e),
            Ok(a) => match SharedSecretParametersView::from_item(a[0]) {
                Err(e) => Err(e),
                Ok(ret) => Ok(GetSharedSecretParametersResponseView { ret }),
            },
        }
    }

    /// How a [`GetSharedSecretParametersResponse`] is written.
    pub open spec fn encoder() -> spec_fn(GetSharedSecretParametersResponseView) -> Item {
        |x: GetSharedSecretParametersResponseView| x.item()
    }

    /// How a [`GetSharedSecretParametersResponse`] is read.
    pub open spec fn decoder() -> spec_fn(Item) -> Result<
        GetSharedSecretParametersResponseView,
        CborError,
    > {
        |item: Item| GetSharedSecretParametersResponseView::from_item(item)
    }

    /// Reading the CBOR form gives the value back.
    pub proof fn lemma_round_trip(self)
        ensures
            Self::from_item(self.item()) == Ok::<GetSharedSecretParametersResponseView, CborError>(
                self,
            ),
    {
        let a = self.item()->Array_0;
        assert(tuple_of(self.item(), 1) == Ok::<Seq<Item>, CborError>(a));
        assert(a[0] == self.ret.item());
        self.ret.lemma_round_trip();
    }
}

impl GetSharedSecretParametersResponse {
    /// A copy of this value.
    pub fn duplicate(&self) -> (r: GetSharedSecretParametersResponse)
        ensures
            r@ == self@,
    {
        GetSharedSecretParametersResponse {
            ret: self.ret.duplicate(),
        }
    }

    /// Writes this value as the array of its fields.
    pub fn to_cbor_value(&self) -> (r: CborValue)
        ensures
            r@ == self@.item(),
    {
        let mut a: Vec<CborValue> = Vec::new();
        a.push(self.ret.to_cbor_value());
        assert(items_of(a@) =~= self@.item()->Array_0);
        array_value(a)
    }

    /// Reads a value from the array of its fields.
    pub fn from_cbor_value(v: &CborValue) -> (r: Result<
        GetSharedSecretParametersResponse,
        CborError,
    >)
        ensures
            result_view(r) == GetSharedSecretParametersResponseView::from_item(v@),
    {
        let a = match value_tuple(v, 1) {
            Err(e) => { return Err(e); },
            Ok(a) => a,
        };
        assert(items_of(a@)[0] == a@[0]@);
        let ret = match SharedSecretParameters::from_cbor_value(&a[0]) {
            Err(e) => { return Err(e); },
            Ok(x) => x,
        };
        Ok(GetSharedSecretParametersResponse { ret })
    }
}

/// Request to compute shared secret.
#[derive(Clone, Debug, PartialEq, Eq)]
pub struct ComputeSharedSecretRequest {
    pub params: Vec<SharedSecretParameters>,
}

/// The content of a [`ComputeSharedSecretRequest`].
pub ghost struct ComputeSharedSecretRequestView {
    pub params: Seq<SharedSecretParametersView>,
}

impl View for ComputeSharedSecretRequest {
    type V = ComputeSharedSecretRequestView;

    open spec fn view(&self) -> ComputeSharedSecretRequestView {
        ComputeSharedSecretRequestView {
            params: views(self.params@),
        }
    }
}

impl ComputeSharedSecretRequestView {
    /// The CBOR form: the array of the fields in order.
    pub open spec fn item(self) -> Item {
        Item::Array(
            seq![
                Item::Array(self.params.map_values(SharedSecretParametersView::encoder())),
            ],
        )
    }

    /// What [`ComputeSharedSecretRequest::from_cbor_value`] makes of an item: an array of exactly
    /// 1 element, read in order.
    pub open spec fn from_item(item: Item) -> Result<ComputeSharedSecretRequestView, CborError> {
        match tuple_of(item, 1) {
            Err(e) => Err(e),
            Ok(a) => match decode_array(a[0], SharedSecretParametersView::decoder()) {
                Err(e) => Err(e),
                Ok(params) => Ok(ComputeSharedSecretRequestView { params }),
            },
        }
    }

    /// How a [`ComputeSharedSecretRequest`] is written.
    pub open spec fn encoder() -> spec_fn(ComputeSharedSecretRequestView) -> Item {
        |x: ComputeSharedSecretRequestView| x.item()
    }

    /// How a [`ComputeSharedSecretRequest`] is read.
    pub open spec fn decoder() -> spec_fn(Item) -> Result<
        ComputeSharedSecretRequestView,
        CborError,
    > {
        |item: Item| ComputeSharedSecretRequestView::from_item(item)
    }

    /// Reading the CBOR form gives the value back.
    pub proof fn lemma_round_trip(self)
        ensures
            Self::from_item(self.item()) == Ok::<ComputeSharedSecretRequestView, CborError>(self),
    {
        let a = self.item()->Array_0;
        assert(tuple_of(self.item(), 1) == Ok::<Seq<Item>, CborError>(a));
        assert(a[0] == Item::Array(self.params.map_values(SharedSecretParametersView::encoder())));
        assert forall|x: SharedSecretParametersView| #[trigger] SharedSecretParametersView::decoder()(SharedSecretParametersView::encoder()(x)) == Ok::<SharedSecretParametersView, CborError>(x) by { x.lemma_round_trip(); }
        lemma_decode_all_round_trip(
            self.params,
            SharedSecretParametersView::encoder(),
            SharedSecretParametersView::decoder(),
        );
    }
}

impl ComputeSharedSecretRequest {
    /// A copy of this value.
    pub fn duplicate(&self) -> (r: ComputeSharedSecretRequest)
        ensures
            r@ == self@,
    {
        ComputeSharedSecretRequest {
            params: vec_shared_secret_parameters_duplicate(&self.params),
        }
    }

    /// Writes this value as the array of its fields.
    pub fn to_cbor_value(&self) -> (r: CborValue)
        ensures
            r@ == self@.item(),
    {
        let mut a: Vec<CborValue> = Vec::new();
        a.push(vec_shared_secret_parameters_to_cbor_value(&self.params));
        assert(items_of(a@) =~= self@.item()->Array_0);
        array_value(a)
    }

    /// Reads a value from the array of its fields.
    pub fn from_cbor_value(v: &CborValue) -> (r: Result<ComputeSharedSecretRequest, CborError>)
        ensures
            result_view(r) == ComputeSharedSecretRequestView::from_item(v@),
    {
        let a = match value_tuple(v, 1) {
            Err(e) => { return Err(e); },
            Ok(a) => a,
        };
        assert(items_of(a@)[0] == a@[0]@);
        let params = match vec_shared_secret_parameters_from_cbor_value(&a[0]) {
            Err(e) => { return Err(e); },
            Ok(x) => x,
        };
        Ok(ComputeSharedSecretRequest { params })
    }
}

/// Response to a request to compute shared secret.
#[derive(Clone, Debug, PartialEq, Eq)]
pub struct ComputeSharedSecretResponse {
    pub ret: Vec<u8>,
}

/// The content of a [`ComputeSharedSecretResponse`].
pub ghost struct ComputeSharedSecretResponseView {
    pub ret: Seq<u8>,
}

impl View for ComputeSharedSecretResponse {
    type V = ComputeSharedSecretResponseView;

    open spec fn view(&self) -> ComputeSharedSecretResponseView {
        ComputeSharedSecretResponseView {
            ret: self.ret@,
        }
    }
}

impl ComputeSharedSecretResponseView {
    /// The CBOR form: the array of the fields in order.
    pub open spec fn item(self) -> Item {
        Item::Array(
            seq![
                Item::Bytes(self.ret),
            ],
        )
    }

    /// What [`ComputeSharedSecretResponse::from_cbor_value`] makes of an item: an array of exactly
    /// 1 element, read in order.
    pub open spec fn from_item(item: Item) -> Result<ComputeSharedSecretResponseView, CborError> {
        match tuple_of(item, 1) {
            Err(e) => Err(e),
            Ok(a) => match bytes_of(a[0]) {
                Err(e) => Err(e),
                Ok(ret) => Ok(ComputeSharedSecretResponseView { ret }),
            },
        }
    }

    /// How a [`ComputeSharedSecretResponse`] is written.
    pub open spec fn encoder() -> spec_fn(ComputeSharedSecretResponseView) -> Item {
        |x: ComputeSharedSecretResponseView| x.item()
    }

    /// How a [`ComputeSharedSecretResponse`] is read.
    pub open spec fn decoder() -> spec_fn(Item) -> Result<
        ComputeSharedSecretResponseView,
        CborError,
    > {
        |item: Item| ComputeSharedSecretResponseView::from_item(item)
    }

    /// Reading the CBOR form gives the value back.
    pub proof fn lemma_round_trip(self)
        ensures
            Self::from_item(self.item()) == Ok::<ComputeSharedSecretResponseView, CborError>(self),
    {
        let a = self.item()->Array_0;
        assert(tuple_of(self.item(), 1) == Ok::<Seq<Item>, CborError>(a));
        assert(a[0] == Item::Bytes(self.ret));
    }
}

impl ComputeSharedSecretResponse {
    /// A copy of this value.
    pub fn duplicate(&self) -> (r: ComputeSharedSecretResponse)
        ensures
            r@ == self@,
    {
        ComputeSharedSecretResponse {
            ret: copy_bytes(self.ret.as_slice()),
        }
    }

    /// Writes this value as the array of its fields.
    pub fn to_cbor_value(&self) -> (r: CborValue)
        ensures
            r@ == self@.item(),
    {
        let mut a: Vec<CborValue> = Vec::new();
        a.push(bytes_value(self.ret.as_slice()));
        assert(items_of(a@) =~= self@.item()->Array_0);
        array_value(a)
    }

    /// Reads a value from the array of its fields.
    pub fn from_cbor_value(v: &CborValue) -> (r: Result<ComputeSharedSecretResponse, CborError>)
        ensures
            result_view(r) == ComputeSharedSecretResponseView::from_item(v@),
    {
        let a = match value_tuple(v, 1) {
            Err(e) => { return Err(e); },
            Ok(a) => a,
        };
        assert(items_of(a@)[0] == a@[0]@);
        let ret = match value_bytes(&a[0]) {
            Err(e) => { return Err(e); },
            Ok(x) => x,
        };
        Ok(ComputeSharedSecretResponse { ret })
    }
}

/// Request to generate time stamp.
#[derive(Clone, Copy, Debug, PartialEq, Eq, Structural)]
pub struct GenerateTimeStampRequest {
    pub challenge: i64,
}

impl GenerateTimeStampRequest {
    /// The CBOR form: the array of the fields in order.
    pub open spec fn item(self) -> Item {
        Item::Array(
            seq![
                Item::Integer(self.challenge as int),
            ],
        )
    }

    /// What [`GenerateTimeStampRequest::from_cbor_value`] makes of an item: an array of exactly
    /// 1 element, read in order.
    pub open spec fn from_item(item: Item) -> Result<GenerateTimeStampRequest, CborError> {
        match tuple_of(item, 1) {
            Err(e) => Err(e),
            Ok(a) => match i64_of(a[0]) {
                Err(e) => Err(e),
                Ok(challenge) => Ok(GenerateTimeStampRequest { challenge }),
            },
        }
    }

    /// Reading the CBOR form gives the value back.
    pub proof fn lemma_round_trip(self)
        ensures
            Self::from_item(self.item()) == Ok::<GenerateTimeStampRequest, CborError>(self),
    {
        let a = self.item()->Array_0;
        assert(tuple_of(self.item(), 1) == Ok::<Seq<Item>, CborError>(a));
        assert(a[0] == Item::Integer(self.challenge as int));
    }
}

impl GenerateTimeStampRequest {
    /// Writes this value as the array of its fields.
    pub fn to_cbor_value(&self) -> (r: CborValue)
        ensures
            r@ == self.item(),
    {
        let mut a: Vec<CborValue> = Vec::new();
        a.push(CborValue::Integer(self.challenge as i128));
        assert(items_of(a@) =~= self.item()->Array_0);
        array_value(a)
    }

    /// Reads a value from the array of its fields.
    pub fn from_cbor_value(v: &CborValue) -> (r: Result<GenerateTimeStampRequest, CborError>)
        ensures
            r == GenerateTimeStampRequest::from_item(v@),
    {
        let a = match value_tuple(v, 1) {
            Err(e) => { return Err(e); },
            Ok(a) => a,
        };
        assert(items_of(a@)[0] == a@[0]@);
        let challenge = match value_i64(&a[0]) {
            Err(e) => { return Err(e); },
            Ok(x) => x,
        };
        Ok(GenerateTimeStampRequest { challenge })
    }
}

/// Response to a request to generate time stamp.
#[derive(Clone, Debug, PartialEq, Eq)]
pub struct GenerateTimeStampResponse {
    pub ret: TimeStampToken,
}

/// The content of a [`GenerateTimeStampResponse`].
pub ghost struct GenerateTimeStampResponseView {
    pub ret: TimeStampTokenView,
}

impl View for GenerateTimeStampResponse {
    type V = GenerateTimeStampResponseView;

    open spec fn view(&self) -> GenerateTimeStampResponseView {
        GenerateTimeStampResponseView {
            ret: self.ret@,
        }
    }
}

impl GenerateTimeStampResponseView {
    /// The CBOR form: the array of the fields in order.
    pub open spec fn item(self) -> Item {
        Item::Array(
            seq![
                self.ret.item(),
            ],
        )
    }

    /// What [`GenerateTimeStampResponse::from_cbor_value`] makes of an item: an array of exactly
    /// 1 element, read in order.
    pub open spec fn from_item(item: Item) -> Result<GenerateTimeStampResponseView, CborError> {
        match tuple_of(item, 1) {
            Err(e) => Err(e),
            Ok(a) => match TimeStampTokenView::from_item(a[0]) {
                Err(e) => Err(e),
                Ok(ret) => Ok(GenerateTimeStampResponseView { ret }),
            },
        }
    }

    /// How a [`GenerateTimeStampResponse`] is written.
    pub open spec fn encoder() -> spec_fn(GenerateTimeStampResponseView) -> Item {
        |x: GenerateTimeStampResponseView| x.item()
    }

    /// How a [`GenerateTimeStampResponse`] is read.
    pub open spec fn decoder() -> spec_fn(Item) -> Result<
        GenerateTimeStampResponseView,
        CborError,
    > {
        |item: Item| GenerateTimeStampResponseView::from_item(item)
    }

    /// Reading the CBOR form gives the value back.
    pub proof fn lemma_round_trip(self)
        ensures
            Self::from_item(self.item()) == Ok::<GenerateTimeStampResponseView, CborError>(self),
    {
        let a = self.item()->Array_0;
        assert(tuple_of(self.item(), 1) == Ok::<Seq<Item>, CborError>(a));
        assert(a[0] == self.ret.item());
        self.ret.lemma_round_trip();
    }
}

impl GenerateTimeStampResponse {
    /// A copy of this value.
    pub fn duplicate(&self) -> (r: GenerateTimeStampResponse)
        ensures
            r@ == self@,
    {
        GenerateTimeStampResponse {
            ret: self.ret.duplicate(),
        }
    }

    /// Writes this value as the array of its fields.
    pub fn to_cbor_value(&self) -> (r: CborValue)
        ensures
            r@ == self@.item(),
    {
        let mut a: Vec<CborValue> = Vec::new();
        a.push(self.ret.to_cbor_value());
        assert(items_of(a@) =~= self@.item()->Array_0);
        array_value(a)
    }

    /// Reads a value from the array of its fields.
    pub fn from_cbor_value(v: &CborValue) -> (r: Result<GenerateTimeStampResponse, CborError>)
        ensures
            result_view(r) == GenerateTimeStampResponseView::from_item(v@),
    {
        let a = match value_tuple(v, 1) {
            Err(e) => { return Err(e); },
            Ok(a) => a,
        };
        assert(items_of(a@)[0] == a@[0]@);
        let ret = match TimeStampToken::from_cbor_value(&a[0]) {
            Err(e) => { return Err(e); },
            Ok(x) => x,
        };
        Ok(GenerateTimeStampResponse { ret })
    }
}

/// Request to get root of trust challenge.
#[derive(Clone, Copy, Debug, PartialEq, Eq, Structural)]
pub struct GetRootOfTrustChallengeRequest {}

impl GetRootOfTrustChallengeRequest {
    /// The CBOR form: the array of the fields in order.
    pub open spec fn item(self) -> Item {
        Item::Array(Seq::empty())
    }

    /// What [`GetRootOfTrustChallengeRequest::from_cbor_value`] makes of an
    /// item: an array of exactly
    /// 0 elements, read in order.
    pub open spec fn from_item(item: Item) -> Result<GetRootOfTrustChallengeRequest, CborError> {
        match tuple_of(item, 0) {
            Err(e) => Err(e),
            Ok(a) => Ok(GetRootOfTrustChallengeRequest {}),
        }
    }

    /// Reading the CBOR form gives the value back.
    pub proof fn lemma_round_trip(self)
        ensures
            Self::from_item(self.item()) == Ok::<GetRootOfTrustChallengeRequest, CborError>(self),
    {
        assert(tuple_of(self.item(), 0) == Ok::<Seq<Item>, CborError>(Seq::empty()));
    }
}

impl GetRootOfTrustChallengeRequest {
    /// Writes this value as the array of its fields.
    pub fn to_cbor_value(&self) -> (r: CborValue)
        ensures
            r@ == self.item(),
    {
        let mut a: Vec<CborValue> = Vec::new();
        assert(items_of(a@) =~= Seq::<Item>::empty());
        array_value(a)
    }

    /// Reads a value from the array of its fields.
    pub fn from_cbor_value(v: &CborValue) -> (r: Result<GetRootOfTrustChallengeRequest, CborError>)
        ensures
            r == GetRootOfTrustChallengeRequest::from_item(v@),
    {
        let a = match value_tuple(v, 0) {
            Err(e) => { return Err(e); },
            Ok(a) => a,
        };
        Ok(GetRootOfTrustChallengeRequest {})
    }
}

/// Response to a request to get root of trust challenge.
#[derive(Clone, Debug, PartialEq, Eq)]
pub struct GetRootOfTrustChallengeResponse {
    pub ret: [u8; 16],
}

/// The content of a [`GetRootOfTrustChallengeResponse`].
pub ghost struct GetRootOfTrustChallengeResponseView {
    pub ret: Seq<u8>,
}

impl View for GetRootOfTrustChallengeResponse {
    type V = GetRootOfTrustChallengeResponseView;

    open spec fn view(&self) -> GetRootOfTrustChallengeResponseView {
        GetRootOfTrustChallengeResponseView {
            ret: self.ret@,
        }
    }
}

impl GetRootOfTrustChallengeResponseView {
    /// Whether the byte strings of fixed length have their length. The view
    /// of every [`GetRootOfTrustChallengeResponse`] is well-formed.
    pub open spec fn wf(self) -> bool {
        self.ret.len() == 16
    }

    /// The CBOR form: the array of the fields in order.
    pub open spec fn item(self) -> Item {
        Item::Array(
            seq![
                Item::Bytes(self.ret),
            ],
        )
    }

    /// What [`GetRootOfTrustChallengeResponse::from_cbor_value`] makes of an
    /// item: an array of exactly
    /// 1 element, read in order.
    pub open spec fn from_item(item: Item) -> Result<
        GetRootOfTrustChallengeResponseView,
        CborError,
    > {
        match tuple_of(item, 1) {
            Err(e) => Err(e),
            Ok(a) => match fixed_bytes_of(a[0], 16) {
                Err(e) => Err(e),
                Ok(ret) => Ok(GetRootOfTrustChallengeResponseView { ret }),
            },
        }
    }

    /// How a [`GetRootOfTrustChallengeResponse`] is written.
    pub open spec fn encoder() -> spec_fn(GetRootOfTrustChallengeResponseView) -> Item {
        |x: GetRootOfTrustChallengeResponseView| x.item()
    }

    /// How a [`GetRootOfTrustChallengeResponse`] is read.
    pub open spec fn decoder() -> spec_fn(Item) -> Result<
        GetRootOfTrustChallengeResponseView,
        CborError,
    > {
        |item: Item| GetRootOfTrustChallengeResponseView::from_item(item)
    }

    /// Reading the CBOR form gives the value back.
    pub proof fn lemma_round_trip(self)
        requires
            self.wf(),
        ensures
            Self::from_item(self.item()) == Ok::<GetRootOfTrustChallengeResponseView, CborError>(
                self,
            ),
    {
        let a = self.item()->Array_0;
        assert(tuple_of(self.item(), 1) == Ok::<Seq<Item>, CborError>(a));
        assert(a[0] == Item::Bytes(self.ret));
    }
}

impl GetRootOfTrustChallengeResponse {
    /// A copy of this value.
    pub fn duplicate(&self) -> (r: GetRootOfTrustChallengeResponse)
        ensures
            r@ == self@,
    {
        GetRootOfTrustChallengeResponse {
            ret: self.ret,
        }
    }

    /// Writes this value as the array of its fields.
    pub fn to_cbor_value(&self) -> (r: CborValue)
        ensures
            r@ == self@.item(),
    {
        let mut a: Vec<CborValue> = Vec::new();
        a.push(bytes_value(self.ret.as_slice()));
        assert(items_of(a@) =~= self@.item()->Array_0);
        array_value(a)
    }

    /// Reads a value from the array of its fields.
    pub fn from_cbor_value(v: &CborValue) -> (r: Result<GetRootOfTrustChallengeResponse, CborError>)
        ensures
            result_view(r) == GetRootOfTrustChallengeResponseView::from_item(v@),
    {
        let a = match value_tuple(v, 1) {
            Err(e) => { return Err(e); },
            Ok(a) => a,
        };
        assert(items_of(a@)[0] == a@[0]@);
        let ret = match value_bytes16(&a[0]) {
            Err(e) => { return Err(e); },
            Ok(x) => x,
        };
        Ok(GetRootOfTrustChallengeResponse { ret })
    }
}

/// Request to get root of trust.
#[derive(Clone, Debug, PartialEq, Eq)]
pub struct GetRootOfTrustRequest {
    pub challenge: Vec<u8>,
}

/// The content of a [`GetRootOfTrustRequest`].
pub ghost struct GetRootOfTrustRequestView {
    pub challenge: Seq<u8>,
}

impl View for GetRootOfTrustRequest {
    type V = GetRootOfTrustRequestView;

    open spec fn view(&self) -> GetRootOfTrustRequestView {
        GetRootOfTrustRequestView {
            challenge: self.challenge@,
        }
    }
}

impl GetRootOfTrustRequestView {
    /// The CBOR form: the array of the fields in order.
    pub open spec fn item(self) -> Item {
        Item::Array(
            seq![
                Item::Bytes(self.challenge),
            ],
        )
    }

    /// What [`GetRootOfTrustRequest::from_cbor_value`] makes of an item: an array of exactly
    /// 1 element, read in order.
    pub open spec fn from_item(item: Item) -> Result<GetRootOfTrustRequestView, CborError> {
        match tuple_of(item, 1) {
            Err(e) => Err(e),
            Ok(a) => match bytes_of(a[0]) {
                Err(e) => Err(e),
                Ok(challenge) => Ok(GetRootOfTrustRequestView { challenge }),
            },
        }
    }

    /// How a [`GetRootOfTrustRequest`] is written.
    pub open spec fn encoder() -> spec_fn(GetRootOfTrustRequestView) -> Item {
        |x: GetRootOfTrustRequestView| x.item()
    }

    /// How a [`GetRootOfTrustRequest`] is read.
    pub open spec fn decoder() -> spec_fn(Item) -> Result<GetRootOfTrustRequestView, CborError> {
        |item: Item| GetRootOfTrustRequestView::from_item(item)
    }

    /// Reading the CBOR form gives the value back.
    pub proof fn lemma_round_trip(self)
        ensures
            Self::from_item(self.item()) == Ok::<GetRootOfTrustRequestView, CborError>(self),
    {
        let a = self.item()->Array_0;
        assert(tuple_of(self.item(), 1) == Ok::<Seq<Item>, CborError>(a));
        assert(a[0] == Item::Bytes(self.challenge));
    }
}

impl GetRootOfTrustRequest {
    /// A copy of this value.
    pub fn duplicate(&self) -> (r: GetRootOfTrustRequest)
        ensures
            r@ == self@,
    {
        GetRootOfTrustRequest {
            challenge: copy_bytes(self.challenge.as_slice()),
        }
    }

    /// Writes this value as the array of its fields.
    pub fn to_cbor_value(&self) -> (r: CborValue)
        ensures
            r@ == self@.item(),
    {
        let mut a: Vec<CborValue> = Vec::new();
        a.push(bytes_value(self.challenge.as_slice()));
        assert(items_of(a@) =~= self@.item()->Array_0);
        array_value(a)
    }

    /// Reads a value from the array of its fields.
    pub fn from_cbor_value(v: &CborValue) -> (r: Result<GetRootOfTrustRequest, CborError>)
        ensures
            result_view(r) == GetRootOfTrustRequestView::from_item(v@),
    {
        let a = match value_tuple(v, 1) {
            Err(e) => { return Err(e); },
            Ok(a) => a,
        };
        assert(items_of(a@)[0] == a@[0]@);
        let challenge = match value_bytes(&a[0]) {
            Err(e) => { return Err(e); },
            Ok(x) => x,
        };
        Ok(GetRootOfTrustRequest { challenge })
    }
}

/// Response to a request to get root of trust.
#[derive(Clone, Debug, PartialEq, Eq)]
pub struct GetRootOfTrustResponse {
    pub ret: Vec<u8>,
}

/// The content of a [`GetRootOfTrustResponse`].
pub ghost struct GetRootOfTrustResponseView {
    pub ret: Seq<u8>,
}

impl View for GetRootOfTrustResponse {
    type V = GetRootOfTrustResponseView;

    open spec fn view(&self) -> GetRootOfTrustResponseView {
        GetRootOfTrustResponseView {
            ret: self.ret@,
        }
    }
}

impl GetRootOfTrustResponseView {
    /// The CBOR form: the array of the fields in order.
    pub open spec fn item(self) -> Item {
        Item::Array(
            seq![
                Item::Bytes(self.ret),
            ],
        )
    }

    /// What [`GetRootOfTrustResponse::from_cbor_value`] makes of an item: an array of exactly
    /// 1 element, read in order.
    pub open spec fn from_item(item: Item) -> Result<GetRootOfTrustResponseView, CborError> {
        match tuple_of(item, 1) {
            Err(e) => Err(e),
            Ok(a) => match bytes_of(a[0]) {
                Err(e) => Err(e),
                Ok(ret) => Ok(GetRootOfTrustResponseView { ret }),
            },
        }
    }

    /// How a [`GetRootOfTrustResponse`] is written.
    pub open spec fn encoder() -> spec_fn(GetRootOfTrustResponseView) -> Item {
        |x: GetRootOfTrustResponseView| x.item()
    }

    /// How a [`GetRootOfTrustResponse`] is read.
    pub open spec fn decoder() -> spec_fn(Item) -> Result<GetRootOfTrustResponseView, CborError> {
        |item: Item| GetRootOfTrustResponseView::from_item(item)
    }

    /// Reading the CBOR form gives the value back.
    pub proof fn lemma_round_trip(self)
        ensures
            Self::from_item(self.item()) == Ok::<GetRootOfTrustResponseView, CborError>(self),
    {
        let a = self.item()->Array_0;
        assert(tuple_of(self.item(), 1) == Ok::<Seq<Item>, CborError>(a));
        assert(a[0] == Item::Bytes(self.ret));
    }
}

impl GetRootOfTrustResponse {
    /// A copy of this value.
    pub fn duplicate(&self) -> (r: GetRootOfTrustResponse)
        ensures
            r@ == self@,
    {
        GetRootOfTrustResponse {
            ret: copy_bytes(self.ret.as_slice()),
        }
    }

    /// Writes this value as the array of its fields.
    pub fn to_cbor_value(&self) -> (r: CborValue)
        ensures
            r@ == self@.item(),
    {
        let mut a: Vec<CborValue> = Vec::new();
        a.push(bytes_value(self.ret.as_slice()));
        assert(items_of(a@) =~= self@.item()->Array_0);
        array_value(a)
    }

    /// Reads a value from the array of its fields.
    pub fn from_cbor_value(v: &CborValue) -> (r: Result<GetRootOfTrustResponse, CborError>)
        ensures
            result_view(r) == GetRootOfTrustResponseView::from_item(v@),
    {
        let a = match value_tuple(v, 1) {
            Err(e) => { return Err(e); },
            Ok(a) => a,
        };
        assert(items_of(a@)[0] == a@[0]@);
        let ret = match value_bytes(&a[0]) {
            Err(e) => { return Err(e); },
            Ok(x) => x,
        };
        Ok(GetRootOfTrustResponse { ret })
    }
}

/// Request to send root of trust.
#[derive(Clone, Debug, PartialEq, Eq)]
pub struct SendRootOfTrustRequest {
    pub root_of_trust: Vec<u8>,
}

/// The content of a [`SendRootOfTrustRequest`].
pub ghost struct SendRootOfTrustRequestView {
    pub root_of_trust: Seq<u8>,
}

impl View for SendRootOfTrustRequest {
    type V = SendRootOfTrustRequestView;

    open spec fn view(&self) -> SendRootOfTrustRequestView {
        SendRootOfTrustRequestView {
            root_of_trust: self.root_of_trust@,
        }
    }
}

impl SendRootOfTrustRequestView {
    /// The CBOR form: the array of the fields in order.
    pub open spec fn item(self) -> Item {
        Item::Array(
            seq![
                Item::Bytes(self.root_of_trust),
            ],
        )
    }

    /// What [`SendRootOfTrustRequest::from_cbor_value`] makes of an item: an array of exactly
    /// 1 element, read in order.
    pub open spec fn from_item(item: Item) -> Result<SendRootOfTrustRequestView, CborError> {
        match tuple_of(item, 1) {
            Err(e) => Err(e),
            Ok(a) => match bytes_of(a[0]) {
                Err(e) => Err(e),
                Ok(root_of_trust) => Ok(SendRootOfTrustRequestView { root_of_trust }),
            },
        }
    }

    /// How a [`SendRootOfTrustRequest`] is written.
    pub open spec fn encoder() -> spec_fn(SendRootOfTrustRequestView) -> Item {
        |x: SendRootOfTrustRequestView| x.item()
    }

    /// How a [`SendRootOfTrustRequest`] is read.
    pub open spec fn decoder() -> spec_fn(Item) -> Result<SendRootOfTrustRequestView, CborError> {
        |item: Item| SendRootOfTrustRequestView::from_item(item)
    }

    /// Reading the CBOR form gives the value back.
    pub proof fn lemma_round_trip(self)
        ensures
            Self::from_item(self.item()) == Ok::<SendRootOfTrustRequestView, CborError>(self),
    {
        let a = self.item()->Array_0;
        assert(tuple_of(self.item(), 1) == Ok::<Seq<Item>, CborError>(a));
        assert(a[0] == Item::Bytes(self.root_of_trust));
    }
}

impl SendRootOfTrustRequest {
    /// A copy of this value.
    pub fn duplicate(&self) -> (r: SendRootOfTrustRequest)
        ensures
            r@ == self@,
    {
        SendRootOfTrustRequest {
            root_of_trust: copy_bytes(self.root_of_trust.as_slice()),
        }
    }

    /// Writes this value as the array of its fields.
    pub fn to_cbor_value(&self) -> (r: CborValue)
        ensures
            r@ == self@.item(),
    {
        let mut a: Vec<CborValue> = Vec::new();
        a.push(bytes_value(self.root_of_trust.as_slice()));
        assert(items_of(a@) =~= self@.item()->Array_0);
        array_value(a)
    }

    /// Reads a value from the array of its fields.
    pub fn from_cbor_value(v: &CborValue) -> (r: Result<SendRootOfTrustRequest, CborError>)
        ensures
            result_view(r) == SendRootOfTrustRequestView::from_item(v@),
    {
        let a = match value_tuple(v, 1) {
            Err(e) => { return Err(e); },
            Ok(a) => a,
        };
        assert(items_of(a@)[0] == a@[0]@);
        let root_of_trust = match value_bytes(&a[0]) {
            Err(e) => { return Err(e); },
            Ok(x) => x,
        };
        Ok(SendRootOfTrustRequest { root_of_trust })
    }
}

/// Response to a request to send root of trust.
#[derive(Clone, Copy, Debug, PartialEq, Eq, Structural)]
pub struct SendRootOfTrustResponse {}

impl SendRootOfTrustResponse {
    /// The CBOR form: the array of the fields in order.
    pub open spec fn item(self) -> Item {
        Item::Array(Seq::empty())
    }

    /// What [`SendRootOfTrustResponse::from_cbor_value`] makes of an item: an array of exactly
    /// 0 elements, read in order.
    pub open spec fn from_item(item: Item) -> Result<SendRootOfTrustResponse, CborError> {
        match tuple_of(item, 0) {
            Err(e) => Err(e),
            Ok(a) => Ok(SendRootOfTrustResponse {}),
        }
    }

    /// Reading the CBOR form gives the value back.
    pub proof fn lemma_round_trip(self)
        ensures
            Self::from_item(self.item()) == Ok::<SendRootOfTrustResponse, CborError>(self),
    {
        assert(tuple_of(self.item(), 0) == Ok::<Seq<Item>, CborError>(Seq::empty()));
    }
}

impl SendRootOfTrustResponse {
    /// Writes this value as the array of its fields.
    pub fn to_cbor_value(&self) -> (r: CborValue)
        ensures
            r@ == self.item(),
    {
        let mut a: Vec<CborValue> = Vec::new();
        assert(items_of(a@) =~= Seq::<Item>::empty());
        array_value(a)
    }

    /// Reads a value from the array of its fields.
    pub fn from_cbor_value(v: &CborValue) -> (r: Result<SendRootOfTrustResponse, CborError>)
        ensures
            r == SendRootOfTrustResponse::from_item(v@),
    {
        let a = match value_tuple(v, 0) {
            Err(e) => { return Err(e); },
            Ok(a) => a,
        };
        Ok(SendRootOfTrustResponse {})
    }
}

/// Request to set hal info.
#[derive(Clone, Copy, Debug, PartialEq, Eq, Structural)]
pub struct SetHalInfoRequest {
    pub os_version: u32,
    pub os_patchlevel: u32,
    pub vendor_patchlevel: u32,
}

impl SetHalInfoRequest {
    /// The CBOR form: the array of the fields in order.
    pub open spec fn item(self) -> Item {
        Item::Array(
            seq![
                Item::Integer(self.os_version as int),
                Item::Integer(self.os_patchlevel as int),
                Item::Integer(self.vendor_patchlevel as int),
            ],
        )
    }

    /// What [`SetHalInfoRequest::from_cbor_value`] makes of an item: an array of exactly
    /// 3 elements, read in order.
    pub open spec fn from_item(item: Item) -> Result<SetHalInfoRequest, CborError> {
        match tuple_of(item, 3) {
            Err(e) => Err(e),
            Ok(a) => match u32_of(a[0]) {
                Err(e) => Err(e),
                Ok(os_version) => match u32_of(a[1]) {
                    Err(e) => Err(e),
                    Ok(os_patchlevel) => match u32_of(a[2]) {
                        Err(e) => Err(e),
                        Ok(vendor_patchlevel) => Ok(
                            SetHalInfoRequest { os_version, os_patchlevel, vendor_patchlevel },
                        ),
                    },
                },
            },
        }
    }

    /// Reading the CBOR form gives the value back.
    pub proof fn lemma_round_trip(self)
        ensures
            Self::from_item(self.item()) == Ok::<SetHalInfoRequest, CborError>(self),
    {
        let a = self.item()->Array_0;
        assert(tuple_of(self.item(), 3) == Ok::<Seq<Item>, CborError>(a));
        assert(a[0] == Item::Integer(self.os_version as int));
        assert(a[1] == Item::Integer(self.os_patchlevel as int));
        assert(a[2] == Item::Integer(self.vendor_patchlevel as int));
    }
}

impl SetHalInfoRequest {
    /// Writes this value as the array of its fields.
    pub fn to_cbor_value(&self) -> (r: CborValue)
        ensures
            r@ == self.item(),
    {
        let mut a: Vec<CborValue> = Vec::new();
        a.push(CborValue::Integer(self.os_version as i128));
        a.push(CborValue::Integer(self.os_patchlevel as i128));
        a.push(CborValue::Integer(self.vendor_patchlevel as i128));
        assert(items_of(a@) =~= self.item()->Array_0);
        array_value(a)
    }

    /// Reads a value from the array of its fields.
    pub fn from_cbor_value(v: &CborValue) -> (r: Result<SetHalInfoRequest, CborError>)
        ensures
            r == SetHalInfoRequest::from_item(v@),
    {
        let a = match value_tuple(v, 3) {
            Err(e) => { return Err(e); },
            Ok(a) => a,
        };
        assert(items_of(a@)[0] == a@[0]@);
        assert(items_of(a@)[1] == a@[1]@);
        assert(items_of(a@)[2] == a@[2]@);
        let os_version = match value_u32(&a[0]) {
            Err(e) => { return Err(e); },
            Ok(x) => x,
        };
        let os_patchlevel = match value_u32(&a[1]) {
            Err(e) => { return Err(e); },
            Ok(x) => x,
        };
        let vendor_patchlevel = match value_u32(&a[2]) {
            Err(e) => { return Err(e); },
            Ok(x) => x,
        };
        Ok(SetHalInfoRequest { os_version, os_patchlevel, vendor_patchlevel })
    }
}

/// Response to a request to set hal info.
#[derive(Clone, Copy, Debug, PartialEq, Eq, Structural)]
pub struct SetHalInfoResponse {}

impl SetHalInfoResponse {
    /// The CBOR form: the array of the fields in order.
    pub open spec fn item(self) -> Item {
        Item::Array(Seq::empty())
    }

    /// What [`SetHalInfoResponse::from_cbor_value`] makes of an item: an array of exactly
    /// 0 elements, read in order.
    pub open spec fn from_item(item: Item) -> Result<SetHalInfoResponse, CborError> {
        match tuple_of(item, 0) {
            Err(e) => Err(e),
            Ok(a) => Ok(SetHalInfoResponse {}),
        }
    }

    /// Reading the CBOR form gives the value back.
    pub proof fn lemma_round_trip(self)
        ensures
            Self::from_item(self.item()) == Ok::<SetHalInfoResponse, CborError>(self),
    {
        assert(tuple_of(self.item(), 0) == Ok::<Seq<Item>, CborError>(Seq::empty()));
    }
}

impl SetHalInfoResponse {
    /// Writes this value as the array of its fields.
    pub fn to_cbor_value(&self) -> (r: CborValue)
        ensures
            r@ == self.item(),
    {
        let mut a: Vec<CborValue> = Vec::new();
        assert(items_of(a@) =~= Seq::<Item>::empty());
        array_value(a)
    }

    /// Reads a value from the array of its fields.
    pub fn from_cbor_value(v: &CborValue) -> (r: Result<SetHalInfoResponse, CborError>)
        ensures
            r == SetHalInfoResponse::from_item(v@),
    {
        let a = match value_tuple(v, 0) {
            Err(e) => { return Err(e); },
            Ok(a) => a,
        };
        Ok(SetHalInfoResponse {})
    }
}

/// Request to set boot info.
#[derive(Clone, Debug, PartialEq, Eq)]
pub struct SetBootInfoRequest {
    pub verified_boot_key: [u8; 32],
    pub device_boot_locked: bool,
    pub verified_boot_state: i32,
    pub verified_boot_hash: [u8; 32],
    pub boot_patchlevel: u32,
}

/// The content of a [`SetBootInfoRequest`].
pub ghost struct SetBootInfoRequestView {
    pub verified_boot_key: Seq<u8>,
    pub device_boot_locked: bool,
    pub verified_boot_state: i32,
    pub verified_boot_hash: Seq<u8>,
    pub boot_patchlevel: u32,
}

impl View for SetBootInfoRequest {
    type V = SetBootInfoRequestView;

    open spec fn view(&self) -> SetBootInfoRequestView {
        SetBootInfoRequestView {
            verified_boot_key: self.verified_boot_key@,
            device_boot_locked: self.device_boot_locked,
            verified_boot_state: self.verified_boot_state,
            verified_boot_hash: self.verified_boot_hash@,
            boot_patchlevel: self.boot_patchlevel,
        }
    }
}

impl SetBootInfoRequestView {
    /// Whether the byte strings of fixed length have their length. The view
    /// of every [`SetBootInfoRequest`] is well-formed.
    pub open spec fn wf(self) -> bool {
        self.verified_boot_key.len() == 32
        && self.verified_boot_hash.len() == 32
    }

    /// The CBOR form: the array of the fields in order.
    pub open spec fn item(self) -> Item {
        Item::Array(
            seq![
                Item::Bytes(self.verified_boot_key),
                Item::Bool(self.device_boot_locked),
                Item::Integer(self.verified_boot_state as int),
                Item::Bytes(self.verified_boot_hash),
                Item::Integer(self.boot_patchlevel as int),
            ],
        )
    }

    /// What [`SetBootInfoRequest::from_cbor_value`] makes of an item: an array of exactly
    /// 5 elements, read in order.
    pub open spec fn from_item(item: Item) -> Result<SetBootInfoRequestView, CborError> {
        match tuple_of(item, 5) {
            Err(e) => Err(e),
            Ok(a) => match fixed_bytes_of(a[0], 32) {
                Err(e) => Err(e),
                Ok(verified_boot_key) => match bool_of(a[1]) {
                    Err(e) => Err(e),
                    Ok(device_boot_locked) => match i32_of(a[2]) {
                        Err(e) => Err(e),
                        Ok(verified_boot_state) => match fixed_bytes_of(a[3], 32) {
                            Err(e) => Err(e),
                            Ok(verified_boot_hash) => match u32_of(a[4]) {
                                Err(e) => Err(e),
                                Ok(boot_patchlevel) => Ok(
                                    SetBootInfoRequestView {
                                        verified_boot_key,
                                        device_boot_locked,
                                        verified_boot_state,
                                        verified_boot_hash,
                                        boot_patchlevel,
                                    },
                                ),
                            },
                        },
                    },
                },
            },
        }
    }

    /// How a [`SetBootInfoRequest`] is written.
    pub open spec fn encoder() -> spec_fn(SetBootInfoRequestView) -> Item {
        |x: SetBootInfoRequestView| x.item()
    }

    /// How a [`SetBootInfoRequest`] is read.
    pub open spec fn decoder() -> spec_fn(Item) -> Result<SetBootInfoRequestView, CborError> {
        |item: Item| SetBootInfoRequestView::from_item(item)
    }

    /// Reading the CBOR form gives the value back.
    pub proof fn lemma_round_trip(self)
        requires
            self.wf(),
        ensures
            Self::from_item(self.item()) == Ok::<SetBootInfoRequestView, CborError>(self),
    {
        let a = self.item()->Array_0;
        assert(tuple_of(self.item(), 5) == Ok::<Seq<Item>, CborError>(a));
        assert(a[0] == Item::Bytes(self.verified_boot_key));
        assert(a[1] == Item::Bool(self.device_boot_locked));
        assert(a[2] == Item::Integer(self.verified_boot_state as int));
        assert(a[3] == Item::Bytes(self.verified_boot_hash));
        assert(a[4] == Item::Integer(self.boot_patchlevel as int));
    }
}

impl SetBootInfoRequest {
    /// A copy of this value.
    pub fn duplicate(&self) -> (r: SetBootInfoRequest)
        ensures
            r@ == self@,
    {
        SetBootInfoRequest {
            verified_boot_key: self.verified_boot_key,
            device_boot_locked: self.device_boot_locked,
            verified_boot_state: self.verified_boot_state,
            verified_boot_hash: self.verified_boot_hash,
            boot_patchlevel: self.boot_patchlevel,
        }
    }

    /// Writes this value as the array of its fields.
    pub fn to_cbor_value(&self) -> (r: CborValue)
        ensures
            r@ == self@.item(),
    {
        let mut a: Vec<CborValue> = Vec::new();
        a.push(bytes_value(self.verified_boot_key.as_slice()));
        a.push(CborValue::Bool(self.device_boot_locked));
        a.push(CborValue::Integer(self.verified_boot_state as i128));
        a.push(bytes_value(self.verified_boot_hash.as_slice()));
        a.push(CborValue::Integer(self.boot_patchlevel as i128));
        assert(items_of(a@) =~= self@.item()->Array_0);
        array_value(a)
    }

    /// Reads a value from the array of its fields.
    pub fn from_cbor_value(v: &CborValue) -> (r: Result<SetBootInfoRequest, CborError>)
        ensures
            result_view(r) == SetBootInfoRequestView::from_item(v@),
    {
        let a = match value_tuple(v, 5) {
            Err(e) => { return Err(e); },
            Ok(a) => a,
        };
        assert(items_of(a@)[0] == a@[0]@);
        assert(items_of(a@)[1] == a@[1]@);
        assert(items_of(a@)[2] == a@[2]@);
        assert(items_of(a@)[3] == a@[3]@);
        assert(items_of(a@)[4] == a@[4]@);
        let verified_boot_key = match value_bytes32(&a[0]) {
            Err(e) => { return Err(e); },
            Ok(x) => x,
        };
        let device_boot_locked = match value_bool(&a[1]) {
            Err(e) => { return Err(e); },
            Ok(x) => x,
        };
        let verified_boot_state = match value_i32(&a[2]) {
            Err(e) => { return Err(e); },
            Ok(x) => x,
        };
        let verified_boot_hash = match value_bytes32(&a[3]) {
            Err(e) => { return Err(e); },
            Ok(x) => x,
        };
        let boot_patchlevel = match value_u32(&a[4]) {
            Err(e) => { return Err(e); },
            Ok(x) => x,
        };
        Ok(
            SetBootInfoRequest {
                verified_boot_key,
                device_boot_locked,
                verified_boot_state,
                verified_boot_hash,
                boot_patchlevel,
            },
        )
    }
}

/// Response to a request to set boot info.
#[derive(Clone, Copy, Debug, PartialEq, Eq, Structural)]
pub struct SetBootInfoResponse {}

impl SetBootInfoResponse {
    /// The CBOR form: the array of the fields in order.
    pub open spec fn item(self) -> Item {
        Item::Array(Seq::empty())
    }

    /// What [`SetBootInfoResponse::from_cbor_value`] makes of an item: an array of exactly
    /// 0 elements, read in order.
    pub open spec fn from_item(item: Item) -> Result<SetBootInfoResponse, CborError> {
        match tuple_of(item, 0) {
            Err(e) => Err(e),
            Ok(a) => Ok(SetBootInfoResponse {}),
        }
    }

    /// Reading the CBOR form gives the value back.
    pub proof fn lemma_round_trip(self)
        ensures
            Self::from_item(self.item()) == Ok::<SetBootInfoResponse, CborError>(self),
    {
        assert(tuple_of(self.item(), 0) == Ok::<Seq<Item>, CborError>(Seq::empty()));
    }
}

impl SetBootInfoResponse {
    /// Writes this value as the array of its fields.
    pub fn to_cbor_value(&self) -> (r: CborValue)
        ensures
            r@ == self.item(),
    {
        let mut a: Vec<CborValue> = Vec::new();
        assert(items_of(a@) =~= Seq::<Item>::empty());
        array_value(a)
    }

    /// Reads a value from the array of its fields.
    pub fn from_cbor_value(v: &CborValue) -> (r: Result<SetBootInfoResponse, CborError>)
        ensures
            r == SetBootInfoResponse::from_item(v@),
    {
        let a = match value_tuple(v, 0) {
            Err(e) => { return Err(e); },
            Ok(a) => a,
        };
        Ok(SetBootInfoResponse {})
    }
}

/// Request to set attestation ids.
#[derive(Clone, Debug, PartialEq, Eq)]
pub struct SetAttestationIdsRequest {
    pub ids: AttestationIdInfo,
}

/// The content of a [`SetAttestationIdsRequest`].
pub ghost struct SetAttestationIdsRequestView {
    pub ids: AttestationIdInfoView,
}

impl View for SetAttestationIdsRequest {
    type V = SetAttestationIdsRequestView;

    open spec fn view(&self) -> SetAttestationIdsRequestView {
        SetAttestationIdsRequestView {
            ids: self.ids@,
        }
    }
}

impl SetAttestationIdsRequestView {
    /// The CBOR form: the array of the fields in order.
    pub open spec fn item(self) -> Item {
        Item::Array(
            seq![
                self.ids.item(),
            ],
        )
    }

    /// What [`SetAttestationIdsRequest::from_cbor_value`] makes of an item: an array of exactly
    /// 1 element, read in order.
    pub open spec fn from_item(item: Item) -> Result<SetAttestationIdsRequestView, CborError> {
        match tuple_of(item, 1) {
            Err(e) => Err(e),
            Ok(a) => match AttestationIdInfoView::from_item(a[0]) {
                Err(e) => Err(e),
                Ok(ids) => Ok(SetAttestationIdsRequestView { ids }),
            },
        }
    }

    /// How a [`SetAttestationIdsRequest`] is written.
    pub open spec fn encoder() -> spec_fn(SetAttestationIdsRequestView) -> Item {
        |x: SetAttestationIdsRequestView| x.item()
    }

    /// How a [`SetAttestationIdsRequest`] is read.
    pub open spec fn decoder() -> spec_fn(Item) -> Result<SetAttestationIdsRequestView, CborError> {
        |item: Item| SetAttestationIdsRequestView::from_item(item)
    }

    /// Reading the CBOR form gives the value back.
    pub proof fn lemma_round_trip(self)
        ensures
            Self::from_item(self.item()) == Ok::<SetAttestationIdsRequestView, CborError>(self),
    {
        let a = self.item()->Array_0;
        assert(tuple_of(self.item(), 1) == Ok::<Seq<Item>, CborError>(a));
        assert(a[0] == self.ids.item());
        self.ids.lemma_round_trip();
    }
}

impl SetAttestationIdsRequest {
    /// A copy of this value.
    pub fn duplicate(&self) -> (r: SetAttestationIdsRequest)
        ensures
            r@ == self@,
    {
        SetAttestationIdsRequest {
            ids: self.ids.duplicate(),
        }
    }

    /// Writes this value as the array of its fields.
    pub fn to_cbor_value(&self) -> (r: CborValue)
        ensures
            r@ == self@.item(),
    {
        let mut a: Vec<CborValue> = Vec::new();
        a.push(self.ids.to_cbor_value());
        assert(items_of(a@) =~= self@.item()->Array_0);
        array_value(a)
    }

    /// Reads a value from the array of its fields.
    pub fn from_cbor_value(v: &CborValue) -> (r: Result<SetAttestationIdsRequest, CborError>)
        ensures
            result_view(r) == SetAttestationIdsRequestView::from_item(v@),
    {
        let a = match value_tuple(v, 1) {
            Err(e) => { return Err(e); },
            Ok(a) => a,
        };
        assert(items_of(a@)[0] == a@[0]@);
        let ids = match AttestationIdInfo::from_cbor_value(&a[0]) {
            Err(e) => { return Err(e); },
            Ok(x) => x,
        };
        Ok(SetAttestationIdsRequest { ids })
    }
}

/// Response to a request to set attestation ids.
#[derive(Clone, Copy, Debug, PartialEq, Eq, Structural)]
pub struct SetAttestationIdsResponse {}

impl SetAttestationIdsResponse {
    /// The CBOR form: the array of the fields in order.
    pub open spec fn item(self) -> Item {
        Item::Array(Seq::empty())
    }

    /// What [`SetAttestationIdsResponse::from_cbor_value`] makes of an item: an array of exactly
    /// 0 elements, read in order.
    pub open spec fn from_item(item: Item) -> Result<SetAttestationIdsResponse, CborError> {
        match tuple_of(item, 0) {
            Err(e) => Err(e),
            Ok(a) => Ok(SetAttestationIdsResponse {}),
        }
    }

    /// Reading the CBOR form gives the value back.
    pub proof fn lemma_round_trip(self)
        ensures
            Self::from_item(self.item()) == Ok::<SetAttestationIdsResponse, CborError>(self),
    {
        assert(tuple_of(self.item(), 0) == Ok::<Seq<Item>, CborError>(Seq::empty()));
    }
}

impl SetAttestationIdsResponse {
    /// Writes this value as the array of its fields.
    pub fn to_cbor_value(&self) -> (r: CborValue)
        ensures
            r@ == self.item(),
    {
        let mut a: Vec<CborValue> = Vec::new();
        assert(items_of(a@) =~= Seq::<Item>::empty());
        array_value(a)
    }

    /// Reads a value from the array of its fields.
    pub fn from_cbor_value(v: &CborValue) -> (r: Result<SetAttestationIdsResponse, CborError>)
        ensures
            r == SetAttestationIdsResponse::from_item(v@),
    {
        let a = match value_tuple(v, 0) {
            Err(e) => { return Err(e); },
            Ok(a) => a,
        };
        Ok(SetAttestationIdsResponse {})
    }
}

/// A request, of any operation.
#[derive(Clone, Debug, PartialEq, Eq)]
pub enum PerformOpReq {
    DeviceGetHardwareInfo(GetHardwareInfoRequest),
    DeviceAddRngEntropy(AddRngEntropyRequest),
    DeviceGenerateKey(GenerateKeyRequest),
    DeviceImportKey(ImportKeyRequest),
    DeviceImportWrappedKey(ImportWrappedKeyRequest),
    DeviceUpgradeKey(UpgradeKeyRequest),
    DeviceDeleteKey(DeleteKeyRequest),
    DeviceDeleteAllKeys(DeleteAllKeysRequest),
    DeviceDestroyAttestationIds(DestroyAttestationIdsRequest),
    DeviceBegin(BeginRequest),
    DeviceDeviceLocked(DeviceLockedRequest),
    DeviceEarlyBootEnded(EarlyBootEndedRequest),
    DeviceConvertStorageKeyToEphemeral(ConvertStorageKeyToEphemeralRequest),
    DeviceGetKeyCharacteristics(GetKeyCharacteristicsRequest),
    OperationUpdateAad(UpdateAadRequest),
    OperationUpdate(UpdateRequest),
    OperationFinish(FinishRequest),
    OperationAbort(AbortRequest),
    RpcGetHardwareInfo(GetRpcHardwareInfoRequest),
    RpcGenerateEcdsaP256KeyPair(GenerateEcdsaP256KeyPairRequest),
    RpcGenerateCertificateRequest(GenerateCertificateRequestRequest),
    RpcGenerateCertificateV2Request(GenerateCertificateRequestV2Request),
    SharedSecretGetSharedSecretParameters(GetSharedSecretParametersRequest),
    SharedSecretComputeSharedSecret(ComputeSharedSecretRequest),
    SecureClockGenerateTimeStamp(GenerateTimeStampRequest),
    GetRootOfTrustChallenge(GetRootOfTrustChallengeRequest),
    GetRootOfTrust(GetRootOfTrustRequest),
    SendRootOfTrust(SendRootOfTrustRequest),
    SetHalInfo(SetHalInfoRequest),
    SetBootInfo(SetBootInfoRequest),
    SetAttestationIds(SetAttestationIdsRequest),
}

/// The content of a [`PerformOpReq`].
pub ghost enum PerformOpReqView {
    DeviceGetHardwareInfo(GetHardwareInfoRequest),
    DeviceAddRngEntropy(AddRngEntropyRequestView),
    DeviceGenerateKey(GenerateKeyRequestView),
    DeviceImportKey(ImportKeyRequestView),
    DeviceImportWrappedKey(ImportWrappedKeyRequestView),
    DeviceUpgradeKey(UpgradeKeyRequestView),
    DeviceDeleteKey(DeleteKeyRequestView),
    DeviceDeleteAllKeys(DeleteAllKeysRequest),
    DeviceDestroyAttestationIds(DestroyAttestationIdsRequest),
    DeviceBegin(BeginRequestView),
    DeviceDeviceLocked(DeviceLockedRequestView),
    DeviceEarlyBootEnded(EarlyBootEndedRequest),
    DeviceConvertStorageKeyToEphemeral(ConvertStorageKeyToEphemeralRequestView),
    DeviceGetKeyCharacteristics(GetKeyCharacteristicsRequestView),
    OperationUpdateAad(UpdateAadRequestView),
    OperationUpdate(UpdateRequestView),
    OperationFinish(FinishRequestView),
    OperationAbort(AbortRequest),
    RpcGetHardwareInfo(GetRpcHardwareInfoRequest),
    RpcGenerateEcdsaP256KeyPair(GenerateEcdsaP256KeyPairRequest),
    RpcGenerateCertificateRequest(GenerateCertificateRequestRequestView),
    RpcGenerateCertificateV2Request(GenerateCertificateRequestV2RequestView),
    SharedSecretGetSharedSecretParameters(GetSharedSecretParametersRequest),
    SharedSecretComputeSharedSecret(ComputeSharedSecretRequestView),
    SecureClockGenerateTimeStamp(GenerateTimeStampRequest),
    GetRootOfTrustChallenge(GetRootOfTrustChallengeRequest),
    GetRootOfTrust(GetRootOfTrustRequestView),
    SendRootOfTrust(SendRootOfTrustRequestView),
    SetHalInfo(SetHalInfoRequest),
    SetBootInfo(SetBootInfoRequestView),
    SetAttestationIds(SetAttestationIdsRequestView),
}

impl View for PerformOpReq {
    type V = PerformOpReqView;

    open spec fn view(&self) -> PerformOpReqView {
        match self {
            PerformOpReq::DeviceGetHardwareInfo(x) => PerformOpReqView::DeviceGetHardwareInfo(*x),
            PerformOpReq::DeviceAddRngEntropy(x) => PerformOpReqView::DeviceAddRngEntropy(x@),
            PerformOpReq::DeviceGenerateKey(x) => PerformOpReqView::DeviceGenerateKey(x@),
            PerformOpReq::DeviceImportKey(x) => PerformOpReqView::DeviceImportKey(x@),
            PerformOpReq::DeviceImportWrappedKey(x) => PerformOpReqView::DeviceImportWrappedKey(x@),
            PerformOpReq::DeviceUpgradeKey(x) => PerformOpReqView::DeviceUpgradeKey(x@),
            PerformOpReq::DeviceDeleteKey(x) => PerformOpReqView::DeviceDeleteKey(x@),
            PerformOpReq::DeviceDeleteAllKeys(x) => PerformOpReqView::DeviceDeleteAllKeys(*x),
            PerformOpReq::DeviceDestroyAttestationIds(x) =>
                PerformOpReqView::DeviceDestroyAttestationIds(*x),
            PerformOpReq::DeviceBegin(x) => PerformOpReqView::DeviceBegin(x@),
            PerformOpReq::DeviceDeviceLocked(x) => PerformOpReqView::DeviceDeviceLocked(x@),
            PerformOpReq::DeviceEarlyBootEnded(x) => PerformOpReqView::DeviceEarlyBootEnded(*x),
            PerformOpReq::DeviceConvertStorageKeyToEphemeral(x) =>
                PerformOpReqView::DeviceConvertStorageKeyToEphemeral(x@),
            PerformOpReq::DeviceGetKeyCharacteristics(x) =>
                PerformOpReqView::DeviceGetKeyCharacteristics(x@),
            PerformOpReq::OperationUpdateAad(x) => PerformOpReqView::OperationUpdateAad(x@),
            PerformOpReq::OperationUpdate(x) => PerformOpReqView::OperationUpdate(x@),
            PerformOpReq::OperationFinish(x) => PerformOpReqView::OperationFinish(x@),
            PerformOpReq::OperationAbort(x) => PerformOpReqView::OperationAbort(*x),
            PerformOpReq::RpcGetHardwareInfo(x) => PerformOpReqView::RpcGetHardwareInfo(*x),
            PerformOpReq::RpcGenerateEcdsaP256KeyPair(x) =>
                PerformOpReqView::RpcGenerateEcdsaP256KeyPair(*x),
            PerformOpReq::RpcGenerateCertificateRequest(x) =>
                PerformOpReqView::RpcGenerateCertificateRequest(x@),
            PerformOpReq::RpcGenerateCertificateV2Request(x) =>
                PerformOpReqView::RpcGenerateCertificateV2Request(x@),
            PerformOpReq::SharedSecretGetSharedSecretParameters(x) =>
                PerformOpReqView::SharedSecretGetSharedSecretParameters(*x),
            PerformOpReq::SharedSecretComputeSharedSecret(x) =>
                PerformOpReqView::SharedSecretComputeSharedSecret(x@),
            PerformOpReq::SecureClockGenerateTimeStamp(x) =>
                PerformOpReqView::SecureClockGenerateTimeStamp(*x),
            PerformOpReq::GetRootOfTrustChallenge(x) => PerformOpReqView::GetRootOfTrustChallenge(
                *x,
            ),
            PerformOpReq::GetRootOfTrust(x) => PerformOpReqView::GetRootOfTrust(x@),
            PerformOpReq::SendRootOfTrust(x) => PerformOpReqView::SendRootOfTrust(x@),
            PerformOpReq::SetHalInfo(x) => PerformOpReqView::SetHalInfo(*x),
            PerformOpReq::SetBootInfo(x) => PerformOpReqView::SetBootInfo(x@),
            PerformOpReq::SetAttestationIds(x) => PerformOpReqView::SetAttestationIds(x@),
        }
    }
}

impl PerformOpReqView {
    /// The operation that the request belongs to.
    pub open spec fn code(self) -> KeyMintOperation {
        match self {
            PerformOpReqView::DeviceGetHardwareInfo(_) => KeyMintOperation::DeviceGetHardwareInfo,
            PerformOpReqView::DeviceAddRngEntropy(_) => KeyMintOperation::DeviceAddRngEntropy,
            PerformOpReqView::DeviceGenerateKey(_) => KeyMintOperation::DeviceGenerateKey,
            PerformOpReqView::DeviceImportKey(_) => KeyMintOperation::DeviceImportKey,
            PerformOpReqView::DeviceImportWrappedKey(_) => KeyMintOperation::DeviceImportWrappedKey,
            PerformOpReqView::DeviceUpgradeKey(_) => KeyMintOperation::DeviceUpgradeKey,
            PerformOpReqView::DeviceDeleteKey(_) => KeyMintOperation::DeviceDeleteKey,
            PerformOpReqView::DeviceDeleteAllKeys(_) => KeyMintOperation::DeviceDeleteAllKeys,
            PerformOpReqView::DeviceDestroyAttestationIds(_) =>
                KeyMintOperation::DeviceDestroyAttestationIds,
            PerformOpReqView::DeviceBegin(_) => KeyMintOperation::DeviceBegin,
            PerformOpReqView::DeviceDeviceLocked(_) => KeyMintOperation::DeviceDeviceLocked,
            PerformOpReqView::DeviceEarlyBootEnded(_) => KeyMintOperation::DeviceEarlyBootEnded,
            PerformOpReqView::DeviceConvertStorageKeyToEphemeral(_) =>
                KeyMintOperation::DeviceConvertStorageKeyToEphemeral,
            PerformOpReqView::DeviceGetKeyCharacteristics(_) =>
                KeyMintOperation::DeviceGetKeyCharacteristics,
            PerformOpReqView::OperationUpdateAad(_) => KeyMintOperation::OperationUpdateAad,
            PerformOpReqView::OperationUpdate(_) => KeyMintOperation::OperationUpdate,
            PerformOpReqView::OperationFinish(_) => KeyMintOperation::OperationFinish,
            PerformOpReqView::OperationAbort(_) => KeyMintOperation::OperationAbort,
            PerformOpReqView::RpcGetHardwareInfo(_) => KeyMintOperation::RpcGetHardwareInfo,
            PerformOpReqView::RpcGenerateEcdsaP256KeyPair(_) =>
                KeyMintOperation::RpcGenerateEcdsaP256KeyPair,
            PerformOpReqView::RpcGenerateCertificateRequest(_) =>
                KeyMintOperation::RpcGenerateCertificateRequest,
            PerformOpReqView::RpcGenerateCertificateV2Request(_) =>
                KeyMintOperation::RpcGenerateCertificateV2Request,
            PerformOpReqView::SharedSecretGetSharedSecretParameters(_) =>
                KeyMintOperation::SharedSecretGetSharedSecretParameters,
            PerformOpReqView::SharedSecretComputeSharedSecret(_) =>
                KeyMintOperation::SharedSecretComputeSharedSecret,
            PerformOpReqView::SecureClockGenerateTimeStamp(_) =>
                KeyMintOperation::SecureClockGenerateTimeStamp,
            PerformOpReqView::GetRootOfTrustChallenge(_) =>
                KeyMintOperation::GetRootOfTrustChallenge,
            PerformOpReqView::GetRootOfTrust(_) => KeyMintOperation::GetRootOfTrust,
            PerformOpReqView::SendRootOfTrust(_) => KeyMintOperation::SendRootOfTrust,
            PerformOpReqView::SetHalInfo(_) => KeyMintOperation::SetHalInfo,
            PerformOpReqView::SetBootInfo(_) => KeyMintOperation::SetBootInfo,
            PerformOpReqView::SetAttestationIds(_) => KeyMintOperation::SetAttestationIds,
        }
    }

    /// The CBOR form of the request itself.
    pub open spec fn payload(self) -> Item {
        match self {
            PerformOpReqView::DeviceGetHardwareInfo(x) => x.item(),
            PerformOpReqView::DeviceAddRngEntropy(x) => x.item(),
            PerformOpReqView::DeviceGenerateKey(x) => x.item(),
            PerformOpReqView::DeviceImportKey(x) => x.item(),
            PerformOpReqView::DeviceImportWrappedKey(x) => x.item(),
            PerformOpReqView::DeviceUpgradeKey(x) => x.item(),
            PerformOpReqView::DeviceDeleteKey(x) => x.item(),
            PerformOpReqView::DeviceDeleteAllKeys(x) => x.item(),
            PerformOpReqView::DeviceDestroyAttestationIds(x) => x.item(),
            PerformOpReqView::DeviceBegin(x) => x.item(),
            PerformOpReqView::DeviceDeviceLocked(x) => x.item(),
            PerformOpReqView::DeviceEarlyBootEnded(x) => x.item(),
            PerformOpReqView::DeviceConvertStorageKeyToEphemeral(x) => x.item(),
            PerformOpReqView::DeviceGetKeyCharacteristics(x) => x.item(),
            PerformOpReqView::OperationUpdateAad(x) => x.item(),
            PerformOpReqView::OperationUpdate(x) => x.item(),
            PerformOpReqView::OperationFinish(x) => x.item(),
            PerformOpReqView::OperationAbort(x) => x.item(),
            PerformOpReqView::RpcGetHardwareInfo(x) => x.item(),
            PerformOpReqView::RpcGenerateEcdsaP256KeyPair(x) => x.item(),
            PerformOpReqView::RpcGenerateCertificateRequest(x) => x.item(),
            PerformOpReqView::RpcGenerateCertificateV2Request(x) => x.item(),
            PerformOpReqView::SharedSecretGetSharedSecretParameters(x) => x.item(),
            PerformOpReqView::SharedSecretComputeSharedSecret(x) => x.item(),
            PerformOpReqView::SecureClockGenerateTimeStamp(x) => x.item(),
            PerformOpReqView::GetRootOfTrustChallenge(x) => x.item(),
            PerformOpReqView::GetRootOfTrust(x) => x.item(),
            PerformOpReqView::SendRootOfTrust(x) => x.item(),
            PerformOpReqView::SetHalInfo(x) => x.item(),
            PerformOpReqView::SetBootInfo(x) => x.item(),
            PerformOpReqView::SetAttestationIds(x) => x.item(),
        }
    }

    /// The CBOR form: the number of the operation, then the request.
    pub open spec fn item(self) -> Item {
        Item::Array(seq![Item::Integer(self.code().code()), self.payload()])
    }

    /// The request of operation `code` that an item stands for.
    pub open spec fn with_code(code: KeyMintOperation, raw: Item) -> Result<
        PerformOpReqView,
        CborError,
    > {
        match code {
            KeyMintOperation::DeviceGetHardwareInfo => match GetHardwareInfoRequest::from_item(
                raw,
            ) {
                Err(e) => Err(e),
                Ok(x) => Ok(PerformOpReqView::DeviceGetHardwareInfo(x)),
            },
            KeyMintOperation::DeviceAddRngEntropy => match AddRngEntropyRequestView::from_item(
                raw,
            ) {
                Err(e) => Err(e),
                Ok(x) => Ok(PerformOpReqView::DeviceAddRngEntropy(x)),
            },
            KeyMintOperation::DeviceGenerateKey => match GenerateKeyRequestView::from_item(raw) {
                Err(e) => Err(e),
                Ok(x) => Ok(PerformOpReqView::DeviceGenerateKey(x)),
            },
            KeyMintOperation::DeviceImportKey => match ImportKeyRequestView::from_item(raw) {
                Err(e) => Err(e),
                Ok(x) => Ok(PerformOpReqView::DeviceImportKey(x)),
            },
            KeyMintOperation::DeviceImportWrappedKey =>
                match ImportWrappedKeyRequestView::from_item(raw) {
                Err(e) => Err(e),
                Ok(x) => Ok(PerformOpReqView::DeviceImportWrappedKey(x)),
            },
            KeyMintOperation::DeviceUpgradeKey => match UpgradeKeyRequestView::from_item(raw) {
                Err(e) => Err(e),
                Ok(x) => Ok(PerformOpReqView::DeviceUpgradeKey(x)),
            },
            KeyMintOperation::DeviceDeleteKey => match DeleteKeyRequestView::from_item(raw) {
                Err(e) => Err(e),
                Ok(x) => Ok(PerformOpReqView::DeviceDeleteKey(x)),
            },
            KeyMintOperation::DeviceDeleteAllKeys => match DeleteAllKeysRequest::from_item(raw) {
                Err(e) => Err(e),
                Ok(x) => Ok(PerformOpReqView::DeviceDeleteAllKeys(x)),
            },
            KeyMintOperation::DeviceDestroyAttestationIds =>
                match DestroyAttestationIdsRequest::from_item(raw) {
                Err(e) => Err(e),
                Ok(x) => Ok(PerformOpReqView::DeviceDestroyAttestationIds(x)),
            },
            KeyMintOperation::DeviceBegin => match BeginRequestView::from_item(raw) {
                Err(e) => Err(e),
                Ok(x) => Ok(PerformOpReqView::DeviceBegin(x)),
            },
            KeyMintOperation::DeviceDeviceLocked => match DeviceLockedRequestView::from_item(raw) {
                Err(e) => Err(e),
                Ok(x) => Ok(PerformOpReqView::DeviceDeviceLocked(x)),
            },
            KeyMintOperation::DeviceEarlyBootEnded => match EarlyBootEndedRequest::from_item(raw) {
                Err(e) => Err(e),
                Ok(x) => Ok(PerformOpReqView::DeviceEarlyBootEnded(x)),
            },
            KeyMintOperation::DeviceConvertStorageKeyToEphemeral =>
                match ConvertStorageKeyToEphemeralRequestView::from_item(raw) {
                Err(e) => Err(e),
                Ok(x) => Ok(PerformOpReqView::DeviceConvertStorageKeyToEphemeral(x)),
            },
            KeyMintOperation::DeviceGetKeyCharacteristics =>
                match GetKeyCharacteristicsRequestView::from_item(raw) {
                Err(e) => Err(e),
                Ok(x) => Ok(PerformOpReqView::DeviceGetKeyCharacteristics(x)),
            },
            KeyMintOperation::OperationUpdateAad => match UpdateAadRequestView::from_item(raw) {
                Err(e) => Err(e),
                Ok(x) => Ok(PerformOpReqView::OperationUpdateAad(x)),
            },
            KeyMintOperation::OperationUpdate => match UpdateRequestView::from_item(raw) {
                Err(e) => Err(e),
                Ok(x) => Ok(PerformOpReqView::OperationUpdate(x)),
            },
            KeyMintOperation::OperationFinish => match FinishRequestView::from_item(raw) {
                Err(e) => Err(e),
                Ok(x) => Ok(PerformOpReqView::OperationFinish(x)),
            },
            KeyMintOperation::OperationAbort => match AbortRequest::from_item(raw) {
                Err(e) => Err(e),
                Ok(x) => Ok(PerformOpReqView::OperationAbort(x)),
            },
            KeyMintOperation::RpcGetHardwareInfo => match GetRpcHardwareInfoRequest::from_item(
                raw,
            ) {
                Err(e) => Err(e),
                Ok(x) => Ok(PerformOpReqView::RpcGetHardwareInfo(x)),
            },
            KeyMintOperation::RpcGenerateEcdsaP256KeyPair =>
                match GenerateEcdsaP256KeyPairRequest::from_item(raw) {
                Err(e) => Err(e),
                Ok(x) => Ok(PerformOpReqView::RpcGenerateEcdsaP256KeyPair(x)),
            },
            KeyMintOperation::RpcGenerateCertificateRequest =>
                match GenerateCertificateRequestRequestView::from_item(raw) {
                Err(e) => Err(e),
                Ok(x) => Ok(PerformOpReqView::RpcGenerateCertificateRequest(x)),
            },
            KeyMintOperation::RpcGenerateCertificateV2Request =>
                match GenerateCertificateRequestV2RequestView::from_item(raw) {
                Err(e) => Err(e),
                Ok(x) => Ok(PerformOpReqView::RpcGenerateCertificateV2Request(x)),
            },
            KeyMintOperation::SharedSecretGetSharedSecretParameters =>
                match GetSharedSecretParametersRequest::from_item(raw) {
                Err(e) => Err(e),
                Ok(x) => Ok(PerformOpReqView::SharedSecretGetSharedSecretParameters(x)),
            },
            KeyMintOperation::SharedSecretComputeSharedSecret =>
                match ComputeSharedSecretRequestView::from_item(raw) {
                Err(e) => Err(e),
                Ok(x) => Ok(PerformOpReqView::SharedSecretComputeSharedSecret(x)),
            },
            KeyMintOperation::SecureClockGenerateTimeStamp =>
                match GenerateTimeStampRequest::from_item(raw) {
                Err(e) => Err(e),
                Ok(x) => Ok(PerformOpReqView::SecureClockGenerateTimeStamp(x)),
            },
            KeyMintOperation::GetRootOfTrustChallenge =>
                match GetRootOfTrustChallengeRequest::from_item(raw) {
                Err(e) => Err(e),
                Ok(x) => Ok(PerformOpReqView::GetRootOfTrustChallenge(x)),
            },
            KeyMintOperation::GetRootOfTrust => match GetRootOfTrustRequestView::from_item(raw) {
                Err(e) => Err(e),
                Ok(x) => Ok(PerformOpReqView::GetRootOfTrust(x)),
            },
            KeyMintOperation::SendRootOfTrust => match SendRootOfTrustRequestView::from_item(raw) {
                Err(e) => Err(e),
                Ok(x) => Ok(PerformOpReqView::SendRootOfTrust(x)),
            },
            KeyMintOperation::SetHalInfo => match SetHalInfoRequest::from_item(raw) {
                Err(e) => Err(e),
                Ok(x) => Ok(PerformOpReqView::SetHalInfo(x)),
            },
            KeyMintOperation::SetBootInfo => match SetBootInfoRequestView::from_item(raw) {
                Err(e) => Err(e),
                Ok(x) => Ok(PerformOpReqView::SetBootInfo(x)),
            },
            KeyMintOperation::SetAttestationIds => match SetAttestationIdsRequestView::from_item(
                raw,
            ) {
                Err(e) => Err(e),
                Ok(x) => Ok(PerformOpReqView::SetAttestationIds(x)),
            },
        }
    }

    /// What [`PerformOpReq::from_cbor_value`] makes of an item: an array of exactly
    /// two elements, the number of an operation and the request of that
    /// operation.
    pub open spec fn from_item(item: Item) -> Result<PerformOpReqView, CborError> {
        match tuple_of(item, 2) {
            Err(e) => Err(e),
            Ok(a) => match KeyMintOperation::from_item(a[0]) {
                Err(e) => Err(e),
                Ok(code) => Self::with_code(code, a[1]),
            },
        }
    }

    /// How a [`PerformOpReq`] is written.
    pub open spec fn encoder() -> spec_fn(PerformOpReqView) -> Item {
        |x: PerformOpReqView| x.item()
    }

    /// How a [`PerformOpReq`] is read.
    pub open spec fn decoder() -> spec_fn(Item) -> Result<PerformOpReqView, CborError> {
        |item: Item| PerformOpReqView::from_item(item)
    }
}

impl PerformOpReq {
    /// The operation that this request belongs to.
    pub fn code(&self) -> (r: KeyMintOperation)
        ensures
            r == self@.code(),
    {
        match self {
            PerformOpReq::DeviceGetHardwareInfo(_) => KeyMintOperation::DeviceGetHardwareInfo,
            PerformOpReq::DeviceAddRngEntropy(_) => KeyMintOperation::DeviceAddRngEntropy,
            PerformOpReq::DeviceGenerateKey(_) => KeyMintOperation::DeviceGenerateKey,
            PerformOpReq::DeviceImportKey(_) => KeyMintOperation::DeviceImportKey,
            PerformOpReq::DeviceImportWrappedKey(_) => KeyMintOperation::DeviceImportWrappedKey,
            PerformOpReq::DeviceUpgradeKey(_) => KeyMintOperation::DeviceUpgradeKey,
            PerformOpReq::DeviceDeleteKey(_) => KeyMintOperation::DeviceDeleteKey,
            PerformOpReq::DeviceDeleteAllKeys(_) => KeyMintOperation::DeviceDeleteAllKeys,
            PerformOpReq::DeviceDestroyAttestationIds(_) =>
                KeyMintOperation::DeviceDestroyAttestationIds,
            PerformOpReq::DeviceBegin(_) => KeyMintOperation::DeviceBegin,
            PerformOpReq::DeviceDeviceLocked(_) => KeyMintOperation::DeviceDeviceLocked,
            PerformOpReq::DeviceEarlyBootEnded(_) => KeyMintOperation::DeviceEarlyBootEnded,
            PerformOpReq::DeviceConvertStorageKeyToEphemeral(_) =>
                KeyMintOperation::DeviceConvertStorageKeyToEphemeral,
            PerformOpReq::DeviceGetKeyCharacteristics(_) =>
                KeyMintOperation::DeviceGetKeyCharacteristics,
            PerformOpReq::OperationUpdateAad(_) => KeyMintOperation::OperationUpdateAad,
            PerformOpReq::OperationUpdate(_) => KeyMintOperation::OperationUpdate,
            PerformOpReq::OperationFinish(_) => KeyMintOperation::OperationFinish,
            PerformOpReq::OperationAbort(_) => KeyMintOperation::OperationAbort,
            PerformOpReq::RpcGetHardwareInfo(_) => KeyMintOperation::RpcGetHardwareInfo,
            PerformOpReq::RpcGenerateEcdsaP256KeyPair(_) =>
                KeyMintOperation::RpcGenerateEcdsaP256KeyPair,
            PerformOpReq::RpcGenerateCertificateRequest(_) =>
                KeyMintOperation::RpcGenerateCertificateRequest,
            PerformOpReq::RpcGenerateCertificateV2Request(_) =>
                KeyMintOperation::RpcGenerateCertificateV2Request,
            PerformOpReq::SharedSecretGetSharedSecretParameters(_) =>
                KeyMintOperation::SharedSecretGetSharedSecretParameters,
            PerformOpReq::SharedSecretComputeSharedSecret(_) =>
                KeyMintOperation::SharedSecretComputeSharedSecret,
            PerformOpReq::SecureClockGenerateTimeStamp(_) =>
                KeyMintOperation::SecureClockGenerateTimeStamp,
            PerformOpReq::GetRootOfTrustChallenge(_) => KeyMintOperation::GetRootOfTrustChallenge,
            PerformOpReq::GetRootOfTrust(_) => KeyMintOperation::GetRootOfTrust,
            PerformOpReq::SendRootOfTrust(_) => KeyMintOperation::SendRootOfTrust,
            PerformOpReq::SetHalInfo(_) => KeyMintOperation::SetHalInfo,
            PerformOpReq::SetBootInfo(_) => KeyMintOperation::SetBootInfo,
            PerformOpReq::SetAttestationIds(_) => KeyMintOperation::SetAttestationIds,
        }
    }

    /// A copy of this value.
    pub fn duplicate(&self) -> (r: PerformOpReq)
        ensures
            r@ == self@,
    {
        match self {
            PerformOpReq::DeviceGetHardwareInfo(x) => PerformOpReq::DeviceGetHardwareInfo(*x),
            PerformOpReq::DeviceAddRngEntropy(x) => PerformOpReq::DeviceAddRngEntropy(
                x.duplicate(),
            ),
            PerformOpReq::DeviceGenerateKey(x) => PerformOpReq::DeviceGenerateKey(x.duplicate()),
            PerformOpReq::DeviceImportKey(x) => PerformOpReq::DeviceImportKey(x.duplicate()),
            PerformOpReq::DeviceImportWrappedKey(x) => PerformOpReq::DeviceImportWrappedKey(
                x.duplicate(),
            ),
            PerformOpReq::DeviceUpgradeKey(x) => PerformOpReq::DeviceUpgradeKey(x.duplicate()),
            PerformOpReq::DeviceDeleteKey(x) => PerformOpReq::DeviceDeleteKey(x.duplicate()),
            PerformOpReq::DeviceDeleteAllKeys(x) => PerformOpReq::DeviceDeleteAllKeys(*x),
            PerformOpReq::DeviceDestroyAttestationIds(x) =>
                PerformOpReq::DeviceDestroyAttestationIds(*x),
            PerformOpReq::DeviceBegin(x) => PerformOpReq::DeviceBegin(x.duplicate()),
            PerformOpReq::DeviceDeviceLocked(x) => PerformOpReq::DeviceDeviceLocked(x.duplicate()),
            PerformOpReq::DeviceEarlyBootEnded(x) => PerformOpReq::DeviceEarlyBootEnded(*x),
            PerformOpReq::DeviceConvertStorageKeyToEphemeral(x) =>
                PerformOpReq::DeviceConvertStorageKeyToEphemeral(x.duplicate()),
            PerformOpReq::DeviceGetKeyCharacteristics(x) =>
                PerformOpReq::DeviceGetKeyCharacteristics(x.duplicate()),
            PerformOpReq::OperationUpdateAad(x) => PerformOpReq::OperationUpdateAad(x.duplicate()),
            PerformOpReq::OperationUpdate(x) => PerformOpReq::OperationUpdate(x.duplicate()),
            PerformOpReq::OperationFinish(x) => PerformOpReq::OperationFinish(x.duplicate()),
            PerformOpReq::OperationAbort(x) => PerformOpReq::OperationAbort(*x),
            PerformOpReq::RpcGetHardwareInfo(x) => PerformOpReq::RpcGetHardwareInfo(*x),
            PerformOpReq::RpcGenerateEcdsaP256KeyPair(x) =>
                PerformOpReq::RpcGenerateEcdsaP256KeyPair(*x),
            PerformOpReq::RpcGenerateCertificateRequest(x) =>
                PerformOpReq::RpcGenerateCertificateRequest(x.duplicate()),
            PerformOpReq::RpcGenerateCertificateV2Request(x) =>
                PerformOpReq::RpcGenerateCertificateV2Request(x.duplicate()),
            PerformOpReq::SharedSecretGetSharedSecretParameters(x) =>
                PerformOpReq::SharedSecretGetSharedSecretParameters(*x),
            PerformOpReq::SharedSecretComputeSharedSecret(x) =>
                PerformOpReq::SharedSecretComputeSharedSecret(x.duplicate()),
            PerformOpReq::SecureClockGenerateTimeStamp(x) =>
                PerformOpReq::SecureClockGenerateTimeStamp(*x),
            PerformOpReq::GetRootOfTrustChallenge(x) => PerformOpReq::GetRootOfTrustChallenge(*x),
            PerformOpReq::GetRootOfTrust(x) => PerformOpReq::GetRootOfTrust(x.duplicate()),
            PerformOpReq::SendRootOfTrust(x) => PerformOpReq::SendRootOfTrust(x.duplicate()),
            PerformOpReq::SetHalInfo(x) => PerformOpReq::SetHalInfo(*x),
            PerformOpReq::SetBootInfo(x) => PerformOpReq::SetBootInfo(x.duplicate()),
            PerformOpReq::SetAttestationIds(x) => PerformOpReq::SetAttestationIds(x.duplicate()),
        }
    }

    /// Writes the number of the operation, then the request.
    pub fn to_cbor_value(&self) -> (r: CborValue)
        ensures
            r@ == self@.item(),
    {
        let payload = match self {
            PerformOpReq::DeviceGetHardwareInfo(x) => x.to_cbor_value(),
            PerformOpReq::DeviceAddRngEntropy(x) => x.to_cbor_value(),
            PerformOpReq::DeviceGenerateKey(x) => x.to_cbor_value(),
            PerformOpReq::DeviceImportKey(x) => x.to_cbor_value(),
            PerformOpReq::DeviceImportWrappedKey(x) => x.to_cbor_value(),
            PerformOpReq::DeviceUpgradeKey(x) => x.to_cbor_value(),
            PerformOpReq::DeviceDeleteKey(x) => x.to_cbor_value(),
            PerformOpReq::DeviceDeleteAllKeys(x) => x.to_cbor_value(),
            PerformOpReq::DeviceDestroyAttestationIds(x) => x.to_cbor_value(),
            PerformOpReq::DeviceBegin(x) => x.to_cbor_value(),
            PerformOpReq::DeviceDeviceLocked(x) => x.to_cbor_value(),
            PerformOpReq::DeviceEarlyBootEnded(x) => x.to_cbor_value(),
            PerformOpReq::DeviceConvertStorageKeyToEphemeral(x) => x.to_cbor_value(),
            PerformOpReq::DeviceGetKeyCharacteristics(x) => x.to_cbor_value(),
            PerformOpReq::OperationUpdateAad(x) => x.to_cbor_value(),
            PerformOpReq::OperationUpdate(x) => x.to_cbor_value(),
            PerformOpReq::OperationFinish(x) => x.to_cbor_value(),
            PerformOpReq::OperationAbort(x) => x.to_cbor_value(),
            PerformOpReq::RpcGetHardwareInfo(x) => x.to_cbor_value(),
            PerformOpReq::RpcGenerateEcdsaP256KeyPair(x) => x.to_cbor_value(),
            PerformOpReq::RpcGenerateCertificateRequest(x) => x.to_cbor_value(),
            PerformOpReq::RpcGenerateCertificateV2Request(x) => x.to_cbor_value(),
            PerformOpReq::SharedSecretGetSharedSecretParameters(x) => x.to_cbor_value(),
            PerformOpReq::SharedSecretComputeSharedSecret(x) => x.to_cbor_value(),
            PerformOpReq::SecureClockGenerateTimeStamp(x) => x.to_cbor_value(),
            PerformOpReq::GetRootOfTrustChallenge(x) => x.to_cbor_value(),
            PerformOpReq::GetRootOfTrust(x) => x.to_cbor_value(),
            PerformOpReq::SendRootOfTrust(x) => x.to_cbor_value(),
            PerformOpReq::SetHalInfo(x) => x.to_cbor_value(),
            PerformOpReq::SetBootInfo(x) => x.to_cbor_value(),
            PerformOpReq::SetAttestationIds(x) => x.to_cbor_value(),
        };
        let mut a: Vec<CborValue> = Vec::new();
        a.push(self.code().to_cbor_value());
        a.push(payload);
        assert(items_of(a@) =~= seq![Item::Integer(self@.code().code()), self@.payload()]);
        array_value(a)
    }

    /// Reads the request of the operation `DeviceGetHardwareInfo`.
    fn read_device_get_hardware_info(raw: &CborValue) -> (r: Result<PerformOpReq, CborError>)
        ensures
            result_view(r) == match GetHardwareInfoRequest::from_item(raw@) {
                Err(e) => Err(e),
                Ok(x) => Ok(PerformOpReqView::DeviceGetHardwareInfo(x)),
            },
    {
        match GetHardwareInfoRequest::from_cbor_value(raw) {
            Err(e) => Err(e),
            Ok(x) => Ok(PerformOpReq::DeviceGetHardwareInfo(x)),
        }
    }

    /// Reads the request of the operation `DeviceAddRngEntropy`.
    fn read_device_add_rng_entropy(raw: &CborValue) -> (r: Result<PerformOpReq, CborError>)
        ensures
            result_view(r) == match AddRngEntropyRequestView::from_item(raw@) {
                Err(e) => Err(e),
                Ok(x) => Ok(PerformOpReqView::DeviceAddRngEntropy(x)),
            },
    {
        match AddRngEntropyRequest::from_cbor_value(raw) {
            Err(e) => Err(e),
            Ok(x) => Ok(PerformOpReq::DeviceAddRngEntropy(x)),
        }
    }

    /// Reads the request of the operation `DeviceGenerateKey`.
    fn read_device_generate_key(raw: &CborValue) -> (r: Result<PerformOpReq, CborError>)
        ensures
            result_view(r) == match GenerateKeyRequestView::from_item(raw@) {
                Err(e) => Err(e),
                Ok(x) => Ok(PerformOpReqView::DeviceGenerateKey(x)),
            },
    {
        match GenerateKeyRequest::from_cbor_value(raw) {
            Err(e) => Err(e),
            Ok(x) => Ok(PerformOpReq::DeviceGenerateKey(x)),
        }
    }

    /// Reads the request of the operation `DeviceImportKey`.
    fn read_device_import_key(raw: &CborValue) -> (r: Result<PerformOpReq, CborError>)
        ensures
            result_view(r) == match ImportKeyRequestView::from_item(raw@) {
                Err(e) => Err(e),
                Ok(x) => Ok(PerformOpReqView::DeviceImportKey(x)),
            },
    {
        match ImportKeyRequest::from_cbor_value(raw) {
            Err(e) => Err(e),
            Ok(x) => Ok(PerformOpReq::DeviceImportKey(x)),
        }
    }

    /// Reads the request of the operation `DeviceImportWrappedKey`.
    fn read_device_import_wrapped_key(raw: &CborValue) -> (r: Result<PerformOpReq, CborError>)
        ensures
            result_view(r) == match ImportWrappedKeyRequestView::from_item(raw@) {
                Err(e) => Err(e),
                Ok(x) => Ok(PerformOpReqView::DeviceImportWrappedKey(x)),
            },
    {
        match ImportWrappedKeyRequest::from_cbor_value(raw) {
            Err(e) => Err(e),
            Ok(x) => Ok(PerformOpReq::DeviceImportWrappedKey(x)),
        }
    }

    /// Reads the request of the operation `DeviceUpgradeKey`.
    fn read_device_upgrade_key(raw: &CborValue) -> (r: Result<PerformOpReq, CborError>)
        ensures
            result_view(r) == match UpgradeKeyRequestView::from_item(raw@) {
                Err(e) => Err(e),
                Ok(x) => Ok(PerformOpReqView::DeviceUpgradeKey(x)),
            },
    {
        match UpgradeKeyRequest::from_cbor_value(raw) {
            Err(e) => Err(e),
            Ok(x) => Ok(PerformOpReq::DeviceUpgradeKey(x)),
        }
    }

    /// Reads the request of the operation `DeviceDeleteKey`.
    fn read_device_delete_key(raw: &CborValue) -> (r: Result<PerformOpReq, CborError>)
        ensures
            result_view(r) == match DeleteKeyRequestView::from_item(raw@) {
                Err(e) => Err(e),
                Ok(x) => Ok(PerformOpReqView::DeviceDeleteKey(x)),
            },
    {
        match DeleteKeyRequest::from_cbor_value(raw) {
            Err(e) => Err(e),
            Ok(x) => Ok(PerformOpReq::DeviceDeleteKey(x)),
        }
    }

    /// Reads the request of the operation `DeviceDeleteAllKeys`.
    fn read_device_delete_all_keys(raw: &CborValue) -> (r: Result<PerformOpReq, CborError>)
        ensures
            result_view(r) == match DeleteAllKeysRequest::from_item(raw@) {
                Err(e) => Err(e),
                Ok(x) => Ok(PerformOpReqView::DeviceDeleteAllKeys(x)),
            },
    {
        match DeleteAllKeysRequest::from_cbor_value(raw) {
            Err(e) => Err(e),
            Ok(x) => Ok(PerformOpReq::DeviceDeleteAllKeys(x)),
        }
    }

    /// Reads the request of the operation `DeviceDestroyAttestationIds`.
    fn read_device_destroy_attestation_ids(raw: &CborValue) -> (r: Result<PerformOpReq, CborError>)
        ensures
            result_view(r) == match DestroyAttestationIdsRequest::from_item(raw@) {
                Err(e) => Err(e),
                Ok(x) => Ok(PerformOpReqView::DeviceDestroyAttestationIds(x)),
            },
    {
        match DestroyAttestationIdsRequest::from_cbor_value(raw) {
            Err(e) => Err(e),
            Ok(x) => Ok(PerformOpReq::DeviceDestroyAttestationIds(x)),
        }
    }

    /// Reads the request of the operation `DeviceBegin`.
    fn read_device_begin(raw: &CborValue) -> (r: Result<PerformOpReq, CborError>)
        ensures
            result_view(r) == match BeginRequestView::from_item(raw@) {
                Err(e) => Err(e),
                Ok(x) => Ok(PerformOpReqView::DeviceBegin(x)),
            },
    {
        match BeginRequest::from_cbor_value(raw) {
            Err(e) => Err(e),
            Ok(x) => Ok(PerformOpReq::DeviceBegin(x)),
        }
    }

    /// Reads the request of the operation `DeviceDeviceLocked`.
    fn read_device_device_locked(raw: &CborValue) -> (r: Result<PerformOpReq, CborError>)
        ensures
            result_view(r) == match DeviceLockedRequestView::from_item(raw@) {
                Err(e) => Err(e),
                Ok(x) => Ok(PerformOpReqView::DeviceDeviceLocked(x)),
            },
    {
        match DeviceLockedRequest::from_cbor_value(raw) {
            Err(e) => Err(e),
            Ok(x) => Ok(PerformOpReq::DeviceDeviceLocked(x)),
        }
    }

    /// Reads the request of the operation `DeviceEarlyBootEnded`.
    fn read_device_early_boot_ended(raw: &CborValue) -> (r: Result<PerformOpReq, CborError>)
        ensures
            result_view(r) == match EarlyBootEndedRequest::from_item(raw@) {
                Err(e) => Err(e),
                Ok(x) => Ok(PerformOpReqView::DeviceEarlyBootEnded(x)),
            },
    {
        match EarlyBootEndedRequest::from_cbor_value(raw) {
            Err(e) => Err(e),
            Ok(x) => Ok(PerformOpReq::DeviceEarlyBootEnded(x)),
        }
    }

    /// Reads the request of the operation `DeviceConvertStorageKeyToEphemeral`.
    fn read_device_convert_storage_key_to_ephemeral(raw: &CborValue) -> (r: Result<
        PerformOpReq,
        CborError,
    >)
        ensures
            result_view(r) == match ConvertStorageKeyToEphemeralRequestView::from_item(raw@) {
                Err(e) => Err(e),
                Ok(x) => Ok(PerformOpReqView::DeviceConvertStorageKeyToEphemeral(x)),
            },
    {
        match ConvertStorageKeyToEphemeralRequest::from_cbor_value(raw) {
            Err(e) => Err(e),
            Ok(x) => Ok(PerformOpReq::DeviceConvertStorageKeyToEphemeral(x)),
        }
    }

    /// Reads the request of the operation `DeviceGetKeyCharacteristics`.
    fn read_device_get_key_characteristics(raw: &CborValue) -> (r: Result<PerformOpReq, CborError>)
        ensures
            result_view(r) == match GetKeyCharacteristicsRequestView::from_item(raw@) {
                Err(e) => Err(e),
                Ok(x) => Ok(PerformOpReqView::DeviceGetKeyCharacteristics(x)),
            },
    {
        match GetKeyCharacteristicsRequest::from_cbor_value(raw) {
            Err(e) => Err(e),
            Ok(x) => Ok(PerformOpReq::DeviceGetKeyCharacteristics(x)),
        }
    }

    /// Reads the request of the operation `OperationUpdateAad`.
    fn read_operation_update_aad(raw: &CborValue) -> (r: Result<PerformOpReq, CborError>)
        ensures
            result_view(r) == match UpdateAadRequestView::from_item(raw@) {
                Err(e) => Err(e),
                Ok(x) => Ok(PerformOpReqView::OperationUpdateAad(x)),
            },
    {
        match UpdateAadRequest::from_cbor_value(raw) {
            Err(e) => Err(e),
            Ok(x) => Ok(PerformOpReq::OperationUpdateAad(x)),
        }
    }

    /// Reads the request of the operation `OperationUpdate`.
    fn read_operation_update(raw: &CborValue) -> (r: Result<PerformOpReq, CborError>)
        ensures
            result_view(r) == match UpdateRequestView::from_item(raw@) {
                Err(e) => Err(e),
                Ok(x) => Ok(PerformOpReqView::OperationUpdate(x)),
            },
    {
        match UpdateRequest::from_cbor_value(raw) {
            Err(e) => Err(e),
            Ok(x) => Ok(PerformOpReq::OperationUpdate(x)),
        }
    }

    /// Reads the request of the operation `OperationFinish`.
    fn read_operation_finish(raw: &CborValue) -> (r: Result<PerformOpReq, CborError>)
        ensures
            result_view(r) == match FinishRequestView::from_item(raw@) {
                Err(e) => Err(e),
                Ok(x) => Ok(PerformOpReqView::OperationFinish(x)),
            },
    {
        match FinishRequest::from_cbor_value(raw) {
            Err(e) => Err(e),
            Ok(x) => Ok(PerformOpReq::OperationFinish(x)),
        }
    }

    /// Reads the request of the operation `OperationAbort`.
    fn read_operation_abort(raw: &CborValue) -> (r: Result<PerformOpReq, CborError>)
        ensures
            result_view(r) == match AbortRequest::from_item(raw@) {
                Err(e) => Err(e),
                Ok(x) => Ok(PerformOpReqView::OperationAbort(x)),
            },
    {
        match AbortRequest::from_cbor_value(raw) {
            Err(e) => Err(e),
            Ok(x) => Ok(PerformOpReq::OperationAbort(x)),
        }
    }

    /// Reads the request of the operation `RpcGetHardwareInfo`.
    fn read_rpc_get_hardware_info(raw: &CborValue) -> (r: Result<PerformOpReq, CborError>)
        ensures
            result_view(r) == match GetRpcHardwareInfoRequest::from_item(raw@) {
                Err(e) => Err(e),
                Ok(x) => Ok(PerformOpReqView::RpcGetHardwareInfo(x)),
            },
    {
        match GetRpcHardwareInfoRequest::from_cbor_value(raw) {
            Err(e) => Err(e),
            Ok(x) => Ok(PerformOpReq::RpcGetHardwareInfo(x)),
        }
    }

    /// Reads the request of the operation `RpcGenerateEcdsaP256KeyPair`.
    fn read_rpc_generate_ecdsa_p256_key_pair(raw: &CborValue) -> (r: Result<
        PerformOpReq,
        CborError,
    >)
        ensures
            result_view(r) == match GenerateEcdsaP256KeyPairRequest::from_item(raw@) {
                Err(e) => Err(e),
                Ok(x) => Ok(PerformOpReqView::RpcGenerateEcdsaP256KeyPair(x)),
            },
    {
        match GenerateEcdsaP256KeyPairRequest::from_cbor_value(raw) {
            Err(e) => Err(e),
            Ok(x) => Ok(PerformOpReq::RpcGenerateEcdsaP256KeyPair(x)),
        }
    }

    /// Reads the request of the operation `RpcGenerateCertificateRequest`.
    fn read_rpc_generate_certificate_request(raw: &CborValue) -> (r: Result<
        PerformOpReq,
        CborError,
    >)
        ensures
            result_view(r) == match GenerateCertificateRequestRequestView::from_item(raw@) {
                Err(e) => Err(e),
                Ok(x) => Ok(PerformOpReqView::RpcGenerateCertificateRequest(x)),
            },
    {
        match GenerateCertificateRequestRequest::from_cbor_value(raw) {
            Err(e) => Err(e),
            Ok(x) => Ok(PerformOpReq::RpcGenerateCertificateRequest(x)),
        }
    }

    /// Reads the request of the operation `RpcGenerateCertificateV2Request`.
    fn read_rpc_generate_certificate_v2_request(raw: &CborValue) -> (r: Result<
        PerformOpReq,
        CborError,
    >)
        ensures
            result_view(r) == match GenerateCertificateRequestV2RequestView::from_item(raw@) {
                Err(e) => Err(e),
                Ok(x) => Ok(PerformOpReqView::RpcGenerateCertificateV2Request(x)),
            },
    {
        match GenerateCertificateRequestV2Request::from_cbor_value(raw) {
            Err(e) => Err(e),
            Ok(x) => Ok(PerformOpReq::RpcGenerateCertificateV2Request(x)),
        }
    }

    /// Reads the request of the operation `SharedSecretGetSharedSecretParameters`.
    fn read_shared_secret_get_shared_secret_parameters(raw: &CborValue) -> (r: Result<
        PerformOpReq,
        CborError,
    >)
        ensures
            result_view(r) == match GetSharedSecretParametersRequest::from_item(raw@) {
                Err(e) => Err(e),
                Ok(x) => Ok(PerformOpReqView::SharedSecretGetSharedSecretParameters(x)),
            },
    {
        match GetSharedSecretParametersRequest::from_cbor_value(raw) {
            Err(e) => Err(e),
            Ok(x) => Ok(PerformOpReq::SharedSecretGetSharedSecretParameters(x)),
        }
    }

    /// Reads the request of the operation `SharedSecretComputeSharedSecret`.
    fn read_shared_secret_compute_shared_secret(raw: &CborValue) -> (r: Result<
        PerformOpReq,
        CborError,
    >)
        ensures
            result_view(r) == match ComputeSharedSecretRequestView::from_item(raw@) {
                Err(e) => Err(e),
                Ok(x) => Ok(PerformOpReqView::SharedSecretComputeSharedSecret(x)),
            },
    {
        match ComputeSharedSecretRequest::from_cbor_value(raw) {
            Err(e) => Err(e),
            Ok(x) => Ok(PerformOpReq::SharedSecretComputeSharedSecret(x)),
        }
    }

    /// Reads the request of the operation `SecureClockGenerateTimeStamp`.
    fn read_secure_clock_generate_time_stamp(raw: &CborValue) -> (r: Result<
        PerformOpReq,
        CborError,
    >)
        ensures
            result_view(r) == match GenerateTimeStampRequest::from_item(raw@) {
                Err(e) => Err(e),
                Ok(x) => Ok(PerformOpReqView::SecureClockGenerateTimeStamp(x)),
            },
    {
        match GenerateTimeStampRequest::from_cbor_value(raw) {
            Err(e) => Err(e),
            Ok(x) => Ok(PerformOpReq::SecureClockGenerateTimeStamp(x)),
        }
    }

    /// Reads the request of the operation `GetRootOfTrustChallenge`.
    fn read_get_root_of_trust_challenge(raw: &CborValue) -> (r: Result<PerformOpReq, CborError>)
        ensures
            result_view(r) == match GetRootOfTrustChallengeRequest::from_item(raw@) {
                Err(e) => Err(e),
                Ok(x) => Ok(PerformOpReqView::GetRootOfTrustChallenge(x)),
            },
    {
        match GetRootOfTrustChallengeRequest::from_cbor_value(raw) {
            Err(e) => Err(e),
            Ok(x) => Ok(PerformOpReq::GetRootOfTrustChallenge(x)),
        }
    }

    /// Reads the request of the operation `GetRootOfTrust`.
    fn read_get_root_of_trust(raw: &CborValue) -> (r: Result<PerformOpReq, CborError>)
        ensures
            result_view(r) == match GetRootOfTrustRequestView::from_item(raw@) {
                Err(e) => Err(e),
                Ok(x) => Ok(PerformOpReqView::GetRootOfTrust(x)),
            },
    {
        match GetRootOfTrustRequest::from_cbor_value(raw) {
            Err(e) => Err(e),
            Ok(x) => Ok(PerformOpReq::GetRootOfTrust(x)),
        }
    }

    /// Reads the request of the operation `SendRootOfTrust`.
    fn read_send_root_of_trust(raw: &CborValue) -> (r: Result<PerformOpReq, CborError>)
        ensures
            result_view(r) == match SendRootOfTrustRequestView::from_item(raw@) {
                Err(e) => Err(e),
                Ok(x) => Ok(PerformOpReqView::SendRootOfTrust(x)),
            },
    {
        match SendRootOfTrustRequest::from_cbor_value(raw) {
            Err(e) => Err(e),
            Ok(x) => Ok(PerformOpReq::SendRootOfTrust(x)),
        }
    }

    /// Reads the request of the operation `SetHalInfo`.
    fn read_set_hal_info(raw: &CborValue) -> (r: Result<PerformOpReq, CborError>)
        ensures
            result_view(r) == match SetHalInfoRequest::from_item(raw@) {
                Err(e) => Err(e),
                Ok(x) => Ok(PerformOpReqView::SetHalInfo(x)),
            },
    {
        match SetHalInfoRequest::from_cbor_value(raw) {
            Err(e) => Err(e),
            Ok(x) => Ok(PerformOpReq::SetHalInfo(x)),
        }
    }

    /// Reads the request of the operation `SetBootInfo`.
    fn read_set_boot_info(raw: &CborValue) -> (r: Result<PerformOpReq, CborError>)
        ensures
            result_view(r) == match SetBootInfoRequestView::from_item(raw@) {
                Err(e) => Err(e),
                Ok(x) => Ok(PerformOpReqView::SetBootInfo(x)),
            },
    {
        match SetBootInfoRequest::from_cbor_value(raw) {
            Err(e) => Err(e),
            Ok(x) => Ok(PerformOpReq::SetBootInfo(x)),
        }
    }

    /// Reads the request of the operation `SetAttestationIds`.
    fn read_set_attestation_ids(raw: &CborValue) -> (r: Result<PerformOpReq, CborError>)
        ensures
            result_view(r) == match SetAttestationIdsRequestView::from_item(raw@) {
                Err(e) => Err(e),
                Ok(x) => Ok(PerformOpReqView::SetAttestationIds(x)),
            },
    {
        match SetAttestationIdsRequest::from_cbor_value(raw) {
            Err(e) => Err(e),
            Ok(x) => Ok(PerformOpReq::SetAttestationIds(x)),
        }
    }

    /// Reads the request of operation `code`.
    pub fn with_code(code: KeyMintOperation, raw: &CborValue) -> (r: Result<
        PerformOpReq,
        CborError,
    >)
        ensures
            result_view(r) == PerformOpReqView::with_code(code, raw@),
    {
        match code {
            KeyMintOperation::DeviceGetHardwareInfo => Self::read_device_get_hardware_info(raw),
            KeyMintOperation::DeviceAddRngEntropy => Self::read_device_add_rng_entropy(raw),
            KeyMintOperation::DeviceGenerateKey => Self::read_device_generate_key(raw),
            KeyMintOperation::DeviceImportKey => Self::read_device_import_key(raw),
            KeyMintOperation::DeviceImportWrappedKey => Self::read_device_import_wrapped_key(raw),
            KeyMintOperation::DeviceUpgradeKey => Self::read_device_upgrade_key(raw),
            KeyMintOperation::DeviceDeleteKey => Self::read_device_delete_key(raw),
            KeyMintOperation::DeviceDeleteAllKeys => Self::read_device_delete_all_keys(raw),
            KeyMintOperation::DeviceDestroyAttestationIds =>
                Self::read_device_destroy_attestation_ids(raw),
            KeyMintOperation::DeviceBegin => Self::read_device_begin(raw),
            KeyMintOperation::DeviceDeviceLocked => Self::read_device_device_locked(raw),
            KeyMintOperation::DeviceEarlyBootEnded => Self::read_device_early_boot_ended(raw),
            KeyMintOperation::DeviceConvertStorageKeyToEphemeral =>
                Self::read_device_convert_storage_key_to_ephemeral(raw),
            KeyMintOperation::DeviceGetKeyCharacteristics =>
                Self::read_device_get_key_characteristics(raw),
            KeyMintOperation::OperationUpdateAad => Self::read_operation_update_aad(raw),
            KeyMintOperation::OperationUpdate => Self::read_operation_update(raw),
            KeyMintOperation::OperationFinish => Self::read_operation_finish(raw),
            KeyMintOperation::OperationAbort => Self::read_operation_abort(raw),
            KeyMintOperation::RpcGetHardwareInfo => Self::read_rpc_get_hardware_info(raw),
            KeyMintOperation::RpcGenerateEcdsaP256KeyPair =>
                Self::read_rpc_generate_ecdsa_p256_key_pair(raw),
            KeyMintOperation::RpcGenerateCertificateRequest =>
                Self::read_rpc_generate_certificate_request(raw),
            KeyMintOperation::RpcGenerateCertificateV2Request =>
                Self::read_rpc_generate_certificate_v2_request(raw),
            KeyMintOperation::SharedSecretGetSharedSecretParameters =>
                Self::read_shared_secret_get_shared_secret_parameters(raw),
            KeyMintOperation::SharedSecretComputeSharedSecret =>
                Self::read_shared_secret_compute_shared_secret(raw),
            KeyMintOperation::SecureClockGenerateTimeStamp =>
                Self::read_secure_clock_generate_time_stamp(raw),
            KeyMintOperation::GetRootOfTrustChallenge => Self::read_get_root_of_trust_challenge(
                raw,
            ),
            KeyMintOperation::GetRootOfTrust => Self::read_get_root_of_trust(raw),
            KeyMintOperation::SendRootOfTrust => Self::read_send_root_of_trust(raw),
            KeyMintOperation::SetHalInfo => Self::read_set_hal_info(raw),
            KeyMintOperation::SetBootInfo => Self::read_set_boot_info(raw),
            KeyMintOperation::SetAttestationIds => Self::read_set_attestation_ids(raw),
        }
    }

    /// Reads the number of an operation, then the request of that operation.
    pub fn from_cbor_value(v: &CborValue) -> (r: Result<PerformOpReq, CborError>)
        ensures
            result_view(r) == PerformOpReqView::from_item(v@),
    {
        let a = match value_tuple(v, 2) {
            Err(e) => { return Err(e); },
            Ok(a) => a,
        };
        assert(items_of(a@)[0] == a@[0]@);
        assert(items_of(a@)[1] == a@[1]@);
        match KeyMintOperation::from_cbor_value(&a[0]) {
            Err(e) => Err(e),
            Ok(code) => Self::with_code(code, &a[1]),
        }
    }
}

/// The payload of a response, of any operation.
#[derive(Clone, Debug, PartialEq, Eq)]
pub enum PerformOpRsp {
    DeviceGetHardwareInfo(GetHardwareInfoResponse),
    DeviceAddRngEntropy(AddRngEntropyResponse),
    DeviceGenerateKey(GenerateKeyResponse),
    DeviceImportKey(ImportKeyResponse),
    DeviceImportWrappedKey(ImportWrappedKeyResponse),
    DeviceUpgradeKey(UpgradeKeyResponse),
    DeviceDeleteKey(DeleteKeyResponse),
    DeviceDeleteAllKeys(DeleteAllKeysResponse),
    DeviceDestroyAttestationIds(DestroyAttestationIdsResponse),
    DeviceBegin(BeginResponse),
    DeviceDeviceLocked(DeviceLockedResponse),
    DeviceEarlyBootEnded(EarlyBootEndedResponse),
    DeviceConvertStorageKeyToEphemeral(ConvertStorageKeyToEphemeralResponse),
    DeviceGetKeyCharacteristics(GetKeyCharacteristicsResponse),
    OperationUpdateAad(UpdateAadResponse),
    OperationUpdate(UpdateResponse),
    OperationFinish(FinishResponse),
    OperationAbort(AbortResponse),
    RpcGetHardwareInfo(GetRpcHardwareInfoResponse),
    RpcGenerateEcdsaP256KeyPair(GenerateEcdsaP256KeyPairResponse),
    RpcGenerateCertificateRequest(GenerateCertificateRequestResponse),
    RpcGenerateCertificateV2Request(GenerateCertificateRequestV2Response),
    SharedSecretGetSharedSecretParameters(GetSharedSecretParametersResponse),
    SharedSecretComputeSharedSecret(ComputeSharedSecretResponse),
    SecureClockGenerateTimeStamp(GenerateTimeStampResponse),
    GetRootOfTrustChallenge(GetRootOfTrustChallengeResponse),
    GetRootOfTrust(GetRootOfTrustResponse),
    SendRootOfTrust(SendRootOfTrustResponse),
    SetHalInfo(SetHalInfoResponse),
    SetBootInfo(SetBootInfoResponse),
    SetAttestationIds(SetAttestationIdsResponse),
}

/// The content of a [`PerformOpRsp`].
pub ghost enum PerformOpRspView {
    DeviceGetHardwareInfo(GetHardwareInfoResponseView),
    DeviceAddRngEntropy(AddRngEntropyResponse),
    DeviceGenerateKey(GenerateKeyResponseView),
    DeviceImportKey(ImportKeyResponseView),
    DeviceImportWrappedKey(ImportWrappedKeyResponseView),
    DeviceUpgradeKey(UpgradeKeyResponseView),
    DeviceDeleteKey(DeleteKeyResponse),
    DeviceDeleteAllKeys(DeleteAllKeysResponse),
    DeviceDestroyAttestationIds(DestroyAttestationIdsResponse),
    DeviceBegin(BeginResponseView),
    DeviceDeviceLocked(DeviceLockedResponse),
    DeviceEarlyBootEnded(EarlyBootEndedResponse),
    DeviceConvertStorageKeyToEphemeral(ConvertStorageKeyToEphemeralResponseView),
    DeviceGetKeyCharacteristics(GetKeyCharacteristicsResponseView),
    OperationUpdateAad(UpdateAadResponse),
    OperationUpdate(UpdateResponseView),
    OperationFinish(FinishResponseView),
    OperationAbort(AbortResponse),
    RpcGetHardwareInfo(GetRpcHardwareInfoResponseView),
    RpcGenerateEcdsaP256KeyPair(GenerateEcdsaP256KeyPairResponseView),
    RpcGenerateCertificateRequest(GenerateCertificateRequestResponseView),
    RpcGenerateCertificateV2Request(GenerateCertificateRequestV2ResponseView),
    SharedSecretGetSharedSecretParameters(GetSharedSecretParametersResponseView),
    SharedSecretComputeSharedSecret(ComputeSharedSecretResponseView),
    SecureClockGenerateTimeStamp(GenerateTimeStampResponseView),
    GetRootOfTrustChallenge(GetRootOfTrustChallengeResponseView),
    GetRootOfTrust(GetRootOfTrustResponseView),
    SendRootOfTrust(SendRootOfTrustResponse),
    SetHalInfo(SetHalInfoResponse),
    SetBootInfo(SetBootInfoResponse),
    SetAttestationIds(SetAttestationIdsResponse),
}

impl View for PerformOpRsp {
    type V = PerformOpRspView;

    open spec fn view(&self) -> PerformOpRspView {
        match self {
            PerformOpRsp::DeviceGetHardwareInfo(x) => PerformOpRspView::DeviceGetHardwareInfo(x@),
            PerformOpRsp::DeviceAddRngEntropy(x) => PerformOpRspView::DeviceAddRngEntropy(*x),
            PerformOpRsp::DeviceGenerateKey(x) => PerformOpRspView::DeviceGenerateKey(x@),
            PerformOpRsp::DeviceImportKey(x) => PerformOpRspView::DeviceImportKey(x@),
            PerformOpRsp::DeviceImportWrappedKey(x) => PerformOpRspView::DeviceImportWrappedKey(x@),
            PerformOpRsp::DeviceUpgradeKey(x) => PerformOpRspView::DeviceUpgradeKey(x@),
            PerformOpRsp::DeviceDeleteKey(x) => PerformOpRspView::DeviceDeleteKey(*x),
            PerformOpRsp::DeviceDeleteAllKeys(x) => PerformOpRspView::DeviceDeleteAllKeys(*x),
            PerformOpRsp::DeviceDestroyAttestationIds(x) =>
                PerformOpRspView::DeviceDestroyAttestationIds(*x),
            PerformOpRsp::DeviceBegin(x) => PerformOpRspView::DeviceBegin(x@),
            PerformOpRsp::DeviceDeviceLocked(x) => PerformOpRspView::DeviceDeviceLocked(*x),
            PerformOpRsp::DeviceEarlyBootEnded(x) => PerformOpRspView::DeviceEarlyBootEnded(*x),
            PerformOpRsp::DeviceConvertStorageKeyToEphemeral(x) =>
                PerformOpRspView::DeviceConvertStorageKeyToEphemeral(x@),
            PerformOpRsp::DeviceGetKeyCharacteristics(x) =>
                PerformOpRspView::DeviceGetKeyCharacteristics(x@),
            PerformOpRsp::OperationUpdateAad(x) => PerformOpRspView::OperationUpdateAad(*x),
            PerformOpRsp::OperationUpdate(x) => PerformOpRspView::OperationUpdate(x@),
            PerformOpRsp::OperationFinish(x) => PerformOpRspView::OperationFinish(x@),
            PerformOpRsp::OperationAbort(x) => PerformOpRspView::OperationAbort(*x),
            PerformOpRsp::RpcGetHardwareInfo(x) => PerformOpRspView::RpcGetHardwareInfo(x@),
            PerformOpRsp::RpcGenerateEcdsaP256KeyPair(x) =>
                PerformOpRspView::RpcGenerateEcdsaP256KeyPair(x@),
            PerformOpRsp::RpcGenerateCertificateRequest(x) =>
                PerformOpRspView::RpcGenerateCertificateRequest(x@),
            PerformOpRsp::RpcGenerateCertificateV2Request(x) =>
                PerformOpRspView::RpcGenerateCertificateV2Request(x@),
            PerformOpRsp::SharedSecretGetSharedSecretParameters(x) =>
                PerformOpRspView::SharedSecretGetSharedSecretParameters(x@),
            PerformOpRsp::SharedSecretComputeSharedSecret(x) =>
                PerformOpRspView::SharedSecretComputeSharedSecret(x@),
            PerformOpRsp::SecureClockGenerateTimeStamp(x) =>
                PerformOpRspView::SecureClockGenerateTimeStamp(x@),
            PerformOpRsp::GetRootOfTrustChallenge(x) => PerformOpRspView::GetRootOfTrustChallenge(
                x@,
            ),
            PerformOpRsp::GetRootOfTrust(x) => PerformOpRspView::GetRootOfTrust(x@),
            PerformOpRsp::SendRootOfTrust(x) => PerformOpRspView::SendRootOfTrust(*x),
            PerformOpRsp::SetHalInfo(x) => PerformOpRspView::SetHalInfo(*x),
            PerformOpRsp::SetBootInfo(x) => PerformOpRspView::SetBootInfo(*x),
            PerformOpRsp::SetAttestationIds(x) => PerformOpRspView::SetAttestationIds(*x),
        }
    }
}

impl PerformOpRspView {
    /// The operation that the response belongs to.
    pub open spec fn code(self) -> KeyMintOperation {
        match self {
            PerformOpRspView::DeviceGetHardwareInfo(_) => KeyMintOperation::DeviceGetHardwareInfo,
            PerformOpRspView::DeviceAddRngEntropy(_) => KeyMintOperation::DeviceAddRngEntropy,
            PerformOpRspView::DeviceGenerateKey(_) => KeyMintOperation::DeviceGenerateKey,
            PerformOpRspView::DeviceImportKey(_) => KeyMintOperation::DeviceImportKey,
            PerformOpRspView::DeviceImportWrappedKey(_) => KeyMintOperation::DeviceImportWrappedKey,
            PerformOpRspView::DeviceUpgradeKey(_) => KeyMintOperation::DeviceUpgradeKey,
            PerformOpRspView::DeviceDeleteKey(_) => KeyMintOperation::DeviceDeleteKey,
            PerformOpRspView::DeviceDeleteAllKeys(_) => KeyMintOperation::DeviceDeleteAllKeys,
            PerformOpRspView::DeviceDestroyAttestationIds(_) =>
                KeyMintOperation::DeviceDestroyAttestationIds,
            PerformOpRspView::DeviceBegin(_) => KeyMintOperation::DeviceBegin,
            PerformOpRspView::DeviceDeviceLocked(_) => KeyMintOperation::DeviceDeviceLocked,
            PerformOpRspView::DeviceEarlyBootEnded(_) => KeyMintOperation::DeviceEarlyBootEnded,
            PerformOpRspView::DeviceConvertStorageKeyToEphemeral(_) =>
                KeyMintOperation::DeviceConvertStorageKeyToEphemeral,
            PerformOpRspView::DeviceGetKeyCharacteristics(_) =>
                KeyMintOperation::DeviceGetKeyCharacteristics,
            PerformOpRspView::OperationUpdateAad(_) => KeyMintOperation::OperationUpdateAad,
            PerformOpRspView::OperationUpdate(_) => KeyMintOperation::OperationUpdate,
            PerformOpRspView::OperationFinish(_) => KeyMintOperation::OperationFinish,
            PerformOpRspView::OperationAbort(_) => KeyMintOperation::OperationAbort,
            PerformOpRspView::RpcGetHardwareInfo(_) => KeyMintOperation::RpcGetHardwareInfo,
            PerformOpRspView::RpcGenerateEcdsaP256KeyPair(_) =>
                KeyMintOperation::RpcGenerateEcdsaP256KeyPair,
            PerformOpRspView::RpcGenerateCertificateRequest(_) =>
                KeyMintOperation::RpcGenerateCertificateRequest,
            PerformOpRspView::RpcGenerateCertificateV2Request(_) =>
                KeyMintOperation::RpcGenerateCertificateV2Request,
            PerformOpRspView::SharedSecretGetSharedSecretParameters(_) =>
                KeyMintOperation::SharedSecretGetSharedSecretParameters,
            PerformOpRspView::SharedSecretComputeSharedSecret(_) =>
                KeyMintOperation::SharedSecretComputeSharedSecret,
            PerformOpRspView::SecureClockGenerateTimeStamp(_) =>
                KeyMintOperation::SecureClockGenerateTimeStamp,
            PerformOpRspView::GetRootOfTrustChallenge(_) =>
                KeyMintOperation::GetRootOfTrustChallenge,
            PerformOpRspView::GetRootOfTrust(_) => KeyMintOperation::GetRootOfTrust,
            PerformOpRspView::SendRootOfTrust(_) => KeyMintOperation::SendRootOfTrust,
            PerformOpRspView::SetHalInfo(_) => KeyMintOperation::SetHalInfo,
            PerformOpRspView::SetBootInfo(_) => KeyMintOperation::SetBootInfo,
            PerformOpRspView::SetAttestationIds(_) => KeyMintOperation::SetAttestationIds,
        }
    }

    /// The CBOR form of the response itself.
    pub open spec fn payload(self) -> Item {
        match self {
            PerformOpRspView::DeviceGetHardwareInfo(x) => x.item(),
            PerformOpRspView::DeviceAddRngEntropy(x) => x.item(),
            PerformOpRspView::DeviceGenerateKey(x) => x.item(),
            PerformOpRspView::DeviceImportKey(x) => x.item(),
            PerformOpRspView::DeviceImportWrappedKey(x) => x.item(),
            PerformOpRspView::DeviceUpgradeKey(x) => x.item(),
            PerformOpRspView::DeviceDeleteKey(x) => x.item(),
            PerformOpRspView::DeviceDeleteAllKeys(x) => x.item(),
            PerformOpRspView::DeviceDestroyAttestationIds(x) => x.item(),
            PerformOpRspView::DeviceBegin(x) => x.item(),
            PerformOpRspView::DeviceDeviceLocked(x) => x.item(),
            PerformOpRspView::DeviceEarlyBootEnded(x) => x.item(),
            PerformOpRspView::DeviceConvertStorageKeyToEphemeral(x) => x.item(),
            PerformOpRspView::DeviceGetKeyCharacteristics(x) => x.item(),
            PerformOpRspView::OperationUpdateAad(x) => x.item(),
            PerformOpRspView::OperationUpdate(x) => x.item(),
            PerformOpRspView::OperationFinish(x) => x.item(),
            PerformOpRspView::OperationAbort(x) => x.item(),
            PerformOpRspView::RpcGetHardwareInfo(x) => x.item(),
            PerformOpRspView::RpcGenerateEcdsaP256KeyPair(x) => x.item(),
            PerformOpRspView::RpcGenerateCertificateRequest(x) => x.item(),
            PerformOpRspView::RpcGenerateCertificateV2Request(x) => x.item(),
            PerformOpRspView::SharedSecretGetSharedSecretParameters(x) => x.item(),
            PerformOpRspView::SharedSecretComputeSharedSecret(x) => x.item(),
            PerformOpRspView::SecureClockGenerateTimeStamp(x) => x.item(),
            PerformOpRspView::GetRootOfTrustChallenge(x) => x.item(),
            PerformOpRspView::GetRootOfTrust(x) => x.item(),
            PerformOpRspView::SendRootOfTrust(x) => x.item(),
            PerformOpRspView::SetHalInfo(x) => x.item(),
            PerformOpRspView::SetBootInfo(x) => x.item(),
            PerformOpRspView::SetAttestationIds(x) => x.item(),
        }
    }

    /// The CBOR form: the number of the operation, then the response.
    pub open spec fn item(self) -> Item {
        Item::Array(seq![Item::Integer(self.code().code()), self.payload()])
    }

    /// The response of operation `code` that an item stands for.
    pub open spec fn with_code(code: KeyMintOperation, raw: Item) -> Result<
        PerformOpRspView,
        CborError,
    > {
        match code {
            KeyMintOperation::DeviceGetHardwareInfo => match GetHardwareInfoResponseView::from_item(
                raw,
            ) {
                Err(e) => Err(e),
                Ok(x) => Ok(PerformOpRspView::DeviceGetHardwareInfo(x)),
            },
            KeyMintOperation::DeviceAddRngEntropy => match AddRngEntropyResponse::from_item(raw) {
                Err(e) => Err(e),
                Ok(x) => Ok(PerformOpRspView::DeviceAddRngEntropy(x)),
            },
            KeyMintOperation::DeviceGenerateKey => match GenerateKeyResponseView::from_item(raw) {
                Err(e) => Err(e),
                Ok(x) => Ok(PerformOpRspView::DeviceGenerateKey(x)),
            },
            KeyMintOperation::DeviceImportKey => match ImportKeyResponseView::from_item(raw) {
                Err(e) => Err(e),
                Ok(x) => Ok(PerformOpRspView::DeviceImportKey(x)),
            },
            KeyMintOperation::DeviceImportWrappedKey =>
                match ImportWrappedKeyResponseView::from_item(raw) {
                Err(e) => Err(e),
                Ok(x) => Ok(PerformOpRspView::DeviceImportWrappedKey(x)),
            },
            KeyMintOperation::DeviceUpgradeKey => match UpgradeKeyResponseView::from_item(raw) {
                Err(e) => Err(e),
                Ok(x) => Ok(PerformOpRspView::DeviceUpgradeKey(x)),
            },
            KeyMintOperation::DeviceDeleteKey => match DeleteKeyResponse::from_item(raw) {
                Err(e) => Err(e),
                Ok(x) => Ok(PerformOpRspView::DeviceDeleteKey(x)),
            },
            KeyMintOperation::DeviceDeleteAllKeys => match DeleteAllKeysResponse::from_item(raw) {
                Err(e) => Err(e),
                Ok(x) => Ok(PerformOpRspView::DeviceDeleteAllKeys(x)),
            },
            KeyMintOperation::DeviceDestroyAttestationIds =>
                match DestroyAttestationIdsResponse::from_item(raw) {
                Err(e) => Err(e),
                Ok(x) => Ok(PerformOpRspView::DeviceDestroyAttestationIds(x)),
            },
            KeyMintOperation::DeviceBegin => match BeginResponseView::from_item(raw) {
                Err(e) => Err(e),
                Ok(x) => Ok(PerformOpRspView::DeviceBegin(x)),
            },
            KeyMintOperation::DeviceDeviceLocked => match DeviceLockedResponse::from_item(raw) {
                Err(e) => Err(e),
                Ok(x) => Ok(PerformOpRspView::DeviceDeviceLocked(x)),
            },
            KeyMintOperation::DeviceEarlyBootEnded => match EarlyBootEndedResponse::from_item(raw) {
                Err(e) => Err(e),
                Ok(x) => Ok(PerformOpRspView::DeviceEarlyBootEnded(x)),
            },
            KeyMintOperation::DeviceConvertStorageKeyToEphemeral =>
                match ConvertStorageKeyToEphemeralResponseView::from_item(raw) {
                Err(e) => Err(e),
                Ok(x) => Ok(PerformOpRspView::DeviceConvertStorageKeyToEphemeral(x)),
            },
            KeyMintOperation::DeviceGetKeyCharacteristics =>
                match GetKeyCharacteristicsResponseView::from_item(raw) {
                Err(e) => Err(e),
                Ok(x) => Ok(PerformOpRspView::DeviceGetKeyCharacteristics(x)),
            },
            KeyMintOperation::OperationUpdateAad => match UpdateAadResponse::from_item(raw) {
                Err(e) => Err(e),
                Ok(x) => Ok(PerformOpRspView::OperationUpdateAad(x)),
            },
            KeyMintOperation::OperationUpdate => match UpdateResponseView::from_item(raw) {
                Err(e) => Err(e),
                Ok(x) => Ok(PerformOpRspView::OperationUpdate(x)),
            },
            KeyMintOperation::OperationFinish => match FinishResponseView::from_item(raw) {
                Err(e) => Err(e),
                Ok(x) => Ok(PerformOpRspView::OperationFinish(x)),
            },
            KeyMintOperation::OperationAbort => match AbortResponse::from_item(raw) {
                Err(e) => Err(e),
                Ok(x) => Ok(PerformOpRspView::OperationAbort(x)),
            },
            KeyMintOperation::RpcGetHardwareInfo => match GetRpcHardwareInfoResponseView::from_item(
                raw,
            ) {
                Err(e) => Err(e),
                Ok(x) => Ok(PerformOpRspView::RpcGetHardwareInfo(x)),
            },
            KeyMintOperation::RpcGenerateEcdsaP256KeyPair =>
                match GenerateEcdsaP256KeyPairResponseView::from_item(raw) {
                Err(e) => Err(e),
                Ok(x) => Ok(PerformOpRspView::RpcGenerateEcdsaP256KeyPair(x)),
            },
            KeyMintOperation::RpcGenerateCertificateRequest =>
                match GenerateCertificateRequestResponseView::from_item(raw) {
                Err(e) => Err(e),
                Ok(x) => Ok(PerformOpRspView::RpcGenerateCertificateRequest(x)),
            },
            KeyMintOperation::RpcGenerateCertificateV2Request =>
                match GenerateCertificateRequestV2ResponseView::from_item(raw) {
                Err(e) => Err(e),
                Ok(x) => Ok(PerformOpRspView::RpcGenerateCertificateV2Request(x)),
            },
            KeyMintOperation::SharedSecretGetSharedSecretParameters =>
                match GetSharedSecretParametersResponseView::from_item(raw) {
                Err(e) => Err(e),
                Ok(x) => Ok(PerformOpRspView::SharedSecretGetSharedSecretParameters(x)),
            },
            KeyMintOperation::SharedSecretComputeSharedSecret =>
                match ComputeSharedSecretResponseView::from_item(raw) {
                Err(e) => Err(e),
                Ok(x) => Ok(PerformOpRspView::SharedSecretComputeSharedSecret(x)),
            },
            KeyMintOperation::SecureClockGenerateTimeStamp =>
                match GenerateTimeStampResponseView::from_item(raw) {
                Err(e) => Err(e),
                Ok(x) => Ok(PerformOpRspView::SecureClockGenerateTimeStamp(x)),
            },
            KeyMintOperation::GetRootOfTrustChallenge =>
                match GetRootOfTrustChallengeResponseView::from_item(raw) {
                Err(e) => Err(e),
                Ok(x) => Ok(PerformOpRspView::GetRootOfTrustChallenge(x)),
            },
            KeyMintOperation::GetRootOfTrust => match GetRootOfTrustResponseView::from_item(raw) {
                Err(e) => Err(e),
                Ok(x) => Ok(PerformOpRspView::GetRootOfTrust(x)),
            },
            KeyMintOperation::SendRootOfTrust => match SendRootOfTrustResponse::from_item(raw) {
                Err(e) => Err(e),
                Ok(x) => Ok(PerformOpRspView::SendRootOfTrust(x)),
            },
            KeyMintOperation::SetHalInfo => match SetHalInfoResponse::from_item(raw) {
                Err(e) => Err(e),
                Ok(x) => Ok(PerformOpRspView::SetHalInfo(x)),
            },
            KeyMintOperation::SetBootInfo => match SetBootInfoResponse::from_item(raw) {
                Err(e) => Err(e),
                Ok(x) => Ok(PerformOpRspView::SetBootInfo(x)),
            },
            KeyMintOperation::SetAttestationIds => match SetAttestationIdsResponse::from_item(raw) {
                Err(e) => Err(e),
                Ok(x) => Ok(PerformOpRspView::SetAttestationIds(x)),
            },
        }
    }

    /// What [`PerformOpRsp::from_cbor_value`] makes of an item: an array of exactly
    /// two elements, the number of an operation and the response of that
    /// operation.
    pub open spec fn from_item(item: Item) -> Result<PerformOpRspView, CborError> {
        match tuple_of(item, 2) {
            Err(e) => Err(e),
            Ok(a) => match KeyMintOperation::from_item(a[0]) {
                Err(e) => Err(e),
                Ok(code) => Self::with_code(code, a[1]),
            },
        }
    }

    /// How a [`PerformOpRsp`] is written.
    pub open spec fn encoder() -> spec_fn(PerformOpRspView) -> Item {
        |x: PerformOpRspView| x.item()
    }

    /// How a [`PerformOpRsp`] is read.
    pub open spec fn decoder() -> spec_fn(Item) -> Result<PerformOpRspView, CborError> {
        |item: Item| PerformOpRspView::from_item(item)
    }
}

impl PerformOpRsp {
    /// The operation that this response belongs to.
    pub fn code(&self) -> (r: KeyMintOperation)
        ensures
            r == self@.code(),
    {
        match self {
            PerformOpRsp::DeviceGetHardwareInfo(_) => KeyMintOperation::DeviceGetHardwareInfo,
            PerformOpRsp::DeviceAddRngEntropy(_) => KeyMintOperation::DeviceAddRngEntropy,
            PerformOpRsp::DeviceGenerateKey(_) => KeyMintOperation::DeviceGenerateKey,
            PerformOpRsp::DeviceImportKey(_) => KeyMintOperation::DeviceImportKey,
            PerformOpRsp::DeviceImportWrappedKey(_) => KeyMintOperation::DeviceImportWrappedKey,
            PerformOpRsp::DeviceUpgradeKey(_) => KeyMintOperation::DeviceUpgradeKey,
            PerformOpRsp::DeviceDeleteKey(_) => KeyMintOperation::DeviceDeleteKey,
            PerformOpRsp::DeviceDeleteAllKeys(_) => KeyMintOperation::DeviceDeleteAllKeys,
            PerformOpRsp::DeviceDestroyAttestationIds(_) =>
                KeyMintOperation::DeviceDestroyAttestationIds,
            PerformOpRsp::DeviceBegin(_) => KeyMintOperation::DeviceBegin,
            PerformOpRsp::DeviceDeviceLocked(_) => KeyMintOperation::DeviceDeviceLocked,
            PerformOpRsp::DeviceEarlyBootEnded(_) => KeyMintOperation::DeviceEarlyBootEnded,
            PerformOpRsp::DeviceConvertStorageKeyToEphemeral(_) =>
                KeyMintOperation::DeviceConvertStorageKeyToEphemeral,
            PerformOpRsp::DeviceGetKeyCharacteristics(_) =>
                KeyMintOperation::DeviceGetKeyCharacteristics,
            PerformOpRsp::OperationUpdateAad(_) => KeyMintOperation::OperationUpdateAad,
            PerformOpRsp::OperationUpdate(_) => KeyMintOperation::OperationUpdate,
            PerformOpRsp::OperationFinish(_) => KeyMintOperation::OperationFinish,
            PerformOpRsp::OperationAbort(_) => KeyMintOperation::OperationAbort,
            PerformOpRsp::RpcGetHardwareInfo(_) => KeyMintOperation::RpcGetHardwareInfo,
            PerformOpRsp::RpcGenerateEcdsaP256KeyPair(_) =>
                KeyMintOperation::RpcGenerateEcdsaP256KeyPair,
            PerformOpRsp::RpcGenerateCertificateRequest(_) =>
                KeyMintOperation::RpcGenerateCertificateRequest,
            PerformOpRsp::RpcGenerateCertificateV2Request(_) =>
                KeyMintOperation::RpcGenerateCertificateV2Request,
            PerformOpRsp::SharedSecretGetSharedSecretParameters(_) =>
                KeyMintOperation::SharedSecretGetSharedSecretParameters,
            PerformOpRsp::SharedSecretComputeSharedSecret(_) =>
                KeyMintOperation::SharedSecretComputeSharedSecret,
            PerformOpRsp::SecureClockGenerateTimeStamp(_) =>
                KeyMintOperation::SecureClockGenerateTimeStamp,
            PerformOpRsp::GetRootOfTrustChallenge(_) => KeyMintOperation::GetRootOfTrustChallenge,
            PerformOpRsp::GetRootOfTrust(_) => KeyMintOperation::GetRootOfTrust,
            PerformOpRsp::SendRootOfTrust(_) => KeyMintOperation::SendRootOfTrust,
            PerformOpRsp::SetHalInfo(_) => KeyMintOperation::SetHalInfo,
            PerformOpRsp::SetBootInfo(_) => KeyMintOperation::SetBootInfo,
            PerformOpRsp::SetAttestationIds(_) => KeyMintOperation::SetAttestationIds,
        }
    }

    /// A copy of this value.
    pub fn duplicate(&self) -> (r: PerformOpRsp)
        ensures
            r@ == self@,
    {
        match self {
            PerformOpRsp::DeviceGetHardwareInfo(x) => PerformOpRsp::DeviceGetHardwareInfo(
                x.duplicate(),
            ),
            PerformOpRsp::DeviceAddRngEntropy(x) => PerformOpRsp::DeviceAddRngEntropy(*x),
            PerformOpRsp::DeviceGenerateKey(x) => PerformOpRsp::DeviceGenerateKey(x.duplicate()),
            PerformOpRsp::DeviceImportKey(x) => PerformOpRsp::DeviceImportKey(x.duplicate()),
            PerformOpRsp::DeviceImportWrappedKey(x) => PerformOpRsp::DeviceImportWrappedKey(
                x.duplicate(),
            ),
            PerformOpRsp::DeviceUpgradeKey(x) => PerformOpRsp::DeviceUpgradeKey(x.duplicate()),
            PerformOpRsp::DeviceDeleteKey(x) => PerformOpRsp::DeviceDeleteKey(*x),
            PerformOpRsp::DeviceDeleteAllKeys(x) => PerformOpRsp::DeviceDeleteAllKeys(*x),
            PerformOpRsp::DeviceDestroyAttestationIds(x) =>
                PerformOpRsp::DeviceDestroyAttestationIds(*x),
            PerformOpRsp::DeviceBegin(x) => PerformOpRsp::DeviceBegin(x.duplicate()),
            PerformOpRsp::DeviceDeviceLocked(x) => PerformOpRsp::DeviceDeviceLocked(*x),
            PerformOpRsp::DeviceEarlyBootEnded(x) => PerformOpRsp::DeviceEarlyBootEnded(*x),
            PerformOpRsp::DeviceConvertStorageKeyToEphemeral(x) =>
                PerformOpRsp::DeviceConvertStorageKeyToEphemeral(x.duplicate()),
            PerformOpRsp::DeviceGetKeyCharacteristics(x) =>
                PerformOpRsp::DeviceGetKeyCharacteristics(x.duplicate()),
            PerformOpRsp::OperationUpdateAad(x) => PerformOpRsp::OperationUpdateAad(*x),
            PerformOpRsp::OperationUpdate(x) => PerformOpRsp::OperationUpdate(x.duplicate()),
            PerformOpRsp::OperationFinish(x) => PerformOpRsp::OperationFinish(x.duplicate()),
            PerformOpRsp::OperationAbort(x) => PerformOpRsp::OperationAbort(*x),
            PerformOpRsp::RpcGetHardwareInfo(x) => PerformOpRsp::RpcGetHardwareInfo(x.duplicate()),
            PerformOpRsp::RpcGenerateEcdsaP256KeyPair(x) =>
                PerformOpRsp::RpcGenerateEcdsaP256KeyPair(x.duplicate()),
            PerformOpRsp::RpcGenerateCertificateRequest(x) =>
                PerformOpRsp::RpcGenerateCertificateRequest(x.duplicate()),
            PerformOpRsp::RpcGenerateCertificateV2Request(x) =>
                PerformOpRsp::RpcGenerateCertificateV2Request(x.duplicate()),
            PerformOpRsp::SharedSecretGetSharedSecretParameters(x) =>
                PerformOpRsp::SharedSecretGetSharedSecretParameters(x.duplicate()),
            PerformOpRsp::SharedSecretComputeSharedSecret(x) =>
                PerformOpRsp::SharedSecretComputeSharedSecret(x.duplicate()),
            PerformOpRsp::SecureClockGenerateTimeStamp(x) =>
                PerformOpRsp::SecureClockGenerateTimeStamp(x.duplicate()),
            PerformOpRsp::GetRootOfTrustChallenge(x) => PerformOpRsp::GetRootOfTrustChallenge(
                x.duplicate(),
            ),
            PerformOpRsp::GetRootOfTrust(x) => PerformOpRsp::GetRootOfTrust(x.duplicate()),
            PerformOpRsp::SendRootOfTrust(x) => PerformOpRsp::SendRootOfTrust(*x),
            PerformOpRsp::SetHalInfo(x) => PerformOpRsp::SetHalInfo(*x),
            PerformOpRsp::SetBootInfo(x) => PerformOpRsp::SetBootInfo(*x),
            PerformOpRsp::SetAttestationIds(x) => PerformOpRsp::SetAttestationIds(*x),
        }
    }

    /// Writes the number of the operation, then the response.
    pub fn to_cbor_value(&self) -> (r: CborValue)
        ensures
            r@ == self@.item(),
    {
        let payload = match self {
            PerformOpRsp::DeviceGetHardwareInfo(x) => x.to_cbor_value(),
            PerformOpRsp::DeviceAddRngEntropy(x) => x.to_cbor_value(),
            PerformOpRsp::DeviceGenerateKey(x) => x.to_cbor_value(),
            PerformOpRsp::DeviceImportKey(x) => x.to_cbor_value(),
            PerformOpRsp::DeviceImportWrappedKey(x) => x.to_cbor_value(),
            PerformOpRsp::DeviceUpgradeKey(x) => x.to_cbor_value(),
            PerformOpRsp::DeviceDeleteKey(x) => x.to_cbor_value(),
            PerformOpRsp::DeviceDeleteAllKeys(x) => x.to_cbor_value(),
            PerformOpRsp::DeviceDestroyAttestationIds(x) => x.to_cbor_value(),
            PerformOpRsp::DeviceBegin(x) => x.to_cbor_value(),
            PerformOpRsp::DeviceDeviceLocked(x) => x.to_cbor_value(),
            PerformOpRsp::DeviceEarlyBootEnded(x) => x.to_cbor_value(),
            PerformOpRsp::DeviceConvertStorageKeyToEphemeral(x) => x.to_cbor_value(),
            PerformOpRsp::DeviceGetKeyCharacteristics(x) => x.to_cbor_value(),
            PerformOpRsp::OperationUpdateAad(x) => x.to_cbor_value(),
            PerformOpRsp::OperationUpdate(x) => x.to_cbor_value(),
            PerformOpRsp::OperationFinish(x) => x.to_cbor_value(),
            PerformOpRsp::OperationAbort(x) => x.to_cbor_value(),
            PerformOpRsp::RpcGetHardwareInfo(x) => x.to_cbor_value(),
            PerformOpRsp::RpcGenerateEcdsaP256KeyPair(x) => x.to_cbor_value(),
            PerformOpRsp::RpcGenerateCertificateRequest(x) => x.to_cbor_value(),
            PerformOpRsp::RpcGenerateCertificateV2Request(x) => x.to_cbor_value(),
            PerformOpRsp::SharedSecretGetSharedSecretParameters(x) => x.to_cbor_value(),
            PerformOpRsp::SharedSecretComputeSharedSecret(x) => x.to_cbor_value(),
            PerformOpRsp::SecureClockGenerateTimeStamp(x) => x.to_cbor_value(),
            PerformOpRsp::GetRootOfTrustChallenge(x) => x.to_cbor_value(),
            PerformOpRsp::GetRootOfTrust(x) => x.to_cbor_value(),
            PerformOpRsp::SendRootOfTrust(x) => x.to_cbor_value(),
            PerformOpRsp::SetHalInfo(x) => x.to_cbor_value(),
            PerformOpRsp::SetBootInfo(x) => x.to_cbor_value(),
            PerformOpRsp::SetAttestationIds(x) => x.to_cbor_value(),
        };
        let mut a: Vec<CborValue> = Vec::new();
        a.push(self.code().to_cbor_value());
        a.push(payload);
        assert(items_of(a@) =~= seq![Item::Integer(self@.code().code()), self@.payload()]);
        array_value(a)
    }

    /// Reads the response of the operation `DeviceGetHardwareInfo`.
    fn read_device_get_hardware_info(raw: &CborValue) -> (r: Result<PerformOpRsp, CborError>)
        ensures
            result_view(r) == match GetHardwareInfoResponseView::from_item(raw@) {
                Err(e) => Err(e),
                Ok(x) => Ok(PerformOpRspView::DeviceGetHardwareInfo(x)),
            },
    {
        match GetHardwareInfoResponse::from_cbor_value(raw) {
            Err(e) => Err(e),
            Ok(x) => Ok(PerformOpRsp::DeviceGetHardwareInfo(x)),
        }
    }

    /// Reads the response of the operation `DeviceAddRngEntropy`.
    fn read_device_add_rng_entropy(raw: &CborValue) -> (r: Result<PerformOpRsp, CborError>)
        ensures
            result_view(r) == match AddRngEntropyResponse::from_item(raw@) {
                Err(e) => Err(e),
                Ok(x) => Ok(PerformOpRspView::DeviceAddRngEntropy(x)),
            },
    {
        match AddRngEntropyResponse::from_cbor_value(raw) {
            Err(e) => Err(e),
            Ok(x) => Ok(PerformOpRsp::DeviceAddRngEntropy(x)),
        }
    }

    /// Reads the response of the operation `DeviceGenerateKey`.
    fn read_device_generate_key(raw: &CborValue) -> (r: Result<PerformOpRsp, CborError>)
        ensures
            result_view(r) == match GenerateKeyResponseView::from_item(raw@) {
                Err(e) => Err(e),
                Ok(x) => Ok(PerformOpRspView::DeviceGenerateKey(x)),
            },
    {
        match GenerateKeyResponse::from_cbor_value(raw) {
            Err(e) => Err(e),
            Ok(x) => Ok(PerformOpRsp::DeviceGenerateKey(x)),
        }
    }

    /// Reads the response of the operation `DeviceImportKey`.
    fn read_device_import_key(raw: &CborValue) -> (r: Result<PerformOpRsp, CborError>)
        ensures
            result_view(r) == match ImportKeyResponseView::from_item(raw@) {
                Err(e) => Err(e),
                Ok(x) => Ok(PerformOpRspView::DeviceImportKey(x)),
            },
    {
        match ImportKeyResponse::from_cbor_value(raw) {
            Err(e) => Err(e),
            Ok(x) => Ok(PerformOpRsp::DeviceImportKey(x)),
        }
    }

    /// Reads the response of the operation `DeviceImportWrappedKey`.
    fn read_device_import_wrapped_key(raw: &CborValue) -> (r: Result<PerformOpRsp, CborError>)
        ensures
            result_view(r) == match ImportWrappedKeyResponseView::from_item(raw@) {
                Err(e) => Err(e),
                Ok(x) => Ok(PerformOpRspView::DeviceImportWrappedKey(x)),
            },
    {
        match ImportWrappedKeyResponse::from_cbor_value(raw) {
            Err(e) => Err(e),
            Ok(x) => Ok(PerformOpRsp::DeviceImportWrappedKey(x)),
        }
    }

    /// Reads the response of the operation `DeviceUpgradeKey`.
    fn read_device_upgrade_key(raw: &CborValue) -> (r: Result<PerformOpRsp, CborError>)
        ensures
            result_view(r) == match UpgradeKeyResponseView::from_item(raw@) {
                Err(e) => Err(e),
                Ok(x) => Ok(PerformOpRspView::DeviceUpgradeKey(x)),
            },
    {
        match UpgradeKeyResponse::from_cbor_value(raw) {
            Err(e) => Err(e),
            Ok(x) => Ok(PerformOpRsp::DeviceUpgradeKey(x)),
        }
    }

    /// Reads the response of the operation `DeviceDeleteKey`.
    fn read_device_delete_key(raw: &CborValue) -> (r: Result<PerformOpRsp, CborError>)
        ensures
            result_view(r) == match DeleteKeyResponse::from_item(raw@) {
                Err(e) => Err(e),
                Ok(x) => Ok(PerformOpRspView::DeviceDeleteKey(x)),
            },
    {
        match DeleteKeyResponse::from_cbor_value(raw) {
            Err(e) => Err(e),
            Ok(x) => Ok(PerformOpRsp::DeviceDeleteKey(x)),
        }
    }

    /// Reads the response of the operation `DeviceDeleteAllKeys`.
    fn read_device_delete_all_keys(raw: &CborValue) -> (r: Result<PerformOpRsp, CborError>)
        ensures
            result_view(r) == match DeleteAllKeysResponse::from_item(raw@) {
                Err(e) => Err(e),
                Ok(x) => Ok(PerformOpRspView::DeviceDeleteAllKeys(x)),
            },
    {
        match DeleteAllKeysResponse::from_cbor_value(raw) {
            Err(e) => Err(e),
            Ok(x) => Ok(PerformOpRsp::DeviceDeleteAllKeys(x)),
        }
    }

    /// Reads the response of the operation `DeviceDestroyAttestationIds`.
    fn read_device_destroy_attestation_ids(raw: &CborValue) -> (r: Result<PerformOpRsp, CborError>)
        ensures
            result_view(r) == match DestroyAttestationIdsResponse::from_item(raw@) {
                Err(e) => Err(e),
                Ok(x) => Ok(PerformOpRspView::DeviceDestroyAttestationIds(x)),
            },
    {
        match DestroyAttestationIdsResponse::from_cbor_value(raw) {
            Err(e) => Err(e),
            Ok(x) => Ok(PerformOpRsp::DeviceDestroyAttestationIds(x)),
        }
    }

    /// Reads the response of the operation `DeviceBegin`.
    fn read_device_begin(raw: &CborValue) -> (r: Result<PerformOpRsp, CborError>)
        ensures
            result_view(r) == match BeginResponseView::from_item(raw@) {
                Err(e) => Err(e),
                Ok(x) => Ok(PerformOpRspView::DeviceBegin(x)),
            },
    {
        match BeginResponse::from_cbor_value(raw) {
            Err(e) => Err(e),
            Ok(x) => Ok(PerformOpRsp::DeviceBegin(x)),
        }
    }

    /// Reads the response of the operation `DeviceDeviceLocked`.
    fn read_device_device_locked(raw: &CborValue) -> (r: Result<PerformOpRsp, CborError>)
        ensures
            result_view(r) == match DeviceLockedResponse::from_item(raw@) {
                Err(e) => Err(e),
                Ok(x) => Ok(PerformOpRspView::DeviceDeviceLocked(x)),
            },
    {
        match DeviceLockedResponse::from_cbor_value(raw) {
            Err(e) => Err(e),
            Ok(x) => Ok(PerformOpRsp::DeviceDeviceLocked(x)),
        }
    }

    /// Reads the response of the operation `DeviceEarlyBootEnded`.
    fn read_device_early_boot_ended(raw: &CborValue) -> (r: Result<PerformOpRsp, CborError>)
        ensures
            result_view(r) == match EarlyBootEndedResponse::from_item(raw@) {
                Err(e) => Err(e),
                Ok(x) => Ok(PerformOpRspView::DeviceEarlyBootEnded(x)),
            },
    {
        match EarlyBootEndedResponse::from_cbor_value(raw) {
            Err(e) => Err(e),
            Ok(x) => Ok(PerformOpRsp::DeviceEarlyBootEnded(x)),
        }
    }

    /// Reads the response of the operation `DeviceConvertStorageKeyToEphemeral`.
    fn read_device_convert_storage_key_to_ephemeral(raw: &CborValue) -> (r: Result<
        PerformOpRsp,
        CborError,
    >)
        ensures
            result_view(r) == match ConvertStorageKeyToEphemeralResponseView::from_item(raw@) {
                Err(e) => Err(e),
                Ok(x) => Ok(PerformOpRspView::DeviceConvertStorageKeyToEphemeral(x)),
            },
    {
        match ConvertStorageKeyToEphemeralResponse::from_cbor_value(raw) {
            Err(e) => Err(e),
            Ok(x) => Ok(PerformOpRsp::DeviceConvertStorageKeyToEphemeral(x)),
        }
    }

    /// Reads the response of the operation `DeviceGetKeyCharacteristics`.
    fn read_device_get_key_characteristics(raw: &CborValue) -> (r: Result<PerformOpRsp, CborError>)
        ensures
            result_view(r) == match GetKeyCharacteristicsResponseView::from_item(raw@) {
                Err(e) => Err(e),
                Ok(x) => Ok(PerformOpRspView::DeviceGetKeyCharacteristics(x)),
            },
    {
        match GetKeyCharacteristicsResponse::from_cbor_value(raw) {
            Err(e) => Err(e),
            Ok(x) => Ok(PerformOpRsp::DeviceGetKeyCharacteristics(x)),
        }
    }

    /// Reads the response of the operation `OperationUpdateAad`.
    fn read_operation_update_aad(raw: &CborValue) -> (r: Result<PerformOpRsp, CborError>)
        ensures
            result_view(r) == match UpdateAadResponse::from_item(raw@) {
                Err(e) => Err(e),
                Ok(x) => Ok(PerformOpRspView::OperationUpdateAad(x)),
            },
    {
        match UpdateAadResponse::from_cbor_value(raw) {
            Err(e) => Err(e),
            Ok(x) => Ok(PerformOpRsp::OperationUpdateAad(x)),
        }
    }

    /// Reads the response of the operation `OperationUpdate`.
    fn read_operation_update(raw: &CborValue) -> (r: Result<PerformOpRsp, CborError>)
        ensures
            result_view(r) == match UpdateResponseView::from_item(raw@) {
                Err(e) => Err(e),
                Ok(x) => Ok(PerformOpRspView::OperationUpdate(x)),
            },
    {
        match UpdateResponse::from_cbor_value(raw) {
            Err(e) => Err(e),
            Ok(x) => Ok(PerformOpRsp::OperationUpdate(x)),
        }
    }

    /// Reads the response of the operation `OperationFinish`.
    fn read_operation_finish(raw: &CborValue) -> (r: Result<PerformOpRsp, CborError>)
        ensures
            result_view(r) == match FinishResponseView::from_item(raw@) {
                Err(e) => Err(e),
                Ok(x) => Ok(PerformOpRspView::OperationFinish(x)),
            },
    {
        match FinishResponse::from_cbor_value(raw) {
            Err(e) => Err(e),
            Ok(x) => Ok(PerformOpRsp::OperationFinish(x)),
        }
    }

    /// Reads the response of the operation `OperationAbort`.
    fn read_operation_abort(raw: &CborValue) -> (r: Result<PerformOpRsp, CborError>)
        ensures
            result_view(r) == match AbortResponse::from_item(raw@) {
                Err(e) => Err(e),
                Ok(x) => Ok(PerformOpRspView::OperationAbort(x)),
            },
    {
        match AbortResponse::from_cbor_value(raw) {
            Err(e) => Err(e),
            Ok(x) => Ok(PerformOpRsp::OperationAbort(x)),
        }
    }

    /// Reads the response of the operation `RpcGetHardwareInfo`.
    fn read_rpc_get_hardware_info(raw: &CborValue) -> (r: Result<PerformOpRsp, CborError>)
        ensures
            result_view(r) == match GetRpcHardwareInfoResponseView::from_item(raw@) {
                Err(e) => Err(e),
                Ok(x) => Ok(PerformOpRspView::RpcGetHardwareInfo(x)),
            },
    {
        match GetRpcHardwareInfoResponse::from_cbor_value(raw) {
            Err(e) => Err(e),
            Ok(x) => Ok(PerformOpRsp::RpcGetHardwareInfo(x)),
        }
    }

    /// Reads the response of the operation `RpcGenerateEcdsaP256KeyPair`.
    fn read_rpc_generate_ecdsa_p256_key_pair(raw: &CborValue) -> (r: Result<
        PerformOpRsp,
        CborError,
    >)
        ensures
            result_view(r) == match GenerateEcdsaP256KeyPairResponseView::from_item(raw@) {
                Err(e) => Err(e),
                Ok(x) => Ok(PerformOpRspView::RpcGenerateEcdsaP256KeyPair(x)),
            },
    {
        match GenerateEcdsaP256KeyPairResponse::from_cbor_value(raw) {
            Err(e) => Err(e),
            Ok(x) => Ok(PerformOpRsp::RpcGenerateEcdsaP256KeyPair(x)),
        }
    }

    /// Reads the response of the operation `RpcGenerateCertificateRequest`.
    fn read_rpc_generate_certificate_request(raw: &CborValue) -> (r: Result<
        PerformOpRsp,
        CborError,
    >)
        ensures
            result_view(r) == match GenerateCertificateRequestResponseView::from_item(raw@) {
                Err(e) => Err(e),
                Ok(x) => Ok(PerformOpRspView::RpcGenerateCertificateRequest(x)),
            },
    {
        match GenerateCertificateRequestResponse::from_cbor_value(raw) {
            Err(e) => Err(e),
            Ok(x) => Ok(PerformOpRsp::RpcGenerateCertificateRequest(x)),
        }
    }

    /// Reads the response of the operation `RpcGenerateCertificateV2Request`.
    fn read_rpc_generate_certificate_v2_request(raw: &CborValue) -> (r: Result<
        PerformOpRsp,
        CborError,
    >)
        ensures
            result_view(r) == match GenerateCertificateRequestV2ResponseView::from_item(raw@) {
                Err(e) => Err(e),
                Ok(x) => Ok(PerformOpRspView::RpcGenerateCertificateV2Request(x)),
            },
    {
        match GenerateCertificateRequestV2Response::from_cbor_value(raw) {
            Err(e) => Err(e),
            Ok(x) => Ok(PerformOpRsp::RpcGenerateCertificateV2Request(x)),
        }
    }

    /// Reads the response of the operation `SharedSecretGetSharedSecretParameters`.
    fn read_shared_secret_get_shared_secret_parameters(raw: &CborValue) -> (r: Result<
        PerformOpRsp,
        CborError,
    >)
        ensures
            result_view(r) == match GetSharedSecretParametersResponseView::from_item(raw@) {
                Err(e) => Err(e),
                Ok(x) => Ok(PerformOpRspView::SharedSecretGetSharedSecretParameters(x)),
            },
    {
        match GetSharedSecretParametersResponse::from_cbor_value(raw) {
            Err(e) => Err(e),
            Ok(x) => Ok(PerformOpRsp::SharedSecretGetSharedSecretParameters(x)),
        }
    }

    /// Reads the response of the operation `SharedSecretComputeSharedSecret`.
    fn read_shared_secret_compute_shared_secret(raw: &CborValue) -> (r: Result<
        PerformOpRsp,
        CborError,
    >)
        ensures
            result_view(r) == match ComputeSharedSecretResponseView::from_item(raw@) {
                Err(e) => Err(e),
                Ok(x) => Ok(PerformOpRspView::SharedSecretComputeSharedSecret(x)),
            },
    {
        match ComputeSharedSecretResponse::from_cbor_value(raw) {
            Err(e) => Err(e),
            Ok(x) => Ok(PerformOpRsp::SharedSecretComputeSharedSecret(x)),
        }
    }

    /// Reads the response of the operation `SecureClockGenerateTimeStamp`.
    fn read_secure_clock_generate_time_stamp(raw: &CborValue) -> (r: Result<
        PerformOpRsp,
        CborError,
    >)
        ensures
            result_view(r) == match GenerateTimeStampResponseView::from_item(raw@) {
                Err(e) => Err(e),
                Ok(x) => Ok(PerformOpRspView::SecureClockGenerateTimeStamp(x)),
            },
    {
        match GenerateTimeStampResponse::from_cbor_value(raw) {
            Err(e) => Err(e),
            Ok(x) => Ok(PerformOpRsp::SecureClockGenerateTimeStamp(x)),
        }
    }

    /// Reads the response of the operation `GetRootOfTrustChallenge`.
    fn read_get_root_of_trust_challenge(raw: &CborValue) -> (r: Result<PerformOpRsp, CborError>)
        ensures
            result_view(r) == match GetRootOfTrustChallengeResponseView::from_item(raw@) {
                Err(e) => Err(e),
                Ok(x) => Ok(PerformOpRspView::GetRootOfTrustChallenge(x)),
            },
    {
        match GetRootOfTrustChallengeResponse::from_cbor_value(raw) {
            Err(e) => Err(e),
            Ok(x) => Ok(PerformOpRsp::GetRootOfTrustChallenge(x)),
        }
    }

    /// Reads the response of the operation `GetRootOfTrust`.
    fn read_get_root_of_trust(raw: &CborValue) -> (r: Result<PerformOpRsp, CborError>)
        ensures
            result_view(r) == match GetRootOfTrustResponseView::from_item(raw@) {
                Err(e) => Err(e),
                Ok(x) => Ok(PerformOpRspView::GetRootOfTrust(x)),
            },
    {
        match GetRootOfTrustResponse::from_cbor_value(raw) {
            Err(e) => Err(e),
            Ok(x) => Ok(PerformOpRsp::GetRootOfTrust(x)),
        }
    }

    /// Reads the response of the operation `SendRootOfTrust`.
    fn read_send_root_of_trust(raw: &CborValue) -> (r: Result<PerformOpRsp, CborError>)
        ensures
            result_view(r) == match SendRootOfTrustResponse::from_item(raw@) {
                Err(e) => Err(e),
                Ok(x) => Ok(PerformOpRspView::SendRootOfTrust(x)),
            },
    {
        match SendRootOfTrustResponse::from_cbor_value(raw) {
            Err(e) => Err(e),
            Ok(x) => Ok(PerformOpRsp::SendRootOfTrust(x)),
        }
    }

    /// Reads the response of the operation `SetHalInfo`.
    fn read_set_hal_info(raw: &CborValue) -> (r: Result<PerformOpRsp, CborError>)
        ensures
            result_view(r) == match SetHalInfoResponse::from_item(raw@) {
                Err(e) => Err(e),
                Ok(x) => Ok(PerformOpRspView::SetHalInfo(x)),
            },
    {
        match SetHalInfoResponse::from_cbor_value(raw) {
            Err(e) => Err(e),
            Ok(x) => Ok(PerformOpRsp::SetHalInfo(x)),
        }
    }

    /// Reads the response of the operation `SetBootInfo`.
    fn read_set_boot_info(raw: &CborValue) -> (r: Result<PerformOpRsp, CborError>)
        ensures
            result_view(r) == match SetBootInfoResponse::from_item(raw@) {
                Err(e) => Err(e),
                Ok(x) => Ok(PerformOpRspView::SetBootInfo(x)),
            },
    {
        match SetBootInfoResponse::from_cbor_value(raw) {
            Err(e) => Err(e),
            Ok(x) => Ok(PerformOpRsp::SetBootInfo(x)),
        }
    }

    /// Reads the response of the operation `SetAttestationIds`.
    fn read_set_attestation_ids(raw: &CborValue) -> (r: Result<PerformOpRsp, CborError>)
        ensures
            result_view(r) == match SetAttestationIdsResponse::from_item(raw@) {
                Err(e) => Err(e),
                Ok(x) => Ok(PerformOpRspView::SetAttestationIds(x)),
            },
    {
        match SetAttestationIdsResponse::from_cbor_value(raw) {
            Err(e) => Err(e),
            Ok(x) => Ok(PerformOpRsp::SetAttestationIds(x)),
        }
    }

    /// Reads the response of operation `code`.
    pub fn with_code(code: KeyMintOperation, raw: &CborValue) -> (r: Result<
        PerformOpRsp,
        CborError,
    >)
        ensures
            result_view(r) == PerformOpRspView::with_code(code, raw@),
    {
        match code {
            KeyMintOperation::DeviceGetHardwareInfo => Self::read_device_get_hardware_info(raw),
            KeyMintOperation::DeviceAddRngEntropy => Self::read_device_add_rng_entropy(raw),
            KeyMintOperation::DeviceGenerateKey => Self::read_device_generate_key(raw),
            KeyMintOperation::DeviceImportKey => Self::read_device_import_key(raw),
            KeyMintOperation::DeviceImportWrappedKey => Self::read_device_import_wrapped_key(raw),
            KeyMintOperation::DeviceUpgradeKey => Self::read_device_upgrade_key(raw),
            KeyMintOperation::DeviceDeleteKey => Self::read_device_delete_key(raw),
            KeyMintOperation::DeviceDeleteAllKeys => Self::read_device_delete_all_keys(raw),
            KeyMintOperation::DeviceDestroyAttestationIds =>
                Self::read_device_destroy_attestation_ids(raw),
            KeyMintOperation::DeviceBegin => Self::read_device_begin(raw),
            KeyMintOperation::DeviceDeviceLocked => Self::read_device_device_locked(raw),
            KeyMintOperation::DeviceEarlyBootEnded => Self::read_device_early_boot_ended(raw),
            KeyMintOperation::DeviceConvertStorageKeyToEphemeral =>
                Self::read_device_convert_storage_key_to_ephemeral(raw),
            KeyMintOperation::DeviceGetKeyCharacteristics =>
                Self::read_device_get_key_characteristics(raw),
            KeyMintOperation::OperationUpdateAad => Self::read_operation_update_aad(raw),
            KeyMintOperation::OperationUpdate => Self::read_operation_update(raw),
            KeyMintOperation::OperationFinish => Self::read_operation_finish(raw),
            KeyMintOperation::OperationAbort => Self::read_operation_abort(raw),
            KeyMintOperation::RpcGetHardwareInfo => Self::read_rpc_get_hardware_info(raw),
            KeyMintOperation::RpcGenerateEcdsaP256KeyPair =>
                Self::read_rpc_generate_ecdsa_p256_key_pair(raw),
            KeyMintOperation::RpcGenerateCertificateRequest =>
                Self::read_rpc_generate_certificate_request(raw),
            KeyMintOperation::RpcGenerateCertificateV2Request =>
                Self::read_rpc_generate_certificate_v2_request(raw),
            KeyMintOperation::SharedSecretGetSharedSecretParameters =>
                Self::read_shared_secret_get_shared_secret_parameters(raw),
            KeyMintOperation::SharedSecretComputeSharedSecret =>
                Self::read_shared_secret_compute_shared_secret(raw),
            KeyMintOperation::SecureClockGenerateTimeStamp =>
                Self::read_secure_clock_generate_time_stamp(raw),
            KeyMintOperation::GetRootOfTrustChallenge => Self::read_get_root_of_trust_challenge(
                raw,
            ),
            KeyMintOperation::GetRootOfTrust => Self::read_get_root_of_trust(raw),
            KeyMintOperation::SendRootOfTrust => Self::read_send_root_of_trust(raw),
            KeyMintOperation::SetHalInfo => Self::read_set_hal_info(raw),
            KeyMintOperation::SetBootInfo => Self::read_set_boot_info(raw),
            KeyMintOperation::SetAttestationIds => Self::read_set_attestation_ids(raw),
        }
    }

    /// Reads the number of an operation, then the response of that operation.
    pub fn from_cbor_value(v: &CborValue) -> (r: Result<PerformOpRsp, CborError>)
        ensures
            result_view(r) == PerformOpRspView::from_item(v@),
    {
        let a = match value_tuple(v, 2) {
            Err(e) => { return Err(e); },
            Ok(a) => a,
        };
        assert(items_of(a@)[0] == a@[0]@);
        assert(items_of(a@)[1] == a@[1]@);
        match KeyMintOperation::from_cbor_value(&a[0]) {
            Err(e) => Err(e),
            Ok(code) => Self::with_code(code, &a[1]),
        }
    }
}

/// Writes an optional perform op rsp as an array of at most one element.
pub fn opt_perform_op_rsp_to_cbor_value(o: &Option<PerformOpRsp>) -> (r: CborValue)
    ensures
        r@ == option_item(
            match o {
                None => None,
                Some(x) => Some(x@.item()),
            },
        ),
{
    let mut a: Vec<CborValue> = Vec::new();
    match o {
        None => {
            assert(items_of(a@) =~= Seq::<Item>::empty());
        },
        Some(x) => {
            a.push(x.to_cbor_value());
            assert(items_of(a@) =~= seq![x@.item()]);
        },
    }
    array_value(a)
}

/// Reads an optional perform op rsp from an array of at most one element.
pub fn opt_perform_op_rsp_from_cbor_value(v: &CborValue) -> (r: Result<
    Option<PerformOpRsp>,
    CborError,
>)
    ensures
        result_option_view(r) == decode_option(v@, PerformOpRspView::decoder()),
{
    let a = match value_array(v) {
        Err(e) => { return Err(e); },
        Ok(a) => a,
    };
    if a.len() == 0 {
        Ok(None)
    } else if a.len() == 1 {
        assert(items_of(a@)[0] == a@[0]@);
        match PerformOpRsp::from_cbor_value(&a[0]) {
            Err(e) => Err(e),
            Ok(x) => Ok(Some(x)),
        }
    } else {
        Err(CborError::UnexpectedItem)
    }
}

/// A response: the code of the outcome, and the payload where the outcome is a success.
#[derive(Clone, Debug, PartialEq, Eq)]
pub struct PerformOpResponse {
    pub error_code: ErrorCode,
    pub rsp: Option<PerformOpRsp>,
}

/// The content of a [`PerformOpResponse`].
pub ghost struct PerformOpResponseView {
    pub error_code: ErrorCode,
    pub rsp: Option<PerformOpRspView>,
}

impl View for PerformOpResponse {
    type V = PerformOpResponseView;

    open spec fn view(&self) -> PerformOpResponseView {
        PerformOpResponseView {
            error_code: self.error_code,
            rsp: option_view(self.rsp),
        }
    }
}

impl PerformOpResponseView {
    /// The CBOR form: the array of the fields in order.
    pub open spec fn item(self) -> Item {
        Item::Array(
            seq![
                Item::Integer(self.error_code.code()),
                option_item(
            match self.rsp {
                None => None,
                Some(x) => Some(x.item()),
            },
        ),
            ],
        )
    }

    /// What [`PerformOpResponse::from_cbor_value`] makes of an item: an array of exactly
    /// 2 elements, read in order.
    pub open spec fn from_item(item: Item) -> Result<PerformOpResponseView, CborError> {
        match tuple_of(item, 2) {
            Err(e) => Err(e),
            Ok(a) => match ErrorCode::from_item(a[0]) {
                Err(e) => Err(e),
                Ok(error_code) => match decode_option(a[1], PerformOpRspView::decoder()) {
                    Err(e) => Err(e),
                    Ok(rsp) => Ok(PerformOpResponseView { error_code, rsp }),
                },
            },
        }
    }

    /// How a [`PerformOpResponse`] is written.
    pub open spec fn encoder() -> spec_fn(PerformOpResponseView) -> Item {
        |x: PerformOpResponseView| x.item()
    }

    /// How a [`PerformOpResponse`] is read.
    pub open spec fn decoder() -> spec_fn(Item) -> Result<PerformOpResponseView, CborError> {
        |item: Item| PerformOpResponseView::from_item(item)
    }

}

impl PerformOpResponse {
    /// A copy of this value.
    pub fn duplicate(&self) -> (r: PerformOpResponse)
        ensures
            r@ == self@,
    {
        PerformOpResponse {
            error_code: self.error_code,
            rsp: match &self.rsp {
                None => None,
                Some(x) => Some(x.duplicate()),
            },
        }
    }

    /// Writes this value as the array of its fields.
    pub fn to_cbor_value(&self) -> (r: CborValue)
        ensures
            r@ == self@.item(),
    {
        let mut a: Vec<CborValue> = Vec::new();
        a.push(self.error_code.to_cbor_value());
        a.push(opt_perform_op_rsp_to_cbor_value(&self.rsp));
        assert(items_of(a@) =~= self@.item()->Array_0);
        array_value(a)
    }

    /// Reads a value from the array of its fields.
    pub fn from_cbor_value(v: &CborValue) -> (r: Result<PerformOpResponse, CborError>)
        ensures
            result_view(r) == PerformOpResponseView::from_item(v@),
    {
        let a = match value_tuple(v, 2) {
            Err(e) => { return Err(e); },
            Ok(a) => a,
        };
        assert(items_of(a@)[0] == a@[0]@);
        assert(items_of(a@)[1] == a@[1]@);
        let error_code = match ErrorCode::from_cbor_value(&a[0]) {
            Err(e) => { return Err(e); },
            Ok(x) => x,
        };
        let rsp = match opt_perform_op_rsp_from_cbor_value(&a[1]) {
            Err(e) => { return Err(e); },
            Ok(x) => x,
        };
        Ok(PerformOpResponse { error_code, rsp })
    }
}

impl PerformOpReqView {
    /// What [`PerformOpReq::from_slice`] makes of bytes.
    pub open spec fn from_bytes(bytes: Seq<u8>) -> Result<PerformOpReqView, CborError> {
        match decoded(bytes) {
            Err(e) => Err(e),
            Ok(item) => Self::from_item(item),
        }
    }
}

impl PerformOpReq {
    /// Reads a request from the bytes of exactly one CBOR item.
    pub fn from_slice(bytes: &[u8]) -> (r: Result<PerformOpReq, CborError>)
        ensures
            result_view(r) == PerformOpReqView::from_bytes(bytes@),
    {
        match from_slice(bytes) {
            Err(e) => Err(e),
            Ok(v) => Self::from_cbor_value(&v),
        }
    }

    /// Serializes the request.
    pub fn into_vec(&self) -> (r: Result<Vec<u8>, CborError>)
        ensures
            match r {
                Ok(bytes) => encoded(self@.item()) == Ok::<Seq<u8>, CborError>(bytes@),
                Err(e) => encoded(self@.item()) == Err::<Seq<u8>, CborError>(e),
            },
    {
        to_vec(&self.to_cbor_value())
    }
}

impl PerformOpResponseView {
    /// What [`PerformOpResponse::from_slice`] makes of bytes.
    pub open spec fn from_bytes(bytes: Seq<u8>) -> Result<PerformOpResponseView, CborError> {
        match decoded(bytes) {
            Err(e) => Err(e),
            Ok(item) => Self::from_item(item),
        }
    }
}

impl PerformOpResponse {
    /// Reads a response from the bytes of exactly one CBOR item.
    pub fn from_slice(bytes: &[u8]) -> (r: Result<PerformOpResponse, CborError>)
        ensures
            result_view(r) == PerformOpResponseView::from_bytes(bytes@),
    {
        match from_slice(bytes) {
            Err(e) => Err(e),
            Ok(v) => Self::from_cbor_value(&v),
        }
    }

    /// Serializes the response.
    pub fn into_vec(&self) -> (r: Result<Vec<u8>, CborError>)
        ensures
            match r {
                Ok(bytes) => encoded(self@.item()) == Ok::<Seq<u8>, CborError>(bytes@),
                Err(e) => encoded(self@.item()) == Err::<Seq<u8>, CborError>(e),
            },
    {
        to_vec(&self.to_cbor_value())
    }
}

} // verus!
