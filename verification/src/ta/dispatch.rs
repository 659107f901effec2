//! The dispatcher: from the bytes of a request to the bytes of a response.

use crate::cbor::{encoded, option_view, views, CborError};
use crate::device::{CryptoImplementation, DeviceImplementation, Platform};
use crate::error::Error;
use crate::keyblob::{
    EncryptedKeyBlobView,
    PlaintextKeyBlobView,
    SecureDeletionSecretManager,
    SecureDeletionSlot,
};
use crate::ta::clock::timestamp_token_mac_input_of;
use crate::ta::info::{BootInfo, HalInfo, LockState};
use crate::ta::keyblobs::application_params;
use crate::ta::keys::{
    created_characteristics, fails_to_seal, generated_key_len, imported_key, seals,
};
use crate::ta::operation::{finished, index_of_handle, table_with, use_counted};
use crate::ta::rkp::{RpcInfo, MINIMUM_SUPPORTED_KEYS_IN_CSR};
use crate::ta::{
    keeps_latches, key_id_of, rot_bytes, KeyMintTa, OpHandle, OperationView, MAX_ENTROPY_LEN,
};
use crate::wire::keymint::{ErrorCode, KeyOrigin, VerifiedBootState};
use crate::wire::messages::{
    AbortRequest, AbortResponse, AddRngEntropyRequest, AddRngEntropyResponse, BeginRequest,
    BeginResponse, ComputeSharedSecretRequest, ComputeSharedSecretResponse,
    ComputeSharedSecretResponseView, ConvertStorageKeyToEphemeralRequest,
    ConvertStorageKeyToEphemeralResponse, DeleteAllKeysRequest, DeleteAllKeysResponse,
    DeleteKeyRequest, DeleteKeyResponse, DestroyAttestationIdsRequest,
    DestroyAttestationIdsResponse, DeviceLockedRequest, DeviceLockedResponse,
    EarlyBootEndedRequest, EarlyBootEndedResponse, FinishRequest, FinishResponse,
    FinishResponseView, GenerateCertificateRequestRequest, GenerateCertificateRequestResponse,
    GenerateCertificateRequestV2Request, GenerateCertificateRequestV2Response,
    GenerateEcdsaP256KeyPairRequest, GenerateEcdsaP256KeyPairResponse, GenerateKeyRequest,
    GenerateKeyResponse, GenerateTimeStampRequest, GenerateTimeStampResponse,
    GetHardwareInfoRequest, GetHardwareInfoResponse, GetKeyCharacteristicsRequest,
    GetKeyCharacteristicsResponse, GetKeyCharacteristicsResponseView,
    GetRootOfTrustChallengeRequest, GetRootOfTrustChallengeResponse,
    GetRootOfTrustChallengeResponseView, GetRootOfTrustRequest, GetRootOfTrustResponse,
    GetRootOfTrustResponseView, GetRpcHardwareInfoRequest, GetRpcHardwareInfoResponse,
    GetSharedSecretParametersRequest, GetSharedSecretParametersResponse,
    GetSharedSecretParametersResponseView, ImportKeyRequest, ImportKeyResponse,
    ImportWrappedKeyRequest, ImportWrappedKeyResponse, KeyMintOperation, PerformOpReq,
    PerformOpReqView, PerformOpResponse, PerformOpResponseView, PerformOpRsp, PerformOpRspView,
    SendRootOfTrustRequest, SendRootOfTrustResponse, SetAttestationIdsRequest,
    SetAttestationIdsResponse, SetBootInfoRequest, SetBootInfoResponse, SetHalInfoRequest,
    SetHalInfoResponse, UpdateAadRequest, UpdateAadResponse, UpdateRequest, UpdateResponse,
    UpgradeKeyRequest, UpgradeKeyResponse,
};
use crate::wire::params::KeyParamView;
use crate::wire::types::EekCurve;
use vstd::prelude::*;

verus! {

/// The bytes of the response that reports `UnknownError` without a payload:
/// the array of -1000 and the empty array, written out by hand so that it
/// can be sent when nothing can be encoded.
pub open spec fn invalid_cbor_rsp() -> Seq<u8> {
    seq![0x82u8, 0x39u8, 0x03u8, 0xe7u8, 0x80u8]
}

/// The bytes of the response that reports `UnknownError` without a payload.
pub fn invalid_cbor_rsp_data() -> (r: [u8; 5])
    ensures
        r@ == invalid_cbor_rsp(),
{
    let data: [u8; 5] = [
        0x82,  // array of two
        0x39,  // negative integer in two bytes
        0x03,  // 0x03e7 is 999,
        0xe7,  // which stands for -1000
        0x80,  // array of none
    ];
    assert(data@ =~= invalid_cbor_rsp());
    data
}

/// Whether a response reports the failure `e`: it carries the code of the
/// error and no payload.
pub open spec fn failed(rsp: PerformOpResponseView, e: Error) -> bool {
    rsp.error_code == e.code() && rsp.rsp is None
}

/// Whether a response reports a success: it carries the code of success
/// and a payload.
pub open spec fn succeeded(rsp: PerformOpResponseView) -> bool {
    rsp.error_code == ErrorCode::Success && rsp.rsp is Some
}

/// Whether the payload of a response, where there is one, is that of the
/// operation `code`.
pub open spec fn mirrors(code: KeyMintOperation, rsp: PerformOpResponseView) -> bool {
    rsp.rsp matches Some(payload) ==> payload.code() == code
}

/// The response that reports an error code, without payload.
pub fn error_rsp(err_code: ErrorCode) -> (r: PerformOpResponse)
    ensures
        r@ == (PerformOpResponseView { error_code: err_code, rsp: None }),
{
    PerformOpResponse { error_code: err_code, rsp: None }
}

/// The response that reports the failure of an operation.
pub fn op_error_rsp(op: KeyMintOperation, err: Error) -> (r: PerformOpResponse)
    ensures
        failed(r@, err),
{
    error_rsp(err.error_code())
}

/// What the trusted application answers to a request of the operation
/// `SetBootInfo`, and what the request does to its state.
#[verifier::opaque]
pub open spec fn answers_set_boot_info<P: Platform>(
    before: KeyMintTa<P>,
    after: KeyMintTa<P>,
    req: SetBootInfoRequest,
    rsp: PerformOpResponseView,
) -> bool {
    match VerifiedBootState::of_code(req.verified_boot_state as int) {
        None => failed(rsp, Error::Cbor(CborError::NonEnumValue)) && after == before,
        Some(state) => {
            let info = BootInfo {
                verified_boot_key: req.verified_boot_key,
                device_boot_locked: req.device_boot_locked,
                verified_boot_state: state,
                verified_boot_hash: req.verified_boot_hash,
                boot_patchlevel: req.boot_patchlevel,
            };
            &&& succeeded(rsp)
            &&& if before.in_early_boot && before.boot_info is None {
                after == (KeyMintTa { boot_info: Some(info), rot_data: after.rot_data, ..before })
                    && after.rot_data is Some && after.rot_data->Some_0@ == rot_bytes(info)
            } else {
                after == before
            }
        },
    }
}

/// What the trusted application answers to a request of the operation
/// `SetHalInfo`, and what the request does to its state.
#[verifier::opaque]
pub open spec fn answers_set_hal_info<P: Platform>(
    before: KeyMintTa<P>,
    after: KeyMintTa<P>,
    req: SetHalInfoRequest,
    rsp: PerformOpResponseView,
) -> bool {
    &&& succeeded(rsp)
    &&& if before.hal_info is None {
        after == (KeyMintTa {
            hal_info: Some(
                HalInfo {
                    os_version: req.os_version,
                    os_patchlevel: req.os_patchlevel,
                    vendor_patchlevel: req.vendor_patchlevel,
                },
            ),
            ..before
        })
    } else {
        after == before
    }
}

/// What the trusted application answers to a request of the operation
/// `SetAttestationIds`, and what the request does to its state.
#[verifier::opaque]
pub open spec fn answers_set_attestation_ids<P: Platform>(
    before: KeyMintTa<P>,
    after: KeyMintTa<P>,
    req: SetAttestationIdsRequest,
    rsp: PerformOpResponseView,
) -> bool {
    &&& succeeded(rsp)
    &&& if before.dev.attest_ids is None && before.attestation_id_info is None {
        after == (KeyMintTa { attestation_id_info: Some(req.ids), ..before })
    } else {
        after == before
    }
}

/// What the trusted application answers to a request of the operation
/// `SharedSecretGetSharedSecretParameters`, and what the request does to its state.
#[verifier::opaque]
pub open spec fn answers_shared_secret_get_shared_secret_parameters<P: Platform>(
    before: KeyMintTa<P>,
    after: KeyMintTa<P>,
    req: GetSharedSecretParametersRequest,
    rsp: PerformOpResponseView,
) -> bool {
    &&& after.shared_secret_params is Some
    &&& rsp == (PerformOpResponseView {
        error_code: ErrorCode::Success,
        rsp: Some(
            PerformOpRspView::SharedSecretGetSharedSecretParameters(
                GetSharedSecretParametersResponseView { ret: after.shared_secret_params->Some_0@ },
            ),
        ),
    })
    &&& if before.shared_secret_params is Some {
        after == before
    } else {
        after == (KeyMintTa {
            imp: CryptoImplementation { rng: after.imp.rng, ..before.imp },
            shared_secret_params: after.shared_secret_params,
            ..before
        })
    }
}

/// What the trusted application answers to a request of the operation
/// `SharedSecretComputeSharedSecret`, and what the request does to its state.
#[verifier::opaque]
pub open spec fn answers_shared_secret_compute_shared_secret<P: Platform>(
    before: KeyMintTa<P>,
    after: KeyMintTa<P>,
    req: ComputeSharedSecretRequest,
    rsp: PerformOpResponseView,
) -> bool {
    &&& after == (KeyMintTa { hmac_key: after.hmac_key, ..before })
    &&& before.hmac_key is Some ==> after.hmac_key == before.hmac_key
    &&& match before.shared_secret_outcome(views(req.params@)).1 {
        Err(e) => failed(rsp, e),
        Ok(check) => rsp == (PerformOpResponseView {
            error_code: ErrorCode::Success,
            rsp: Some(
                PerformOpRspView::SharedSecretComputeSharedSecret(
                    ComputeSharedSecretResponseView { ret: check },
                ),
            ),
        }),
    }
}

/// What the trusted application answers to a request of the operation
/// `SecureClockGenerateTimeStamp`, and what the request does to its state.
#[verifier::opaque]
pub open spec fn answers_secure_clock_generate_time_stamp<P: Platform>(
    before: KeyMintTa<P>,
    after: KeyMintTa<P>,
    req: GenerateTimeStampRequest,
    rsp: PerformOpResponseView,
) -> bool {
    &&& after == before
    &&& before.imp.clock is None ==> failed(rsp, Error::Hal(ErrorCode::Unimplemented))
    &&& before.imp.clock is Some && before.hmac_key is None ==> failed(
        rsp,
        Error::Hal(ErrorCode::HardwareNotYetAvailable),
    )
    &&& match rsp.rsp {
        Some(PerformOpRspView::SecureClockGenerateTimeStamp(r)) => rsp.error_code
            == ErrorCode::Success && r.ret.challenge == req.challenge && before.device_hmac_of(
            timestamp_token_mac_input_of(r.ret),
        ) == Ok::<Seq<u8>, Error>(r.ret.mac),
        Some(_) => false,
        None => exists|e: Error|
            rsp.error_code == e.code() && #[trigger] before.cannot_stamp(req.challenge, e),
    }
}

/// What the trusted application answers to a request of the operation
/// `DeviceGetHardwareInfo`, and what the request does to its state.
#[verifier::opaque]
pub open spec fn answers_device_get_hardware_info<P: Platform>(
    before: KeyMintTa<P>,
    after: KeyMintTa<P>,
    req: GetHardwareInfoRequest,
    rsp: PerformOpResponseView,
) -> bool {
    &&& after == before
    &&& rsp.error_code == ErrorCode::Success
    &&& rsp.rsp matches Some(PerformOpRspView::DeviceGetHardwareInfo(r)) && r.ret.version_number
        == before.hw_info.version_number && r.ret.security_level == before.hw_info.security_level
        && r.ret.key_mint_name == before.hw_info.impl_name@ && r.ret.key_mint_author_name
        == before.hw_info.author_name@ && r.ret.timestamp_token_required == before.imp.clock is None
}

/// What the trusted application answers to a request of the operation
/// `DeviceAddRngEntropy`, and what the request does to its state.
#[verifier::opaque]
pub open spec fn answers_device_add_rng_entropy<P: Platform>(
    before: KeyMintTa<P>,
    after: KeyMintTa<P>,
    req: AddRngEntropyRequest,
    rsp: PerformOpResponseView,
) -> bool {
    if req.data@.len() > MAX_ENTROPY_LEN {
        failed(rsp, Error::Hal(ErrorCode::InvalidInputLength)) && after == before
    } else {
        succeeded(rsp) && after == (KeyMintTa {
            imp: CryptoImplementation { rng: after.imp.rng, ..before.imp },
            ..before
        })
    }
}

/// Whether a response reports that a keyblob could not be sealed: it
/// carries no payload and the code of an error with which sealing fails, as
/// [`fails_to_seal`] says of the secure storage before and after.
pub open spec fn reports_sealing_failure<P: Platform>(
    before: KeyMintTa<P>,
    after: KeyMintTa<P>,
    root_kek: Seq<u8>,
    keyblob: PlaintextKeyBlobView,
    hidden: Seq<KeyParamView>,
    rsp: PerformOpResponseView,
) -> bool {
    rsp.rsp is None && exists|e: Error|
        rsp.error_code == e.code() && #[trigger] fails_to_seal(
            before.dev.sdd_mgr,
            after.dev.sdd_mgr,
            before.imp.aes,
            before.imp.hmac,
            root_kek,
            keyblob,
            hidden,
            e,
        )
}

/// What the trusted application answers to a request of the operation
/// `DeviceGenerateKey`, and what the request does to its state.
#[verifier::opaque]
pub open spec fn answers_device_generate_key<P: Platform>(
    before: KeyMintTa<P>,
    after: KeyMintTa<P>,
    req: GenerateKeyRequest,
    rsp: PerformOpResponseView,
) -> bool {
    &&& after == (KeyMintTa {
        imp: CryptoImplementation { rng: after.imp.rng, ..before.imp },
        dev: DeviceImplementation { sdd_mgr: after.dev.sdd_mgr, ..before.dev },
        ..before
    })
    &&& ({
        let characteristics = created_characteristics(
            before.hw_info.security_level,
            views(req.key_params@),
            KeyOrigin::Generated,
            before.hal_info,
            before.boot_info,
        );
        match generated_key_len(views(req.key_params@)) {
            Err(e) => failed(rsp, e) && after == before,
            Ok((algorithm, len)) => match before.sealing_context(
                views(req.key_params@),
                characteristics,
            ) {
                Err(e) => failed(rsp, e),
                Ok((root_kek, hidden)) => match rsp.rsp {
                    Some(PerformOpRspView::DeviceGenerateKey(r)) => rsp.error_code
                        == ErrorCode::Success && r.ret.key_characteristics == characteristics
                        && r.ret.certificate_chain.len() == 0 && exists|
                        key_material: crate::crypto::KeyMaterialView,
                    |
                        {
                            &&& key_material.algorithm() == algorithm
                            &&& key_material.key_len() == len
                            &&& #[trigger] seals(
                                before.imp.aes,
                                before.imp.hmac,
                                root_kek,
                                PlaintextKeyBlobView { characteristics, key_material },
                                hidden,
                                r.ret.key_blob,
                            )
                        },
                    Some(_) => false,
                    None => exists|key_material: crate::crypto::KeyMaterialView|
                        {
                            &&& key_material.algorithm() == algorithm
                            &&& key_material.key_len() == len
                            &&& #[trigger] reports_sealing_failure(
                                before,
                                after,
                                root_kek,
                                PlaintextKeyBlobView { characteristics, key_material },
                                hidden,
                                rsp,
                            )
                        },
                },
            },
        }
    })
}

/// What the trusted application answers to a request of the operation
/// `DeviceImportKey`, and what the request does to its state.
#[verifier::opaque]
pub open spec fn answers_device_import_key<P: Platform>(
    before: KeyMintTa<P>,
    after: KeyMintTa<P>,
    req: ImportKeyRequest,
    rsp: PerformOpResponseView,
) -> bool {
    &&& after == (KeyMintTa {
        imp: CryptoImplementation { rng: after.imp.rng, ..before.imp },
        dev: DeviceImplementation { sdd_mgr: after.dev.sdd_mgr, ..before.dev },
        ..before
    })
    &&& ({
        let characteristics = created_characteristics(
            before.hw_info.security_level,
            views(req.key_params@),
            KeyOrigin::Imported,
            before.hal_info,
            before.boot_info,
        );
        match imported_key(views(req.key_params@), req.key_format, req.key_data@) {
            Err(e) => failed(rsp, e) && after == before,
            Ok(key_material) => match before.sealing_context(
                views(req.key_params@),
                characteristics,
            ) {
                Err(e) => failed(rsp, e),
                Ok((root_kek, hidden)) => match rsp.rsp {
                    Some(PerformOpRspView::DeviceImportKey(r)) => rsp.error_code
                        == ErrorCode::Success && r.ret.key_characteristics == characteristics
                        && r.ret.certificate_chain.len() == 0 && seals(
                        before.imp.aes,
                        before.imp.hmac,
                        root_kek,
                        PlaintextKeyBlobView { characteristics, key_material },
                        hidden,
                        r.ret.key_blob,
                    ),
                    Some(_) => false,
                    None => reports_sealing_failure(
                        before,
                        after,
                        root_kek,
                        PlaintextKeyBlobView { characteristics, key_material },
                        hidden,
                        rsp,
                    ),
                },
            },
        }
    })
}

/// What the trusted application answers to a request of the operation
/// `DeviceImportWrappedKey`, and what the request does to its state.
#[verifier::opaque]
pub open spec fn answers_device_import_wrapped_key<P: Platform>(
    before: KeyMintTa<P>,
    after: KeyMintTa<P>,
    req: ImportWrappedKeyRequest,
    rsp: PerformOpResponseView,
) -> bool {
    failed(rsp, Error::Hal(ErrorCode::Unimplemented)) && after == before
}

/// What the trusted application answers to a request of the operation
/// `DeviceUpgradeKey`, and what the request does to its state.
#[verifier::opaque]
pub open spec fn answers_device_upgrade_key<P: Platform>(
    before: KeyMintTa<P>,
    after: KeyMintTa<P>,
    req: UpgradeKeyRequest,
    rsp: PerformOpResponseView,
) -> bool {
    &&& after == (KeyMintTa {
        imp: CryptoImplementation { rng: after.imp.rng, ..before.imp },
        dev: DeviceImplementation { sdd_mgr: after.dev.sdd_mgr, ..before.dev },
        ..before
    })
    &&& match before.upgrade_plan(req.key_blob_to_upgrade@, views(req.upgrade_params@)) {
        Err(e) => failed(rsp, e) && after == before,
        Ok(None) => after == before && rsp.error_code == ErrorCode::Success && match rsp.rsp {
            Some(PerformOpRspView::DeviceUpgradeKey(r)) => r.ret.len() == 0,
            _ => false,
        },
        Ok(Some(keyblob)) => match before.sealing_context(
            views(req.upgrade_params@),
            keyblob.characteristics,
        ) {
            Err(e) => failed(rsp, e),
            Ok((root_kek, hidden)) => match rsp.rsp {
                Some(PerformOpRspView::DeviceUpgradeKey(r)) => rsp.error_code
                    == ErrorCode::Success && seals(
                    before.imp.aes,
                    before.imp.hmac,
                    root_kek,
                    keyblob,
                    hidden,
                    r.ret,
                ),
                Some(_) => false,
                None => reports_sealing_failure(before, after, root_kek, keyblob, hidden, rsp),
            },
        },
    }
}

/// What the trusted application answers to a request of the operation
/// `DeviceDeleteKey`, and what the request does to its state.
#[verifier::opaque]
pub open spec fn answers_device_delete_key<P: Platform>(
    before: KeyMintTa<P>,
    after: KeyMintTa<P>,
    req: DeleteKeyRequest,
    rsp: PerformOpResponseView,
) -> bool {
    &&& succeeded(rsp)
    &&& after == (KeyMintTa {
        dev: DeviceImplementation { sdd_mgr: after.dev.sdd_mgr, ..before.dev },
        ..before
    })
    &&& match (EncryptedKeyBlobView::parse(req.key_blob@), before.dev.sdd_mgr) {
        (Ok(blob), Some(mgr)) => match blob.secure_deletion_slot() {
            Some(slot) => after.dev.sdd_mgr is Some && forall|s: SecureDeletionSlot|
                s != slot ==> after.dev.sdd_mgr->Some_0.secret(s) == mgr.secret(s),
            None => after.dev.sdd_mgr == before.dev.sdd_mgr,
        },
        _ => after.dev.sdd_mgr == before.dev.sdd_mgr,
    }
}

/// What the trusted application answers to a request of the operation
/// `DeviceDeleteAllKeys`, and what the request does to its state.
#[verifier::opaque]
pub open spec fn answers_device_delete_all_keys<P: Platform>(
    before: KeyMintTa<P>,
    after: KeyMintTa<P>,
    req: DeleteAllKeysRequest,
    rsp: PerformOpResponseView,
) -> bool {
    &&& succeeded(rsp)
    &&& after == (KeyMintTa {
        dev: DeviceImplementation { sdd_mgr: after.dev.sdd_mgr, ..before.dev },
        ..before
    })
    &&& match before.dev.sdd_mgr {
        Some(_) => after.dev.sdd_mgr is Some && forall|s: SecureDeletionSlot|
            after.dev.sdd_mgr->Some_0.secret(s) is Err,
        None => after.dev.sdd_mgr is None,
    }
}

/// What the trusted application answers to a request of the operation
/// `DeviceDestroyAttestationIds`, and what the request does to its state.
#[verifier::opaque]
pub open spec fn answers_device_destroy_attestation_ids<P: Platform>(
    before: KeyMintTa<P>,
    after: KeyMintTa<P>,
    req: DestroyAttestationIdsRequest,
    rsp: PerformOpResponseView,
) -> bool {
    &&& after == (KeyMintTa {
        dev: DeviceImplementation { attest_ids: after.dev.attest_ids, ..before.dev },
        ..before
    })
    &&& before.dev.attest_ids is None ==> failed(rsp, Error::Hal(ErrorCode::Unimplemented))
        && after == before
}

/// What the trusted application answers to a request of the operation
/// `DeviceBegin`, and what the request does to its state.
#[verifier::opaque]
pub open spec fn answers_device_begin<P: Platform>(
    before: KeyMintTa<P>,
    after: KeyMintTa<P>,
    req: BeginRequest,
    rsp: PerformOpResponseView,
) -> bool {
    &&& after == (KeyMintTa {
        imp: CryptoImplementation { rng: after.imp.rng, ..before.imp },
        operations: after.operations,
        use_count: after.use_count,
        presence_required_op: after.presence_required_op,
        ..before
    })
    &&& match before.begin_plan(req.purpose, req.key_blob@, views(req.params@)) {
        Err(e) => failed(rsp, e) && after == before,
        Ok(plan) => match rsp.rsp {
            Some(PerformOpRspView::DeviceBegin(r)) => rsp.error_code == ErrorCode::Success
                && before.begun(&after, plan, req.purpose, r.ret) && use_counted(
                before.imp.hmac,
                req.key_blob@,
                plan.use_limit,
                before.use_count@,
                after.use_count@,
                None,
            ),
            Some(_) => false,
            None => after.operations == before.operations && after.presence_required_op
                == before.presence_required_op && exists|e: Error|
                rsp.error_code == e.code() && (#[trigger] use_counted(
                    before.imp.hmac,
                    req.key_blob@,
                    plan.use_limit,
                    before.use_count@,
                    after.use_count@,
                    Some(e),
                ) || (e == Error::Hal(ErrorCode::UnknownError) && use_counted(
                    before.imp.hmac,
                    req.key_blob@,
                    plan.use_limit,
                    before.use_count@,
                    after.use_count@,
                    None,
                ))),
        },
    }
}

/// What the trusted application answers to a request of the operation
/// `DeviceDeviceLocked`, and what the request does to its state.
#[verifier::opaque]
pub open spec fn answers_device_device_locked<P: Platform>(
    before: KeyMintTa<P>,
    after: KeyMintTa<P>,
    req: DeviceLockedRequest,
    rsp: PerformOpResponseView,
) -> bool {
    &&& match rsp.rsp {
        Some(_) => rsp.error_code == ErrorCode::Success && after == (KeyMintTa {
            device_locked: after.device_locked,
            ..before
        }) && match after.device_locked {
            LockState::Unlocked => false,
            LockState::LockedSince(t) => !req.password_only && (before.imp.clock is None
                ==> req.timestamp_token is Some && t == req.timestamp_token->Some_0.timestamp),
            LockState::PasswordLockedSince(t) => req.password_only && (before.imp.clock is None
                ==> req.timestamp_token is Some && t == req.timestamp_token->Some_0.timestamp),
        },
        None => after == before,
    }
    &&& before.imp.clock is Some ==> succeeded(rsp)
    &&& before.imp.clock is None ==> match req.timestamp_token {
        None => failed(rsp, Error::Hal(ErrorCode::InvalidArgument)),
        Some(token) => match before.device_hmac_of(timestamp_token_mac_input_of(token@)) {
            Err(e) => failed(rsp, e),
            Ok(mac) => if token@.mac == mac {
                succeeded(rsp)
            } else {
                failed(rsp, Error::Hal(ErrorCode::InvalidArgument))
            },
        },
    }
}

/// What the trusted application answers to a request of the operation
/// `DeviceEarlyBootEnded`, and what the request does to its state.
#[verifier::opaque]
pub open spec fn answers_device_early_boot_ended<P: Platform>(
    before: KeyMintTa<P>,
    after: KeyMintTa<P>,
    req: EarlyBootEndedRequest,
    rsp: PerformOpResponseView,
) -> bool {
    succeeded(rsp) && after == (KeyMintTa { in_early_boot: false, ..before })
}

/// What the trusted application answers to a request of the operation
/// `DeviceConvertStorageKeyToEphemeral`, and what the request does to its state.
#[verifier::opaque]
pub open spec fn answers_device_convert_storage_key_to_ephemeral<P: Platform>(
    before: KeyMintTa<P>,
    after: KeyMintTa<P>,
    req: ConvertStorageKeyToEphemeralRequest,
    rsp: PerformOpResponseView,
) -> bool {
    &&& after == before
    &&& before.dev.sk_wrapper is None ==> failed(rsp, Error::Hal(ErrorCode::Unimplemented))
    &&& before.dev.sk_wrapper is Some ==> match before.keyblob_parsed_decrypted(
        req.storage_key_blob@,
        Seq::empty(),
    ) {
        Err(e) => failed(rsp, e),
        Ok(_) => true,
    }
}

/// What the trusted application answers to a request of the operation
/// `DeviceGetKeyCharacteristics`, and what the request does to its state.
#[verifier::opaque]
pub open spec fn answers_device_get_key_characteristics<P: Platform>(
    before: KeyMintTa<P>,
    after: KeyMintTa<P>,
    req: GetKeyCharacteristicsRequest,
    rsp: PerformOpResponseView,
) -> bool {
    &&& after == before
    &&& match before.keyblob_parsed_decrypted(
        req.key_blob@,
        application_params(req.app_id@, req.app_data@),
    ) {
        Err(e) => failed(rsp, e),
        Ok((keyblob, _)) => rsp == (PerformOpResponseView {
            error_code: ErrorCode::Success,
            rsp: Some(
                PerformOpRspView::DeviceGetKeyCharacteristics(
                    GetKeyCharacteristicsResponseView { ret: keyblob.characteristics },
                ),
            ),
        }),
    }
}

/// What the trusted application answers to a request of the operation
/// `GetRootOfTrustChallenge`, and what the request does to its state.
#[verifier::opaque]
pub open spec fn answers_get_root_of_trust_challenge<P: Platform>(
    before: KeyMintTa<P>,
    after: KeyMintTa<P>,
    req: GetRootOfTrustChallengeRequest,
    rsp: PerformOpResponseView,
) -> bool {
    if !before.is_strongbox_spec() {
        failed(rsp, Error::Hal(ErrorCode::Unimplemented)) && after == before
    } else {
        rsp == (PerformOpResponseView {
            error_code: ErrorCode::Success,
            rsp: Some(
                PerformOpRspView::GetRootOfTrustChallenge(
                    GetRootOfTrustChallengeResponseView { ret: after.rot_challenge@ },
                ),
            ),
        }) && after == (KeyMintTa {
            imp: CryptoImplementation { rng: after.imp.rng, ..before.imp },
            rot_challenge: after.rot_challenge,
            ..before
        })
    }
}

/// What the trusted application answers to a request of the operation
/// `GetRootOfTrust`, and what the request does to its state.
#[verifier::opaque]
pub open spec fn answers_get_root_of_trust<P: Platform>(
    before: KeyMintTa<P>,
    after: KeyMintTa<P>,
    req: GetRootOfTrustRequest,
    rsp: PerformOpResponseView,
) -> bool {
    &&& after == before
    &&& match before.root_of_trust_message(req.challenge@) {
        Err(e) => failed(rsp, e),
        Ok(message) => rsp == (PerformOpResponseView {
            error_code: ErrorCode::Success,
            rsp: Some(
                PerformOpRspView::GetRootOfTrust(GetRootOfTrustResponseView { ret: message }),
            ),
        }),
    }
}

/// What the trusted application answers to a request of the operation
/// `SendRootOfTrust`, and what the request does to its state.
#[verifier::opaque]
pub open spec fn answers_send_root_of_trust<P: Platform>(
    before: KeyMintTa<P>,
    after: KeyMintTa<P>,
    req: SendRootOfTrustRequest,
    rsp: PerformOpResponseView,
) -> bool {
    match before.root_of_trust_received(req.root_of_trust@) {
        Err(e) => failed(rsp, e) && after == before,
        Ok(info) => succeeded(rsp) && match before.boot_info {
            Some(_) => after == before,
            None => after.boot_info is Some && after.boot_info->Some_0@ == info && after
                == (KeyMintTa { boot_info: after.boot_info, ..before }),
        },
    }
}

/// What the trusted application answers to a request of the operation
/// `OperationUpdateAad`, and what the request does to its state.
#[verifier::opaque]
pub open spec fn answers_operation_update_aad<P: Platform>(
    before: KeyMintTa<P>,
    after: KeyMintTa<P>,
    req: UpdateAadRequest,
    rsp: PerformOpResponseView,
) -> bool {
    &&& after == (KeyMintTa { operations: after.operations, ..before })
    &&& match index_of_handle(before.operations@, OpHandle(req.op_handle), 0) {
        None => failed(rsp, Error::Hal(ErrorCode::InvalidOperationHandle)) && after == before,
        Some(i) => {
            let op = before.operations@[i]->Some_0@;
            if op.key_material is Aes && op.data.len() == 0 {
                succeeded(rsp) && table_with(
                    before.operations@,
                    after.operations@,
                    i,
                    Some(OperationView { aad: op.aad + req.input@, ..op }),
                )
            } else {
                failed(rsp, Error::Hal(ErrorCode::InvalidTag)) && after == before
            }
        },
    }
}

/// What the trusted application answers to a request of the operation
/// `OperationUpdate`, and what the request does to its state.
#[verifier::opaque]
pub open spec fn answers_operation_update<P: Platform>(
    before: KeyMintTa<P>,
    after: KeyMintTa<P>,
    req: UpdateRequest,
    rsp: PerformOpResponseView,
) -> bool {
    &&& after == (KeyMintTa { operations: after.operations, ..before })
    &&& match index_of_handle(before.operations@, OpHandle(req.op_handle), 0) {
        None => failed(rsp, Error::Hal(ErrorCode::InvalidOperationHandle)) && after == before,
        Some(i) => {
            let op = before.operations@[i]->Some_0@;
            &&& rsp.error_code == ErrorCode::Success
            &&& rsp.rsp matches Some(PerformOpRspView::OperationUpdate(r)) && r.ret.len() == 0
            &&& table_with(
                before.operations@,
                after.operations@,
                i,
                Some(OperationView { data: op.data + req.input@, ..op }),
            )
        },
    }
}

/// What the trusted application answers to a request of the operation
/// `OperationFinish`, and what the request does to its state.
#[verifier::opaque]
pub open spec fn answers_operation_finish<P: Platform>(
    before: KeyMintTa<P>,
    after: KeyMintTa<P>,
    req: FinishRequest,
    rsp: PerformOpResponseView,
) -> bool {
    &&& after == (KeyMintTa {
        operations: after.operations,
        presence_required_op: after.presence_required_op,
        ..before
    })
    &&& match index_of_handle(before.operations@, OpHandle(req.op_handle), 0) {
        None => failed(rsp, Error::Hal(ErrorCode::InvalidOperationHandle)) && after == before,
        Some(i) => {
            let op = before.operations@[i]->Some_0;
            &&& match finished(
                before.imp.aes,
                before.imp.hmac,
                op@,
                option_view(req.input),
                option_view(req.signature),
            ) {
                Err(e) => failed(rsp, e),
                Ok(output) => rsp == (PerformOpResponseView {
                    error_code: ErrorCode::Success,
                    rsp: Some(
                        PerformOpRspView::OperationFinish(FinishResponseView { ret: output }),
                    ),
                }),
            }
            &&& table_with(before.operations@, after.operations@, i, None)
            &&& after.presence_required_op == if op.presence_required {
                None
            } else {
                before.presence_required_op
            }
        },
    }
}

/// What the trusted application answers to a request of the operation
/// `OperationAbort`, and what the request does to its state.
#[verifier::opaque]
pub open spec fn answers_operation_abort<P: Platform>(
    before: KeyMintTa<P>,
    after: KeyMintTa<P>,
    req: AbortRequest,
    rsp: PerformOpResponseView,
) -> bool {
    &&& after == (KeyMintTa {
        operations: after.operations,
        presence_required_op: after.presence_required_op,
        ..before
    })
    &&& match index_of_handle(before.operations@, OpHandle(req.op_handle), 0) {
        None => failed(rsp, Error::Hal(ErrorCode::InvalidOperationHandle)) && after == before,
        Some(i) => {
            let op = before.operations@[i]->Some_0;
            &&& succeeded(rsp)
            &&& table_with(before.operations@, after.operations@, i, None)
            &&& after.presence_required_op == if op.presence_required {
                None
            } else {
                before.presence_required_op
            }
        },
    }
}

/// What the trusted application answers to a request of the operation
/// `RpcGetHardwareInfo`, and what the request does to its state.
#[verifier::opaque]
pub open spec fn answers_rpc_get_hardware_info<P: Platform>(
    before: KeyMintTa<P>,
    after: KeyMintTa<P>,
    req: GetRpcHardwareInfoRequest,
    rsp: PerformOpResponseView,
) -> bool {
    &&& after == before
    &&& rsp.error_code == ErrorCode::Success
    &&& rsp.rsp matches Some(PerformOpRspView::RpcGetHardwareInfo(r)) && match before.rpc_info {
        RpcInfo::V2(v2) => r.ret.version_number == 2 && r.ret.rpc_author_name == v2.author_name@
            && r.ret.supported_eek_curve == v2.supported_eek_curve && r.ret.unique_id == Some(
            v2.unique_id@,
        ) && r.ret.supported_num_keys_in_csr == MINIMUM_SUPPORTED_KEYS_IN_CSR,
        RpcInfo::V3(v3) => r.ret.version_number == 3 && r.ret.rpc_author_name == v3.author_name@
            && r.ret.supported_eek_curve == EekCurve::NoCurve && r.ret.unique_id == Some(
            v3.unique_id@,
        ) && r.ret.supported_num_keys_in_csr == v3.supported_num_of_keys_in_csr,
    }
}

/// What the trusted application answers to a request of the operation
/// `RpcGenerateEcdsaP256KeyPair`, and what the request does to its state.
#[verifier::opaque]
pub open spec fn answers_rpc_generate_ecdsa_p256_key_pair<P: Platform>(
    before: KeyMintTa<P>,
    after: KeyMintTa<P>,
    req: GenerateEcdsaP256KeyPairRequest,
    rsp: PerformOpResponseView,
) -> bool {
    failed(rsp, Error::Hal(ErrorCode::Unimplemented)) && after == before
}

/// What the trusted application answers to a request of the operation
/// `RpcGenerateCertificateRequest`, and what the request does to its state.
#[verifier::opaque]
pub open spec fn answers_rpc_generate_certificate_request<P: Platform>(
    before: KeyMintTa<P>,
    after: KeyMintTa<P>,
    req: GenerateCertificateRequestRequest,
    rsp: PerformOpResponseView,
) -> bool {
    &&& after == (KeyMintTa { attestation_id_info: after.attestation_id_info, ..before })
    &&& before.attestation_id_info is Some ==> after == before
    &&& failed(
        rsp,
        match after.device_info_bytes() {
            Err(e) => e,
            Ok(_) => Error::Hal(ErrorCode::Unimplemented),
        },
    )
}

/// What the trusted application answers to a request of the operation
/// `RpcGenerateCertificateV2Request`, and what the request does to its state.
#[verifier::opaque]
pub open spec fn answers_rpc_generate_certificate_v2_request<P: Platform>(
    before: KeyMintTa<P>,
    after: KeyMintTa<P>,
    req: GenerateCertificateRequestV2Request,
    rsp: PerformOpResponseView,
) -> bool {
    failed(rsp, Error::Hal(ErrorCode::Unimplemented)) && after == before
}

/// What the trusted application answers to a request, and what the request
/// does to its state: what the operation of the request says.
pub open spec fn dispatched<P: Platform>(
    before: KeyMintTa<P>,
    after: KeyMintTa<P>,
    req: PerformOpReq,
    rsp: PerformOpResponseView,
) -> bool {
    match req {
        PerformOpReq::SetBootInfo(r) => answers_set_boot_info(before, after, r, rsp),
        PerformOpReq::SetHalInfo(r) => answers_set_hal_info(before, after, r, rsp),
        PerformOpReq::SetAttestationIds(r) => answers_set_attestation_ids(before, after, r, rsp),
        PerformOpReq::SharedSecretGetSharedSecretParameters(r) =>
            answers_shared_secret_get_shared_secret_parameters(before, after, r, rsp),
        PerformOpReq::SharedSecretComputeSharedSecret(r) =>
            answers_shared_secret_compute_shared_secret(before, after, r, rsp),
        PerformOpReq::SecureClockGenerateTimeStamp(r) => answers_secure_clock_generate_time_stamp(
            before,
            after,
            r,
            rsp,
        ),
        PerformOpReq::DeviceGetHardwareInfo(r) => answers_device_get_hardware_info(
            before,
            after,
            r,
            rsp,
        ),
        PerformOpReq::DeviceAddRngEntropy(r) => answers_device_add_rng_entropy(
            before,
            after,
            r,
            rsp,
        ),
        PerformOpReq::DeviceGenerateKey(r) => answers_device_generate_key(before, after, r, rsp),
        PerformOpReq::DeviceImportKey(r) => answers_device_import_key(before, after, r, rsp),
        PerformOpReq::DeviceImportWrappedKey(r) => answers_device_import_wrapped_key(
            before,
            after,
            r,
            rsp,
        ),
        PerformOpReq::DeviceUpgradeKey(r) => answers_device_upgrade_key(before, after, r, rsp),
        PerformOpReq::DeviceDeleteKey(r) => answers_device_delete_key(before, after, r, rsp),
        PerformOpReq::DeviceDeleteAllKeys(r) => answers_device_delete_all_keys(
            before,
            after,
            r,
            rsp,
        ),
        PerformOpReq::DeviceDestroyAttestationIds(r) => answers_device_destroy_attestation_ids(
            before,
            after,
            r,
            rsp,
        ),
        PerformOpReq::DeviceBegin(r) => answers_device_begin(before, after, r, rsp),
        PerformOpReq::DeviceDeviceLocked(r) => answers_device_device_locked(before, after, r, rsp),
        PerformOpReq::DeviceEarlyBootEnded(r) => answers_device_early_boot_ended(
            before,
            after,
            r,
            rsp,
        ),
        PerformOpReq::DeviceConvertStorageKeyToEphemeral(r) =>
            answers_device_convert_storage_key_to_ephemeral(before, after, r, rsp),
        PerformOpReq::DeviceGetKeyCharacteristics(r) => answers_device_get_key_characteristics(
            before,
            after,
            r,
            rsp,
        ),
        PerformOpReq::GetRootOfTrustChallenge(r) => answers_get_root_of_trust_challenge(
            before,
            after,
            r,
            rsp,
        ),
        PerformOpReq::GetRootOfTrust(r) => answers_get_root_of_trust(before, after, r, rsp),
        PerformOpReq::SendRootOfTrust(r) => answers_send_root_of_trust(before, after, r, rsp),
        PerformOpReq::OperationUpdateAad(r) => answers_operation_update_aad(before, after, r, rsp),
        PerformOpReq::OperationUpdate(r) => answers_operation_update(before, after, r, rsp),
        PerformOpReq::OperationFinish(r) => answers_operation_finish(before, after, r, rsp),
        PerformOpReq::OperationAbort(r) => answers_operation_abort(before, after, r, rsp),
        PerformOpReq::RpcGetHardwareInfo(r) => answers_rpc_get_hardware_info(before, after, r, rsp),
        PerformOpReq::RpcGenerateEcdsaP256KeyPair(r) => answers_rpc_generate_ecdsa_p256_key_pair(
            before,
            after,
            r,
            rsp,
        ),
        PerformOpReq::RpcGenerateCertificateRequest(r) => answers_rpc_generate_certificate_request(
            before,
            after,
            r,
            rsp,
        ),
        PerformOpReq::RpcGenerateCertificateV2Request(r) =>
            answers_rpc_generate_certificate_v2_request(before, after, r, rsp),
    }
}

impl<P: Platform> KeyMintTa<P> {
    /// Latches the boot information of a request whose verified boot state is
    /// one of the four states.
    fn respond_set_boot_info(&mut self, req: SetBootInfoRequest) -> (rsp: PerformOpResponse)
        requires
            old(self).wf(),
        ensures
            final(self).wf(),
            keeps_latches(*old(self), *final(self)),
            mirrors(KeyMintOperation::SetBootInfo, rsp@),
            answers_set_boot_info(*old(self), *final(self), req, rsp@),
            dispatched(*old(self), *final(self), PerformOpReq::SetBootInfo(req), rsp@),
    {
        proof {
            reveal(answers_set_boot_info);
        }
        let verified_boot_state = match VerifiedBootState::from_i32(req.verified_boot_state) {
            Some(state) => state,
            None => {
                return op_error_rsp(
                    KeyMintOperation::SetBootInfo,
                    Error::Cbor(CborError::NonEnumValue),
                );
            },
        };
        self.set_boot_info(
            BootInfo {
                verified_boot_key: req.verified_boot_key,
                device_boot_locked: req.device_boot_locked,
                verified_boot_state,
                verified_boot_hash: req.verified_boot_hash,
                boot_patchlevel: req.boot_patchlevel,
            },
        );
        PerformOpResponse {
            error_code: ErrorCode::Success,
            rsp: Some(PerformOpRsp::SetBootInfo(SetBootInfoResponse {})),
        }
    }

    /// Latches the HAL information of a request.
    fn respond_set_hal_info(&mut self, req: SetHalInfoRequest) -> (rsp: PerformOpResponse)
        requires
            old(self).wf(),
        ensures
            final(self).wf(),
            keeps_latches(*old(self), *final(self)),
            mirrors(KeyMintOperation::SetHalInfo, rsp@),
            answers_set_hal_info(*old(self), *final(self), req, rsp@),
            dispatched(*old(self), *final(self), PerformOpReq::SetHalInfo(req), rsp@),
    {
        proof {
            reveal(answers_set_hal_info);
        }
        self.set_hal_info(
            HalInfo {
                os_version: req.os_version,
                os_patchlevel: req.os_patchlevel,
                vendor_patchlevel: req.vendor_patchlevel,
            },
        );
        PerformOpResponse {
            error_code: ErrorCode::Success,
            rsp: Some(PerformOpRsp::SetHalInfo(SetHalInfoResponse {})),
        }
    }

    /// Latches the identifiers of a request.
    fn respond_set_attestation_ids(&mut self, req: SetAttestationIdsRequest) -> (rsp: PerformOpResponse)
        requires
            old(self).wf(),
        ensures
            final(self).wf(),
            keeps_latches(*old(self), *final(self)),
            mirrors(KeyMintOperation::SetAttestationIds, rsp@),
            answers_set_attestation_ids(*old(self), *final(self), req, rsp@),
            dispatched(*old(self), *final(self), PerformOpReq::SetAttestationIds(req), rsp@),
    {
        proof {
            reveal(answers_set_attestation_ids);
        }
        self.set_attestation_ids(req.ids);
        PerformOpResponse {
            error_code: ErrorCode::Success,
            rsp: Some(PerformOpRsp::SetAttestationIds(SetAttestationIdsResponse {})),
        }
    }

    /// Hands out the parameters of this device for the agreement on a shared secret.
    fn respond_shared_secret_get_shared_secret_parameters(&mut self, req: GetSharedSecretParametersRequest) -> (rsp: PerformOpResponse)
        requires
            old(self).wf(),
        ensures
            final(self).wf(),
            keeps_latches(*old(self), *final(self)),
            mirrors(KeyMintOperation::SharedSecretGetSharedSecretParameters, rsp@),
            answers_shared_secret_get_shared_secret_parameters(*old(self), *final(self), req, rsp@),
            dispatched(
                *old(self),
                *final(self),
                PerformOpReq::SharedSecretGetSharedSecretParameters(req),
                rsp@,
            ),
    {
        proof {
            reveal(answers_shared_secret_get_shared_secret_parameters);
        }
        match self.get_shared_secret_params() {
            Ok(ret) => PerformOpResponse {
                error_code: ErrorCode::Success,
                rsp: Some(
                    PerformOpRsp::SharedSecretGetSharedSecretParameters(
                        GetSharedSecretParametersResponse { ret },
                    ),
                ),
            },
            Err(e) => op_error_rsp(KeyMintOperation::SharedSecretGetSharedSecretParameters, e),
        }
    }

    /// Agrees on the shared HMAC key.
    fn respond_shared_secret_compute_shared_secret(&mut self, req: ComputeSharedSecretRequest) -> (rsp: PerformOpResponse)
        requires
            old(self).wf(),
        ensures
            final(self).wf(),
            keeps_latches(*old(self), *final(self)),
            mirrors(KeyMintOperation::SharedSecretComputeSharedSecret, rsp@),
            answers_shared_secret_compute_shared_secret(*old(self), *final(self), req, rsp@),
            dispatched(
                *old(self),
                *final(self),
                PerformOpReq::SharedSecretComputeSharedSecret(req),
                rsp@,
            ),
    {
        proof {
            reveal(answers_shared_secret_compute_shared_secret);
        }
        match self.compute_shared_secret(req.params.as_slice()) {
            Ok(ret) => PerformOpResponse {
                error_code: ErrorCode::Success,
                rsp: Some(
                    PerformOpRsp::SharedSecretComputeSharedSecret(
                        ComputeSharedSecretResponse { ret },
                    ),
                ),
            },
            Err(e) => op_error_rsp(KeyMintOperation::SharedSecretComputeSharedSecret, e),
        }
    }

    /// Issues a time stamp token.
    fn respond_secure_clock_generate_time_stamp(&mut self, req: GenerateTimeStampRequest) -> (rsp: PerformOpResponse)
        requires
            old(self).wf(),
        ensures
            final(self).wf(),
            keeps_latches(*old(self), *final(self)),
            mirrors(KeyMintOperation::SecureClockGenerateTimeStamp, rsp@),
            answers_secure_clock_generate_time_stamp(*old(self), *final(self), req, rsp@),
            dispatched(
                *old(self),
                *final(self),
                PerformOpReq::SecureClockGenerateTimeStamp(req),
                rsp@,
            ),
    {
        proof {
            reveal(answers_secure_clock_generate_time_stamp);
        }
        match self.generate_timestamp(req.challenge) {
            Ok(ret) => PerformOpResponse {
                error_code: ErrorCode::Success,
                rsp: Some(
                    PerformOpRsp::SecureClockGenerateTimeStamp(GenerateTimeStampResponse { ret }),
                ),
            },
            Err(e) => op_error_rsp(KeyMintOperation::SecureClockGenerateTimeStamp, e),
        }
    }

    /// Describes this implementation.
    fn respond_device_get_hardware_info(&mut self, req: GetHardwareInfoRequest) -> (rsp: PerformOpResponse)
        requires
            old(self).wf(),
        ensures
            final(self).wf(),
            keeps_latches(*old(self), *final(self)),
            mirrors(KeyMintOperation::DeviceGetHardwareInfo, rsp@),
            answers_device_get_hardware_info(*old(self), *final(self), req, rsp@),
            dispatched(*old(self), *final(self), PerformOpReq::DeviceGetHardwareInfo(req), rsp@),
    {
        proof {
            reveal(answers_device_get_hardware_info);
        }
        match self.get_hardware_info() {
            Ok(ret) => PerformOpResponse {
                error_code: ErrorCode::Success,
                rsp: Some(PerformOpRsp::DeviceGetHardwareInfo(GetHardwareInfoResponse { ret })),
            },
            Err(e) => op_error_rsp(KeyMintOperation::DeviceGetHardwareInfo, e),
        }
    }

    /// Adds entropy to the random number generator.
    fn respond_device_add_rng_entropy(&mut self, req: AddRngEntropyRequest) -> (rsp: PerformOpResponse)
        requires
            old(self).wf(),
        ensures
            final(self).wf(),
            keeps_latches(*old(self), *final(self)),
            mirrors(KeyMintOperation::DeviceAddRngEntropy, rsp@),
            answers_device_add_rng_entropy(*old(self), *final(self), req, rsp@),
            dispatched(*old(self), *final(self), PerformOpReq::DeviceAddRngEntropy(req), rsp@),
    {
        proof {
            reveal(answers_device_add_rng_entropy);
        }
        match self.add_rng_entropy(req.data.as_slice()) {
            Ok(_) => PerformOpResponse {
                error_code: ErrorCode::Success,
                rsp: Some(PerformOpRsp::DeviceAddRngEntropy(AddRngEntropyResponse {})),
            },
            Err(e) => op_error_rsp(KeyMintOperation::DeviceAddRngEntropy, e),
        }
    }

    /// Generates a key.
    fn respond_device_generate_key(&mut self, req: GenerateKeyRequest) -> (rsp: PerformOpResponse)
        requires
            old(self).wf(),
        ensures
            final(self).wf(),
            keeps_latches(*old(self), *final(self)),
            mirrors(KeyMintOperation::DeviceGenerateKey, rsp@),
            answers_device_generate_key(*old(self), *final(self), req, rsp@),
            dispatched(*old(self), *final(self), PerformOpReq::DeviceGenerateKey(req), rsp@),
    {
        proof {
            reveal(answers_device_generate_key);
        }
        match self.generate_key(req.key_params.as_slice(), req.attestation_key) {
            Ok(ret) => PerformOpResponse {
                error_code: ErrorCode::Success,
                rsp: Some(PerformOpRsp::DeviceGenerateKey(GenerateKeyResponse { ret })),
            },
            Err(e) => {
                let rsp = op_error_rsp(KeyMintOperation::DeviceGenerateKey, e);
                proof {
                    let characteristics = created_characteristics(
                        old(self).hw_info.security_level,
                        views(req.key_params@),
                        KeyOrigin::Generated,
                        old(self).hal_info,
                        old(self).boot_info,
                    );
                    let context = old(self).sealing_context(
                        views(req.key_params@),
                        characteristics,
                    );
                    let wanted = generated_key_len(views(req.key_params@));
                    if wanted is Ok && context is Ok {
                        let key_material = choose|key_material: crate::crypto::KeyMaterialView|
                            {
                                &&& key_material.algorithm() == wanted->Ok_0.0
                                &&& key_material.key_len() == wanted->Ok_0.1
                                &&& #[trigger] fails_to_seal(
                                    old(self).dev.sdd_mgr,
                                    self.dev.sdd_mgr,
                                    old(self).imp.aes,
                                    old(self).imp.hmac,
                                    context->Ok_0.0,
                                    PlaintextKeyBlobView { characteristics, key_material },
                                    context->Ok_0.1,
                                    e,
                                )
                            };
                        assert(reports_sealing_failure(
                            *old(self),
                            *self,
                            context->Ok_0.0,
                            PlaintextKeyBlobView { characteristics, key_material },
                            context->Ok_0.1,
                            rsp@,
                        ));
                    }
                }
                rsp
            },
        }
    }

    /// Imports a key.
    fn respond_device_import_key(&mut self, req: ImportKeyRequest) -> (rsp: PerformOpResponse)
        requires
            old(self).wf(),
        ensures
            final(self).wf(),
            keeps_latches(*old(self), *final(self)),
            mirrors(KeyMintOperation::DeviceImportKey, rsp@),
            answers_device_import_key(*old(self), *final(self), req, rsp@),
            dispatched(*old(self), *final(self), PerformOpReq::DeviceImportKey(req), rsp@),
    {
        proof {
            reveal(answers_device_import_key);
        }
        match self.import_key(
            req.key_params.as_slice(),
            req.key_format,
            req.key_data.as_slice(),
            req.attestation_key,
        ) {
            Ok(ret) => PerformOpResponse {
                error_code: ErrorCode::Success,
                rsp: Some(PerformOpRsp::DeviceImportKey(ImportKeyResponse { ret })),
            },
            Err(e) => op_error_rsp(KeyMintOperation::DeviceImportKey, e),
        }
    }

    /// Refuses the import of a wrapped key.
    fn respond_device_import_wrapped_key(&mut self, req: ImportWrappedKeyRequest) -> (rsp: PerformOpResponse)
        requires
            old(self).wf(),
        ensures
            final(self).wf(),
            keeps_latches(*old(self), *final(self)),
            mirrors(KeyMintOperation::DeviceImportWrappedKey, rsp@),
            answers_device_import_wrapped_key(*old(self), *final(self), req, rsp@),
            dispatched(*old(self), *final(self), PerformOpReq::DeviceImportWrappedKey(req), rsp@),
    {
        proof {
            reveal(answers_device_import_wrapped_key);
        }
        match self.import_wrapped_key(
            req.wrapped_key_data.as_slice(),
            req.wrapping_key_blob.as_slice(),
            req.masking_key.as_slice(),
            req.unwrapping_params.as_slice(),
            req.password_sid,
            req.biometric_sid,
        ) {
            Ok(ret) => PerformOpResponse {
                error_code: ErrorCode::Success,
                rsp: Some(PerformOpRsp::DeviceImportWrappedKey(ImportWrappedKeyResponse { ret })),
            },
            Err(e) => op_error_rsp(KeyMintOperation::DeviceImportWrappedKey, e),
        }
    }

    /// Upgrades a keyblob.
    fn respond_device_upgrade_key(&mut self, req: UpgradeKeyRequest) -> (rsp: PerformOpResponse)
        requires
            old(self).wf(),
        ensures
            final(self).wf(),
            keeps_latches(*old(self), *final(self)),
            mirrors(KeyMintOperation::DeviceUpgradeKey, rsp@),
            answers_device_upgrade_key(*old(self), *final(self), req, rsp@),
            dispatched(*old(self), *final(self), PerformOpReq::DeviceUpgradeKey(req), rsp@),
    {
        proof {
            reveal(answers_device_upgrade_key);
        }
        match self.upgrade_key(req.key_blob_to_upgrade.as_slice(), req.upgrade_params) {
            Ok(ret) => PerformOpResponse {
                error_code: ErrorCode::Success,
                rsp: Some(PerformOpRsp::DeviceUpgradeKey(UpgradeKeyResponse { ret })),
            },
            Err(e) => op_error_rsp(KeyMintOperation::DeviceUpgradeKey, e),
        }
    }

    /// Deletes a key.
    fn respond_device_delete_key(&mut self, req: DeleteKeyRequest) -> (rsp: PerformOpResponse)
        requires
            old(self).wf(),
        ensures
            final(self).wf(),
            keeps_latches(*old(self), *final(self)),
            mirrors(KeyMintOperation::DeviceDeleteKey, rsp@),
            answers_device_delete_key(*old(self), *final(self), req, rsp@),
            dispatched(*old(self), *final(self), PerformOpReq::DeviceDeleteKey(req), rsp@),
    {
        proof {
            reveal(answers_device_delete_key);
        }
        match self.delete_key(req.key_blob.as_slice()) {
            Ok(_) => PerformOpResponse {
                error_code: ErrorCode::Success,
                rsp: Some(PerformOpRsp::DeviceDeleteKey(DeleteKeyResponse {})),
            },
            Err(e) => op_error_rsp(KeyMintOperation::DeviceDeleteKey, e),
        }
    }

    /// Deletes all keys that need secure storage.
    fn respond_device_delete_all_keys(&mut self, req: DeleteAllKeysRequest) -> (rsp: PerformOpResponse)
        requires
            old(self).wf(),
        ensures
            final(self).wf(),
            keeps_latches(*old(self), *final(self)),
            mirrors(KeyMintOperation::DeviceDeleteAllKeys, rsp@),
            answers_device_delete_all_keys(*old(self), *final(self), req, rsp@),
            dispatched(*old(self), *final(self), PerformOpReq::DeviceDeleteAllKeys(req), rsp@),
    {
        proof {
            reveal(answers_device_delete_all_keys);
        }
        match self.delete_all_keys() {
            Ok(_) => PerformOpResponse {
                error_code: ErrorCode::Success,
                rsp: Some(PerformOpRsp::DeviceDeleteAllKeys(DeleteAllKeysResponse {})),
            },
            Err(e) => op_error_rsp(KeyMintOperation::DeviceDeleteAllKeys, e),
        }
    }

    /// Destroys the identifiers of the device.
    fn respond_device_destroy_attestation_ids(&mut self, req: DestroyAttestationIdsRequest) -> (rsp: PerformOpResponse)
        requires
            old(self).wf(),
        ensures
            final(self).wf(),
            keeps_latches(*old(self), *final(self)),
            mirrors(KeyMintOperation::DeviceDestroyAttestationIds, rsp@),
            answers_device_destroy_attestation_ids(*old(self), *final(self), req, rsp@),
            dispatched(
                *old(self),
                *final(self),
                PerformOpReq::DeviceDestroyAttestationIds(req),
                rsp@,
            ),
    {
        proof {
            reveal(answers_device_destroy_attestation_ids);
        }
        match self.destroy_attestation_ids() {
            Ok(_) => PerformOpResponse {
                error_code: ErrorCode::Success,
                rsp: Some(
                    PerformOpRsp::DeviceDestroyAttestationIds(DestroyAttestationIdsResponse {}),
                ),
            },
            Err(e) => op_error_rsp(KeyMintOperation::DeviceDestroyAttestationIds, e),
        }
    }

    /// Begins an operation.
    fn respond_device_begin(&mut self, req: BeginRequest) -> (rsp: PerformOpResponse)
        requires
            old(self).wf(),
        ensures
            final(self).wf(),
            keeps_latches(*old(self), *final(self)),
            mirrors(KeyMintOperation::DeviceBegin, rsp@),
            answers_device_begin(*old(self), *final(self), req, rsp@),
            dispatched(*old(self), *final(self), PerformOpReq::DeviceBegin(req), rsp@),
    {
        proof {
            reveal(answers_device_begin);
        }
        let ghost plan = self.begin_plan(req.purpose, req.key_blob@, views(req.params@));
        let ghost key_blob = req.key_blob@;
        match self.begin_operation(
            req.purpose,
            req.key_blob.as_slice(),
            req.params,
            req.auth_token,
        ) {
            Ok(ret) => PerformOpResponse {
                error_code: ErrorCode::Success,
                rsp: Some(PerformOpRsp::DeviceBegin(BeginResponse { ret })),
            },
            Err(e) => {
                proof {
                    if plan is Ok {
                        assert(plan == old(self).begin_plan(
                            req.purpose,
                            key_blob,
                            views(req.params@),
                        ));
                        assert(self.operations == old(self).operations);
                        let limit = plan->Ok_0.use_limit;
                        let counted_with_error = use_counted(
                            old(self).imp.hmac,
                            key_blob,
                            limit,
                            old(self).use_count@,
                            self.use_count@,
                            Some(e),
                        );
                        let counted = use_counted(
                            old(self).imp.hmac,
                            key_blob,
                            limit,
                            old(self).use_count@,
                            self.use_count@,
                            None,
                        );
                        assert(limit is None ==> counted);
                        assert(limit is Some && key_id_of(old(self).imp.hmac, key_blob) is Err
                            ==> counted_with_error);
                        assert(limit is Some && key_id_of(old(self).imp.hmac, key_blob) is Ok
                            ==> counted_with_error || counted);
                        assert(counted_with_error || counted);
                    }
                }
                op_error_rsp(KeyMintOperation::DeviceBegin, e)
            },
        }
    }

    /// Records that the device has been locked.
    fn respond_device_device_locked(&mut self, req: DeviceLockedRequest) -> (rsp: PerformOpResponse)
        requires
            old(self).wf(),
        ensures
            final(self).wf(),
            keeps_latches(*old(self), *final(self)),
            mirrors(KeyMintOperation::DeviceDeviceLocked, rsp@),
            answers_device_device_locked(*old(self), *final(self), req, rsp@),
            dispatched(*old(self), *final(self), PerformOpReq::DeviceDeviceLocked(req), rsp@),
    {
        proof {
            reveal(answers_device_device_locked);
        }
        match self.device_locked(req.password_only, req.timestamp_token) {
            Ok(_) => PerformOpResponse {
                error_code: ErrorCode::Success,
                rsp: Some(PerformOpRsp::DeviceDeviceLocked(DeviceLockedResponse {})),
            },
            Err(e) => op_error_rsp(KeyMintOperation::DeviceDeviceLocked, e),
        }
    }

    /// Records that early boot is over.
    fn respond_device_early_boot_ended(&mut self, req: EarlyBootEndedRequest) -> (rsp: PerformOpResponse)
        requires
            old(self).wf(),
        ensures
            final(self).wf(),
            keeps_latches(*old(self), *final(self)),
            mirrors(KeyMintOperation::DeviceEarlyBootEnded, rsp@),
            answers_device_early_boot_ended(*old(self), *final(self), req, rsp@),
            dispatched(*old(self), *final(self), PerformOpReq::DeviceEarlyBootEnded(req), rsp@),
    {
        proof {
            reveal(answers_device_early_boot_ended);
        }
        match self.early_boot_ended() {
            Ok(_) => PerformOpResponse {
                error_code: ErrorCode::Success,
                rsp: Some(PerformOpRsp::DeviceEarlyBootEnded(EarlyBootEndedResponse {})),
            },
            Err(e) => op_error_rsp(KeyMintOperation::DeviceEarlyBootEnded, e),
        }
    }

    /// Wraps a storage key for use until the next boot.
    fn respond_device_convert_storage_key_to_ephemeral(&mut self, req: ConvertStorageKeyToEphemeralRequest) -> (rsp: PerformOpResponse)
        requires
            old(self).wf(),
        ensures
            final(self).wf(),
            keeps_latches(*old(self), *final(self)),
            mirrors(KeyMintOperation::DeviceConvertStorageKeyToEphemeral, rsp@),
            answers_device_convert_storage_key_to_ephemeral(*old(self), *final(self), req, rsp@),
            dispatched(
                *old(self),
                *final(self),
                PerformOpReq::DeviceConvertStorageKeyToEphemeral(req),
                rsp@,
            ),
    {
        proof {
            reveal(answers_device_convert_storage_key_to_ephemeral);
        }
        match self.convert_storage_key_to_ephemeral(req.storage_key_blob.as_slice()) {
            Ok(ret) => PerformOpResponse {
                error_code: ErrorCode::Success,
                rsp: Some(
                    PerformOpRsp::DeviceConvertStorageKeyToEphemeral(
                        ConvertStorageKeyToEphemeralResponse { ret },
                    ),
                ),
            },
            Err(e) => op_error_rsp(KeyMintOperation::DeviceConvertStorageKeyToEphemeral, e),
        }
    }

    /// Returns the characteristics of the key in a keyblob.
    fn respond_device_get_key_characteristics(&mut self, req: GetKeyCharacteristicsRequest) -> (rsp: PerformOpResponse)
        requires
            old(self).wf(),
        ensures
            final(self).wf(),
            keeps_latches(*old(self), *final(self)),
            mirrors(KeyMintOperation::DeviceGetKeyCharacteristics, rsp@),
            answers_device_get_key_characteristics(*old(self), *final(self), req, rsp@),
            dispatched(
                *old(self),
                *final(self),
                PerformOpReq::DeviceGetKeyCharacteristics(req),
                rsp@,
            ),
    {
        proof {
            reveal(answers_device_get_key_characteristics);
        }
        match self.get_key_characteristics(req.key_blob.as_slice(), req.app_id, req.app_data) {
            Ok(ret) => PerformOpResponse {
                error_code: ErrorCode::Success,
                rsp: Some(
                    PerformOpRsp::DeviceGetKeyCharacteristics(
                        GetKeyCharacteristicsResponse { ret },
                    ),
                ),
            },
            Err(e) => op_error_rsp(KeyMintOperation::DeviceGetKeyCharacteristics, e),
        }
    }

    /// Draws a challenge for the transfer of the root of trust.
    fn respond_get_root_of_trust_challenge(&mut self, req: GetRootOfTrustChallengeRequest) -> (rsp: PerformOpResponse)
        requires
            old(self).wf(),
        ensures
            final(self).wf(),
            keeps_latches(*old(self), *final(self)),
            mirrors(KeyMintOperation::GetRootOfTrustChallenge, rsp@),
            answers_get_root_of_trust_challenge(*old(self), *final(self), req, rsp@),
            dispatched(*old(self), *final(self), PerformOpReq::GetRootOfTrustChallenge(req), rsp@),
    {
        proof {
            reveal(answers_get_root_of_trust_challenge);
        }
        match self.get_root_of_trust_challenge() {
            Ok(ret) => PerformOpResponse {
                error_code: ErrorCode::Success,
                rsp: Some(
                    PerformOpRsp::GetRootOfTrustChallenge(GetRootOfTrustChallengeResponse { ret }),
                ),
            },
            Err(e) => op_error_rsp(KeyMintOperation::GetRootOfTrustChallenge, e),
        }
    }

    /// Hands out the root of trust.
    fn respond_get_root_of_trust(&mut self, req: GetRootOfTrustRequest) -> (rsp: PerformOpResponse)
        requires
            old(self).wf(),
        ensures
            final(self).wf(),
            keeps_latches(*old(self), *final(self)),
            mirrors(KeyMintOperation::GetRootOfTrust, rsp@),
            answers_get_root_of_trust(*old(self), *final(self), req, rsp@),
            dispatched(*old(self), *final(self), PerformOpReq::GetRootOfTrust(req), rsp@),
    {
        proof {
            reveal(answers_get_root_of_trust);
        }
        match self.get_root_of_trust(req.challenge.as_slice()) {
            Ok(ret) => PerformOpResponse {
                error_code: ErrorCode::Success,
                rsp: Some(PerformOpRsp::GetRootOfTrust(GetRootOfTrustResponse { ret })),
            },
            Err(e) => op_error_rsp(KeyMintOperation::GetRootOfTrust, e),
        }
    }

    /// Takes the root of trust.
    fn respond_send_root_of_trust(&mut self, req: SendRootOfTrustRequest) -> (rsp: PerformOpResponse)
        requires
            old(self).wf(),
        ensures
            final(self).wf(),
            keeps_latches(*old(self), *final(self)),
            mirrors(KeyMintOperation::SendRootOfTrust, rsp@),
            answers_send_root_of_trust(*old(self), *final(self), req, rsp@),
            dispatched(*old(self), *final(self), PerformOpReq::SendRootOfTrust(req), rsp@),
    {
        proof {
            reveal(answers_send_root_of_trust);
        }
        match self.send_root_of_trust(req.root_of_trust.as_slice()) {
            Ok(_) => PerformOpResponse {
                error_code: ErrorCode::Success,
                rsp: Some(PerformOpRsp::SendRootOfTrust(SendRootOfTrustResponse {})),
            },
            Err(e) => op_error_rsp(KeyMintOperation::SendRootOfTrust, e),
        }
    }

    /// Gives additional authenticated data to an operation.
    fn respond_operation_update_aad(&mut self, req: UpdateAadRequest) -> (rsp: PerformOpResponse)
        requires
            old(self).wf(),
        ensures
            final(self).wf(),
            keeps_latches(*old(self), *final(self)),
            mirrors(KeyMintOperation::OperationUpdateAad, rsp@),
            answers_operation_update_aad(*old(self), *final(self), req, rsp@),
            dispatched(*old(self), *final(self), PerformOpReq::OperationUpdateAad(req), rsp@),
    {
        proof {
            reveal(answers_operation_update_aad);
        }
        match self.op_update_aad(OpHandle(req.op_handle), req.input.as_slice()) {
            Ok(_) => PerformOpResponse {
                error_code: ErrorCode::Success,
                rsp: Some(PerformOpRsp::OperationUpdateAad(UpdateAadResponse {})),
            },
            Err(e) => op_error_rsp(KeyMintOperation::OperationUpdateAad, e),
        }
    }

    /// Gives input to an operation.
    fn respond_operation_update(&mut self, req: UpdateRequest) -> (rsp: PerformOpResponse)
        requires
            old(self).wf(),
        ensures
            final(self).wf(),
            keeps_latches(*old(self), *final(self)),
            mirrors(KeyMintOperation::OperationUpdate, rsp@),
            answers_operation_update(*old(self), *final(self), req, rsp@),
            dispatched(*old(self), *final(self), PerformOpReq::OperationUpdate(req), rsp@),
    {
        proof {
            reveal(answers_operation_update);
        }
        match self.op_update(OpHandle(req.op_handle), req.input.as_slice()) {
            Ok(ret) => PerformOpResponse {
                error_code: ErrorCode::Success,
                rsp: Some(PerformOpRsp::OperationUpdate(UpdateResponse { ret })),
            },
            Err(e) => op_error_rsp(KeyMintOperation::OperationUpdate, e),
        }
    }

    /// Finishes an operation.
    fn respond_operation_finish(&mut self, req: FinishRequest) -> (rsp: PerformOpResponse)
        requires
            old(self).wf(),
        ensures
            final(self).wf(),
            keeps_latches(*old(self), *final(self)),
            mirrors(KeyMintOperation::OperationFinish, rsp@),
            answers_operation_finish(*old(self), *final(self), req, rsp@),
            dispatched(*old(self), *final(self), PerformOpReq::OperationFinish(req), rsp@),
    {
        proof {
            reveal(answers_operation_finish);
        }
        let FinishRequest { op_handle, input, signature, auth_token: _, timestamp_token: _, confirmation_token: _ } =
            req;
        let input_slice = match &input {
            Some(i) => Some(i.as_slice()),
            None => None,
        };
        let signature_slice = match &signature {
            Some(s) => Some(s.as_slice()),
            None => None,
        };
        match self.op_finish(OpHandle(op_handle), input_slice, signature_slice) {
            Ok(ret) => PerformOpResponse {
                error_code: ErrorCode::Success,
                rsp: Some(PerformOpRsp::OperationFinish(FinishResponse { ret })),
            },
            Err(e) => op_error_rsp(KeyMintOperation::OperationFinish, e),
        }
    }

    /// Aborts an operation.
    fn respond_operation_abort(&mut self, req: AbortRequest) -> (rsp: PerformOpResponse)
        requires
            old(self).wf(),
        ensures
            final(self).wf(),
            keeps_latches(*old(self), *final(self)),
            mirrors(KeyMintOperation::OperationAbort, rsp@),
            answers_operation_abort(*old(self), *final(self), req, rsp@),
            dispatched(*old(self), *final(self), PerformOpReq::OperationAbort(req), rsp@),
    {
        proof {
            reveal(answers_operation_abort);
        }
        match self.op_abort(OpHandle(req.op_handle)) {
            Ok(_) => PerformOpResponse {
                error_code: ErrorCode::Success,
                rsp: Some(PerformOpRsp::OperationAbort(AbortResponse {})),
            },
            Err(e) => op_error_rsp(KeyMintOperation::OperationAbort, e),
        }
    }

    /// Describes the remote provisioning that is supported.
    fn respond_rpc_get_hardware_info(&mut self, req: GetRpcHardwareInfoRequest) -> (rsp: PerformOpResponse)
        requires
            old(self).wf(),
        ensures
            final(self).wf(),
            keeps_latches(*old(self), *final(self)),
            mirrors(KeyMintOperation::RpcGetHardwareInfo, rsp@),
            answers_rpc_get_hardware_info(*old(self), *final(self), req, rsp@),
            dispatched(*old(self), *final(self), PerformOpReq::RpcGetHardwareInfo(req), rsp@),
    {
        proof {
            reveal(answers_rpc_get_hardware_info);
        }
        match self.get_rpc_hardware_info() {
            Ok(ret) => PerformOpResponse {
                error_code: ErrorCode::Success,
                rsp: Some(PerformOpRsp::RpcGetHardwareInfo(GetRpcHardwareInfoResponse { ret })),
            },
            Err(e) => op_error_rsp(KeyMintOperation::RpcGetHardwareInfo, e),
        }
    }

    /// Refuses to generate a key pair for remote provisioning.
    fn respond_rpc_generate_ecdsa_p256_key_pair(&mut self, req: GenerateEcdsaP256KeyPairRequest) -> (rsp: PerformOpResponse)
        requires
            old(self).wf(),
        ensures
            final(self).wf(),
            keeps_latches(*old(self), *final(self)),
            mirrors(KeyMintOperation::RpcGenerateEcdsaP256KeyPair, rsp@),
            answers_rpc_generate_ecdsa_p256_key_pair(*old(self), *final(self), req, rsp@),
            dispatched(
                *old(self),
                *final(self),
                PerformOpReq::RpcGenerateEcdsaP256KeyPair(req),
                rsp@,
            ),
    {
        proof {
            reveal(answers_rpc_generate_ecdsa_p256_key_pair);
        }
        match self.generate_ecdsa_p256_keypair(req.test_mode) {
            Ok((maced_public_key, ret)) => PerformOpResponse {
                error_code: ErrorCode::Success,
                rsp: Some(
                    PerformOpRsp::RpcGenerateEcdsaP256KeyPair(
                        GenerateEcdsaP256KeyPairResponse { maced_public_key, ret },
                    ),
                ),
            },
            Err(e) => op_error_rsp(KeyMintOperation::RpcGenerateEcdsaP256KeyPair, e),
        }
    }

    /// Refuses to build a certificate request, after building the description of the device.
    fn respond_rpc_generate_certificate_request(&mut self, req: GenerateCertificateRequestRequest) -> (rsp: PerformOpResponse)
        requires
            old(self).wf(),
        ensures
            final(self).wf(),
            keeps_latches(*old(self), *final(self)),
            mirrors(KeyMintOperation::RpcGenerateCertificateRequest, rsp@),
            answers_rpc_generate_certificate_request(*old(self), *final(self), req, rsp@),
            dispatched(
                *old(self),
                *final(self),
                PerformOpReq::RpcGenerateCertificateRequest(req),
                rsp@,
            ),
    {
        proof {
            reveal(answers_rpc_generate_certificate_request);
        }
        match self.generate_cert_req(
            req.test_mode,
            req.keys_to_sign,
            req.endpoint_encryption_cert_chain.as_slice(),
            req.challenge.as_slice(),
        ) {
            Ok((device_info, protected_data, ret)) => PerformOpResponse {
                error_code: ErrorCode::Success,
                rsp: Some(
                    PerformOpRsp::RpcGenerateCertificateRequest(
                        GenerateCertificateRequestResponse { device_info, protected_data, ret },
                    ),
                ),
            },
            Err(e) => op_error_rsp(KeyMintOperation::RpcGenerateCertificateRequest, e),
        }
    }

    /// Refuses to build a certificate request of version 2.
    fn respond_rpc_generate_certificate_v2_request(&mut self, req: GenerateCertificateRequestV2Request) -> (rsp: PerformOpResponse)
        requires
            old(self).wf(),
        ensures
            final(self).wf(),
            keeps_latches(*old(self), *final(self)),
            mirrors(KeyMintOperation::RpcGenerateCertificateV2Request, rsp@),
            answers_rpc_generate_certificate_v2_request(*old(self), *final(self), req, rsp@),
            dispatched(
                *old(self),
                *final(self),
                PerformOpReq::RpcGenerateCertificateV2Request(req),
                rsp@,
            ),
    {
        proof {
            reveal(answers_rpc_generate_certificate_v2_request);
        }
        match self.generate_cert_req_v2(req.keys_to_sign, req.challenge.as_slice()) {
            Ok(ret) => PerformOpResponse {
                error_code: ErrorCode::Success,
                rsp: Some(
                    PerformOpRsp::RpcGenerateCertificateV2Request(
                        GenerateCertificateRequestV2Response { ret },
                    ),
                ),
            },
            Err(e) => op_error_rsp(KeyMintOperation::RpcGenerateCertificateV2Request, e),
        }
    }

    /// Processes one request: selects the handler that belongs to the kind
    /// of the request and hands it the fields of the request, and builds the
    /// response from what the handler returns.
    ///
    /// The response mirrors the request: a payload is that of the operation
    /// asked for. What is set once per boot stays set, and the table of
    /// operations stays well-formed. What the request does beyond that is
    /// said by [`dispatched`].
    pub fn process_req(&mut self, req: PerformOpReq) -> (rsp: PerformOpResponse)
        requires
            old(self).wf(),
        ensures
            final(self).wf(),
            keeps_latches(*old(self), *final(self)),
            mirrors(req@.code(), rsp@),
            dispatched(*old(self), *final(self), req, rsp@),
    {
        match req {
            PerformOpReq::SetBootInfo(req) => self.respond_set_boot_info(req),
            PerformOpReq::SetHalInfo(req) => self.respond_set_hal_info(req),
            PerformOpReq::SetAttestationIds(req) => self.respond_set_attestation_ids(req),
            PerformOpReq::SharedSecretGetSharedSecretParameters(req) =>
                self.respond_shared_secret_get_shared_secret_parameters(req),
            PerformOpReq::SharedSecretComputeSharedSecret(req) =>
                self.respond_shared_secret_compute_shared_secret(req),
            PerformOpReq::SecureClockGenerateTimeStamp(req) =>
                self.respond_secure_clock_generate_time_stamp(req),
            PerformOpReq::DeviceGetHardwareInfo(req) => self.respond_device_get_hardware_info(req),
            PerformOpReq::DeviceAddRngEntropy(req) => self.respond_device_add_rng_entropy(req),
            PerformOpReq::DeviceGenerateKey(req) => self.respond_device_generate_key(req),
            PerformOpReq::DeviceImportKey(req) => self.respond_device_import_key(req),
            PerformOpReq::DeviceImportWrappedKey(req) => self.respond_device_import_wrapped_key(
                req,
            ),
            PerformOpReq::DeviceUpgradeKey(req) => self.respond_device_upgrade_key(req),
            PerformOpReq::DeviceDeleteKey(req) => self.respond_device_delete_key(req),
            PerformOpReq::DeviceDeleteAllKeys(req) => self.respond_device_delete_all_keys(req),
            PerformOpReq::DeviceDestroyAttestationIds(req) =>
                self.respond_device_destroy_attestation_ids(req),
            PerformOpReq::DeviceBegin(req) => self.respond_device_begin(req),
            PerformOpReq::DeviceDeviceLocked(req) => self.respond_device_device_locked(req),
            PerformOpReq::DeviceEarlyBootEnded(req) => self.respond_device_early_boot_ended(req),
            PerformOpReq::DeviceConvertStorageKeyToEphemeral(req) =>
                self.respond_device_convert_storage_key_to_ephemeral(req),
            PerformOpReq::DeviceGetKeyCharacteristics(req) =>
                self.respond_device_get_key_characteristics(req),
            PerformOpReq::GetRootOfTrustChallenge(req) => self.respond_get_root_of_trust_challenge(
                req,
            ),
            PerformOpReq::GetRootOfTrust(req) => self.respond_get_root_of_trust(req),
            PerformOpReq::SendRootOfTrust(req) => self.respond_send_root_of_trust(req),
            PerformOpReq::OperationUpdateAad(req) => self.respond_operation_update_aad(req),
            PerformOpReq::OperationUpdate(req) => self.respond_operation_update(req),
            PerformOpReq::OperationFinish(req) => self.respond_operation_finish(req),
            PerformOpReq::OperationAbort(req) => self.respond_operation_abort(req),
            PerformOpReq::RpcGetHardwareInfo(req) => self.respond_rpc_get_hardware_info(req),
            PerformOpReq::RpcGenerateEcdsaP256KeyPair(req) =>
                self.respond_rpc_generate_ecdsa_p256_key_pair(req),
            PerformOpReq::RpcGenerateCertificateRequest(req) =>
                self.respond_rpc_generate_certificate_request(req),
            PerformOpReq::RpcGenerateCertificateV2Request(req) =>
                self.respond_rpc_generate_certificate_v2_request(req),
        }
    }

    /// Processes the bytes of one request and returns the bytes of the
    /// response.
    ///
    /// Bytes that are no request are answered with the bytes of
    /// [`invalid_cbor_rsp`], and nothing changes. A request is answered as
    /// [`dispatched`] says; a response that cannot be encoded is replaced by
    /// the bytes of [`invalid_cbor_rsp`].
    pub fn process(&mut self, req_data: &[u8]) -> (r: Vec<u8>)
        requires
            old(self).wf(),
        ensures
            final(self).wf(),
            keeps_latches(*old(self), *final(self)),
            match PerformOpReqView::from_bytes(req_data@) {
                Err(_) => r@ == invalid_cbor_rsp() && *final(self) == *old(self),
                Ok(parsed) => exists|req: PerformOpReq, rsp: PerformOpResponseView|
                    {
                        &&& req@ == parsed
                        &&& #[trigger] dispatched(*old(self), *final(self), req, rsp)
                        &&& mirrors(parsed.code(), rsp)
                        &&& r@ == match encoded(rsp.item()) {
                            Ok(bytes) => bytes,
                            Err(_) => invalid_cbor_rsp(),
                        }
                    },
            },
    {
        let rsp = match PerformOpReq::from_slice(req_data) {
            Ok(req) => {
                let ghost asked = req;
                let rsp = self.process_req(req);
                proof {
                    assert(dispatched(*old(self), *self, asked, rsp@));
                }
                rsp
            },
            Err(_) => {
                return crate::bytes::copy_bytes(invalid_cbor_rsp_data().as_slice());
            },
        };
        match rsp.into_vec() {
            Ok(rsp_data) => rsp_data,
            Err(_) => crate::bytes::copy_bytes(invalid_cbor_rsp_data().as_slice()),
        }
    }
}

} // verus!
