//! What the trusted application offers to remote key provisioning.

use crate::cbor::{bytes_value, dict_value, encoded, entries_of, str_value, to_vec, CborValue, Item};
use crate::device::Platform;
use crate::error::{bytes_result, Error};
use crate::ta::info::{BootInfo, HalInfo};
use crate::ta::KeyMintTa;
use crate::wire::keymint::{ErrorCode, SecurityLevel, VerifiedBootState};
use crate::wire::types::{
    AttestationIdInfoView, DeviceInfo, EekCurve, MacedPublicKey, ProtectedData, RpcHardwareInfo,
};
use vstd::prelude::*;

verus! {

/// Smallest number of keys in a certificate request that every
/// implementation supports.
pub const MINIMUM_SUPPORTED_KEYS_IN_CSR: i32 = 20;

/// What version 2 of remote provisioning says of an implementation.
#[derive(Clone, Copy, Debug)]
pub struct RpcInfoV2 {
    pub author_name: &'static str,
    pub supported_eek_curve: EekCurve,
    pub unique_id: &'static str,
    /// Whether secure boot is enforced for the processor that runs this
    /// code.
    pub fused: bool,
}

/// What version 3 of remote provisioning says of an implementation.
#[derive(Clone, Copy, Debug)]
pub struct RpcInfoV3 {
    pub author_name: &'static str,
    pub unique_id: &'static str,
    /// Whether secure boot is enforced for the processor that runs this
    /// code.
    pub fused: bool,
    pub supported_num_of_keys_in_csr: i32,
}

/// What an implementation supports of remote provisioning.
#[derive(Clone, Copy, Debug)]
pub enum RpcInfo {
    V2(RpcInfoV2),
    V3(RpcInfoV3),
}

/// The text that `String::from_utf8_lossy` makes of bytes: the text that
/// they encode in UTF-8, with a replacement character for what is no UTF-8.
pub uninterp spec fn utf8_lossy(bytes: Seq<u8>) -> Seq<char>;

/// Reads bytes as text with `String::from_utf8_lossy`. The contract names
/// the result [`utf8_lossy`].
#[verifier::external_body]
fn text_from_utf8_lossy(bytes: &[u8]) -> (r: String)
    ensures
        r@ == utf8_lossy(bytes@),
{
    String::from_utf8_lossy(bytes).into_owned()
}

/// The keys of the map that describes a device, in the order in which they
/// are written.
pub open spec fn device_info_keys() -> Seq<Seq<char>> {
    seq![
        "brand"@,
        "fused"@,
        "model"@,
        "device"@,
        "product"@,
        "version"@,
        "vb_state"@,
        "os_version"@,
        "manufacturer"@,
        "vbmeta_digest"@,
        "security_level"@,
        "boot_patch_level"@,
        "bootloader_state"@,
        "system_patch_level"@,
        "vendor_patch_level"@,
    ]
}

/// How verified boot state is named in the description of a device.
pub open spec fn vb_state_name(state: VerifiedBootState) -> Seq<char> {
    match state {
        VerifiedBootState::Verified => "green"@,
        VerifiedBootState::SelfSigned => "yellow"@,
        VerifiedBootState::Unverified => "orange"@,
        VerifiedBootState::Failed => "red"@,
    }
}

/// How a security level is named in the description of a device; only the
/// two secure environments have a name.
pub open spec fn security_level_name(level: SecurityLevel) -> Option<Seq<char>> {
    match level {
        SecurityLevel::TrustedEnvironment => Some("tee"@),
        SecurityLevel::Strongbox => Some("strongbox"@),
        _ => None,
    }
}

/// The version of remote provisioning that an implementation supports, and
/// whether its processor is fused.
pub open spec fn rpc_version_and_fused(info: RpcInfo) -> (int, bool) {
    match info {
        RpcInfo::V2(v2) => (2, v2.fused),
        RpcInfo::V3(v3) => (3, v3.fused),
    }
}

/// The values of the map that describes a device, in the order of
/// [`device_info_keys`].
pub open spec fn device_info_values(
    ids: AttestationIdInfoView,
    boot_info: BootInfo,
    hal_info: HalInfo,
    level_name: Seq<char>,
    rpc_info: RpcInfo,
) -> Seq<Item> {
    seq![
        Item::Text(utf8_lossy(ids.brand)),
        Item::Integer(
            if rpc_version_and_fused(rpc_info).1 {
                1
            } else {
                0
            },
        ),
        Item::Text(utf8_lossy(ids.model)),
        Item::Text(utf8_lossy(ids.device)),
        Item::Text(utf8_lossy(ids.product)),
        Item::Integer(rpc_version_and_fused(rpc_info).0),
        Item::Text(vb_state_name(boot_info.verified_boot_state)),
        Item::Integer(hal_info.os_version as int),
        Item::Text(utf8_lossy(ids.manufacturer)),
        Item::Bytes(boot_info.verified_boot_hash@),
        Item::Text(level_name),
        Item::Integer(boot_info.boot_patchlevel as int),
        Item::Text(
            if boot_info.device_boot_locked {
                "locked"@
            } else {
                "unlocked"@
            },
        ),
        Item::Integer(hal_info.os_patchlevel as int),
        Item::Integer(hal_info.vendor_patchlevel as int),
    ]
}

/// The map that describes a device: fifteen entries, the keys of
/// [`device_info_keys`] with the values of [`device_info_values`].
pub open spec fn device_info_item(
    ids: AttestationIdInfoView,
    boot_info: BootInfo,
    hal_info: HalInfo,
    level_name: Seq<char>,
    rpc_info: RpcInfo,
) -> Item {
    Item::Dict(
        Seq::new(
            15,
            |i: int|
                (
                    Item::Text(device_info_keys()[i]),
                    device_info_values(ids, boot_info, hal_info, level_name, rpc_info)[i],
                ),
        ),
    )
}

/// Whether the text `a` comes before the text `b` in the canonical order of
/// RFC 7049 for map keys: the key with the shorter encoding first, and of
/// two keys with encodings of the same length the one whose encoding is
/// first in byte order. For two texts of fewer than 24 ASCII characters each
/// that is the shorter text first, and of two texts of the same length the
/// one that has the smaller character where they first differ.
pub open spec fn canonical_less(a: Seq<char>, b: Seq<char>) -> bool {
    a.len() < b.len() || (a.len() == b.len() && exists|i: int|
        0 <= i < a.len() && a.take(i) == b.take(i) && (#[trigger] a[i] as u32) < (b[i] as u32))
}

/// The keys of the description of a device are written in strictly
/// increasing canonical order.
pub proof fn lemma_device_info_keys_increase()
    ensures
        device_info_keys().len() == 15,
        forall|i: int|
            0 <= i < 14 ==> canonical_less(#[trigger] device_info_keys()[i], device_info_keys()[i + 1]),
{
    reveal_strlit("brand");
    reveal_strlit("fused");
    reveal_strlit("model");
    reveal_strlit("device");
    reveal_strlit("product");
    reveal_strlit("version");
    reveal_strlit("vb_state");
    reveal_strlit("os_version");
    reveal_strlit("manufacturer");
    reveal_strlit("vbmeta_digest");
    reveal_strlit("security_level");
    reveal_strlit("boot_patch_level");
    reveal_strlit("bootloader_state");
    reveal_strlit("system_patch_level");
    reveal_strlit("vendor_patch_level");
    let keys = device_info_keys();
    assert(keys[0].take(0) =~= keys[1].take(0) && (keys[0][0] as u32) < (keys[1][0] as u32));
    assert(keys[1].take(0) =~= keys[2].take(0) && (keys[1][0] as u32) < (keys[2][0] as u32));
    assert(keys[4].take(0) =~= keys[5].take(0) && (keys[4][0] as u32) < (keys[5][0] as u32));
    assert(keys[11].take(4) =~= keys[12].take(4) && (keys[11][4] as u32) < (keys[12][4] as u32));
    assert(keys[13].take(0) =~= keys[14].take(0) && (keys[13][0] as u32) < (keys[14][0] as u32));
    assert forall|i: int| 0 <= i < 14 implies canonical_less(
        #[trigger] device_info_keys()[i],
        device_info_keys()[i + 1],
    ) by {
        if i == 0 || i == 1 || i == 4 || i == 11 || i == 13 {
        } else {
            assert(keys[i].len() < keys[i + 1].len());
        }
    }
}

impl<P: Platform> KeyMintTa<P> {
    /// What [`Self::rpc_device_info`] returns once the identifiers of the
    /// device have been looked up: the bytes of the map of
    /// [`device_info_item`]. Identifiers, boot information or HAL
    /// information that are not known, and a security level without a name,
    /// give `UnknownError`.
    pub open spec fn device_info_bytes(&self) -> Result<Seq<u8>, Error> {
        match (self.attestation_id_info, self.boot_info, self.hal_info) {
            (Some(ids), Some(boot_info), Some(hal_info)) => match security_level_name(
                self.hw_info.security_level,
            ) {
                None => Err(Error::Hal(ErrorCode::UnknownError)),
                Some(level_name) => match encoded(
                    device_info_item(ids@, boot_info, hal_info, level_name, self.rpc_info),
                ) {
                    Err(e) => Err(Error::Cbor(e)),
                    Ok(bytes) => Ok(bytes),
                },
            },
            _ => Err(Error::Hal(ErrorCode::UnknownError)),
        }
    }

    /// Describes the device for remote provisioning, as a CBOR map whose
    /// keys are in the canonical order of RFC 7049. The identifiers of the
    /// device are looked up first, as [`Self::get_attestation_ids`] does.
    pub fn rpc_device_info(&mut self) -> (r: Result<Vec<u8>, Error>)
        ensures
            *final(self) == (KeyMintTa {
                attestation_id_info: final(self).attestation_id_info,
                ..*old(self)
            }),
            old(self).attestation_id_info is Some ==> *final(self) == *old(self),
            bytes_result(r) == final(self).device_info_bytes(),
    {
        let ids = match self.get_attestation_ids() {
            None => { return Err(Error::Hal(ErrorCode::UnknownError)); },
            Some(ids) => ids,
        };
        let boot_info = match &self.boot_info {
            None => { return Err(Error::Hal(ErrorCode::UnknownError)); },
            Some(b) => b,
        };
        let hal_info = match &self.hal_info {
            None => { return Err(Error::Hal(ErrorCode::UnknownError)); },
            Some(h) => h,
        };
        let brand = text_from_utf8_lossy(ids.brand.as_slice());
        let manufacturer = text_from_utf8_lossy(ids.manufacturer.as_slice());
        let product = text_from_utf8_lossy(ids.product.as_slice());
        let model = text_from_utf8_lossy(ids.model.as_slice());
        let device = text_from_utf8_lossy(ids.device.as_slice());
        let bootloader_state = if boot_info.device_boot_locked {
            "locked"
        } else {
            "unlocked"
        };
        let vbmeta_digest = bytes_value(boot_info.verified_boot_hash.as_slice());
        let vb_state = match boot_info.verified_boot_state {
            VerifiedBootState::Verified => "green",
            VerifiedBootState::SelfSigned => "yellow",
            VerifiedBootState::Unverified => "orange",
            VerifiedBootState::Failed => "red",
        };
        let security_level = match self.hw_info.security_level {
            SecurityLevel::TrustedEnvironment => "tee",
            SecurityLevel::Strongbox => "strongbox",
            _ => { return Err(Error::Hal(ErrorCode::UnknownError)); },
        };
        let (version, fused): (i128, bool) = match &self.rpc_info {
            RpcInfo::V2(rpc_info_v2) => (2, rpc_info_v2.fused),
            RpcInfo::V3(rpc_info_v3) => (3, rpc_info_v3.fused),
        };
        let fused_number: i128 = if fused {
            1
        } else {
            0
        };
        let mut info: Vec<(CborValue, CborValue)> = Vec::new();
        info.push((str_value("brand"), CborValue::Text(brand)));
        info.push((str_value("fused"), CborValue::Integer(fused_number)));
        info.push((str_value("model"), CborValue::Text(model)));
        info.push((str_value("device"), CborValue::Text(device)));
        info.push((str_value("product"), CborValue::Text(product)));
        info.push((str_value("version"), CborValue::Integer(version)));
        info.push((str_value("vb_state"), str_value(vb_state)));
        info.push((str_value("os_version"), CborValue::Integer(hal_info.os_version as i128)));
        info.push((str_value("manufacturer"), CborValue::Text(manufacturer)));
        info.push((str_value("vbmeta_digest"), vbmeta_digest));
        info.push((str_value("security_level"), str_value(security_level)));
        info.push(
            (str_value("boot_patch_level"), CborValue::Integer(boot_info.boot_patchlevel as i128)),
        );
        info.push((str_value("bootloader_state"), str_value(bootloader_state)));
        info.push(
            (str_value("system_patch_level"), CborValue::Integer(hal_info.os_patchlevel as i128)),
        );
        info.push(
            (
                str_value("vendor_patch_level"),
                CborValue::Integer(hal_info.vendor_patchlevel as i128),
            ),
        );
        assert(entries_of(info@) =~= device_info_item(
            ids@,
            *boot_info,
            *hal_info,
            security_level@,
            self.rpc_info,
        )->Dict_0);
        match to_vec(&dict_value(info)) {
            Err(e) => Err(Error::Cbor(e)),
            Ok(data) => Ok(data),
        }
    }

    /// Describes the remote provisioning that this implementation supports.
    pub fn get_rpc_hardware_info(&self) -> (r: Result<RpcHardwareInfo, Error>)
        ensures
            r matches Ok(info) && match self.rpc_info {
                RpcInfo::V2(v2) => info@.version_number == 2 && info@.rpc_author_name
                    == v2.author_name@ && info@.supported_eek_curve == v2.supported_eek_curve
                    && info@.unique_id == Some(v2.unique_id@) && info@.supported_num_keys_in_csr
                    == MINIMUM_SUPPORTED_KEYS_IN_CSR,
                RpcInfo::V3(v3) => info@.version_number == 3 && info@.rpc_author_name
                    == v3.author_name@ && info@.supported_eek_curve == EekCurve::NoCurve
                    && info@.unique_id == Some(v3.unique_id@) && info@.supported_num_keys_in_csr
                    == v3.supported_num_of_keys_in_csr,
            },
    {
        match &self.rpc_info {
            RpcInfo::V2(rpc_info_v2) => Ok(
                RpcHardwareInfo {
                    version_number: 2,
                    rpc_author_name: rpc_info_v2.author_name.to_owned(),
                    supported_eek_curve: rpc_info_v2.supported_eek_curve,
                    unique_id: Some(rpc_info_v2.unique_id.to_owned()),
                    supported_num_keys_in_csr: MINIMUM_SUPPORTED_KEYS_IN_CSR,
                },
            ),
            RpcInfo::V3(rpc_info_v3) => Ok(
                RpcHardwareInfo {
                    version_number: 3,
                    rpc_author_name: rpc_info_v3.author_name.to_owned(),
                    supported_eek_curve: EekCurve::NoCurve,
                    unique_id: Some(rpc_info_v3.unique_id.to_owned()),
                    supported_num_keys_in_csr: rpc_info_v3.supported_num_of_keys_in_csr,
                },
            ),
        }
    }

    /// Generates a key pair for remote provisioning. This implementation
    /// generates none: the request is refused with `Unimplemented`.
    pub fn generate_ecdsa_p256_keypair(&self, test_mode: bool) -> (r: Result<
        (MacedPublicKey, Vec<u8>),
        Error,
    >)
        ensures
            r is Err && r->Err_0 == Error::Hal(ErrorCode::Unimplemented),
    {
        Err(Error::Hal(ErrorCode::Unimplemented))
    }

    /// Builds a certificate request. The description of the device is
    /// built first, and its failure is the failure of the request; a
    /// request itself is not built by this implementation, which answers
    /// `Unimplemented`.
    pub fn generate_cert_req(
        &mut self,
        test_mode: bool,
        keys_to_sign: Vec<MacedPublicKey>,
        eek_chain: &[u8],
        challenge: &[u8],
    ) -> (r: Result<(DeviceInfo, ProtectedData, Vec<u8>), Error>)
        ensures
            *final(self) == (KeyMintTa {
                attestation_id_info: final(self).attestation_id_info,
                ..*old(self)
            }),
            old(self).attestation_id_info is Some ==> *final(self) == *old(self),
            r is Err && r->Err_0 == match final(self).device_info_bytes() {
                Err(e) => e,
                Ok(_) => Error::Hal(ErrorCode::Unimplemented),
            },
    {
        match self.rpc_device_info() {
            Err(e) => Err(e),
            Ok(_) => Err(Error::Hal(ErrorCode::Unimplemented)),
        }
    }

    /// Builds a certificate request of version 2. This implementation
    /// builds none: the request is refused with `Unimplemented`.
    pub fn generate_cert_req_v2(&self, keys_to_sign: Vec<MacedPublicKey>, challenge: &[u8]) -> (r:
        Result<Vec<u8>, Error>)
        ensures
            r is Err && r->Err_0 == Error::Hal(ErrorCode::Unimplemented),
    {
        Err(Error::Hal(ErrorCode::Unimplemented))
    }
}

} // verus!
