//! What is read from, and added to, lists of key parameters.

use crate::bytes::copy_bytes;
use crate::cbor::views;
use crate::error::Error;
use crate::ta::info::{BootInfo, HalInfo};
use crate::wire::keymint::{ErrorCode, KeyOrigin};
use crate::wire::params::{KeyParam, KeyParamView};
use vstd::prelude::*;

verus! {

/// The application identifier of the first parameter that carries one.
pub open spec fn application_id(params: Seq<KeyParamView>) -> Option<Seq<u8>>
    decreases params.len(),
{
    if params.len() == 0 {
        None
    } else {
        match params[0] {
            KeyParamView::ApplicationId(id) => Some(id),
            _ => application_id(params.drop_first()),
        }
    }
}

/// The application data of the first parameter that carries some.
pub open spec fn application_data(params: Seq<KeyParamView>) -> Option<Seq<u8>>
    decreases params.len(),
{
    if params.len() == 0 {
        None
    } else {
        match params[0] {
            KeyParamView::ApplicationData(data) => Some(data),
            _ => application_data(params.drop_first()),
        }
    }
}

/// The hidden parameters that a keyblob is bound to: the application
/// identifier and the application data of the caller, where the caller
/// gives them, and the root of trust of the device. They enter the
/// derivation of the key that encrypts the keyblob and are not stored in
/// it.
pub open spec fn hidden_params(params: Seq<KeyParamView>, rot: Seq<u8>) -> Seq<KeyParamView> {
    let id = match application_id(params) {
        Some(id) => seq![KeyParamView::ApplicationId(id)],
        None => Seq::empty(),
    };
    let data = match application_data(params) {
        Some(data) => seq![KeyParamView::ApplicationData(data)],
        None => Seq::empty(),
    };
    id + data + seq![KeyParamView::RootOfTrust(rot)]
}

/// The application identifier among `params`, if there is one.
pub fn find_application_id(params: &[KeyParam]) -> (r: Option<Vec<u8>>)
    ensures
        match r {
            Some(id) => application_id(views(params@)) == Some(id@),
            None => application_id(views(params@)) is None,
        },
{
    let mut i: usize = 0;
    assert(views(params@).skip(0) =~= views(params@));
    while i < params.len()
        invariant
            i <= params.len(),
            application_id(views(params@)) == application_id(views(params@).skip(i as int)),
        decreases params.len() - i,
    {
        let ghost rest = views(params@).skip(i as int);
        assert(rest[0] == params@[i as int]@);
        assert(rest.drop_first() =~= views(params@).skip(i as int + 1));
        match &params[i] {
            KeyParam::ApplicationId(id) => {
                return Some(copy_bytes(id.as_slice()));
            },
            _ => {},
        }
        i += 1;
    }
    None
}

/// The application data among `params`, if there is some.
pub fn find_application_data(params: &[KeyParam]) -> (r: Option<Vec<u8>>)
    ensures
        match r {
            Some(data) => application_data(views(params@)) == Some(data@),
            None => application_data(views(params@)) is None,
        },
{
    let mut i: usize = 0;
    assert(views(params@).skip(0) =~= views(params@));
    while i < params.len()
        invariant
            i <= params.len(),
            application_data(views(params@)) == application_data(views(params@).skip(i as int)),
        decreases params.len() - i,
    {
        let ghost rest = views(params@).skip(i as int);
        assert(rest[0] == params@[i as int]@);
        assert(rest.drop_first() =~= views(params@).skip(i as int + 1));
        match &params[i] {
            KeyParam::ApplicationData(data) => {
                return Some(copy_bytes(data.as_slice()));
            },
            _ => {},
        }
        i += 1;
    }
    None
}

/// Builds the hidden parameters for the parameters of a caller and the
/// bytes of the root of trust.
pub fn hidden(params: &[KeyParam], rot: &[u8]) -> (r: Vec<KeyParam>)
    ensures
        views(r@) == hidden_params(views(params@), rot@),
{
    let mut results: Vec<KeyParam> = Vec::new();
    match find_application_id(params) {
        Some(id) => {
            results.push(KeyParam::ApplicationId(id));
        },
        None => {},
    }
    match find_application_data(params) {
        Some(data) => {
            results.push(KeyParam::ApplicationData(data));
        },
        None => {},
    }
    results.push(KeyParam::RootOfTrust(copy_bytes(rot)));
    assert(views(results@) =~= hidden_params(views(params@), rot@));
    results
}

/// What comparing a version `v` of a keyblob with the current version
/// `curr` of the device gives: an older keyblob needs an upgrade, one of the
/// same version is in order, and one from the future is invalid.
pub open spec fn version_check(v: u32, curr: u32) -> Result<(), Error> {
    if v < curr {
        Err(Error::Hal(ErrorCode::KeyRequiresUpgrade))
    } else if v == curr {
        Ok(())
    } else {
        Err(Error::Hal(ErrorCode::InvalidKeyBlob))
    }
}

/// Compares a version of a keyblob with the current version of the device.
pub fn check_version(v: u32, curr: u32) -> (r: Result<(), Error>)
    ensures
        r == version_check(v, curr),
{
    if v < curr {
        Err(Error::Hal(ErrorCode::KeyRequiresUpgrade))
    } else if v == curr {
        Ok(())
    } else {
        Err(Error::Hal(ErrorCode::InvalidKeyBlob))
    }
}

/// What one parameter of a keyblob says about the need for an upgrade.
///
/// A parameter that holds a version or a patch level is compared with the
/// value that the device has latched; while none is latched, nothing is
/// checked. A device whose version of the operating system is zero accepts
/// only keyblobs of version zero and asks for an upgrade of any other: the
/// step down to zero is always allowed and has to be asked for. Every other
/// parameter is in order.
pub open spec fn param_version_check(
    param: KeyParamView,
    hal_info: Option<HalInfo>,
    boot_info: Option<BootInfo>,
) -> Result<(), Error> {
    match param {
        KeyParamView::OsVersion(v) => match hal_info {
            Some(hal) => if hal.os_version == 0 {
                if v != 0 {
                    Err(Error::Hal(ErrorCode::KeyRequiresUpgrade))
                } else {
                    Ok(())
                }
            } else {
                version_check(v, hal.os_version)
            },
            None => Ok(()),
        },
        KeyParamView::OsPatchlevel(v) => match hal_info {
            Some(hal) => version_check(v, hal.os_patchlevel),
            None => Ok(()),
        },
        KeyParamView::VendorPatchlevel(v) => match hal_info {
            Some(hal) => version_check(v, hal.vendor_patchlevel),
            None => Ok(()),
        },
        KeyParamView::BootPatchlevel(v) => match boot_info {
            Some(boot) => version_check(v, boot.boot_patchlevel),
            None => Ok(()),
        },
        _ => Ok(()),
    }
}

/// What the parameters of a keyblob say about the need for an upgrade: the
/// answer of the first parameter that is not in order.
pub open spec fn upgrade_check(
    params: Seq<KeyParamView>,
    hal_info: Option<HalInfo>,
    boot_info: Option<BootInfo>,
) -> Result<(), Error>
    decreases params.len(),
{
    if params.len() == 0 {
        Ok(())
    } else {
        match param_version_check(params[0], hal_info, boot_info) {
            Err(e) => Err(e),
            Ok(()) => upgrade_check(params.drop_first(), hal_info, boot_info),
        }
    }
}

/// Checks one parameter of a keyblob against the latched versions.
pub fn check_param_version(
    param: &KeyParam,
    hal_info: &Option<HalInfo>,
    boot_info: &Option<BootInfo>,
) -> (r: Result<(), Error>)
    ensures
        r == param_version_check(param@, *hal_info, *boot_info),
{
    match param {
        KeyParam::OsVersion(v) => match hal_info {
            Some(hal) => if hal.os_version == 0 {
                if *v != 0 {
                    Err(Error::Hal(ErrorCode::KeyRequiresUpgrade))
                } else {
                    Ok(())
                }
            } else {
                check_version(*v, hal.os_version)
            },
            None => Ok(()),
        },
        KeyParam::OsPatchlevel(v) => match hal_info {
            Some(hal) => check_version(*v, hal.os_patchlevel),
            None => Ok(()),
        },
        KeyParam::VendorPatchlevel(v) => match hal_info {
            Some(hal) => check_version(*v, hal.vendor_patchlevel),
            None => Ok(()),
        },
        KeyParam::BootPatchlevel(v) => match boot_info {
            Some(boot) => check_version(*v, boot.boot_patchlevel),
            None => Ok(()),
        },
        _ => Ok(()),
    }
}

/// Checks the parameters of a keyblob against the latched versions, in
/// order.
pub fn check_upgrade(
    params: &Vec<KeyParam>,
    hal_info: &Option<HalInfo>,
    boot_info: &Option<BootInfo>,
) -> (r: Result<(), Error>)
    ensures
        r == upgrade_check(views(params@), *hal_info, *boot_info),
{
    let mut i: usize = 0;
    assert(views(params@).skip(0) =~= views(params@));
    while i < params.len()
        invariant
            i <= params.len(),
            upgrade_check(views(params@), *hal_info, *boot_info) == upgrade_check(
                views(params@).skip(i as int),
                *hal_info,
                *boot_info,
            ),
        decreases params.len() - i,
    {
        let ghost rest = views(params@).skip(i as int);
        assert(rest[0] == params@[i as int]@);
        assert(rest.drop_first() =~= views(params@).skip(i as int + 1));
        match check_param_version(&params[i], hal_info, boot_info) {
            Err(e) => {
                return Err(e);
            },
            Ok(()) => {},
        }
        i += 1;
    }
    Ok(())
}

/// The parameters that the trusted application adds to the characteristics
/// of every key it creates: the origin of the key, the versions that the
/// HAL service reported, where they are known, and the patch level of the
/// boot image, where it is known.
pub open spec fn keymint_tags(
    origin: KeyOrigin,
    hal_info: Option<HalInfo>,
    boot_info: Option<BootInfo>,
) -> Seq<KeyParamView> {
    let hal = match hal_info {
        Some(hal) => seq![
            KeyParamView::OsVersion(hal.os_version),
            KeyParamView::OsPatchlevel(hal.os_patchlevel),
            KeyParamView::VendorPatchlevel(hal.vendor_patchlevel),
        ],
        None => Seq::empty(),
    };
    let boot = match boot_info {
        Some(boot) => seq![KeyParamView::BootPatchlevel(boot.boot_patchlevel)],
        None => Seq::empty(),
    };
    seq![KeyParamView::Origin(origin)] + hal + boot
}

/// Appends the parameters that the trusted application adds to `params`.
pub fn push_keymint_tags(
    params: &mut Vec<KeyParam>,
    origin: KeyOrigin,
    hal_info: &Option<HalInfo>,
    boot_info: &Option<BootInfo>,
)
    ensures
        views(final(params)@) == views(old(params)@) + keymint_tags(origin, *hal_info, *boot_info),
{
    params.push(KeyParam::Origin(origin));
    match hal_info {
        Some(hal) => {
            params.push(KeyParam::OsVersion(hal.os_version));
            params.push(KeyParam::OsPatchlevel(hal.os_patchlevel));
            params.push(KeyParam::VendorPatchlevel(hal.vendor_patchlevel));
        },
        None => {},
    }
    match boot_info {
        Some(boot) => {
            params.push(KeyParam::BootPatchlevel(boot.boot_patchlevel));
        },
        None => {},
    }
    assert(views(params@) =~= views(old(params)@) + keymint_tags(origin, *hal_info, *boot_info));
}

} // verus!
