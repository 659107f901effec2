//! What the trusted application learns about the device once per boot.

use crate::cbor::{
    array_value, bool_of, bytes_value, decoded, encoded, fixed_bytes_of, from_slice, items_of,
    result_view, to_vec, tuple_of, u32_of, value_bool, value_bytes32, value_tuple, value_u32,
    CborError, CborValue, Item,
};
use crate::keyblob::RootOfTrustInfo;
use crate::wire::keymint::{SecurityLevel, VerifiedBootState};
use crate::wire::types::Timestamp;
use vstd::prelude::*;

verus! {

/// What the bootloader reports once at the start of the day. The order of the fields is that of the root of trust in the KeyMint interface.
#[derive(Clone, Copy, Debug, PartialEq, Eq)]
pub struct BootInfo {
    pub verified_boot_key: [u8; 32],
    pub device_boot_locked: bool,
    pub verified_boot_state: VerifiedBootState,
    pub verified_boot_hash: [u8; 32],
    /// Patch level of the boot image, as YYYYMMDD.
    pub boot_patchlevel: u32,
}

/// The content of a [`BootInfo`].
pub ghost struct BootInfoView {
    pub verified_boot_key: Seq<u8>,
    pub device_boot_locked: bool,
    pub verified_boot_state: VerifiedBootState,
    pub verified_boot_hash: Seq<u8>,
    pub boot_patchlevel: u32,
}

impl View for BootInfo {
    type V = BootInfoView;

    open spec fn view(&self) -> BootInfoView {
        BootInfoView {
            verified_boot_key: self.verified_boot_key@,
            device_boot_locked: self.device_boot_locked,
            verified_boot_state: self.verified_boot_state,
            verified_boot_hash: self.verified_boot_hash@,
            boot_patchlevel: self.boot_patchlevel,
        }
    }
}

impl BootInfoView {
    /// Whether the byte strings of fixed length have their length. The view
    /// of every [`BootInfo`] is well-formed.
    pub open spec fn wf(self) -> bool {
        self.verified_boot_key.len() == 32
        && self.verified_boot_hash.len() == 32
    }

    /// The CBOR form: the array of the fields in order.
    pub open spec fn item(self) -> Item {
        Item::Array(
            seq![
                Item::Bytes(self.verified_boot_key),
                Item::Bool(self.device_boot_locked),
                Item::Integer(self.verified_boot_state.code()),
                Item::Bytes(self.verified_boot_hash),
                Item::Integer(self.boot_patchlevel as int),
            ],
        )
    }

    /// What [`BootInfo::from_cbor_value`] makes of an item: an array of exactly
    /// 5 elements, read in order.
    pub open spec fn from_item(item: Item) -> Result<BootInfoView, CborError> {
        match tuple_of(item, 5) {
            Err(e) => Err(e),
            Ok(a) => match fixed_bytes_of(a[0], 32) {
                Err(e) => Err(e),
                Ok(verified_boot_key) => match bool_of(a[1]) {
                    Err(e) => Err(e),
                    Ok(device_boot_locked) => match VerifiedBootState::from_item(a[2]) {
                        Err(e) => Err(e),
                        Ok(verified_boot_state) => match fixed_bytes_of(a[3], 32) {
                            Err(e) => Err(e),
                            Ok(verified_boot_hash) => match u32_of(a[4]) {
                                Err(e) => Err(e),
                                Ok(boot_patchlevel) => Ok(
                                    BootInfoView {
                                        verified_boot_key,
                                        device_boot_locked,
                                        verified_boot_state,
                                        verified_boot_hash,
                                        boot_patchlevel,
                                    },
                                ),
                            },
                        },
                    },
                },
            },
        }
    }

    /// How a [`BootInfo`] is written.
    pub open spec fn encoder() -> spec_fn(BootInfoView) -> Item {
        |x: BootInfoView| x.item()
    }

    /// How a [`BootInfo`] is read.
    pub open spec fn decoder() -> spec_fn(Item) -> Result<BootInfoView, CborError> {
        |item: Item| BootInfoView::from_item(item)
    }

    /// Reading the CBOR form gives the value back.
    pub proof fn lemma_round_trip(self)
        requires
            self.wf(),
        ensures
            Self::from_item(self.item()) == Ok::<BootInfoView, CborError>(self),
    {
        let a = self.item()->Array_0;
        assert(tuple_of(self.item(), 5) == Ok::<Seq<Item>, CborError>(a));
        assert(a[0] == Item::Bytes(self.verified_boot_key));
        assert(a[1] == Item::Bool(self.device_boot_locked));
        assert(a[2] == Item::Integer(self.verified_boot_state.code()));
        assert(a[3] == Item::Bytes(self.verified_boot_hash));
        assert(a[4] == Item::Integer(self.boot_patchlevel as int));
        self.verified_boot_state.lemma_round_trip();
    }
}

impl BootInfo {
    /// A copy of this value.
    pub fn duplicate(&self) -> (r: BootInfo)
        ensures
            r@ == self@,
    {
        BootInfo {
            verified_boot_key: self.verified_boot_key,
            device_boot_locked: self.device_boot_locked,
            verified_boot_state: self.verified_boot_state,
            verified_boot_hash: self.verified_boot_hash,
            boot_patchlevel: self.boot_patchlevel,
        }
    }

    /// Writes this value as the array of its fields.
    pub fn to_cbor_value(&self) -> (r: CborValue)
        ensures
            r@ == self@.item(),
    {
        let mut a: Vec<CborValue> = Vec::new();
        a.push(bytes_value(self.verified_boot_key.as_slice()));
        a.push(CborValue::Bool(self.device_boot_locked));
        a.push(self.verified_boot_state.to_cbor_value());
        a.push(bytes_value(self.verified_boot_hash.as_slice()));
        a.push(CborValue::Integer(self.boot_patchlevel as i128));
        assert(items_of(a@) =~= self@.item()->Array_0);
        array_value(a)
    }

    /// Reads a value from the array of its fields.
    pub fn from_cbor_value(v: &CborValue) -> (r: Result<BootInfo, CborError>)
        ensures
            result_view(r) == BootInfoView::from_item(v@),
    {
        let a = match value_tuple(v, 5) {
            Err(e) => { return Err(e); },
            Ok(a) => a,
        };
        assert(items_of(a@)[0] == a@[0]@);
        assert(items_of(a@)[1] == a@[1]@);
        assert(items_of(a@)[2] == a@[2]@);
        assert(items_of(a@)[3] == a@[3]@);
        assert(items_of(a@)[4] == a@[4]@);
        let verified_boot_key = match value_bytes32(&a[0]) {
            Err(e) => { return Err(e); },
            Ok(x) => x,
        };
        let device_boot_locked = match value_bool(&a[1]) {
            Err(e) => { return Err(e); },
            Ok(x) => x,
        };
        let verified_boot_state = match VerifiedBootState::from_cbor_value(&a[2]) {
            Err(e) => { return Err(e); },
            Ok(x) => x,
        };
        let verified_boot_hash = match value_bytes32(&a[3]) {
            Err(e) => { return Err(e); },
            Ok(x) => x,
        };
        let boot_patchlevel = match value_u32(&a[4]) {
            Err(e) => { return Err(e); },
            Ok(x) => x,
        };
        Ok(
            BootInfo {
                verified_boot_key,
                device_boot_locked,
                verified_boot_state,
                verified_boot_hash,
                boot_patchlevel,
            },
        )
    }
}

/// CBOR tag of a root of trust.
pub const BOOT_INFO_TAG: u64 = 40001;

impl BootInfoView {
    /// The bytes of the root of trust inside its tag, or the error of
    /// writing them.
    pub open spec fn tagged_bytes(self) -> Result<Seq<u8>, CborError> {
        encoded(Item::Tag(BOOT_INFO_TAG as nat, Box::new(self.item())))
    }

    /// What [`BootInfo::from_tagged_slice`] makes of bytes: the root of trust
    /// inside the tag 40001.
    pub open spec fn from_tagged_bytes(bytes: Seq<u8>) -> Result<BootInfoView, CborError> {
        match decoded(bytes) {
            Err(e) => Err(e),
            Ok(item) => match item {
                Item::Tag(tag, inner) => if tag == BOOT_INFO_TAG {
                    Self::from_item(*inner)
                } else {
                    Err(CborError::UnexpectedItem)
                },
                _ => Err(CborError::UnexpectedItem),
            },
        }
    }
}

impl BootInfo {
    /// Serializes the root of trust inside the tag 40001.
    pub fn to_tagged_vec(&self) -> (r: Result<Vec<u8>, CborError>)
        ensures
            match r {
                Ok(bytes) => self@.tagged_bytes() == Ok::<Seq<u8>, CborError>(bytes@),
                Err(e) => self@.tagged_bytes() == Err::<Seq<u8>, CborError>(e),
            },
    {
        to_vec(&CborValue::Tag(BOOT_INFO_TAG, Box::new(self.to_cbor_value())))
    }

    /// Reads a root of trust, which must come inside the tag 40001.
    pub fn from_tagged_slice(bytes: &[u8]) -> (r: Result<BootInfo, CborError>)
        ensures
            result_view(r) == BootInfoView::from_tagged_bytes(bytes@),
    {
        match from_slice(bytes) {
            Err(e) => Err(e),
            Ok(v) => match &v {
                CborValue::Tag(tag, inner) => if *tag == BOOT_INFO_TAG {
                    BootInfo::from_cbor_value(inner)
                } else {
                    Err(CborError::UnexpectedItem)
                },
                _ => Err(CborError::UnexpectedItem),
            },
        }
    }

    /// The part of the boot information that keyblobs are bound to.
    pub open spec fn root_of_trust_spec(self) -> RootOfTrustInfo {
        RootOfTrustInfo {
            verified_boot_key: self.verified_boot_key,
            device_boot_locked: self.device_boot_locked,
            verified_boot_state: self.verified_boot_state,
            verified_boot_hash: self.verified_boot_hash,
        }
    }

    /// The part of the boot information that keyblobs are bound to.
    pub fn root_of_trust(&self) -> (r: RootOfTrustInfo)
        ensures
            r == self.root_of_trust_spec(),
    {
        RootOfTrustInfo {
            verified_boot_key: self.verified_boot_key,
            device_boot_locked: self.device_boot_locked,
            verified_boot_state: self.verified_boot_state,
            verified_boot_hash: self.verified_boot_hash,
        }
    }
}

/// What the HAL service reports once when it starts: the state of the
/// operating system outside the secure environment.
#[derive(Clone, Copy, Debug, PartialEq, Eq, Structural)]
pub struct HalInfo {
    pub os_version: u32,
    /// Patch level of the operating system, as YYYYMM.
    pub os_patchlevel: u32,
    /// Patch level of the vendor image, as YYYYMMDD.
    pub vendor_patchlevel: u32,
}

/// Description of the hardware that the trusted application runs on.
#[derive(Clone, Copy, Debug)]
pub struct HardwareInfo {
    pub security_level: SecurityLevel,
    pub version_number: i32,
    pub impl_name: &'static str,
    pub author_name: &'static str,
    pub unique_id: &'static str,
    /// Whether secure boot is enforced for the processor that runs this
    /// code.
    pub fused: bool,
}

/// Whether the screen of the device is locked.
#[derive(Clone, Copy, Debug, PartialEq, Eq, Structural)]
pub enum LockState {
    /// The device is unlocked.
    Unlocked,
    /// The device has been locked since the given time.
    LockedSince(Timestamp),
    /// The device has been locked since the given time and can only be
    /// unlocked with a password.
    PasswordLockedSince(Timestamp),
}

} // verus!
