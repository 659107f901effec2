//! The trusted application: its state, and what each request does to it.

pub mod cert;
pub mod clock;
pub mod dispatch;
pub mod info;
pub mod keyblobs;
pub mod keys;
pub mod operation;
pub mod rkp;
pub mod rot;
pub mod secret;

use crate::bytes::{array32_from, bytes_equal, copy_bytes};
use crate::cbor::encoded;
use crate::crypto::{ConstTimeEq, Hmac, KeyMaterial, KeyMaterialView, Rng};
use crate::device::{
    AttestationChainInfo,
    CryptoImplementation, DeviceImplementation, Platform, RetrieveAttestationIds, RetrieveKeys,
};
use crate::error::{bytes_result, Error};
use crate::keyblob::{
    EncryptedKeyBlob, EncryptedKeyBlobView, SecureDeletionSecretManager, SecureDeletionSlot,
};
use crate::ta::info::{BootInfo, HalInfo, HardwareInfo, LockState};
use crate::ta::rkp::{RpcInfo, RpcInfoV3, MINIMUM_SUPPORTED_KEYS_IN_CSR};
use crate::wire::keymint::{ErrorCode, KeyPurpose, SecurityLevel};
use crate::wire::types::{AttestationIdInfo, KeyMintHardwareInfo, SharedSecretParameters};
use vstd::prelude::*;

verus! {

/// Number of operations that can be in flight in a trusted execution
/// environment.
pub const MAX_TEE_OPERATIONS: usize = 32;

/// Number of operations that can be in flight in a StrongBox.
pub const MAX_STRONGBOX_OPERATIONS: usize = 4;

/// Number of keys whose uses can be counted.
pub const MAX_USE_COUNTED_KEYS: usize = 32;

/// Largest amount of entropy that one request may add.
pub const MAX_ENTROPY_LEN: usize = 2048;

/// Identifier of a keyblob: the HMAC-SHA256 of its bytes under a key of
/// sixteen zero bytes.
#[derive(Clone, Copy, Debug, PartialEq, Eq)]
pub struct KeyId(pub [u8; 32]);

/// Number of uses of one key since boot.
#[derive(Clone, Copy, Debug)]
pub struct UseCount {
    pub key_id: KeyId,
    pub count: u64,
}

/// Handle of an operation in flight.
#[derive(Clone, Copy, Debug, PartialEq, Eq, Structural)]
pub struct OpHandle(pub i64);

/// An operation in flight: the key, what it was begun with, and the data
/// it has been given so far.
#[derive(Debug)]
pub struct Operation {
    pub handle: OpHandle,
    pub purpose: KeyPurpose,
    pub key_material: KeyMaterial,
    /// The nonce of an operation with an AES key.
    pub nonce: Option<[u8; 12]>,
    /// The length in bits of the tag that a signing operation returns.
    pub mac_length: Option<u32>,
    /// Whether the operation needs a proof of user presence.
    pub presence_required: bool,
    /// Additional authenticated data given so far.
    pub aad: Vec<u8>,
    /// Input given so far.
    pub data: Vec<u8>,
}

/// The content of an [`Operation`].
pub ghost struct OperationView {
    pub handle: OpHandle,
    pub purpose: KeyPurpose,
    pub key_material: KeyMaterialView,
    pub nonce: Option<Seq<u8>>,
    pub mac_length: Option<u32>,
    pub presence_required: bool,
    pub aad: Seq<u8>,
    pub data: Seq<u8>,
}

impl View for Operation {
    type V = OperationView;

    open spec fn view(&self) -> OperationView {
        OperationView {
            handle: self.handle,
            purpose: self.purpose,
            key_material: self.key_material@,
            nonce: match self.nonce {
                Some(n) => Some(n@),
                None => None,
            },
            mac_length: self.mac_length,
            presence_required: self.presence_required,
            aad: self.aad@,
            data: self.data@,
        }
    }
}

/// A KeyMint device, running in a secure environment.
pub struct KeyMintTa<P: Platform> {
    /// The cryptographic collaborators.
    pub imp: CryptoImplementation<P>,
    /// The device-specific collaborators.
    pub dev: DeviceImplementation<P>,
    /// The hardware that this implementation runs on.
    pub hw_info: HardwareInfo,
    /// What this implementation supports of remote provisioning.
    pub rpc_info: RpcInfo,
    /// Parameters of the agreement on a shared secret; set once.
    pub shared_secret_params: Option<SharedSecretParameters>,
    /// What the bootloader reported; set once.
    pub boot_info: Option<BootInfo>,
    /// The bytes of the root of trust that keyblobs are bound to; set
    /// together with the boot information.
    pub rot_data: Option<Vec<u8>>,
    /// What the HAL service reported; set once.
    pub hal_info: Option<HalInfo>,
    /// The chain of certificates of each attestation signing key, fetched
    /// on first use.
    pub attestation_chain_info: [Option<AttestationChainInfo>; 4],
    /// The identifiers of the device; set once, on first use or by request.
    pub attestation_id_info: Option<AttestationIdInfo>,
    /// Whether the device is still in early boot.
    pub in_early_boot: bool,
    /// The HMAC key agreed with the other secure environments; set once.
    pub hmac_key: Option<Vec<u8>>,
    /// Whether the screen of the device is locked.
    pub device_locked: LockState,
    /// Challenge of the transfer of the root of trust (StrongBox only).
    pub rot_challenge: [u8; 16],
    /// The operations in flight.
    pub operations: Vec<Option<Operation>>,
    /// The number of uses of each key whose uses are counted.
    pub use_count: [Option<UseCount>; 32],
    /// Handle of the one operation in flight that needs a proof of user
    /// presence.
    pub presence_required_op: Option<OpHandle>,
}

/// Whether everything that is set once per boot and was set in `before` is
/// the same in `after`, early boot has not come back, and the description
/// of the hardware is the same.
pub open spec fn keeps_latches<P: Platform>(before: KeyMintTa<P>, after: KeyMintTa<P>) -> bool {
    &&& before.boot_info is Some ==> after.boot_info == before.boot_info
    &&& before.rot_data is Some ==> after.rot_data == before.rot_data
    &&& before.hal_info is Some ==> after.hal_info == before.hal_info
    &&& before.hmac_key is Some ==> after.hmac_key == before.hmac_key
    &&& before.shared_secret_params is Some ==> after.shared_secret_params
        == before.shared_secret_params
    &&& before.attestation_id_info is Some ==> after.attestation_id_info
        == before.attestation_id_info
    &&& !before.in_early_boot ==> !after.in_early_boot
    &&& after.hw_info == before.hw_info
    &&& after.rpc_info == before.rpc_info
}

/// What is set once stays set over any number of requests: where the
/// latches are kept from one state to a second and from the second to a
/// third, they are kept from the first to the third.
pub proof fn lemma_keeps_latches_transitive<P: Platform>(
    a: KeyMintTa<P>,
    b: KeyMintTa<P>,
    c: KeyMintTa<P>,
)
    requires
        keeps_latches(a, b),
        keeps_latches(b, c),
    ensures
        keeps_latches(a, c),
{
}

/// Whether entry `i` of the table holds the operation with the handle, and
/// that operation needs a proof of user presence.
pub open spec fn waits_for_presence(
    operations: Seq<Option<Operation>>,
    handle: OpHandle,
    i: int,
) -> bool {
    &&& 0 <= i < operations.len()
    &&& operations[i] is Some
    &&& operations[i]->Some_0.handle == handle
    &&& operations[i]->Some_0.presence_required
}

/// Number of operations that can be in flight at a security level.
pub open spec fn max_operations(level: SecurityLevel) -> nat {
    if level == SecurityLevel::Strongbox {
        MAX_STRONGBOX_OPERATIONS as nat
    } else {
        MAX_TEE_OPERATIONS as nat
    }
}

/// The bytes bound into keyblobs where the root of trust cannot be encoded.
pub open spec fn rot_encoding_failure() -> Seq<u8> {
    seq![
        0x49u8, 0x6e, 0x74, 0x65, 0x72, 0x6e, 0x61, 0x6c, 0x20, 0x65, 0x72, 0x72, 0x6f, 0x72, 0x21,
        0x20, 0x46, 0x61, 0x69, 0x6c, 0x65, 0x64, 0x20, 0x74, 0x6f, 0x20, 0x65, 0x6e, 0x63, 0x6f,
        0x64, 0x65, 0x20, 0x72, 0x6f, 0x6f, 0x74, 0x2d, 0x6f, 0x66, 0x2d, 0x74, 0x72, 0x75, 0x73,
        0x74,
    ]
}

/// The bytes that a keyblob is bound to for given boot information: the
/// CBOR form of its root of trust.
pub open spec fn rot_bytes(boot_info: BootInfo) -> Seq<u8> {
    match encoded(boot_info.root_of_trust_spec().item()) {
        Ok(bytes) => bytes,
        Err(_) => rot_encoding_failure(),
    }
}

impl<P: Platform> KeyMintTa<P> {
    /// Whether the state is one that the trusted application can be in: the
    /// table of operations has the size that belongs to the security level,
    /// no two operations have the same handle, an operation that needs a
    /// proof of user presence is the one recorded as such, the handle
    /// recorded is that of an operation in flight that needs such a proof,
    /// and the bytes of the root of trust are known only together with the
    /// boot information.
    pub open spec fn wf(&self) -> bool {
        &&& self.tables_wf()
        &&& self.presence_required_op is Some ==> exists|i: int|
            #[trigger] waits_for_presence(
                self.operations@,
                self.presence_required_op->Some_0,
                i,
            )
    }

    /// The part of [`Self::wf`] that speaks of each operation in flight and
    /// of the root of trust.
    pub open spec fn tables_wf(&self) -> bool {
        &&& self.rot_data is Some ==> self.boot_info is Some
        &&& self.operations@.len() == max_operations(self.hw_info.security_level)
        &&& forall|i: int, j: int|
            #![trigger self.operations@[i], self.operations@[j]]
            0 <= i < self.operations@.len() && 0 <= j < self.operations@.len()
                && self.operations@[i] is Some && self.operations@[j] is Some
                && self.operations@[i]->Some_0.handle == self.operations@[j]->Some_0.handle ==> i
                == j
        &&& forall|i: int|
            0 <= i < self.operations@.len() && (#[trigger] self.operations@[i]) is Some
                && self.operations@[i]->Some_0.presence_required ==> self.presence_required_op
                == Some(self.operations@[i]->Some_0.handle)
    }

    /// A new trusted application: in early boot, unlocked, with nothing
    /// latched and no operation in flight. It describes its remote
    /// provisioning as version 3, from what it is told about its hardware.
    pub fn new(
        hw_info: HardwareInfo,
        imp: CryptoImplementation<P>,
        dev: DeviceImplementation<P>,
    ) -> (r: KeyMintTa<P>)
        ensures
            r.wf(),
            r.hw_info == hw_info,
            r.rpc_info == RpcInfo::V3(
                RpcInfoV3 {
                    author_name: hw_info.author_name,
                    unique_id: hw_info.unique_id,
                    fused: hw_info.fused,
                    supported_num_of_keys_in_csr: MINIMUM_SUPPORTED_KEYS_IN_CSR,
                },
            ),
            r.imp == imp,
            r.dev == dev,
            r.in_early_boot,
            r.device_locked == LockState::Unlocked,
            r.shared_secret_params is None,
            r.boot_info is None,
            r.rot_data is None,
            r.hal_info is None,
            r.attestation_id_info is None,
            forall|i: int| 0 <= i < 4 ==> r.attestation_chain_info@[i] is None,
            r.hmac_key is None,
            r.presence_required_op is None,
            forall|i: int| 0 <= i < r.operations@.len() ==> r.operations@[i] is None,
            forall|i: int| 0 <= i < r.use_count@.len() ==> r.use_count@[i] is None,
    {
        let max_operations = if hw_info.security_level == SecurityLevel::Strongbox {
            MAX_STRONGBOX_OPERATIONS
        } else {
            MAX_TEE_OPERATIONS
        };
        let mut operations: Vec<Option<Operation>> = Vec::new();
        let mut i: usize = 0;
        while i < max_operations
            invariant
                i <= max_operations,
                operations@.len() == i,
                forall|j: int| 0 <= j < i ==> operations@[j] is None,
            decreases max_operations - i,
        {
            operations.push(None);
            i += 1;
        }
        KeyMintTa {
            imp,
            dev,
            in_early_boot: true,
            device_locked: LockState::Unlocked,
            hmac_key: None,
            rot_challenge: [0u8;16],
            operations,
            use_count: [None;32],
            presence_required_op: None,
            shared_secret_params: None,
            rpc_info: RpcInfo::V3(
                RpcInfoV3 {
                    author_name: hw_info.author_name,
                    unique_id: hw_info.unique_id,
                    fused: hw_info.fused,
                    supported_num_of_keys_in_csr: MINIMUM_SUPPORTED_KEYS_IN_CSR,
                },
            ),
            hw_info,
            boot_info: None,
            rot_data: None,
            hal_info: None,
            attestation_chain_info: [None, None, None, None],
            attestation_id_info: None,
        }
    }

    /// Checks that the state is well-formed. Code that has put a state
    /// together by hand, rather than by [`Self::new`] and the requests,
    /// calls this before it hands the state a request.
    pub fn well_formed(&self) -> (r: bool)
        ensures
            r == self.wf(),
    {
        if self.rot_data.is_some() && self.boot_info.is_none() {
            return false;
        }
        let max_operations = if self.hw_info.security_level == SecurityLevel::Strongbox {
            MAX_STRONGBOX_OPERATIONS
        } else {
            MAX_TEE_OPERATIONS
        };
        if self.operations.len() != max_operations {
            return false;
        }
        let mut i: usize = 0;
        while i < self.operations.len()
            invariant
                i <= self.operations@.len(),
                forall|a: int, b: int|
                    #![trigger self.operations@[a], self.operations@[b]]
                    0 <= a < i && 0 <= b < self.operations@.len() && self.operations@[a] is Some
                        && self.operations@[b] is Some && self.operations@[a]->Some_0.handle
                        == self.operations@[b]->Some_0.handle ==> a == b,
                forall|a: int|
                    0 <= a < i && (#[trigger] self.operations@[a]) is Some
                        && self.operations@[a]->Some_0.presence_required
                        ==> self.presence_required_op == Some(self.operations@[a]->Some_0.handle),
            decreases self.operations@.len() - i,
        {
            match &self.operations[i] {
                None => {},
                Some(op) => {
                    if op.presence_required {
                        let recorded = match &self.presence_required_op {
                            Some(handle) => handle.0 == op.handle.0,
                            None => false,
                        };
                        if !recorded {
                            return false;
                        }
                    }
                    let mut j: usize = 0;
                    while j < self.operations.len()
                        invariant
                            j <= self.operations@.len(),
                            i < self.operations@.len(),
                            self.operations@[i as int] == Some(*op),
                            forall|b: int|
                                0 <= b < j && (#[trigger] self.operations@[b]) is Some
                                    && self.operations@[b]->Some_0.handle == op.handle ==> b == i,
                        decreases self.operations@.len() - j,
                    {
                        if j != i {
                            let same = match &self.operations[j] {
                                Some(other) => other.handle.0 == op.handle.0,
                                None => false,
                            };
                            if same {
                                return false;
                            }
                        }
                        j += 1;
                    }
                },
            }
            i += 1;
        }
        assert(self.tables_wf());
        match &self.presence_required_op {
            None => true,
            Some(handle) => {
                let mut k: usize = 0;
                while k < self.operations.len()
                    invariant
                        k <= self.operations@.len(),
                        self.presence_required_op == Some(*handle),
                        self.tables_wf(),
                        forall|a: int|
                            0 <= a < k ==> !waits_for_presence(self.operations@, *handle, a),
                    decreases self.operations@.len() - k,
                {
                    let recorded = match &self.operations[k] {
                        Some(op) => op.handle.0 == handle.0 && op.presence_required,
                        None => false,
                    };
                    if recorded {
                        assert(waits_for_presence(
                            self.operations@,
                            self.presence_required_op->Some_0,
                            k as int,
                        ));
                        return true;
                    }
                    k += 1;
                }
                false
            },
        }
    }

    /// Whether this device acts as a StrongBox.
    pub open spec fn is_strongbox_spec(&self) -> bool {
        self.hw_info.security_level == SecurityLevel::Strongbox
    }

    /// Whether this device acts as a StrongBox.
    pub fn is_strongbox(&self) -> (r: bool)
        ensures
            r == self.is_strongbox_spec(),
    {
        self.hw_info.security_level == SecurityLevel::Strongbox
    }

    /// Whether this device has secure storage.
    pub fn secure_storage_available(&self) -> (r: bool)
        ensures
            r == self.dev.sdd_mgr is Some,
    {
        self.dev.sdd_mgr.is_some()
    }

    /// Takes the boot information that the bootloader reports.
    ///
    /// The first report during early boot is latched, and with it the bytes
    /// of the root of trust that keyblobs are bound to. A later report, and
    /// any report after early boot has ended, changes nothing.
    pub fn set_boot_info(&mut self, boot_info: BootInfo)
        ensures
            old(self).in_early_boot && old(self).boot_info is None ==> *final(self) == (KeyMintTa {
                boot_info: Some(boot_info),
                rot_data: final(self).rot_data,
                ..*old(self)
            }) && final(self).rot_data is Some && final(self).rot_data->Some_0@ == rot_bytes(
                boot_info,
            ),
            !(old(self).in_early_boot && old(self).boot_info is None) ==> *final(self) == *old(self),
    {
        if !self.in_early_boot {
            return ;
        }
        if self.boot_info.is_none() {
            let rot_info = boot_info.root_of_trust();
            self.boot_info = Some(boot_info);
            self.rot_data = Some(
                match rot_info.into_vec() {
                    Ok(bytes) => bytes,
                    Err(_) => rot_encoding_failure_bytes(),
                },
            );
        }
    }

    /// Takes the information that the HAL service reports. The first report
    /// is latched; a later one changes nothing.
    pub fn set_hal_info(&mut self, hal_info: HalInfo)
        ensures
            old(self).hal_info is None ==> *final(self) == (KeyMintTa {
                hal_info: Some(hal_info),
                ..*old(self)
            }),
            old(self).hal_info is Some ==> *final(self) == *old(self),
    {
        if self.hal_info.is_none() {
            self.hal_info = Some(hal_info);
        }
    }

    /// Takes the identifiers of the device from outside. They are latched
    /// where the device does not keep its identifiers itself and none have
    /// been set before; otherwise nothing changes.
    pub fn set_attestation_ids(&mut self, ids: AttestationIdInfo)
        ensures
            old(self).dev.attest_ids is None && old(self).attestation_id_info is None
                ==> *final(self) == (KeyMintTa { attestation_id_info: Some(ids), ..*old(self) }),
            !(old(self).dev.attest_ids is None && old(self).attestation_id_info is None)
                ==> *final(self) == *old(self),
    {
        if self.dev.attest_ids.is_some() {
        } else if self.attestation_id_info.is_some() {
        } else {
            self.attestation_id_info = Some(ids);
        }
    }
}

/// The key under which keyblobs are identified: sixteen zero bytes.
pub open spec fn key_id_key() -> Seq<u8> {
    Seq::new(16, |i: int| 0u8)
}

/// The bytes of the identifier of a keyblob: its HMAC-SHA256 under
/// [`key_id_key`], which must have 32 bytes.
pub open spec fn key_id_of<H: Hmac>(hmac: H, keyblob: Seq<u8>) -> Result<Seq<u8>, Error> {
    match hmac.mac(key_id_key(), keyblob) {
        Err(e) => Err(e),
        Ok(tag) => if tag.len() == 32 {
            Ok(tag)
        } else {
            Err(Error::Hal(ErrorCode::UnknownError))
        },
    }
}

/// Whether entry `i` of the table counts the uses of the key `key_id`.
pub open spec fn counts_key(table: Seq<Option<UseCount>>, key_id: KeyId, i: int) -> bool {
    0 <= i < table.len() && table[i] is Some && table[i]->Some_0.key_id.0@ == key_id.0@
}

/// The first entry at or after `from` that counts the uses of `key_id`.
pub open spec fn first_with_key(table: Seq<Option<UseCount>>, key_id: KeyId, from: int) -> Option<
    int,
>
    decreases table.len() - from,
{
    if from < 0 || from >= table.len() {
        None
    } else if counts_key(table, key_id, from) {
        Some(from)
    } else {
        first_with_key(table, key_id, from + 1)
    }
}

/// The first free entry at or after `from`.
pub open spec fn first_free(table: Seq<Option<UseCount>>, from: int) -> Option<int>
    decreases table.len() - from,
{
    if from < 0 || from >= table.len() {
        None
    } else if table[from] is None {
        Some(from)
    } else {
        first_free(table, from + 1)
    }
}

/// An entry found by [`first_with_key`] counts the uses of the key, and an
/// entry found by [`first_free`] is free.
pub proof fn lemma_found_entries(table: Seq<Option<UseCount>>, key_id: KeyId, from: int)
    requires
        0 <= from,
    ensures
        first_with_key(table, key_id, from) matches Some(i) ==> from <= i && counts_key(
            table,
            key_id,
            i,
        ),
        first_free(table, from) matches Some(i) ==> from <= i < table.len() && table[i] is None,
    decreases table.len() - from,
{
    if from < table.len() {
        lemma_found_entries(table, key_id, from + 1);
    }
}

/// The entry in which a use of `key_id` is counted: the first entry that
/// counts its uses already, else the first free entry.
pub open spec fn use_count_slot(table: Seq<Option<UseCount>>, key_id: KeyId) -> Option<int> {
    match first_with_key(table, key_id, 0) {
        Some(i) => Some(i),
        None => first_free(table, 0),
    }
}

/// What counting one more use of `key_id` does to the table, and whether
/// the use is allowed.
///
/// Without an entry for the key and without a free entry the table stays as
/// it is and the use is refused with `TooManyOperations`. Otherwise the key
/// has its entry, a new one starting at zero: a count that has reached
/// `max_uses` stays and the use is refused with `KeyMaxOpsExceeded`; a
/// smaller count grows by one.
pub open spec fn counted_use(table: Seq<Option<UseCount>>, key_id: KeyId, max_uses: u32) -> (
    Seq<Option<UseCount>>,
    Result<(), Error>,
) {
    match use_count_slot(table, key_id) {
        None => (table, Err(Error::Hal(ErrorCode::TooManyOperations))),
        Some(i) => {
            let count = match table[i] {
                Some(u) => u.count,
                None => 0,
            };
            if count >= max_uses {
                (
                    table.update(i, Some(UseCount { key_id, count })),
                    Err(Error::Hal(ErrorCode::KeyMaxOpsExceeded)),
                )
            } else {
                (table.update(i, Some(UseCount { key_id, count: (count + 1) as u64 })), Ok(()))
            }
        },
    }
}

/// The table after `n` uses of the key `key_id` have been asked for, one
/// after the other.
pub open spec fn after_uses(
    table: Seq<Option<UseCount>>,
    key_id: KeyId,
    max_uses: u32,
    n: nat,
) -> Seq<Option<UseCount>>
    decreases n,
{
    if n == 0 {
        table
    } else {
        counted_use(after_uses(table, key_id, max_uses, (n - 1) as nat), key_id, max_uses).0
    }
}

/// The search for the entry of a key finds the first entry that counts its
/// uses, and finds none only where there is none.
pub proof fn lemma_first_with_key(table: Seq<Option<UseCount>>, key_id: KeyId, from: int)
    requires
        0 <= from,
    ensures
        match first_with_key(table, key_id, from) {
            Some(i) => from <= i && counts_key(table, key_id, i) && forall|j: int|
                from <= j < i ==> !counts_key(table, key_id, j),
            None => forall|j: int| from <= j < table.len() ==> !counts_key(table, key_id, j),
        },
    decreases table.len() - from,
{
    if from < table.len() {
        lemma_first_with_key(table, key_id, from + 1);
    }
}

/// A key whose uses are limited is allowed exactly as many uses as the
/// limit says.
///
/// Take a table that does not count the uses of the key yet and has a free
/// entry. After `n` uses of the key have been asked for, one more is allowed
/// if `n` is below the limit, and refused with `KeyMaxOpsExceeded` from then
/// on.
pub proof fn lemma_use_limit_is_enforced(
    table: Seq<Option<UseCount>>,
    key_id: KeyId,
    max_uses: u32,
    n: nat,
)
    requires
        first_with_key(table, key_id, 0) is None,
        first_free(table, 0) is Some,
    ensures
        counted_use(after_uses(table, key_id, max_uses, n), key_id, max_uses).1 == if n
            < max_uses {
            Ok::<(), Error>(())
        } else {
            Err::<(), Error>(Error::Hal(ErrorCode::KeyMaxOpsExceeded))
        },
        n > 0 ==> {
            let slot = first_free(table, 0)->Some_0;
            let now = after_uses(table, key_id, max_uses, n);
            &&& now.len() == table.len()
            &&& first_with_key(now, key_id, 0) == Some(slot)
            &&& now[slot] is Some
            &&& now[slot]->Some_0.count == if n <= max_uses {
                n as int
            } else {
                max_uses as int
            }
        },
    decreases n,
{
    let slot = first_free(table, 0)->Some_0;
    lemma_found_entries(table, key_id, 0);
    lemma_first_with_key(table, key_id, 0);
    if n == 0 {
    } else {
        lemma_use_limit_is_enforced(table, key_id, max_uses, (n - 1) as nat);
        let before = after_uses(table, key_id, max_uses, (n - 1) as nat);
        let now = after_uses(table, key_id, max_uses, n);
        lemma_first_with_key(before, key_id, 0);
        assert(use_count_slot(before, key_id) == Some(slot));
        assert(counts_key(now, key_id, slot));
        assert forall|j: int| 0 <= j < slot implies !counts_key(now, key_id, j) by {
            assert(now[j] == before[j]);
            if n == 1 {
                assert(!counts_key(table, key_id, j));
            } else {
                assert(!counts_key(before, key_id, j));
            }
        }
        lemma_first_with_key(now, key_id, 0);
    }
}

/// Whether two tables of use counts hold the same counts for the same
/// keys, entry by entry.
pub open spec fn same_counts(a: Seq<Option<UseCount>>, b: Seq<Option<UseCount>>) -> bool {
    &&& a.len() == b.len()
    &&& forall|i: int|
        0 <= i < a.len() ==> match (#[trigger] a[i], b[i]) {
            (None, None) => true,
            (Some(x), Some(y)) => x.key_id.0@ == y.key_id.0@ && x.count == y.count,
            _ => false,
        }
}

impl<P: Platform> KeyMintTa<P> {
    /// The identifiers of the device, where they are known. Where they are
    /// not known yet and the device keeps them itself, they are fetched and
    /// latched; a failure to fetch them leaves them unknown.
    pub fn get_attestation_ids(&mut self) -> (r: Option<AttestationIdInfo>)
        ensures
            *final(self) == (KeyMintTa {
                attestation_id_info: final(self).attestation_id_info,
                ..*old(self)
            }),
            old(self).attestation_id_info is Some ==> final(self).attestation_id_info == old(self).attestation_id_info,
            old(self).attestation_id_info is None && old(self).dev.attest_ids is None ==> final(self).attestation_id_info is None,
            match r {
                None => final(self).attestation_id_info is None,
                Some(ids) => final(self).attestation_id_info is Some && ids@ == final(self).attestation_id_info->Some_0@,
            },
    {
        if self.attestation_id_info.is_none() {
            match &self.dev.attest_ids {
                Some(get_ids_impl) => match get_ids_impl.get() {
                    Ok(ids) => {
                        self.attestation_id_info = Some(ids);
                    },
                    Err(_) => {},
                },
                None => {},
            }
        }
        match &self.attestation_id_info {
            None => None,
            Some(ids) => Some(ids.duplicate()),
        }
    }

    /// Adds entropy of the caller to the random number generator. More than
    /// 2048 bytes are refused with `InvalidInputLength`, and then nothing
    /// changes.
    pub fn add_rng_entropy(&mut self, data: &[u8]) -> (r: Result<(), Error>)
        ensures
            data@.len() > MAX_ENTROPY_LEN ==> r == Err::<(), Error>(
                Error::Hal(ErrorCode::InvalidInputLength),
            ) && *final(self) == *old(self),
            data@.len() <= MAX_ENTROPY_LEN ==> r is Ok && *final(self) == (KeyMintTa {
                imp: CryptoImplementation { rng: final(self).imp.rng, ..old(self).imp },
                ..*old(self)
            }),
    {
        if data.len() > MAX_ENTROPY_LEN {
            return Err(Error::Hal(ErrorCode::InvalidInputLength));
        }
        self.imp.rng.add_entropy(data);
        Ok(())
    }

    /// Records that early boot is over. It stays over.
    pub fn early_boot_ended(&mut self) -> (r: Result<(), Error>)
        ensures
            r is Ok,
            *final(self) == (KeyMintTa { in_early_boot: false, ..*old(self) }),
    {
        self.in_early_boot = false;
        Ok(())
    }

    /// Describes this implementation to the host. A time stamp token is
    /// required exactly when there is no clock inside the secure
    /// environment.
    pub fn get_hardware_info(&self) -> (r: Result<KeyMintHardwareInfo, Error>)
        ensures
            r matches Ok(info) && info@.version_number == self.hw_info.version_number
                && info@.security_level == self.hw_info.security_level && info@.key_mint_name
                == self.hw_info.impl_name@ && info@.key_mint_author_name
                == self.hw_info.author_name@ && info@.timestamp_token_required
                == self.imp.clock is None,
    {
        Ok(
            KeyMintHardwareInfo {
                version_number: self.hw_info.version_number,
                security_level: self.hw_info.security_level,
                key_mint_name: self.hw_info.impl_name.to_owned(),
                key_mint_author_name: self.hw_info.author_name.to_owned(),
                timestamp_token_required: self.imp.clock.is_none(),
            },
        )
    }

    /// Deletes a key: where the bytes are a keyblob that names a slot of
    /// secure storage and there is a manager, the manager is asked to delete
    /// the secrets of that slot. The request succeeds whatever the bytes
    /// hold and whatever the manager answers; nothing but the secrets of the
    /// named slot can change.
    pub fn delete_key(&mut self, keyblob: &[u8]) -> (r: Result<(), Error>)
        ensures
            r is Ok,
            *final(self) == (KeyMintTa {
                dev: DeviceImplementation { sdd_mgr: final(self).dev.sdd_mgr, ..old(self).dev },
                ..*old(self)
            }),
            match (EncryptedKeyBlobView::parse(keyblob@), old(self).dev.sdd_mgr) {
                (Ok(blob), Some(before)) => match blob.secure_deletion_slot() {
                    Some(slot) => final(self).dev.sdd_mgr is Some && forall|s: SecureDeletionSlot|
                        s != slot ==> final(self).dev.sdd_mgr->Some_0.secret(s) == before.secret(
                            s,
                        ),
                    None => final(self).dev.sdd_mgr == old(self).dev.sdd_mgr,
                },
                _ => final(self).dev.sdd_mgr == old(self).dev.sdd_mgr,
            },
    {
        match EncryptedKeyBlob::new(keyblob) {
            Ok(EncryptedKeyBlob::V1(encrypted_keyblob)) => {
                match encrypted_keyblob.secure_deletion_slot {
                    Some(slot) => match &mut self.dev.sdd_mgr {
                        Some(sdd_mgr) => {
                            let _ = sdd_mgr.delete_secret(slot);
                        },
                        None => {},
                    },
                    None => {},
                }
            },
            Err(_) => {},
        }
        Ok(())
    }

    /// Deletes all keys that need secure storage: where there is a manager,
    /// it deletes the secrets of every slot.
    pub fn delete_all_keys(&mut self) -> (r: Result<(), Error>)
        ensures
            r is Ok,
            *final(self) == (KeyMintTa {
                dev: DeviceImplementation { sdd_mgr: final(self).dev.sdd_mgr, ..old(self).dev },
                ..*old(self)
            }),
            match old(self).dev.sdd_mgr {
                Some(_) => final(self).dev.sdd_mgr is Some && forall|s: SecureDeletionSlot|
                    final(self).dev.sdd_mgr->Some_0.secret(s) is Err,
                None => final(self).dev.sdd_mgr is None,
            },
    {
        match &mut self.dev.sdd_mgr {
            Some(sdd_mgr) => {
                sdd_mgr.delete_all();
            },
            None => {},
        }
        Ok(())
    }

    /// Destroys the identifiers of the device. Fails with `Unimplemented`
    /// where the device does not keep its identifiers itself; otherwise
    /// the answer is that of the device.
    pub fn destroy_attestation_ids(&mut self) -> (r: Result<(), Error>)
        ensures
            *final(self) == (KeyMintTa {
                dev: DeviceImplementation {
                    attest_ids: final(self).dev.attest_ids,
                    ..old(self).dev
                },
                ..*old(self)
            }),
            old(self).dev.attest_ids is None ==> r == Err::<(), Error>(
                Error::Hal(ErrorCode::Unimplemented),
            ) && final(self).dev.attest_ids is None,
            old(self).dev.attest_ids is Some ==> final(self).dev.attest_ids is Some,
    {
        match &mut self.dev.attest_ids {
            Some(attest_ids) => attest_ids.destroy_all(),
            None => Err(Error::Hal(ErrorCode::Unimplemented)),
        }
    }

    /// What [`Self::device_hmac`] returns for `data`.
    pub open spec fn device_hmac_of(&self, data: Seq<u8>) -> Result<Seq<u8>, Error> {
        match self.hmac_key {
            None => Err(Error::Hal(ErrorCode::HardwareNotYetAvailable)),
            Some(key) => self.imp.hmac.mac(key@, data),
        }
    }

    /// The HMAC-SHA256 of `data` under the HMAC key of the device;
    /// `HardwareNotYetAvailable` while no key has been agreed.
    pub fn device_hmac(&self, data: &[u8]) -> (r: Result<Vec<u8>, Error>)
        ensures
            bytes_result(r) == self.device_hmac_of(data@),
    {
        match &self.hmac_key {
            None => Err(Error::Hal(ErrorCode::HardwareNotYetAvailable)),
            Some(key) => self.imp.hmac.hmac_sha256(key.as_slice(), data),
        }
    }

    /// Whether `mac` is the HMAC-SHA256 of `data` under the HMAC key of the
    /// device.
    pub fn verify_device_hmac(&self, data: &[u8], mac: &[u8]) -> (r: Result<bool, Error>)
        ensures
            r == match self.device_hmac_of(data@) {
                Err(e) => Err(e),
                Ok(remac) => Ok(mac@ == remac),
            },
    {
        match self.device_hmac(data) {
            Err(e) => Err(e),
            Ok(remac) => Ok(self.imp.compare.eq(mac, remac.as_slice())),
        }
    }

    /// The bytes of the root of trust that keyblobs are bound to;
    /// `HardwareNotYetAvailable` while no boot information has arrived.
    pub fn root_of_trust(&self) -> (r: Result<&Vec<u8>, Error>)
        ensures
            match r {
                Ok(data) => self.rot_data == Some(*data),
                Err(e) => self.rot_data is None && e == Error::Hal(
                    ErrorCode::HardwareNotYetAvailable,
                ),
            },
    {
        match &self.rot_data {
            Some(data) => Ok(data),
            None => Err(Error::Hal(ErrorCode::HardwareNotYetAvailable)),
        }
    }

    /// The root key from which the keys that encrypt keyblobs are derived.
    pub fn root_kek(&self, context: &[u8]) -> (r: Result<Vec<u8>, Error>)
        ensures
            bytes_result(r) == self.dev.keys.root_kek_of(context@),
    {
        self.dev.keys.root_kek(context)
    }

    /// The identifier of a keyblob: the HMAC-SHA256 of its bytes under a
    /// key of sixteen zero bytes. Fails with `UnknownError` where the HMAC
    /// does not have 32 bytes.
    pub fn key_id(&self, keyblob: &[u8]) -> (r: Result<KeyId, Error>)
        ensures
            match r {
                Ok(id) => key_id_of(self.imp.hmac, keyblob@) == Ok::<Seq<u8>, Error>(id.0@),
                Err(e) => key_id_of(self.imp.hmac, keyblob@) == Err::<Seq<u8>, Error>(e),
            },
    {
        let key: Vec<u8> = vec![0u8; 16];
        assert(key@ =~= key_id_key());
        let tag = match self.imp.hmac.hmac_sha256(key.as_slice(), keyblob) {
            Err(e) => { return Err(e); },
            Ok(tag) => tag,
        };
        match array32_from(tag.as_slice()) {
            Some(id) => Ok(KeyId(id)),
            None => Err(Error::Hal(ErrorCode::UnknownError)),
        }
    }

    /// Counts one more use of the key `key_id`, which may be used `max_uses`
    /// times: see [`counted_use`].
    pub fn update_use_count(&mut self, key_id: KeyId, max_uses: u32) -> (r: Result<(), Error>)
        ensures
            *final(self) == (KeyMintTa { use_count: final(self).use_count, ..*old(self) }),
            r == counted_use(old(self).use_count@, key_id, max_uses).1,
            same_counts(
                final(self).use_count@,
                counted_use(old(self).use_count@, key_id, max_uses).0,
            ),
    {
        let mut free_idx: Option<usize> = None;
        let mut slot_idx: Option<usize> = None;
        let mut idx: usize = 0;
        let ghost table = self.use_count@;
        while idx < MAX_USE_COUNTED_KEYS && slot_idx.is_none()
            invariant
                idx <= 32,
                table.len() == 32,
                self.use_count@ == table,
                *self == *old(self),
                match slot_idx {
                    None => first_with_key(table, key_id, 0) == first_with_key(
                        table,
                        key_id,
                        idx as int,
                    ),
                    Some(i) => first_with_key(table, key_id, 0) == Some(i as int) && i < 32,
                },
                match free_idx {
                    None => first_free(table, 0) == first_free(table, idx as int),
                    Some(f) => first_free(table, 0) == Some(f as int) && f < 32,
                },
            decreases 32 - idx + (if slot_idx is None { 1int } else { 0int }),
        {
            match &self.use_count[idx] {
                None => {
                    if free_idx.is_none() {
                        free_idx = Some(idx);
                    }
                    idx += 1;
                },
                Some(u) => {
                    if bytes_equal(u.key_id.0.as_slice(), key_id.0.as_slice()) {
                        slot_idx = Some(idx);
                    } else {
                        idx += 1;
                    }
                },
            }
        }
        let ghost target = use_count_slot(table, key_id);
        proof {
            lemma_found_entries(table, key_id, 0);
        }
        assert(match slot_idx {
            Some(i) => target == Some(i as int),
            None => target == first_free(table, 0) && match free_idx {
                Some(f) => target == Some(f as int),
                None => target is None,
            },
        });
        if slot_idx.is_none() {
            match free_idx {
                Some(idx) => {
                    self.use_count[idx] = Some(UseCount { key_id, count: 0 });
                    slot_idx = Some(idx);
                },
                None => {},
            }
        }
        match slot_idx {
            Some(idx) => {
                let count = match &self.use_count[idx] {
                    Some(u) => u.count,
                    None => 0,
                };
                assert(count == match table[idx as int] {
                    Some(u) => u.count,
                    None => 0,
                });
                if count >= max_uses as u64 {
                    assert(same_counts(
                        self.use_count@,
                        table.update(idx as int, Some(UseCount { key_id, count })),
                    ));
                    Err(Error::Hal(ErrorCode::KeyMaxOpsExceeded))
                } else {
                    self.use_count[idx] = Some(UseCount { key_id, count: count + 1 });
                    assert(same_counts(
                        self.use_count@,
                        table.update(
                            idx as int,
                            Some(UseCount { key_id, count: (count + 1) as u64 }),
                        ),
                    ));
                    Ok(())
                }
            },
            None => {
                assert(same_counts(self.use_count@, table));
                Err(Error::Hal(ErrorCode::TooManyOperations))
            },
        }
    }
}

/// The bytes bound into keyblobs where the root of trust cannot be encoded.
pub fn rot_encoding_failure_bytes() -> (r: Vec<u8>)
    ensures
        r@ == rot_encoding_failure(),
{
    let text: [u8; 46] = [
        0x49, 0x6e, 0x74, 0x65, 0x72, 0x6e, 0x61, 0x6c, 0x20, 0x65, 0x72, 0x72, 0x6f, 0x72, 0x21,
        0x20, 0x46, 0x61, 0x69, 0x6c, 0x65, 0x64, 0x20, 0x74, 0x6f, 0x20, 0x65, 0x6e, 0x63, 0x6f,
        0x64, 0x65, 0x20, 0x72, 0x6f, 0x6f, 0x74, 0x2d, 0x6f, 0x66, 0x2d, 0x74, 0x72, 0x75, 0x73,
        0x74,
    ];
    assert(text@ =~= rot_encoding_failure());
    copy_bytes(text.as_slice())
}

} // verus!
