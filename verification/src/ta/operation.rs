//! The operations in flight: how one is begun, fed and finished.

use crate::bytes::{array12_from, copy_bytes, read_be_u64, u64_as_i64};
use crate::cbor::views;
use crate::crypto::{Aes, ConstTimeEq, Hmac, KeyMaterial, KeyMaterialView, Rng};
use crate::device::{CryptoImplementation, Platform};
use crate::error::{bytes_result, Error};
use crate::keyblob::authorizations_at;
use crate::ta::{
    waits_for_presence, counted_use, key_id_of, same_counts, KeyId, KeyMintTa, OpHandle, Operation, OperationView,
    UseCount,
};
use crate::wire::keymint::{ErrorCode, KeyPurpose};
use crate::wire::params::{KeyParam, KeyParamView};
use crate::wire::types::{HardwareAuthToken, InternalBeginResult};
use vstd::prelude::*;

verus! {

/// Index of the first free entry of the table at or after `from`.
pub open spec fn first_empty(ops: Seq<Option<Operation>>, from: int) -> Option<int>
    decreases ops.len() - from,
{
    if from < 0 || from >= ops.len() {
        None
    } else if ops[from] is None {
        Some(from)
    } else {
        first_empty(ops, from + 1)
    }
}

/// Index of the first operation at or after `from` that has the handle.
pub open spec fn index_of_handle(ops: Seq<Option<Operation>>, handle: OpHandle, from: int) -> Option<
    int,
>
    decreases ops.len() - from,
{
    if from < 0 || from >= ops.len() {
        None
    } else if ops[from] is Some && ops[from]->Some_0.handle == handle {
        Some(from)
    } else {
        index_of_handle(ops, handle, from + 1)
    }
}

/// What the two searches of the table find: a free entry is free, an
/// operation found has the handle, and where none is found none is there.
pub proof fn lemma_table_search(ops: Seq<Option<Operation>>, handle: OpHandle, from: int)
    requires
        0 <= from,
    ensures
        match first_empty(ops, from) {
            Some(i) => from <= i < ops.len() && ops[i] is None,
            None => forall|j: int| from <= j < ops.len() ==> (#[trigger] ops[j]) is Some,
        },
        match index_of_handle(ops, handle, from) {
            Some(i) => from <= i < ops.len() && ops[i] is Some && ops[i]->Some_0.handle == handle,
            None => forall|j: int|
                from <= j < ops.len() && (#[trigger] ops[j]) is Some ==> ops[j]->Some_0.handle
                    != handle,
        },
    decreases ops.len() - from,
{
    if from < ops.len() {
        lemma_table_search(ops, handle, from + 1);
    }
}

/// The nonce among the parameters of a caller: that of the first parameter
/// that carries one.
pub open spec fn nonce_param(params: Seq<KeyParamView>) -> Option<Seq<u8>>
    decreases params.len(),
{
    if params.len() == 0 {
        None
    } else {
        match params[0] {
            KeyParamView::Nonce(n) => Some(n),
            _ => nonce_param(params.drop_first()),
        }
    }
}

/// The length of the tag among the parameters of a caller, in bits.
pub open spec fn mac_length_param(params: Seq<KeyParamView>) -> Option<u32>
    decreases params.len(),
{
    if params.len() == 0 {
        None
    } else {
        match params[0] {
            KeyParamView::MacLength(n) => Some(n),
            _ => mac_length_param(params.drop_first()),
        }
    }
}

/// The number of uses that the parameters of a key allow: that of the first
/// parameter that limits the uses of the key, for good or per boot.
pub open spec fn use_limit(params: Seq<KeyParamView>) -> Option<u32>
    decreases params.len(),
{
    if params.len() == 0 {
        None
    } else {
        match params[0] {
            KeyParamView::UsageCountLimit(n) => Some(n),
            KeyParamView::MaxUsesPerBoot(n) => Some(n),
            _ => use_limit(params.drop_first()),
        }
    }
}

/// Whether the parameters of a key ask for a proof of user presence.
pub open spec fn needs_presence(params: Seq<KeyParamView>) -> bool {
    params.contains(KeyParamView::TrustedUserPresenceRequired)
}

/// The nonce among `params`, if there is one.
fn find_nonce(params: &[KeyParam]) -> (r: Option<Vec<u8>>)
    ensures
        match r {
            Some(n) => nonce_param(views(params@)) == Some(n@),
            None => nonce_param(views(params@)) is None,
        },
{
    let mut i: usize = 0;
    assert(views(params@).skip(0) =~= views(params@));
    while i < params.len()
        invariant
            i <= params.len(),
            nonce_param(views(params@)) == nonce_param(views(params@).skip(i as int)),
        decreases params.len() - i,
    {
        let ghost rest = views(params@).skip(i as int);
        assert(rest[0] == params@[i as int]@);
        assert(rest.drop_first() =~= views(params@).skip(i as int + 1));
        match &params[i] {
            KeyParam::Nonce(n) => {
                return Some(copy_bytes(n.as_slice()));
            },
            _ => {},
        }
        i += 1;
    }
    None
}

/// The length of the tag among `params`, if there is one.
fn find_mac_length(params: &[KeyParam]) -> (r: Option<u32>)
    ensures
        r == mac_length_param(views(params@)),
{
    let mut i: usize = 0;
    assert(views(params@).skip(0) =~= views(params@));
    while i < params.len()
        invariant
            i <= params.len(),
            mac_length_param(views(params@)) == mac_length_param(views(params@).skip(i as int)),
        decreases params.len() - i,
    {
        let ghost rest = views(params@).skip(i as int);
        assert(rest[0] == params@[i as int]@);
        assert(rest.drop_first() =~= views(params@).skip(i as int + 1));
        match &params[i] {
            KeyParam::MacLength(n) => {
                return Some(*n);
            },
            _ => {},
        }
        i += 1;
    }
    None
}

/// The number of uses that `params` allow, if they limit it.
fn find_use_limit(params: &[KeyParam]) -> (r: Option<u32>)
    ensures
        r == use_limit(views(params@)),
{
    let mut i: usize = 0;
    assert(views(params@).skip(0) =~= views(params@));
    while i < params.len()
        invariant
            i <= params.len(),
            use_limit(views(params@)) == use_limit(views(params@).skip(i as int)),
        decreases params.len() - i,
    {
        let ghost rest = views(params@).skip(i as int);
        assert(rest[0] == params@[i as int]@);
        assert(rest.drop_first() =~= views(params@).skip(i as int + 1));
        match &params[i] {
            KeyParam::UsageCountLimit(n) => {
                return Some(*n);
            },
            KeyParam::MaxUsesPerBoot(n) => {
                return Some(*n);
            },
            _ => {},
        }
        i += 1;
    }
    None
}

/// Whether `params` ask for a proof of user presence.
fn asks_for_presence(params: &[KeyParam]) -> (r: bool)
    ensures
        r == needs_presence(views(params@)),
{
    let mut i: usize = 0;
    while i < params.len()
        invariant
            i <= params.len(),
            forall|j: int|
                0 <= j < i ==> views(params@)[j] != KeyParamView::TrustedUserPresenceRequired,
        decreases params.len() - i,
    {
        assert(views(params@)[i as int] == params@[i as int]@);
        match &params[i] {
            KeyParam::TrustedUserPresenceRequired => {
                return true;
            },
            _ => {},
        }
        i += 1;
    }
    false
}

/// What an operation is begun with, once the request has been found to be
/// in order.
pub ghost struct BeginPlan {
    /// Index of the entry of the table that the operation takes.
    pub index: int,
    pub key_material: KeyMaterialView,
    /// The nonce that the caller gave.
    pub nonce: Option<Seq<u8>>,
    pub mac_length: Option<u32>,
    pub presence_required: bool,
    /// The number of uses that the key allows, where it limits them.
    pub use_limit: Option<u32>,
}

/// Whether a length of a tag in bits can be asked of HMAC-SHA256.
pub open spec fn mac_length_supported(bits: u32) -> bool {
    bits % 8 == 0 && 64 <= bits <= 256
}

/// What the key and the purpose ask of the parameters of the caller.
///
/// An operation with an AES key encrypts or decrypts; its nonce has twelve
/// bytes, and decryption needs one. An operation with an HMAC key signs or
/// verifies, and signing needs the length of the tag. No other key can be
/// used in an operation.
pub open spec fn operation_params(
    key_material: KeyMaterialView,
    purpose: KeyPurpose,
    params: Seq<KeyParamView>,
) -> Result<(Option<Seq<u8>>, Option<u32>), Error> {
    match key_material {
        KeyMaterialView::Aes(_) => if purpose == KeyPurpose::Encrypt || purpose
            == KeyPurpose::Decrypt {
            match nonce_param(params) {
                Some(n) => if n.len() == 12 {
                    Ok((Some(n), None))
                } else {
                    Err(Error::Hal(ErrorCode::InvalidNonce))
                },
                None => if purpose == KeyPurpose::Decrypt {
                    Err(Error::Hal(ErrorCode::MissingNonce))
                } else {
                    Ok((None, None))
                },
            }
        } else {
            Err(Error::Hal(ErrorCode::UnsupportedPurpose))
        },
        KeyMaterialView::Hmac(_) => if purpose == KeyPurpose::Sign {
            match mac_length_param(params) {
                Some(bits) => if mac_length_supported(bits) {
                    Ok((None, Some(bits)))
                } else {
                    Err(Error::Hal(ErrorCode::UnsupportedMacLength))
                },
                None => Err(Error::Hal(ErrorCode::MissingMacLength)),
            }
        } else if purpose == KeyPurpose::Verify {
            Ok((None, None))
        } else {
            Err(Error::Hal(ErrorCode::UnsupportedPurpose))
        },
        _ => Err(Error::Hal(ErrorCode::UnsupportedAlgorithm)),
    }
}

/// Reads from the parameters of the caller what the key and the purpose
/// ask of them.
fn plan_params(key_material: &KeyMaterial, purpose: KeyPurpose, params: &[KeyParam]) -> (r: Result<
    (Option<[u8; 12]>, Option<u32>),
    Error,
>)
    ensures
        match r {
            Ok((nonce, mac_length)) => operation_params(key_material@, purpose, views(params@))
                == Ok::<(Option<Seq<u8>>, Option<u32>), Error>(
                (
                    match nonce {
                        Some(n) => Some(n@),
                        None => None,
                    },
                    mac_length,
                ),
            ),
            Err(e) => operation_params(key_material@, purpose, views(params@)) == Err::<
                (Option<Seq<u8>>, Option<u32>),
                Error,
            >(e),
        },
{
    match key_material {
        KeyMaterial::Aes(_) => {
            let encrypts = match purpose {
                KeyPurpose::Encrypt => true,
                _ => false,
            };
            let decrypts = match purpose {
                KeyPurpose::Decrypt => true,
                _ => false,
            };
            if encrypts || decrypts {
                match find_nonce(params) {
                    Some(n) => match array12_from(n.as_slice()) {
                        Some(nonce) => Ok((Some(nonce), None)),
                        None => Err(Error::Hal(ErrorCode::InvalidNonce)),
                    },
                    None => if decrypts {
                        Err(Error::Hal(ErrorCode::MissingNonce))
                    } else {
                        Ok((None, None))
                    },
                }
            } else {
                Err(Error::Hal(ErrorCode::UnsupportedPurpose))
            }
        },
        KeyMaterial::Hmac(_) => match purpose {
            KeyPurpose::Sign => match find_mac_length(params) {
                Some(bits) => if bits % 8 == 0 && 64 <= bits && bits <= 256 {
                    Ok((None, Some(bits)))
                } else {
                    Err(Error::Hal(ErrorCode::UnsupportedMacLength))
                },
                None => Err(Error::Hal(ErrorCode::MissingMacLength)),
            },
            KeyPurpose::Verify => Ok((None, None)),
            _ => Err(Error::Hal(ErrorCode::UnsupportedPurpose)),
        },
        _ => Err(Error::Hal(ErrorCode::UnsupportedAlgorithm)),
    }
}

/// The output of an operation with an HMAC key that signs: the first bytes
/// of the tag, as many as the length asked for.
pub open spec fn truncated_tag(tag: Seq<u8>, mac_length: Option<u32>) -> Result<Seq<u8>, Error> {
    match mac_length {
        None => Ok(tag),
        Some(bits) => if bits / 8 <= tag.len() {
            Ok(tag.take((bits / 8) as int))
        } else {
            Err(Error::Hal(ErrorCode::UnsupportedMacLength))
        },
    }
}

/// What finishing an operation returns, for the input and the signature
/// that come with the request.
///
/// An operation with an AES key seals or opens all the input it has been
/// given, with the additional data it has been given, under its nonce; a
/// ciphertext that the cipher refuses gives `VerificationFailed`. An
/// operation that signs returns the tag of all the input, cut to the length
/// asked for. An operation that verifies compares the signature with the
/// first bytes of the tag and returns nothing; a signature that is empty,
/// too long or different gives `VerificationFailed`.
pub open spec fn finished<A: Aes, H: Hmac>(
    aes: A,
    hmac: H,
    op: OperationView,
    input: Option<Seq<u8>>,
    signature: Option<Seq<u8>>,
) -> Result<Seq<u8>, Error> {
    let data = match input {
        Some(i) => op.data + i,
        None => op.data,
    };
    match op.key_material {
        KeyMaterialView::Aes(key) => match op.nonce {
            None => Err(Error::Hal(ErrorCode::MissingNonce)),
            Some(nonce) => if op.purpose == KeyPurpose::Encrypt {
                aes.gcm_sealed(key, nonce, op.aad, data)
            } else if op.purpose == KeyPurpose::Decrypt {
                match aes.gcm_opened(key, nonce, op.aad, data) {
                    Err(_) => Err(Error::Hal(ErrorCode::VerificationFailed)),
                    Ok(plaintext) => Ok(plaintext),
                }
            } else {
                Err(Error::Hal(ErrorCode::UnsupportedPurpose))
            },
        },
        KeyMaterialView::Hmac(key) => if op.purpose == KeyPurpose::Sign {
            match hmac.mac(key, data) {
                Err(e) => Err(e),
                Ok(tag) => truncated_tag(tag, op.mac_length),
            }
        } else if op.purpose == KeyPurpose::Verify {
            match signature {
                None => Err(Error::Hal(ErrorCode::VerificationFailed)),
                Some(sig) => match hmac.mac(key, data) {
                    Err(e) => Err(e),
                    Ok(tag) => if 0 < sig.len() <= tag.len() && tag.take(sig.len() as int)
                        == sig {
                        Ok(Seq::empty())
                    } else {
                        Err(Error::Hal(ErrorCode::VerificationFailed))
                    },
                },
            }
        } else {
            Err(Error::Hal(ErrorCode::UnsupportedPurpose))
        },
        _ => Err(Error::Hal(ErrorCode::UnsupportedAlgorithm)),
    }
}

/// The first `n` bytes of `bytes`.
fn prefix(bytes: &[u8], n: usize) -> (r: Vec<u8>)
    requires
        n <= bytes@.len(),
    ensures
        r@ == bytes@.take(n as int),
{
    let mut out: Vec<u8> = Vec::new();
    let mut i: usize = 0;
    while i < n
        invariant
            i <= n,
            n <= bytes@.len(),
            out@ == bytes@.take(i as int),
        decreases n - i,
    {
        out.push(bytes[i]);
        assert(out@ =~= bytes@.take(i as int + 1));
        i += 1;
    }
    out
}

/// Runs the cryptographic step that finishes an operation.
fn finish_operation<A: Aes, H: Hmac, E: ConstTimeEq>(
    aes: &A,
    hmac: &H,
    compare: &E,
    op: Operation,
    input: Option<&[u8]>,
    signature: Option<&[u8]>,
) -> (r: Result<Vec<u8>, Error>)
    ensures
        bytes_result(r) == finished(
            *aes,
            *hmac,
            op@,
            match input {
                Some(i) => Some(i@),
                None => None,
            },
            match signature {
                Some(s) => Some(s@),
                None => None,
            },
        ),
{
    let ghost all_input = match input {
        Some(i) => op@.data + i@,
        None => op@.data,
    };
    let Operation { handle: _, purpose, key_material, nonce, mac_length, presence_required: _, aad, data } =
        op;
    let mut data = data;
    match input {
        Some(i) => {
            data.extend_from_slice(i);
        },
        None => {},
    }
    assert(data@ == all_input);
    match &key_material {
        KeyMaterial::Aes(key) => match &nonce {
            None => Err(Error::Hal(ErrorCode::MissingNonce)),
            Some(nonce) => match purpose {
                KeyPurpose::Encrypt => aes.gcm_encrypt(
                    key,
                    nonce,
                    aad.as_slice(),
                    data.as_slice(),
                ),
                KeyPurpose::Decrypt => match aes.gcm_decrypt(
                    key,
                    nonce,
                    aad.as_slice(),
                    data.as_slice(),
                ) {
                    Err(_) => Err(Error::Hal(ErrorCode::VerificationFailed)),
                    Ok(plaintext) => Ok(plaintext),
                },
                _ => Err(Error::Hal(ErrorCode::UnsupportedPurpose)),
            },
        },
        KeyMaterial::Hmac(key) => match purpose {
            KeyPurpose::Sign => match hmac.hmac_sha256(key.as_slice(), data.as_slice()) {
                Err(e) => Err(e),
                Ok(tag) => match mac_length {
                    None => Ok(tag),
                    Some(bits) => {
                        let n = (bits / 8) as usize;
                        if n <= tag.len() {
                            Ok(prefix(tag.as_slice(), n))
                        } else {
                            Err(Error::Hal(ErrorCode::UnsupportedMacLength))
                        }
                    },
                },
            },
            KeyPurpose::Verify => match signature {
                None => Err(Error::Hal(ErrorCode::VerificationFailed)),
                Some(sig) => match hmac.hmac_sha256(key.as_slice(), data.as_slice()) {
                    Err(e) => Err(e),
                    Ok(tag) => {
                        if 0 < sig.len() && sig.len() <= tag.len() {
                            let expected = prefix(tag.as_slice(), sig.len());
                            if compare.eq(sig, expected.as_slice()) {
                                let nothing: Vec<u8> = Vec::new();
                                assert(nothing@ =~= Seq::<u8>::empty());
                                Ok(nothing)
                            } else {
                                Err(Error::Hal(ErrorCode::VerificationFailed))
                            }
                        } else {
                            Err(Error::Hal(ErrorCode::VerificationFailed))
                        }
                    },
                },
            },
            _ => Err(Error::Hal(ErrorCode::UnsupportedPurpose)),
        },
        _ => Err(Error::Hal(ErrorCode::UnsupportedAlgorithm)),
    }
}

/// Number of handles that are drawn before the search for an unused one is
/// given up.
pub const MAX_HANDLE_DRAWS: usize = 8;

/// Whether the table `after` is the table `before` with the operation at
/// `index` replaced by one whose content is `op`.
pub open spec fn table_with(
    before: Seq<Option<Operation>>,
    after: Seq<Option<Operation>>,
    index: int,
    op: Option<OperationView>,
) -> bool {
    &&& after.len() == before.len()
    &&& 0 <= index < before.len()
    &&& forall|j: int| 0 <= j < before.len() && j != index ==> #[trigger] after[j] == before[j]
    &&& match (after[index], op) {
        (Some(a), Some(o)) => a@ == o,
        (None, None) => true,
        _ => false,
    }
}

/// Whether the use of a key has been counted as its limit asks, on the way
/// from the table `before` to the table `after`, and `failure` is the error
/// that the count gives, if it gives one.
///
/// A key without a limit leaves the table alone. For a key with a limit,
/// one more use of the key that the bytes of the keyblob identify is
/// counted as [`counted_use`] says; a key that cannot be identified leaves
/// the table alone and gives the error of the identification.
pub open spec fn use_counted<H: Hmac>(
    hmac: H,
    key_blob: Seq<u8>,
    limit: Option<u32>,
    before: Seq<Option<UseCount>>,
    after: Seq<Option<UseCount>>,
    failure: Option<Error>,
) -> bool {
    match limit {
        None => after == before && failure is None,
        Some(max_uses) => match key_id_of(hmac, key_blob) {
            Err(e) => after == before && failure == Some(e),
            Ok(id) => exists|key_id: KeyId|
                {
                    &&& key_id.0@ == id
                    &&& same_counts(after, #[trigger] counted_use(before, key_id, max_uses).0)
                    &&& failure == match counted_use(before, key_id, max_uses).1 {
                        Ok(()) => None,
                        Err(e) => Some(e),
                    }
                },
        },
    }
}

/// Entering an operation into a free entry of the table keeps the state
/// well-formed, where no operation in flight has its handle, and where it
/// is recorded as the one that needs a proof of user presence if it needs
/// one, which no other operation does then.
proof fn lemma_entering_keeps_wf<P: Platform>(before: KeyMintTa<P>, after: KeyMintTa<P>, index: int)
    requires
        before.wf(),
        0 <= index < before.operations@.len(),
        before.operations@[index] is None,
        after.operations@.len() == before.operations@.len(),
        after.operations@[index] is Some,
        forall|j: int|
            0 <= j < before.operations@.len() && j != index
                ==> #[trigger] after.operations@[j] == before.operations@[j],
        forall|j: int|
            0 <= j < before.operations@.len() && (#[trigger] before.operations@[j]) is Some
                ==> before.operations@[j]->Some_0.handle
                != after.operations@[index]->Some_0.handle,
        after.hw_info == before.hw_info,
        after.rot_data == before.rot_data,
        after.boot_info == before.boot_info,
        after.operations@[index]->Some_0.presence_required
            ==> before.presence_required_op is None,
        after.presence_required_op == if after.operations@[index]->Some_0.presence_required {
            Some(after.operations@[index]->Some_0.handle)
        } else {
            before.presence_required_op
        },
    ensures
        after.wf(),
{
    let entered = after.operations@[index]->Some_0;
    assert forall|i: int, j: int|
        #![trigger after.operations@[i], after.operations@[j]]
        0 <= i < after.operations@.len() && 0 <= j < after.operations@.len()
            && after.operations@[i] is Some && after.operations@[j] is Some
            && after.operations@[i]->Some_0.handle
            == after.operations@[j]->Some_0.handle implies i == j by {
        if i != index && j != index {
            assert(after.operations@[i] == before.operations@[i]);
            assert(after.operations@[j] == before.operations@[j]);
        } else if i != index {
            assert(after.operations@[i] == before.operations@[i]);
        } else if j != index {
            assert(after.operations@[j] == before.operations@[j]);
        }
    }
    assert forall|i: int|
        0 <= i < after.operations@.len() && (#[trigger] after.operations@[i]) is Some
            && after.operations@[i]->Some_0.presence_required implies after.presence_required_op
        == Some(after.operations@[i]->Some_0.handle) by {
        if i != index {
            assert(after.operations@[i] == before.operations@[i]);
        }
    }
    if entered.presence_required {
        assert(waits_for_presence(
            after.operations@,
            after.presence_required_op->Some_0,
            index,
        ));
    } else if before.presence_required_op is Some {
        let handle = before.presence_required_op->Some_0;
        let j = choose|j: int| waits_for_presence(before.operations@, handle, j);
        assert(after.operations@[j] == before.operations@[j]);
        assert(waits_for_presence(after.operations@, after.presence_required_op->Some_0, j));
    }
}

impl<P: Platform> KeyMintTa<P> {
    /// The first free entry of the table of operations; `TooManyOperations`
    /// where every entry is taken.
    pub fn new_operation_index(&self) -> (r: Result<usize, Error>)
        ensures
            match r {
                Ok(i) => first_empty(self.operations@, 0) == Some(i as int),
                Err(e) => first_empty(self.operations@, 0) is None && e == Error::Hal(
                    ErrorCode::TooManyOperations,
                ),
            },
    {
        let mut i: usize = 0;
        while i < self.operations.len()
            invariant
                i <= self.operations.len(),
                first_empty(self.operations@, 0) == first_empty(self.operations@, i as int),
            decreases self.operations.len() - i,
        {
            if self.operations[i].is_none() {
                return Ok(i);
            }
            i += 1;
        }
        Err(Error::Hal(ErrorCode::TooManyOperations))
    }

    /// The entry of the operation with the handle; `InvalidOperationHandle`
    /// where no operation in flight has it.
    pub fn op_index(&self, op_handle: OpHandle) -> (r: Result<usize, Error>)
        ensures
            match r {
                Ok(i) => index_of_handle(self.operations@, op_handle, 0) == Some(i as int),
                Err(e) => index_of_handle(self.operations@, op_handle, 0) is None && e
                    == Error::Hal(ErrorCode::InvalidOperationHandle),
            },
    {
        let mut i: usize = 0;
        while i < self.operations.len()
            invariant
                i <= self.operations.len(),
                index_of_handle(self.operations@, op_handle, 0) == index_of_handle(
                    self.operations@,
                    op_handle,
                    i as int,
                ),
            decreases self.operations.len() - i,
        {
            let found = match &self.operations[i] {
                Some(op) => op.handle.0 == op_handle.0,
                None => false,
            };
            if found {
                return Ok(i);
            }
            i += 1;
        }
        Err(Error::Hal(ErrorCode::InvalidOperationHandle))
    }

    /// Draws a handle that no operation in flight has. A handle that is
    /// taken is drawn again, up to eight times; then the call fails with
    /// `UnknownError`.
    pub fn new_op_handle(&mut self) -> (r: Result<OpHandle, Error>)
        ensures
            *final(self) == (KeyMintTa {
                imp: CryptoImplementation { rng: final(self).imp.rng, ..old(self).imp },
                ..*old(self)
            }),
            match r {
                Ok(handle) => index_of_handle(old(self).operations@, handle, 0) is None,
                Err(e) => e == Error::Hal(ErrorCode::UnknownError),
            },
    {
        let mut draws: usize = 0;
        while draws < MAX_HANDLE_DRAWS
            invariant
                draws <= MAX_HANDLE_DRAWS,
                *self == (KeyMintTa {
                    imp: CryptoImplementation { rng: self.imp.rng, ..old(self).imp },
                    ..*old(self)
                }),
            decreases MAX_HANDLE_DRAWS - draws,
        {
            let mut drawn: Vec<u8> = vec![0u8; 8];
            self.imp.rng.fill_bytes(&mut drawn);
            let handle = OpHandle(u64_as_i64(read_be_u64(drawn.as_slice())));
            if self.op_index(handle).is_err() {
                return Ok(handle);
            }
            draws += 1;
        }
        Err(Error::Hal(ErrorCode::UnknownError))
    }

    /// What a request to begin an operation is checked against before
    /// anything changes, and what the operation is begun with.
    ///
    /// In order: an entry of the table must be free (`TooManyOperations`);
    /// the keyblob must open; the key must allow the purpose at the level of
    /// this device; the key and the purpose must fit the parameters of the
    /// caller (see [`operation_params`]); and a key that asks for a proof of
    /// user presence is refused with `ConcurrentProofOfPresenceRequested`
    /// while another operation waits for one.
    pub open spec fn begin_plan(
        &self,
        purpose: KeyPurpose,
        key_blob: Seq<u8>,
        params: Seq<KeyParamView>,
    ) -> Result<BeginPlan, Error> {
        match first_empty(self.operations@, 0) {
            None => Err(Error::Hal(ErrorCode::TooManyOperations)),
            Some(index) => match self.keyblob_parsed_decrypted(key_blob, params) {
                Err(e) => Err(e),
                Ok((keyblob, _)) => match keyblob.suitable_for(purpose, self.hw_info.security_level) {
                    Err(e) => Err(e),
                    Ok(()) => {
                        let key_chars = authorizations_at(
                            keyblob.characteristics,
                            self.hw_info.security_level,
                        )->Some_0;
                        match operation_params(keyblob.key_material, purpose, params) {
                            Err(e) => Err(e),
                            Ok((nonce, mac_length)) => if needs_presence(key_chars)
                                && self.presence_required_op is Some {
                                Err(Error::Hal(ErrorCode::ConcurrentProofOfPresenceRequested))
                            } else {
                                Ok(
                                    BeginPlan {
                                        index,
                                        key_material: keyblob.key_material,
                                        nonce,
                                        mac_length,
                                        presence_required: needs_presence(key_chars),
                                        use_limit: use_limit(key_chars),
                                    },
                                )
                            },
                        }
                    },
                },
            },
        }
    }

    /// Whether `after` is `self` with the operation of `plan` begun, and
    /// `result` what the host is told.
    ///
    /// The operation takes the first free entry of the table, under a handle
    /// that no other operation has; no other entry changes. It has been
    /// given no data yet. Where the caller gave no nonce for an encryption,
    /// a nonce of twelve bytes has been drawn and is returned. An operation
    /// that needs a proof of user presence is recorded as the one that does.
    pub open spec fn begun(
        &self,
        after: &KeyMintTa<P>,
        plan: BeginPlan,
        purpose: KeyPurpose,
        result: crate::wire::types::InternalBeginResultView,
    ) -> bool {
        &&& after.operations@.len() == self.operations@.len()
        &&& 0 <= plan.index < self.operations@.len()
        &&& forall|j: int|
            0 <= j < self.operations@.len() && j != plan.index
                ==> #[trigger] after.operations@[j] == self.operations@[j]
        &&& after.operations@[plan.index] matches Some(op) && {
            &&& op.handle.0 == result.op_handle
            &&& result.challenge == result.op_handle
            &&& index_of_handle(self.operations@, op.handle, 0) is None
            &&& op@.purpose == purpose
            &&& op@.key_material == plan.key_material
            &&& op@.mac_length == plan.mac_length
            &&& op@.presence_required == plan.presence_required
            &&& op@.aad.len() == 0
            &&& op@.data.len() == 0
            &&& match plan.nonce {
                Some(n) => op@.nonce == Some(n) && result.params.len() == 0,
                None => match op@.nonce {
                    Some(n) => n.len() == 12 && result.params == seq![KeyParamView::Nonce(n)],
                    None => result.params.len() == 0,
                },
            }
            &&& after.presence_required_op == if plan.presence_required {
                Some(op.handle)
            } else {
                self.presence_required_op
            }
        }
    }

    /// Begins an operation with the key in a keyblob.
    ///
    /// The request is first checked as [`Self::begin_plan`] says; a request
    /// that is refused there changes nothing. Then one more use of the key
    /// is counted as [`use_counted`] says, where the key limits its uses: a
    /// key that has no uses left is refused with `KeyMaxOpsExceeded`. Last,
    /// a handle is drawn, which can fail with `UnknownError`, and the
    /// operation is entered into the table as [`Self::begun`] says. A
    /// request that fails leaves the table of operations as it was.
    pub fn begin_operation(
        &mut self,
        purpose: KeyPurpose,
        key_blob: &[u8],
        params: Vec<KeyParam>,
        auth_token: Option<HardwareAuthToken>,
    ) -> (r: Result<InternalBeginResult, Error>)
        requires
            old(self).wf(),
        ensures
            final(self).wf(),
            *final(self) == (KeyMintTa {
                imp: CryptoImplementation { rng: final(self).imp.rng, ..old(self).imp },
                operations: final(self).operations,
                use_count: final(self).use_count,
                presence_required_op: final(self).presence_required_op,
                ..*old(self)
            }),
            match old(self).begin_plan(purpose, key_blob@, views(params@)) {
                Err(e) => r is Err && r->Err_0 == e && *final(self) == *old(self),
                Ok(plan) => match r {
                    Ok(result) => old(self).begun(final(self), plan, purpose, result@)
                        && use_counted(
                        old(self).imp.hmac,
                        key_blob@,
                        plan.use_limit,
                        old(self).use_count@,
                        final(self).use_count@,
                        None,
                    ),
                    Err(e) => final(self).operations == old(self).operations && final(self).presence_required_op == old(self).presence_required_op && (use_counted(
                        old(self).imp.hmac,
                        key_blob@,
                        plan.use_limit,
                        old(self).use_count@,
                        final(self).use_count@,
                        Some(e),
                    ) || (e == Error::Hal(ErrorCode::UnknownError) && use_counted(
                        old(self).imp.hmac,
                        key_blob@,
                        plan.use_limit,
                        old(self).use_count@,
                        final(self).use_count@,
                        None,
                    ))),
                },
            },
    {
        let op_idx = match self.new_operation_index() {
            Err(e) => { return Err(e); },
            Ok(i) => i,
        };
        let (keyblob, _) = match self.keyblob_parse_decrypt(key_blob, params.as_slice()) {
            Err(e) => { return Err(e); },
            Ok(k) => k,
        };
        match keyblob.suitable_for(purpose, self.hw_info.security_level) {
            Err(e) => { return Err(e); },
            Ok(()) => {},
        }
        let (presence_required, limit) = match keyblob.characteristics_at(
            self.hw_info.security_level,
        ) {
            Err(e) => { return Err(e); },
            Ok(key_chars) => (
                asks_for_presence(key_chars.as_slice()),
                find_use_limit(key_chars.as_slice()),
            ),
        };
        let (nonce, mac_length) = match plan_params(
            &keyblob.key_material,
            purpose,
            params.as_slice(),
        ) {
            Err(e) => { return Err(e); },
            Ok(p) => p,
        };
        if presence_required && self.presence_required_op.is_some() {
            return Err(Error::Hal(ErrorCode::ConcurrentProofOfPresenceRequested));
        }
        let ghost plan = old(self).begin_plan(purpose, key_blob@, views(params@))->Ok_0;
        match limit {
            Some(max_uses) => {
                let key_id = match self.key_id(key_blob) {
                    Err(e) => { return Err(e); },
                    Ok(id) => id,
                };
                let counted = self.update_use_count(key_id, max_uses);
                assert(same_counts(
                    self.use_count@,
                    counted_use(old(self).use_count@, key_id, max_uses).0,
                ));
                match counted {
                    Err(e) => { return Err(e); },
                    Ok(()) => {},
                }
            },
            None => {},
        }
        assert(use_counted(
            old(self).imp.hmac,
            key_blob@,
            plan.use_limit,
            old(self).use_count@,
            self.use_count@,
            None,
        ));
        let op_handle = match self.new_op_handle() {
            Err(e) => { return Err(e); },
            Ok(h) => h,
        };
        let mut ret_params: Vec<KeyParam> = Vec::new();
        let aes_key = match &keyblob.key_material {
            KeyMaterial::Aes(_) => true,
            _ => false,
        };
        let nonce = match nonce {
            Some(n) => Some(n),
            None => if aes_key {
                let mut drawn: Vec<u8> = vec![0u8; 12];
                self.imp.rng.fill_bytes(&mut drawn);
                match array12_from(drawn.as_slice()) {
                    Some(n) => {
                        ret_params.push(KeyParam::Nonce(drawn));
                        Some(n)
                    },
                    None => None,
                }
            } else {
                None
            },
        };
        proof {
            lemma_table_search(old(self).operations@, op_handle, 0);
            assert(views(ret_params@) =~= match (plan.nonce, nonce) {
                (None, Some(n)) => seq![KeyParamView::Nonce(n@)],
                _ => Seq::empty(),
            });
        }
        if presence_required {
            self.presence_required_op = Some(op_handle);
        }
        self.operations[op_idx] = Some(
            Operation {
                handle: op_handle,
                purpose,
                key_material: keyblob.key_material,
                nonce,
                mac_length,
                presence_required,
                aad: Vec::new(),
                data: Vec::new(),
            },
        );
        proof {
            lemma_entering_keeps_wf(*old(self), *self, op_idx as int);
        }
        Ok(InternalBeginResult { challenge: op_handle.0, params: ret_params, op_handle: op_handle.0 })
    }

    /// Gives additional authenticated data to an operation.
    ///
    /// A handle that no operation in flight has gives
    /// `InvalidOperationHandle`. Only an operation with an AES key takes
    /// such data, and only before it has been given input: otherwise the
    /// call fails with `InvalidTag`. A call that fails changes nothing.
    pub fn op_update_aad(&mut self, op_handle: OpHandle, data: &[u8]) -> (r: Result<(), Error>)
        requires
            old(self).wf(),
        ensures
            final(self).wf(),
            *final(self) == (KeyMintTa { operations: final(self).operations, ..*old(self) }),
            match index_of_handle(old(self).operations@, op_handle, 0) {
                None => r == Err::<(), Error>(Error::Hal(ErrorCode::InvalidOperationHandle))
                    && final(self).operations == old(self).operations,
                Some(i) => {
                    let op = old(self).operations@[i]->Some_0@;
                    if op.key_material is Aes && op.data.len() == 0 {
                        r is Ok && table_with(
                            old(self).operations@,
                            final(self).operations@,
                            i,
                            Some(OperationView { aad: op.aad + data@, ..op }),
                        )
                    } else {
                        r == Err::<(), Error>(Error::Hal(ErrorCode::InvalidTag)) && final(self).operations == old(self).operations
                    }
                },
            },
    {
        let idx = match self.op_index(op_handle) {
            Err(e) => { return Err(e); },
            Ok(i) => i,
        };
        proof {
            lemma_table_search(self.operations@, op_handle, 0);
        }
        let takes_aad = match &self.operations[idx] {
            Some(op) => match &op.key_material {
                KeyMaterial::Aes(_) => op.data.len() == 0,
                _ => false,
            },
            None => false,
        };
        if !takes_aad {
            return Err(Error::Hal(ErrorCode::InvalidTag));
        }
        let ghost before = old(self).operations@[idx as int]->Some_0@;
        match &mut self.operations[idx] {
            Some(op) => {
                op.aad.extend_from_slice(data);
            },
            None => {},
        }
        proof {
            let after = self.operations@[idx as int];
            assert(after is Some);
            assert(after->Some_0@.aad == before.aad + data@);
            assert(after->Some_0@ == (OperationView { aad: before.aad + data@, ..before }));
        }
        proof {
            if old(self).presence_required_op is Some && self.presence_required_op == old(self).presence_required_op {
                let handle = old(self).presence_required_op->Some_0;
                let j = choose|j: int| waits_for_presence(old(self).operations@, handle, j);
                assert(waits_for_presence(self.operations@, handle, j));
            }
        }
        Ok(())
    }

    /// Gives input to an operation. The input is kept until the operation
    /// is finished, so nothing is returned yet. A handle that no operation
    /// in flight has gives `InvalidOperationHandle`, and then nothing
    /// changes.
    pub fn op_update(&mut self, op_handle: OpHandle, data: &[u8]) -> (r: Result<Vec<u8>, Error>)
        requires
            old(self).wf(),
        ensures
            final(self).wf(),
            *final(self) == (KeyMintTa { operations: final(self).operations, ..*old(self) }),
            match index_of_handle(old(self).operations@, op_handle, 0) {
                None => r is Err && r->Err_0 == Error::Hal(ErrorCode::InvalidOperationHandle)
                    && final(self).operations == old(self).operations,
                Some(i) => {
                    let op = old(self).operations@[i]->Some_0@;
                    r is Ok && r->Ok_0@.len() == 0 && table_with(
                        old(self).operations@,
                        final(self).operations@,
                        i,
                        Some(OperationView { data: op.data + data@, ..op }),
                    )
                },
            },
    {
        let idx = match self.op_index(op_handle) {
            Err(e) => { return Err(e); },
            Ok(i) => i,
        };
        proof {
            lemma_table_search(self.operations@, op_handle, 0);
        }
        let ghost before = old(self).operations@[idx as int]->Some_0@;
        match &mut self.operations[idx] {
            Some(op) => {
                op.data.extend_from_slice(data);
            },
            None => {},
        }
        proof {
            let after = self.operations@[idx as int];
            assert(after is Some);
            assert(after->Some_0@.data == before.data + data@);
            assert(after->Some_0@ == (OperationView { data: before.data + data@, ..before }));
        }
        proof {
            if old(self).presence_required_op is Some && self.presence_required_op == old(self).presence_required_op {
                let handle = old(self).presence_required_op->Some_0;
                let j = choose|j: int| waits_for_presence(old(self).operations@, handle, j);
                assert(waits_for_presence(self.operations@, handle, j));
            }
        }
        Ok(Vec::new())
    }

    /// Finishes an operation: the operation leaves the table, whatever the
    /// outcome, and the result is what [`finished`] says for the input and
    /// the signature given. Where the operation was the one that needed a
    /// proof of user presence, none does any more. A handle that no
    /// operation in flight has gives `InvalidOperationHandle`, and then
    /// nothing changes.
    pub fn op_finish(
        &mut self,
        op_handle: OpHandle,
        input: Option<&[u8]>,
        signature: Option<&[u8]>,
    ) -> (r: Result<Vec<u8>, Error>)
        requires
            old(self).wf(),
        ensures
            final(self).wf(),
            *final(self) == (KeyMintTa {
                operations: final(self).operations,
                presence_required_op: final(self).presence_required_op,
                ..*old(self)
            }),
            match index_of_handle(old(self).operations@, op_handle, 0) {
                None => r is Err && r->Err_0 == Error::Hal(ErrorCode::InvalidOperationHandle)
                    && *final(self) == *old(self),
                Some(i) => {
                    let op = old(self).operations@[i]->Some_0;
                    &&& bytes_result(r) == finished(
                        old(self).imp.aes,
                        old(self).imp.hmac,
                        op@,
                        match input {
                            Some(x) => Some(x@),
                            None => None,
                        },
                        match signature {
                            Some(x) => Some(x@),
                            None => None,
                        },
                    )
                    &&& table_with(old(self).operations@, final(self).operations@, i, None)
                    &&& final(self).presence_required_op == if op.presence_required {
                        None
                    } else {
                        old(self).presence_required_op
                    }
                },
            },
    {
        let idx = match self.op_index(op_handle) {
            Err(e) => { return Err(e); },
            Ok(i) => i,
        };
        proof {
            lemma_table_search(self.operations@, op_handle, 0);
        }
        match self.operations[idx].take() {
            Some(op) => {
                if op.presence_required {
                    self.presence_required_op = None;
                }
                proof {
                    if old(self).presence_required_op is Some && self.presence_required_op == old(self).presence_required_op {
                        let handle = old(self).presence_required_op->Some_0;
                        let j = choose|j: int| waits_for_presence(old(self).operations@, handle, j);
                        assert(waits_for_presence(self.operations@, handle, j));
                    }
                }
                finish_operation(
                    &self.imp.aes,
                    &self.imp.hmac,
                    &self.imp.compare,
                    op,
                    input,
                    signature,
                )
            },
            None => Err(Error::Hal(ErrorCode::InvalidOperationHandle)),
        }
    }

    /// Aborts an operation: the operation leaves the table. Where it was
    /// the one that needed a proof of user presence, none does any more. A
    /// handle that no operation in flight has gives
    /// `InvalidOperationHandle`, and then nothing changes.
    pub fn op_abort(&mut self, op_handle: OpHandle) -> (r: Result<(), Error>)
        requires
            old(self).wf(),
        ensures
            final(self).wf(),
            *final(self) == (KeyMintTa {
                operations: final(self).operations,
                presence_required_op: final(self).presence_required_op,
                ..*old(self)
            }),
            match index_of_handle(old(self).operations@, op_handle, 0) {
                None => r == Err::<(), Error>(Error::Hal(ErrorCode::InvalidOperationHandle))
                    && *final(self) == *old(self),
                Some(i) => {
                    let op = old(self).operations@[i]->Some_0;
                    &&& r is Ok
                    &&& table_with(old(self).operations@, final(self).operations@, i, None)
                    &&& final(self).presence_required_op == if op.presence_required {
                        None
                    } else {
                        old(self).presence_required_op
                    }
                },
            },
    {
        let idx = match self.op_index(op_handle) {
            Err(e) => { return Err(e); },
            Ok(i) => i,
        };
        proof {
            lemma_table_search(self.operations@, op_handle, 0);
        }
        match self.operations[idx].take() {
            Some(op) => {
                if op.presence_required {
                    self.presence_required_op = None;
                }
                proof {
                    if old(self).presence_required_op is Some && self.presence_required_op == old(self).presence_required_op {
                        let handle = old(self).presence_required_op->Some_0;
                        let j = choose|j: int| waits_for_presence(old(self).operations@, handle, j);
                        assert(waits_for_presence(self.operations@, handle, j));
                    }
                }
                Ok(())
            },
            None => Err(Error::Hal(ErrorCode::InvalidOperationHandle)),
        }
    }
}

/// At most one operation in flight needs a proof of user presence.
pub proof fn lemma_at_most_one_presence_operation<P: Platform>(ta: KeyMintTa<P>, i: int, j: int)
    requires
        ta.wf(),
        0 <= i < ta.operations@.len(),
        0 <= j < ta.operations@.len(),
        ta.operations@[i] is Some && ta.operations@[i]->Some_0.presence_required,
        ta.operations@[j] is Some && ta.operations@[j]->Some_0.presence_required,
    ensures
        i == j,
{
}

} // verus!
