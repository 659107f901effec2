//! Keyblobs: key material sealed under a key-encryption key that is derived
//! from a hardware root key and from the context that the key is bound to.

use crate::bytes::{array32_from, copy_bytes};
use crate::cbor::{
    array_of, array_value, bytes_value, encoded, fixed_bytes_of, from_outside, from_slice,
    items_of, result_view, serialized, to_outside, to_vec, tuple_of, u32_of, value_array,
    value_bytes32, value_tuple, value_u32, views, CborError, CborValue, Item,
};
use crate::crypto::{hkdf, hkdf_sha256, Aes, AesKey, Hmac, Rng};
use crate::crypto::{KeyMaterial, KeyMaterialView, PlaintextKeyMaterial};
use crate::error::Error;
use crate::wire::characteristics::{
    characteristics_from_cbor_value, characteristics_from_item, characteristics_item,
    characteristics_to_cbor_value, params_item, params_to_cbor_value, KeyCharacteristics,
    KeyCharacteristicsView,
};
use crate::wire::keymint::{ErrorCode, KeyPurpose, SecurityLevel, VerifiedBootState};
use crate::wire::params::{KeyParam, KeyParamView};
use vstd::prelude::*;

verus! {

/// CBOR tag of a `COSE_Encrypt0` structure.
pub const COSE_ENCRYPT0_TAG: u64 = 16;

/// Identifier of a slot of secure storage that holds a secure deletion
/// secret.
#[derive(Clone, Copy, Debug, PartialEq, Eq, PartialOrd, Ord, Structural)]
pub struct SecureDeletionSlot(pub u32);

impl SecureDeletionSlot {
    /// The CBOR form of a slot: the one-element array of its number.
    pub open spec fn item(self) -> Item {
        Item::Array(seq![Item::Integer(self.0 as int)])
    }

    /// What [`Self::from_cbor_value`] makes of an item.
    pub open spec fn from_item(item: Item) -> Result<SecureDeletionSlot, CborError> {
        match tuple_of(item, 1) {
            Err(e) => Err(e),
            Ok(a) => match u32_of(a[0]) {
                Err(e) => Err(e),
                Ok(n) => Ok(SecureDeletionSlot(n)),
            },
        }
    }

    /// Writes the slot as a one-element array.
    pub fn to_cbor_value(self) -> (r: CborValue)
        ensures
            r@ == self.item(),
    {
        let mut a: Vec<CborValue> = Vec::new();
        a.push(CborValue::Integer(self.0 as i128));
        assert(items_of(a@) =~= seq![Item::Integer(self.0 as int)]);
        array_value(a)
    }

    /// Reads the slot from a one-element array.
    pub fn from_cbor_value(v: &CborValue) -> (r: Result<SecureDeletionSlot, CborError>)
        ensures
            r == Self::from_item(v@),
    {
        match value_tuple(v, 1) {
            Err(e) => Err(e),
            Ok(a) => match value_u32(&a[0]) {
                Err(e) => Err(e),
                Ok(n) => Ok(SecureDeletionSlot(n)),
            },
        }
    }
}

/// The CBOR form of an optional slot: the empty array for none, the
/// one-element array of the slot's form for one.
pub open spec fn slot_option_item(slot: Option<SecureDeletionSlot>) -> Item {
    match slot {
        None => Item::Array(Seq::empty()),
        Some(s) => Item::Array(seq![s.item()]),
    }
}

/// What [`slot_option_from_cbor_value`] makes of an item.
pub open spec fn slot_option_from_item(item: Item) -> Result<
    Option<SecureDeletionSlot>,
    CborError,
> {
    match array_of(item) {
        Err(e) => Err(e),
        Ok(a) => if a.len() == 0 {
            Ok(None)
        } else if a.len() == 1 {
            match SecureDeletionSlot::from_item(a[0]) {
                Err(e) => Err(e),
                Ok(s) => Ok(Some(s)),
            }
        } else {
            Err(CborError::UnexpectedItem)
        },
    }
}

/// Writes an optional slot as an array of at most one element.
pub fn slot_option_to_cbor_value(slot: Option<SecureDeletionSlot>) -> (r: CborValue)
    ensures
        r@ == slot_option_item(slot),
{
    let mut a: Vec<CborValue> = Vec::new();
    match slot {
        None => {
            assert(items_of(a@) =~= Seq::<Item>::empty());
        },
        Some(s) => {
            a.push(s.to_cbor_value());
            assert(items_of(a@) =~= seq![s.item()]);
        },
    }
    array_value(a)
}

/// Reads an optional slot from an array of at most one element.
pub fn slot_option_from_cbor_value(v: &CborValue) -> (r: Result<
    Option<SecureDeletionSlot>,
    CborError,
>)
    ensures
        r == slot_option_from_item(v@),
{
    let a = match value_array(v) {
        Err(e) => { return Err(e); },
        Ok(a) => a,
    };
    if a.len() == 0 {
        Ok(None)
    } else if a.len() == 1 {
        assert(items_of(a@)[0] == a@[0]@);
        match SecureDeletionSlot::from_cbor_value(&a[0]) {
            Err(e) => Err(e),
            Ok(s) => Ok(Some(s)),
        }
    } else {
        Err(CborError::UnexpectedItem)
    }
}

/// Generation of the keyblob format.
#[derive(Clone, Copy, Debug, PartialEq, Eq, PartialOrd, Ord, Structural)]
pub enum Version {
    V1,
}

impl Version {
    /// The number that stands for the version on the wire.
    pub open spec fn code(self) -> int {
        match self {
            Version::V1 => 0,
        }
    }

    /// What [`Self::from_cbor_value`] makes of an item: an integer that fits
    /// 32 bits and is the number of a known version.
    pub open spec fn from_item(item: Item) -> Result<Version, CborError> {
        match crate::cbor::i32_of(item) {
            Err(e) => Err(e),
            Ok(c) => if c == 0 {
                Ok(Version::V1)
            } else {
                Err(CborError::NonEnumValue)
            },
        }
    }

    /// The integer item that holds the version's number.
    pub fn to_cbor_value(self) -> (r: CborValue)
        ensures
            r@ == Item::Integer(self.code()),
    {
        match self {
            Version::V1 => CborValue::Integer(0),
        }
    }

    /// Reads a version from an integer item.
    pub fn from_cbor_value(v: &CborValue) -> (r: Result<Version, CborError>)
        ensures
            r == Self::from_item(v@),
    {
        match crate::cbor::value_i32(v) {
            Err(e) => Err(e),
            Ok(c) => if c == 0 {
                Ok(Version::V1)
            } else {
                Err(CborError::NonEnumValue)
            },
        }
    }
}

/// An authenticated-encryption envelope, `COSE_Encrypt0` of RFC 8152.
#[derive(Debug, PartialEq, Eq)]
pub struct CoseEncrypt0 {
    /// The protected header as it is serialized inside its byte string.
    pub protected: Vec<u8>,
    /// The unprotected header, a CBOR map.
    pub unprotected: CborValue,
    /// The ciphertext followed by the authentication tag.
    pub ciphertext: Option<Vec<u8>>,
}

/// The content of a [`CoseEncrypt0`].
pub ghost struct CoseEncrypt0View {
    pub protected: Seq<u8>,
    pub unprotected: Item,
    pub ciphertext: Option<Seq<u8>>,
}

impl View for CoseEncrypt0 {
    type V = CoseEncrypt0View;

    open spec fn view(&self) -> CoseEncrypt0View {
        CoseEncrypt0View {
            protected: self.protected@,
            unprotected: self.unprotected@,
            ciphertext: match self.ciphertext {
                None => None,
                Some(c) => Some(c@),
            },
        }
    }
}

/// The envelope that `coset::CoseEncrypt0::from_cbor_value` reads from an
/// item: the bytes of the protected header, the unprotected header as
/// `coset` writes it again, and the ciphertext. There is none where `coset`
/// refuses the item, and where the item cannot be handed to `coset` or the
/// header cannot be taken back from it.
pub uninterp spec fn cose_encrypt0_read(item: Item) -> Option<CoseEncrypt0View>;

/// The item that `coset::CoseEncrypt0::to_cbor_value` writes for an
/// envelope with the given protected header bytes, once `coset` has read the
/// unprotected header. There is none where `coset` refuses the header, and
/// where the header cannot be handed to `coset` or the item cannot be taken
/// back from it.
pub uninterp spec fn cose_encrypt0_written(envelope: CoseEncrypt0View) -> Option<Item>;

/// The `Enc_structure` of RFC 8152 for the context `Encrypt0`: the array of
/// the context text, the serialized protected header and the external data.
pub open spec fn enc_structure_item(protected: Seq<u8>, external_aad: Seq<u8>) -> Item {
    Item::Array(
        seq![Item::Text("Encrypt0"@), Item::Bytes(protected), Item::Bytes(external_aad)],
    )
}

/// The bytes of the `Enc_structure`, which the cipher authenticates
/// together with the ciphertext.
pub open spec fn enc_structure(protected: Seq<u8>, external_aad: Seq<u8>) -> Seq<u8> {
    match serialized(enc_structure_item(protected, external_aad)) {
        Some(bytes) => bytes,
        None => Seq::empty(),
    }
}

/// Serialized protected header that names the algorithm A256GCM: the map
/// from label 1 to the value 3.
pub open spec fn a256gcm_header() -> Seq<u8> {
    seq![0xa1u8, 0x01u8, 0x03u8]
}

/// Calls `coset::CoseEncrypt0::from_cbor_value` on the item and hands back
/// the three parts of the envelope. The contract names the outcome
/// [`cose_encrypt0_read`]; it claims nothing of what `coset` accepts.
#[verifier::external_body]
fn cose_encrypt0_from_value(v: &CborValue) -> (r: Option<CoseEncrypt0>)
    ensures
        match r {
            Some(c) => cose_encrypt0_read(v@) == Some(c@),
            None => cose_encrypt0_read(v@).is_none(),
        },
{
    let c = <coset::CoseEncrypt0 as coset::AsCborValue>::from_cbor_value(to_outside(v)?).ok()?;
    let unprotected = from_outside(coset::AsCborValue::to_cbor_value(c.unprotected).ok()?)?;
    Some(CoseEncrypt0 { protected: c.protected.original_data?, unprotected, ciphertext: c.ciphertext })
}

/// Reads the unprotected header with `coset::Header::from_cbor_value`, puts
/// the parts into a `coset::CoseEncrypt0` and calls its `to_cbor_value`. The
/// contract names the outcome [`cose_encrypt0_written`].
#[verifier::external_body]
fn cose_encrypt0_to_value(c: &CoseEncrypt0) -> (r: Option<CborValue>)
    ensures
        match r {
            Some(v) => cose_encrypt0_written(c@) == Some(v@),
            None => cose_encrypt0_written(c@).is_none(),
        },
{
    let unprotected = <coset::Header as coset::AsCborValue>::from_cbor_value(to_outside(&c.unprotected)?).ok()?;
    let protected = coset::ProtectedHeader { original_data: Some(c.protected.clone()), header: Default::default() };
    let outside = coset::CoseEncrypt0 { protected, unprotected, ciphertext: c.ciphertext.clone() };
    from_outside(coset::AsCborValue::to_cbor_value(outside).ok()?)
}

/// Calls `coset::enc_structure_data` for the context `Encrypt0`. The
/// protected header is handed over as its serialized bytes, which `coset`
/// then uses as they are. `coset` puts the context text, those bytes and the
/// external data into an array and writes the array with
/// `ciborium::ser::into_writer`, which cannot fail for such an array: the
/// result is what [`serialized`] gives for [`enc_structure_item`].
#[verifier::external_body]
fn enc_structure_data(protected: &[u8], external_aad: &[u8]) -> (r: Vec<u8>)
    ensures
        serialized(enc_structure_item(protected@, external_aad@)) == Some(r@),
{
    let header = coset::ProtectedHeader { original_data: Some(protected.to_vec()), header: Default::default() };
    coset::enc_structure_data(coset::EncryptionContext::CoseEncrypt0, header, external_aad)
}

/// Builds a header that names the algorithm A256GCM with
/// `coset::HeaderBuilder` and serializes it as `coset` does for a protected
/// header. By RFC 8152 the algorithm has label 1 and A256GCM the value 3,
/// so the bytes are the one-entry map `a1 01 03`; `coset` cannot fail to
/// write a header that holds nothing but an assigned algorithm.
#[verifier::external_body]
fn a256gcm_protected_header() -> (r: Vec<u8>)
    ensures
        r@ == a256gcm_header(),
{
    let header = coset::HeaderBuilder::new().algorithm(coset::iana::Algorithm::A256GCM).build();
    coset::CborSerializable::to_vec(header).unwrap_or_default()
}

impl CoseEncrypt0View {
    /// The CBOR form of an envelope: tag 16 around what `coset` writes.
    pub open spec fn item(self) -> Result<Item, CborError> {
        match cose_encrypt0_written(self) {
            None => Err(CborError::EncodeFailed),
            Some(inner) => Ok(Item::Tag(COSE_ENCRYPT0_TAG as nat, Box::new(inner))),
        }
    }

    /// What [`CoseEncrypt0::from_cbor_value`] makes of an item: the envelope
    /// that `coset` reads inside tag 16. Another tag, an item without a tag
    /// and an item that `coset` refuses all give `UnexpectedItem`.
    pub open spec fn from_item(item: Item) -> Result<CoseEncrypt0View, CborError> {
        match item {
            Item::Tag(tag, inner) => if tag == COSE_ENCRYPT0_TAG {
                match cose_encrypt0_read(*inner) {
                    None => Err(CborError::UnexpectedItem),
                    Some(c) => Ok(c),
                }
            } else {
                Err(CborError::UnexpectedItem)
            },
            _ => Err(CborError::UnexpectedItem),
        }
    }
}

impl CoseEncrypt0 {
    /// The CDDL description of the type: a `Cose_Encrypt0` inside tag 16.
    pub fn cddl_schema() -> (r: Option<String>)
        ensures
            r matches Some(schema) && schema@ == "#6.16(Cose_Encrypt0)"@,
    {
        Some("#6.16(Cose_Encrypt0)".to_owned())
    }

    /// Writes the envelope inside tag 16; `EncodeFailed` where the
    /// unprotected header is not a header.
    pub fn to_cbor_value(&self) -> (r: Result<CborValue, CborError>)
        ensures
            result_view(r) == self@.item(),
    {
        match cose_encrypt0_to_value(self) {
            None => Err(CborError::EncodeFailed),
            Some(inner) => Ok(CborValue::Tag(COSE_ENCRYPT0_TAG, Box::new(inner))),
        }
    }

    /// Reads an envelope, which must come inside tag 16.
    pub fn from_cbor_value(v: &CborValue) -> (r: Result<CoseEncrypt0, CborError>)
        ensures
            result_view(r) == CoseEncrypt0View::from_item(v@),
    {
        match v {
            CborValue::Tag(tag, inner) => if *tag == COSE_ENCRYPT0_TAG {
                match cose_encrypt0_from_value(inner) {
                    None => Err(CborError::UnexpectedItem),
                    Some(c) => Ok(c),
                }
            } else {
                Err(CborError::UnexpectedItem)
            },
            _ => Err(CborError::UnexpectedItem),
        }
    }
}

/// Encrypted key material with what is needed to decrypt it again.
#[derive(Debug, PartialEq, Eq)]
pub struct EncryptedKeyBlobV1 {
    /// Characteristics associated with the key.
    pub characteristics: Vec<KeyCharacteristics>,
    /// Random input to the derivation of the key-encryption key.
    pub key_derivation_input: [u8; 32],
    /// The encoded key material, encrypted with AES-GCM under the derived
    /// key with a nonce of zeroes.
    pub encrypted_key_material: CoseEncrypt0,
    /// Slot of secure storage that holds further secrets which enter the
    /// derivation of the key-encryption key.
    pub secure_deletion_slot: Option<SecureDeletionSlot>,
}

/// The content of an [`EncryptedKeyBlobV1`].
pub ghost struct EncryptedKeyBlobV1View {
    pub characteristics: Seq<KeyCharacteristicsView>,
    /// The 32 bytes of the derivation input.
    pub key_derivation_input: Seq<u8>,
    pub encrypted_key_material: CoseEncrypt0View,
    pub secure_deletion_slot: Option<SecureDeletionSlot>,
}

impl View for EncryptedKeyBlobV1 {
    type V = EncryptedKeyBlobV1View;

    open spec fn view(&self) -> EncryptedKeyBlobV1View {
        EncryptedKeyBlobV1View {
            characteristics: views(self.characteristics@),
            key_derivation_input: self.key_derivation_input@,
            encrypted_key_material: self.encrypted_key_material@,
            secure_deletion_slot: self.secure_deletion_slot,
        }
    }
}

impl EncryptedKeyBlobV1View {
    /// Whether the derivation input has its 32 bytes. The view of every
    /// [`EncryptedKeyBlobV1`] is well-formed.
    pub open spec fn wf(self) -> bool {
        self.key_derivation_input.len() == 32
    }

    /// The CBOR form: the array of characteristics, derivation input,
    /// envelope and optional slot. There is none where the envelope cannot
    /// be written.
    pub open spec fn item(self) -> Result<Item, CborError> {
        match self.encrypted_key_material.item() {
            Err(e) => Err(e),
            Ok(envelope) => Ok(
                Item::Array(
                    seq![
                        characteristics_item(self.characteristics),
                        Item::Bytes(self.key_derivation_input),
                        envelope,
                        slot_option_item(self.secure_deletion_slot),
                    ],
                ),
            ),
        }
    }

    /// What [`EncryptedKeyBlobV1::from_cbor_value`] makes of an item: an
    /// array of exactly four elements, read in order; the derivation input
    /// must have exactly 32 bytes.
    pub open spec fn from_item(item: Item) -> Result<EncryptedKeyBlobV1View, CborError> {
        match tuple_of(item, 4) {
            Err(e) => Err(e),
            Ok(a) => match characteristics_from_item(a[0]) {
                Err(e) => Err(e),
                Ok(characteristics) => match fixed_bytes_of(a[1], 32) {
                    Err(e) => Err(e),
                    Ok(key_derivation_input) => match CoseEncrypt0View::from_item(a[2]) {
                        Err(e) => Err(e),
                        Ok(encrypted_key_material) => match slot_option_from_item(a[3]) {
                            Err(e) => Err(e),
                            Ok(secure_deletion_slot) => Ok(
                                EncryptedKeyBlobV1View {
                                    characteristics,
                                    key_derivation_input,
                                    encrypted_key_material,
                                    secure_deletion_slot,
                                },
                            ),
                        },
                    },
                },
            },
        }
    }
}

impl EncryptedKeyBlobV1 {
    /// Writes the keyblob as an array of four elements.
    pub fn to_cbor_value(&self) -> (r: Result<CborValue, CborError>)
        ensures
            result_view(r) == self@.item(),
    {
        let envelope = match self.encrypted_key_material.to_cbor_value() {
            Err(e) => { return Err(e); },
            Ok(envelope) => envelope,
        };
        let mut a: Vec<CborValue> = Vec::new();
        a.push(characteristics_to_cbor_value(&self.characteristics));
        a.push(bytes_value(self.key_derivation_input.as_slice()));
        a.push(envelope);
        a.push(slot_option_to_cbor_value(self.secure_deletion_slot));
        assert(items_of(a@) =~= seq![
            characteristics_item(self@.characteristics),
            Item::Bytes(self@.key_derivation_input),
            self@.encrypted_key_material.item()->Ok_0,
            slot_option_item(self@.secure_deletion_slot),
        ]);
        Ok(array_value(a))
    }

    /// Reads a keyblob from an array of four elements.
    pub fn from_cbor_value(v: &CborValue) -> (r: Result<EncryptedKeyBlobV1, CborError>)
        ensures
            result_view(r) == EncryptedKeyBlobV1View::from_item(v@),
    {
        let a = match value_tuple(v, 4) {
            Err(e) => { return Err(e); },
            Ok(a) => a,
        };
        assert(items_of(a@)[0] == a@[0]@);
        assert(items_of(a@)[1] == a@[1]@);
        assert(items_of(a@)[2] == a@[2]@);
        assert(items_of(a@)[3] == a@[3]@);
        let characteristics = match characteristics_from_cbor_value(&a[0]) {
            Err(e) => { return Err(e); },
            Ok(c) => c,
        };
        let key_derivation_input = match value_bytes32(&a[1]) {
            Err(e) => { return Err(e); },
            Ok(k) => k,
        };
        let encrypted_key_material = match CoseEncrypt0::from_cbor_value(&a[2]) {
            Err(e) => { return Err(e); },
            Ok(c) => c,
        };
        match slot_option_from_cbor_value(&a[3]) {
            Err(e) => Err(e),
            Ok(secure_deletion_slot) => Ok(
                EncryptedKeyBlobV1 {
                    characteristics,
                    key_derivation_input,
                    encrypted_key_material,
                    secure_deletion_slot,
                },
            ),
        }
    }
}

/// Encrypted key material, in any version of the format.
#[derive(Debug, PartialEq, Eq)]
pub enum EncryptedKeyBlob {
    V1(EncryptedKeyBlobV1),
}

/// The content of an [`EncryptedKeyBlob`].
pub ghost enum EncryptedKeyBlobView {
    V1(EncryptedKeyBlobV1View),
}

impl View for EncryptedKeyBlob {
    type V = EncryptedKeyBlobView;

    open spec fn view(&self) -> EncryptedKeyBlobView {
        match self {
            EncryptedKeyBlob::V1(inner) => EncryptedKeyBlobView::V1(inner@),
        }
    }
}

impl EncryptedKeyBlobView {
    /// The CBOR form: the version number, then the keyblob of that version.
    pub open spec fn item(self) -> Result<Item, CborError> {
        match self {
            EncryptedKeyBlobView::V1(inner) => match inner.item() {
                Err(e) => Err(e),
                Ok(inner) => Ok(Item::Array(seq![Item::Integer(Version::V1.code()), inner])),
            },
        }
    }

    /// What [`EncryptedKeyBlob::from_cbor_value`] makes of an item: an array
    /// of exactly two elements, a known version and the keyblob of that
    /// version.
    pub open spec fn from_item(item: Item) -> Result<EncryptedKeyBlobView, CborError> {
        match tuple_of(item, 2) {
            Err(e) => Err(e),
            Ok(a) => match Version::from_item(a[0]) {
                Err(e) => Err(e),
                Ok(Version::V1) => match EncryptedKeyBlobV1View::from_item(a[1]) {
                    Err(e) => Err(e),
                    Ok(inner) => Ok(EncryptedKeyBlobView::V1(inner)),
                },
            },
        }
    }

    /// What [`EncryptedKeyBlob::new`] makes of bytes: the keyblob that they
    /// hold, or `InvalidKeyBlob` where they are not the CBOR form of one.
    pub open spec fn parse(bytes: Seq<u8>) -> Result<EncryptedKeyBlobView, Error> {
        match crate::cbor::decoded(bytes) {
            Err(_) => Err(Error::Hal(ErrorCode::InvalidKeyBlob)),
            Ok(item) => match Self::from_item(item) {
                Err(_) => Err(Error::Hal(ErrorCode::InvalidKeyBlob)),
                Ok(blob) => Ok(blob),
            },
        }
    }

    /// The bytes of the keyblob, as [`EncryptedKeyBlob::into_vec`] gives
    /// them.
    pub open spec fn bytes(self) -> Result<Seq<u8>, CborError> {
        match self.item() {
            Err(e) => Err(e),
            Ok(item) => encoded(item),
        }
    }

    /// The slot of secure storage that the keyblob is bound to.
    pub open spec fn secure_deletion_slot(self) -> Option<SecureDeletionSlot> {
        match self {
            EncryptedKeyBlobView::V1(inner) => inner.secure_deletion_slot,
        }
    }
}

/// A result with the value it holds on success replaced by its view.
pub open spec fn view_of<T: View>(r: Result<T, Error>) -> Result<T::V, Error> {
    match r {
        Ok(x) => Ok(x@),
        Err(e) => Err(e),
    }
}

impl EncryptedKeyBlob {
    /// Reads a keyblob from the array of version and content.
    pub fn from_cbor_value(v: &CborValue) -> (r: Result<EncryptedKeyBlob, CborError>)
        ensures
            result_view(r) == EncryptedKeyBlobView::from_item(v@),
    {
        let a = match value_tuple(v, 2) {
            Err(e) => { return Err(e); },
            Ok(a) => a,
        };
        assert(items_of(a@)[0] == a@[0]@);
        assert(items_of(a@)[1] == a@[1]@);
        let version = match Version::from_cbor_value(&a[0]) {
            Err(e) => { return Err(e); },
            Ok(version) => version,
        };
        match version {
            Version::V1 => match EncryptedKeyBlobV1::from_cbor_value(&a[1]) {
                Err(e) => Err(e),
                Ok(inner) => Ok(EncryptedKeyBlob::V1(inner)),
            },
        }
    }

    /// Writes the keyblob as the array of version and content.
    pub fn to_cbor_value(&self) -> (r: Result<CborValue, CborError>)
        ensures
            result_view(r) == self@.item(),
    {
        match self {
            EncryptedKeyBlob::V1(inner) => {
                let inner = match inner.to_cbor_value() {
                    Err(e) => { return Err(e); },
                    Ok(inner) => inner,
                };
                let ghost inner_item = inner@;
                let mut a: Vec<CborValue> = Vec::new();
                a.push(Version::V1.to_cbor_value());
                a.push(inner);
                assert(items_of(a@) =~= seq![Item::Integer(Version::V1.code()), inner_item]);
                Ok(array_value(a))
            },
        }
    }

    /// The name of the type in the CDDL description of the wire format.
    pub fn cddl_typename() -> (r: Option<String>)
        ensures
            r matches Some(name) && name@ == "EncryptedKeyBlob"@,
    {
        Some("EncryptedKeyBlob".to_owned())
    }

    /// The CDDL description of the type: a choice with one alternative for
    /// each version, the array of the version's number and its keyblob.
    pub fn cddl_schema() -> (r: Option<String>)
        ensures
            r matches Some(schema) && schema@
                == "&(\n    [0, EncryptedKeyBlobV1] ; Version::V1\n)"@,
    {
        Some("&(\n    [0, EncryptedKeyBlobV1] ; Version::V1\n)".to_owned())
    }

    /// Reads a keyblob from bytes that come from outside the secure
    /// environment. Whatever the bytes hold, the outcome is a keyblob or the
    /// error `InvalidKeyBlob`.
    pub fn new(data: &[u8]) -> (r: Result<EncryptedKeyBlob, Error>)
        ensures
            view_of(r) == EncryptedKeyBlobView::parse(data@),
    {
        match from_slice(data) {
            Err(_) => Err(Error::Hal(ErrorCode::InvalidKeyBlob)),
            Ok(v) => match Self::from_cbor_value(&v) {
                Err(_) => Err(Error::Hal(ErrorCode::InvalidKeyBlob)),
                Ok(blob) => Ok(blob),
            },
        }
    }

    /// Serializes the keyblob.
    pub fn into_vec(&self) -> (r: Result<Vec<u8>, CborError>)
        ensures
            match r {
                Ok(bytes) => self@.bytes() == Ok::<Seq<u8>, CborError>(bytes@),
                Err(e) => self@.bytes() == Err::<Seq<u8>, CborError>(e),
            },
    {
        match self.to_cbor_value() {
            Err(e) => Err(e),
            Ok(v) => to_vec(&v),
        }
    }

    /// The slot of secure storage that the keyblob is bound to.
    pub fn secure_deletion_slot(&self) -> (r: Option<SecureDeletionSlot>)
        ensures
            r == self@.secure_deletion_slot(),
    {
        match self {
            EncryptedKeyBlob::V1(inner) => inner.secure_deletion_slot,
        }
    }
}

/// Secrets that enter the derivation of the key-encryption key of a key
/// that needs secure deletion. Once they are lost the key cannot be derived
/// again, and so the keyblob cannot be decrypted.
#[derive(Clone, Copy, Debug, PartialEq, Eq)]
pub struct SecureDeletionData {
    /// Secret that is wiped on factory reset.
    pub factory_reset_secret: [u8; 32],
    /// Secret of one key, wiped when the key is deleted.
    pub secure_deletion_secret: [u8; 16],
}

impl SecureDeletionData {
    /// The CBOR form: the array of the two secrets.
    pub open spec fn item(self) -> Item {
        Item::Array(
            seq![
                Item::Bytes(self.factory_reset_secret@),
                Item::Bytes(self.secure_deletion_secret@),
            ],
        )
    }

    /// Writes the secrets as an array of two byte strings.
    pub fn to_cbor_value(&self) -> (r: CborValue)
        ensures
            r@ == self.item(),
    {
        let mut a: Vec<CborValue> = Vec::new();
        a.push(bytes_value(self.factory_reset_secret.as_slice()));
        a.push(bytes_value(self.secure_deletion_secret.as_slice()));
        assert(items_of(a@) =~= seq![
            Item::Bytes(self.factory_reset_secret@),
            Item::Bytes(self.secure_deletion_secret@),
        ]);
        array_value(a)
    }
}

/// Keeper of the secure deletion secrets, one for each slot in use.
pub trait SecureDeletionSecretManager {
    /// What [`Self::get_secret`] returns for `slot` in this state: the
    /// secrets of a slot in use, an error for an empty one.
    spec fn secret(&self, slot: SecureDeletionSlot) -> Result<SecureDeletionData, Error>;

    /// Finds an empty slot and fills it with fresh secrets. On success the
    /// slot was empty and now holds the secrets returned; no other slot
    /// changes. On failure no slot changes.
    fn new_secret<R: Rng>(&mut self, rng: &mut R) -> (r: Result<
        (SecureDeletionSlot, SecureDeletionData),
        Error,
    >)
        ensures
            match r {
                Ok((slot, sdd)) => {
                    &&& old(self).secret(slot) is Err
                    &&& final(self).secret(slot) == Ok::<SecureDeletionData, Error>(sdd)
                    &&& forall|s: SecureDeletionSlot|
                        s != slot ==> final(self).secret(s) == old(self).secret(s)
                },
                Err(_) => forall|s: SecureDeletionSlot|
                    final(self).secret(s) == old(self).secret(s),
            },
    ;

    /// The secrets of `slot`.
    fn get_secret(&self, slot: SecureDeletionSlot) -> (r: Result<SecureDeletionData, Error>)
        ensures
            r == self.secret(slot),
    ;

    /// Deletes the secrets of `slot`. No other slot changes, and after a
    /// success the slot is empty.
    fn delete_secret(&mut self, slot: SecureDeletionSlot) -> (r: Result<(), Error>)
        ensures
            forall|s: SecureDeletionSlot|
                s != slot ==> final(self).secret(s) == old(self).secret(s),
            r is Ok ==> final(self).secret(slot) is Err,
    ;

    /// Deletes the secrets of every slot.
    fn delete_all(&mut self)
        ensures
            forall|s: SecureDeletionSlot| final(self).secret(s) is Err,
    ;
}

/// Holder of a slot that has been reserved and is not yet part of a keyblob.
/// Whoever holds it ends the reservation in one of two ways: [`consume`]
/// takes the slot over, [`release`] gives it back to the manager.
///
/// [`consume`]: SlotHolder::consume
/// [`release`]: SlotHolder::release
pub struct SlotHolder<'a, M: SecureDeletionSecretManager> {
    pub mgr: &'a mut M,
    pub slot: SecureDeletionSlot,
}

impl<'a, M: SecureDeletionSecretManager> SlotHolder<'a, M> {
    /// Reserves a new slot. On success the holder carries the slot, which was
    /// empty before and now holds the secrets returned; on failure the
    /// manager's error is returned and no slot has changed.
    pub fn new<R: Rng>(mgr: &'a mut M, rng: &mut R) -> (r: Result<
        (SlotHolder<'a, M>, SecureDeletionData),
        Error,
    >)
        ensures
            match r {
                Ok((holder, sdd)) => {
                    &&& old(mgr).secret(holder.slot) is Err
                    &&& holder.mgr.secret(holder.slot) == Ok::<SecureDeletionData, Error>(sdd)
                    &&& forall|s: SecureDeletionSlot|
                        s != holder.slot ==> holder.mgr.secret(s) == old(mgr).secret(s)
                    &&& *final(mgr) == *final(holder.mgr)
                },
                Err(_) => forall|s: SecureDeletionSlot|
                    final(mgr).secret(s) == old(mgr).secret(s),
            },
    {
        match mgr.new_secret(rng) {
            Err(e) => Err(e),
            Ok((slot, sdd)) => Ok((SlotHolder { mgr, slot }, sdd)),
        }
    }

    /// Takes the slot over: it stays in use, and the manager is left as it
    /// is.
    pub fn consume(self) -> (r: SecureDeletionSlot)
        ensures
            r == self.slot,
            *final(self.mgr) == *old(self.mgr),
    {
        self.slot
    }

    /// Gives the slot back: asks the manager to delete its secrets, and hands
    /// on the manager's answer. No other slot changes, and after a success
    /// the slot is empty.
    pub fn release(self) -> (r: Result<(), Error>)
        ensures
            forall|s: SecureDeletionSlot|
                s != self.slot ==> final(self.mgr).secret(s) == old(self.mgr).secret(s),
            r is Ok ==> final(self.mgr).secret(self.slot) is Err,
    {
        let slot = self.slot;
        self.mgr.delete_secret(slot)
    }
}

/// What binds a keyblob to the state in which the device booted.
#[derive(Clone, Copy, Debug)]
pub struct RootOfTrustInfo {
    pub verified_boot_key: [u8; 32],
    pub device_boot_locked: bool,
    pub verified_boot_state: VerifiedBootState,
    pub verified_boot_hash: [u8; 32],
}

impl RootOfTrustInfo {
    /// The CBOR form: the array of the four fields in order.
    pub open spec fn item(self) -> Item {
        Item::Array(
            seq![
                Item::Bytes(self.verified_boot_key@),
                Item::Bool(self.device_boot_locked),
                Item::Integer(self.verified_boot_state.code()),
                Item::Bytes(self.verified_boot_hash@),
            ],
        )
    }

    /// Writes the root of trust as an array of four elements.
    pub fn to_cbor_value(&self) -> (r: CborValue)
        ensures
            r@ == self.item(),
    {
        let mut a: Vec<CborValue> = Vec::new();
        a.push(bytes_value(self.verified_boot_key.as_slice()));
        a.push(CborValue::Bool(self.device_boot_locked));
        a.push(self.verified_boot_state.to_cbor_value());
        a.push(bytes_value(self.verified_boot_hash.as_slice()));
        assert(items_of(a@) =~= seq![
            Item::Bytes(self.verified_boot_key@),
            Item::Bool(self.device_boot_locked),
            Item::Integer(self.verified_boot_state.code()),
            Item::Bytes(self.verified_boot_hash@),
        ]);
        array_value(a)
    }

    /// The canonical bytes of the root of trust, which enter the hidden
    /// parameters of every keyblob.
    pub fn into_vec(&self) -> (r: Result<Vec<u8>, CborError>)
        ensures
            match r {
                Ok(bytes) => encoded(self.item()) == Ok::<Seq<u8>, CborError>(bytes@),
                Err(e) => encoded(self.item()) == Err::<Seq<u8>, CborError>(e),
            },
    {
        to_vec(&self.to_cbor_value())
    }
}

/// Key material in the clear, with the characteristics of the key.
#[derive(Clone, Debug, PartialEq, Eq)]
pub struct PlaintextKeyBlob {
    /// Characteristics associated with the key.
    pub characteristics: Vec<KeyCharacteristics>,
    /// The key itself.
    pub key_material: PlaintextKeyMaterial,
}

/// The content of a [`PlaintextKeyBlob`].
pub ghost struct PlaintextKeyBlobView {
    pub characteristics: Seq<KeyCharacteristicsView>,
    pub key_material: KeyMaterialView,
}

impl View for PlaintextKeyBlob {
    type V = PlaintextKeyBlobView;

    open spec fn view(&self) -> PlaintextKeyBlobView {
        PlaintextKeyBlobView {
            characteristics: views(self.characteristics@),
            key_material: self.key_material@,
        }
    }
}

/// The parameters of the first characteristics at `sec_level`, if there
/// are any at that level.
pub open spec fn authorizations_at(
    chars: Seq<KeyCharacteristicsView>,
    sec_level: SecurityLevel,
) -> Option<Seq<KeyParamView>>
    decreases chars.len(),
{
    if chars.len() == 0 {
        None
    } else if chars[0].security_level == sec_level {
        Some(chars[0].authorizations)
    } else {
        authorizations_at(chars.drop_first(), sec_level)
    }
}

/// The parameters at `sec_level` are those of an entry at that level, and no
/// entry before it is at that level; there are none exactly when no entry is
/// at that level.
pub proof fn lemma_authorizations_at(chars: Seq<KeyCharacteristicsView>, sec_level: SecurityLevel)
    ensures
        match authorizations_at(chars, sec_level) {
            Some(params) => exists|i: int|
                0 <= i < chars.len() && #[trigger] chars[i].security_level == sec_level
                    && chars[i].authorizations == params && forall|j: int|
                    0 <= j < i ==> chars[j].security_level != sec_level,
            None => forall|i: int|
                0 <= i < chars.len() ==> #[trigger] chars[i].security_level != sec_level,
        },
    decreases chars.len(),
{
    if chars.len() == 0 {
    } else if chars[0].security_level == sec_level {
        assert(chars[0].authorizations == authorizations_at(chars, sec_level)->Some_0);
    } else {
        let rest = chars.drop_first();
        lemma_authorizations_at(rest, sec_level);
        match authorizations_at(rest, sec_level) {
            Some(params) => {
                let i = choose|i: int|
                    0 <= i < rest.len() && #[trigger] rest[i].security_level == sec_level
                        && rest[i].authorizations == params && forall|j: int|
                        0 <= j < i ==> rest[j].security_level != sec_level;
                assert(chars[i + 1] == rest[i]);
                assert forall|j: int| 0 <= j < i + 1 implies chars[j].security_level
                    != sec_level by {
                    if j > 0 {
                        assert(chars[j] == rest[j - 1]);
                    }
                }
            },
            None => {
                assert forall|i: int| 0 <= i < chars.len() implies #[trigger] chars[i].security_level
                    != sec_level by {
                    if i > 0 {
                        assert(chars[i] == rest[i - 1]);
                    }
                }
            },
        }
    }
}

/// The parameters of the characteristics at `sec_level`: those of the first
/// entry at that level. Fails with `InvalidKeyBlob` where no entry is at
/// that level.
pub fn characteristics_at(chars: &[KeyCharacteristics], sec_level: SecurityLevel) -> (r: Result<
    &Vec<KeyParam>,
    Error,
>)
    ensures
        match r {
            Ok(params) => authorizations_at(views(chars@), sec_level) == Some(views(params@)),
            Err(e) => e == Error::Hal(ErrorCode::InvalidKeyBlob) && authorizations_at(
                views(chars@),
                sec_level,
            ) is None,
        },
{
    let mut i: usize = 0;
    assert(views(chars@).skip(0) =~= views(chars@));
    while i < chars.len()
        invariant
            i <= chars.len(),
            authorizations_at(views(chars@), sec_level) == authorizations_at(
                views(chars@).skip(i as int),
                sec_level,
            ),
        decreases chars.len() - i,
    {
        let ghost rest = views(chars@).skip(i as int);
        assert(rest[0] == chars@[i as int]@);
        if chars[i].security_level == sec_level {
            return Ok(&chars[i].authorizations);
        }
        assert(rest.drop_first() =~= views(chars@).skip(i as int + 1));
        i += 1;
    }
    Err(Error::Hal(ErrorCode::InvalidKeyBlob))
}

/// Whether a parameter of `params` allows the purpose.
pub open spec fn allows_purpose(params: Seq<KeyParamView>, purpose: KeyPurpose) -> bool {
    params.contains(KeyParamView::Purpose(purpose))
}

/// Whether a parameter of `params` allows the purpose.
pub fn contains_purpose(params: &Vec<KeyParam>, purpose: KeyPurpose) -> (r: bool)
    ensures
        r == allows_purpose(views(params@), purpose),
{
    let mut i: usize = 0;
    while i < params.len()
        invariant
            i <= params.len(),
            forall|j: int| 0 <= j < i ==> views(params@)[j] != KeyParamView::Purpose(purpose),
        decreases params.len() - i,
    {
        assert(views(params@)[i as int] == params@[i as int]@);
        match &params[i] {
            KeyParam::Purpose(p) => {
                if *p == purpose {
                    return true;
                }
            },
            _ => {},
        }
        i += 1;
    }
    false
}

impl PlaintextKeyBlobView {
    /// What [`PlaintextKeyBlob::suitable_for`] returns.
    pub open spec fn suitable_for(self, purpose: KeyPurpose, sec_level: SecurityLevel) -> Result<
        (),
        Error,
    > {
        match authorizations_at(self.characteristics, sec_level) {
            None => Err(Error::Hal(ErrorCode::InvalidKeyBlob)),
            Some(params) => if allows_purpose(params, purpose) {
                Ok(())
            } else {
                Err(Error::Hal(ErrorCode::IncompatiblePurpose))
            },
        }
    }
}

impl PlaintextKeyBlob {
    /// The parameters of the key at `sec_level`: those of the first entry at
    /// that level, `InvalidKeyBlob` where there is none. The characteristics
    /// are taken as they are: entries after the first at a level are not
    /// looked at.
    pub fn characteristics_at(&self, sec_level: SecurityLevel) -> (r: Result<&Vec<KeyParam>, Error>)
        ensures
            match r {
                Ok(params) => authorizations_at(self@.characteristics, sec_level) == Some(
                    views(params@),
                ),
                Err(e) => e == Error::Hal(ErrorCode::InvalidKeyBlob) && authorizations_at(
                    self@.characteristics,
                    sec_level,
                ) is None,
            },
    {
        characteristics_at(self.characteristics.as_slice(), sec_level)
    }

    /// Checks that the key may be used for `purpose` at `sec_level`:
    /// `InvalidKeyBlob` where it has no characteristics at that level,
    /// `IncompatiblePurpose` where they do not allow the purpose.
    pub fn suitable_for(&self, purpose: KeyPurpose, sec_level: SecurityLevel) -> (r: Result<
        (),
        Error,
    >)
        ensures
            r == self@.suitable_for(purpose, sec_level),
    {
        match self.characteristics_at(sec_level) {
            Err(e) => Err(e),
            Ok(params) => if contains_purpose(params, purpose) {
                Ok(())
            } else {
                Err(Error::Hal(ErrorCode::IncompatiblePurpose))
            },
        }
    }
}

/// The value behind an optional reference.
pub open spec fn owned<T>(o: Option<&T>) -> Option<T> {
    match o {
        Some(x) => Some(*x),
        None => None,
    }
}

/// The context that enters the derivation of a key-encryption key: the
/// derivation input, then the bytes of the characteristics, then the bytes
/// of the hidden parameters, then, where secure deletion data is bound, its
/// bytes. The order is part of the format of every keyblob.
pub open spec fn kek_info(
    key_derivation_input: Seq<u8>,
    characteristics: Seq<KeyCharacteristicsView>,
    hidden: Seq<KeyParamView>,
    sdd: Option<SecureDeletionData>,
) -> Result<Seq<u8>, CborError> {
    match encoded(characteristics_item(characteristics)) {
        Err(e) => Err(e),
        Ok(chars_bytes) => match encoded(params_item(hidden)) {
            Err(e) => Err(e),
            Ok(hidden_bytes) => match sdd {
                None => Ok(key_derivation_input + chars_bytes + hidden_bytes),
                Some(sdd) => match encoded(sdd.item()) {
                    Err(e) => Err(e),
                    Ok(sdd_bytes) => Ok(
                        key_derivation_input + chars_bytes + hidden_bytes + sdd_bytes,
                    ),
                },
            },
        },
    }
}

/// The bytes of the key-encryption key of a keyblob: HKDF-SHA256 with the
/// root key as input keying material, no salt, and [`kek_info`] as context.
pub open spec fn derived_kek<H: Hmac>(
    hmac: H,
    root_key: Seq<u8>,
    key_derivation_input: Seq<u8>,
    characteristics: Seq<KeyCharacteristicsView>,
    hidden: Seq<KeyParamView>,
    sdd: Option<SecureDeletionData>,
) -> Result<Seq<u8>, Error> {
    match kek_info(key_derivation_input, characteristics, hidden, sdd) {
        Err(e) => Err(Error::Cbor(e)),
        Ok(info) => hkdf_sha256(hmac, Seq::empty(), root_key, info),
    }
}

/// Derives the key that encrypts a keyblob: an AES-256 key made by HKDF
/// (RFC 5869) with HMAC-SHA256 from the root key held in hardware, without
/// salt, over the context [`kek_info`].
pub fn derive_kek<H: Hmac>(
    hmac: &H,
    root_key: &[u8],
    key_derivation_input: &[u8; 32],
    characteristics: &Vec<KeyCharacteristics>,
    hidden: &Vec<KeyParam>,
    sdd: Option<&SecureDeletionData>,
) -> (r: Result<AesKey, Error>)
    ensures
        match r {
            Ok(key) => key is Aes256 && derived_kek(
                *hmac,
                root_key@,
                key_derivation_input@,
                views(characteristics@),
                views(hidden@),
                owned(sdd),
            ) == Ok::<Seq<u8>, Error>(key.bytes()),
            Err(e) => derived_kek(
                *hmac,
                root_key@,
                key_derivation_input@,
                views(characteristics@),
                views(hidden@),
                owned(sdd),
            ) == Err::<Seq<u8>, Error>(e),
        },
{
    let mut info = copy_bytes(key_derivation_input.as_slice());
    let chars_bytes = match to_vec(&characteristics_to_cbor_value(characteristics)) {
        Err(e) => { return Err(Error::Cbor(e)); },
        Ok(b) => b,
    };
    info.extend_from_slice(chars_bytes.as_slice());
    let hidden_bytes = match to_vec(&params_to_cbor_value(hidden)) {
        Err(e) => { return Err(Error::Cbor(e)); },
        Ok(b) => b,
    };
    info.extend_from_slice(hidden_bytes.as_slice());
    assert(info@ == key_derivation_input@ + chars_bytes@ + hidden_bytes@);
    match sdd {
        None => {},
        Some(sdd) => {
            let sdd_bytes = match to_vec(&sdd.to_cbor_value()) {
                Err(e) => { return Err(Error::Cbor(e)); },
                Ok(b) => b,
            };
            info.extend_from_slice(sdd_bytes.as_slice());
            assert(info@ == key_derivation_input@ + chars_bytes@ + hidden_bytes@ + sdd_bytes@);
        },
    }
    let no_salt: Vec<u8> = Vec::new();
    assert(no_salt@ =~= Seq::<u8>::empty());
    match hkdf(hmac, no_salt.as_slice(), root_key, info.as_slice()) {
        Err(e) => Err(e),
        Ok(data) => Ok(AesKey::Aes256(data)),
    }
}

/// Whether a parameter asks for a key whose secrets can be deleted for
/// good: rollback resistance, or a single use.
pub open spec fn needs_secure_deletion(param: KeyParamView) -> bool {
    param == KeyParamView::RollbackResistance || param == KeyParamView::UsageCountLimit(1)
}

/// Whether any parameter at any level asks for secure deletion.
pub open spec fn requires_secure_deletion(characteristics: Seq<KeyCharacteristicsView>) -> bool {
    exists|i: int, j: int|
        0 <= i < characteristics.len() && 0 <= j < characteristics[i].authorizations.len()
            && needs_secure_deletion(#[trigger] characteristics[i].authorizations[j])
}

/// Whether any parameter of `params` asks for secure deletion.
fn any_needs_secure_deletion(params: &Vec<KeyParam>) -> (r: bool)
    ensures
        r == exists|j: int|
            0 <= j < params@.len() && needs_secure_deletion(#[trigger] views(params@)[j]),
{
    let mut j: usize = 0;
    while j < params.len()
        invariant
            j <= params.len(),
            forall|k: int| 0 <= k < j ==> !needs_secure_deletion(#[trigger] views(params@)[k]),
        decreases params.len() - j,
    {
        assert(views(params@)[j as int] == params@[j as int]@);
        let found = match &params[j] {
            KeyParam::RollbackResistance => true,
            KeyParam::UsageCountLimit(n) => *n == 1,
            _ => false,
        };
        if found {
            return true;
        }
        j += 1;
    }
    false
}

/// Whether a key with these characteristics must be bound to a slot of
/// secure storage.
pub fn needs_slot(characteristics: &Vec<KeyCharacteristics>) -> (r: bool)
    ensures
        r == requires_secure_deletion(views(characteristics@)),
{
    let mut i: usize = 0;
    while i < characteristics.len()
        invariant
            i <= characteristics.len(),
            forall|k: int, j: int|
                0 <= k < i && 0 <= j < views(characteristics@)[k].authorizations.len()
                    ==> !needs_secure_deletion(
                    #[trigger] views(characteristics@)[k].authorizations[j],
                ),
        decreases characteristics.len() - i,
    {
        assert(views(characteristics@)[i as int] == characteristics@[i as int]@);
        if any_needs_secure_deletion(&characteristics[i].authorizations) {
            proof {
                let params = characteristics@[i as int].authorizations;
                let j = choose|j: int|
                    0 <= j < params@.len() && needs_secure_deletion(#[trigger] views(params@)[j]);
                assert(needs_secure_deletion(views(characteristics@)[i as int].authorizations[j]));
            }
            return true;
        }
        i += 1;
    }
    false
}

/// The nonce of the encryption of every keyblob: twelve zero bytes. It is
/// never used twice under one key, since each keyblob has a key of its own.
pub open spec fn zero_nonce() -> Seq<u8> {
    Seq::new(12, |i: int| 0u8)
}

/// The envelope around key material sealed under the key with bytes `kek`:
/// the encoded key material encrypted with AES-GCM under the zero nonce,
/// authenticated together with the `Enc_structure` of the protected header
/// and no external data.
pub open spec fn sealed_material<A: Aes>(aes: A, kek: Seq<u8>, key_material: KeyMaterialView) -> Result<
    CoseEncrypt0View,
    Error,
> {
    match encoded(key_material.item()) {
        Err(e) => Err(Error::Cbor(e)),
        Ok(plaintext) => match aes.gcm_sealed(
            kek,
            zero_nonce(),
            enc_structure(a256gcm_header(), Seq::empty()),
            plaintext,
        ) {
            Err(e) => Err(e),
            Ok(ciphertext) => Ok(
                CoseEncrypt0View {
                    protected: a256gcm_header(),
                    unprotected: Item::Dict(Seq::empty()),
                    ciphertext: Some(ciphertext),
                },
            ),
        },
    }
}

/// The keyblob that seals `keyblob` with the derivation input
/// `key_derivation_input`, bound to the hidden parameters and, where there
/// is one, to the secure deletion data of `slot`.
pub open spec fn sealed<A: Aes, H: Hmac>(
    aes: A,
    hmac: H,
    root_key: Seq<u8>,
    key_derivation_input: Seq<u8>,
    keyblob: PlaintextKeyBlobView,
    hidden: Seq<KeyParamView>,
    sdd: Option<SecureDeletionData>,
    slot: Option<SecureDeletionSlot>,
) -> Result<EncryptedKeyBlobView, Error> {
    match derived_kek(
        hmac,
        root_key,
        key_derivation_input,
        keyblob.characteristics,
        hidden,
        sdd,
    ) {
        Err(e) => Err(e),
        Ok(kek) => match sealed_material(aes, kek, keyblob.key_material) {
            Err(e) => Err(e),
            Ok(envelope) => Ok(
                EncryptedKeyBlobView::V1(
                    EncryptedKeyBlobV1View {
                        characteristics: keyblob.characteristics,
                        key_derivation_input,
                        encrypted_key_material: envelope,
                        secure_deletion_slot: slot,
                    },
                ),
            ),
        },
    }
}

/// Seals key material under the key-encryption key that belongs to the
/// derivation input, the characteristics, the hidden parameters and the
/// secure deletion data, and returns the envelope.
pub fn seal<A: Aes, H: Hmac>(
    aes: &A,
    hmac: &H,
    root_key: &[u8],
    key_derivation_input: &[u8; 32],
    keyblob: &PlaintextKeyBlob,
    hidden: &Vec<KeyParam>,
    sdd: Option<&SecureDeletionData>,
) -> (r: Result<CoseEncrypt0, Error>)
    ensures
        view_of(r) == match derived_kek(
            *hmac,
            root_key@,
            key_derivation_input@,
            keyblob@.characteristics,
            views(hidden@),
            owned(sdd),
        ) {
            Err(e) => Err(e),
            Ok(kek) => sealed_material(*aes, kek, keyblob@.key_material),
        },
{
    let kek = match derive_kek(
        hmac,
        root_key,
        key_derivation_input,
        &keyblob.characteristics,
        hidden,
        sdd,
    ) {
        Err(e) => { return Err(e); },
        Ok(kek) => kek,
    };
    let plaintext = match to_vec(&keyblob.key_material.to_cbor_value()) {
        Err(e) => { return Err(Error::Cbor(e)); },
        Ok(b) => b,
    };
    let protected = a256gcm_protected_header();
    let no_aad: Vec<u8> = Vec::new();
    assert(no_aad@ =~= Seq::<u8>::empty());
    let aad = enc_structure_data(protected.as_slice(), no_aad.as_slice());
    let nonce = [0u8;12];
    assert(nonce@ =~= zero_nonce());
    let ciphertext = match aes.gcm_encrypt(&kek, &nonce, aad.as_slice(), plaintext.as_slice()) {
        Err(e) => { return Err(e); },
        Ok(c) => c,
    };
    let entries: Vec<(CborValue, CborValue)> = Vec::new();
    let unprotected = CborValue::Dict(entries);
    assert(unprotected@->Dict_0 =~= Seq::<(Item, Item)>::empty());
    Ok(CoseEncrypt0 { protected, unprotected, ciphertext: Some(ciphertext) })
}

/// Draws a fresh derivation input: 32 bytes of the random number generator.
fn draw_derivation_input<R: Rng>(rng: &mut R) -> (r: [u8; 32]) {
    let mut drawn: Vec<u8> = vec![0u8; 32];
    rng.fill_bytes(&mut drawn);
    match array32_from(drawn.as_slice()) {
        Some(k) => k,
        None => {
            assert(false);
            [0u8;32]
        },
    }
}

/// Whether sealing fails with `e` for some derivation input of 32 bytes.
pub open spec fn seal_fails_with<A: Aes, H: Hmac>(
    aes: A,
    hmac: H,
    root_key: Seq<u8>,
    keyblob: PlaintextKeyBlobView,
    hidden: Seq<KeyParamView>,
    sdd: Option<SecureDeletionData>,
    e: Error,
) -> bool {
    exists|key_derivation_input: Seq<u8>|
        key_derivation_input.len() == 32 && #[trigger] sealed(
            aes,
            hmac,
            root_key,
            key_derivation_input,
            keyblob,
            hidden,
            sdd,
            None,
        ) == Err::<EncryptedKeyBlobView, Error>(e)
}

/// Whether every secret that `before` holds is held unchanged by `after`.
pub open spec fn keeps_secrets<M: SecureDeletionSecretManager>(before: M, after: M) -> bool {
    forall|s: SecureDeletionSlot|
        before.secret(s) is Ok ==> after.secret(s) == before.secret(s)
}

/// Whether `after` differs from `before` in nothing but the slot `slot`,
/// which was empty and now holds `sdd`.
pub open spec fn stores_secret<M: SecureDeletionSecretManager>(
    before: M,
    after: M,
    slot: SecureDeletionSlot,
    sdd: SecureDeletionData,
) -> bool {
    &&& before.secret(slot) is Err
    &&& after.secret(slot) == Ok::<SecureDeletionData, Error>(sdd)
    &&& forall|s: SecureDeletionSlot| s != slot ==> after.secret(s) == before.secret(s)
}

/// Whether `after` holds, slot by slot, what `before` holds.
pub open spec fn same_secrets<M: SecureDeletionSecretManager>(before: M, after: M) -> bool {
    forall|s: SecureDeletionSlot| after.secret(s) == before.secret(s)
}

/// Whether `after` differs from `before` in no slot but `slot`, which was
/// empty before.
pub open spec fn abandons_slot<M: SecureDeletionSecretManager>(
    before: M,
    after: M,
    slot: SecureDeletionSlot,
) -> bool {
    &&& before.secret(slot) is Err
    &&& forall|s: SecureDeletionSlot| s != slot ==> after.secret(s) == before.secret(s)
}

/// Whether a slot was reserved with the secrets `sdd`, sealing with them
/// failed with `e`, and no other slot differs from before.
pub open spec fn fails_after_reserving<M: SecureDeletionSecretManager, A: Aes, H: Hmac>(
    before: M,
    after: M,
    aes: A,
    hmac: H,
    root_key: Seq<u8>,
    keyblob: PlaintextKeyBlobView,
    hidden: Seq<KeyParamView>,
    slot: SecureDeletionSlot,
    sdd: SecureDeletionData,
    e: Error,
) -> bool {
    &&& abandons_slot(before, after, slot)
    &&& seal_fails_with(aes, hmac, root_key, keyblob, hidden, Some(sdd), e)
}

/// What holds of a failure of [`encrypt`] that had a manager of slots:
/// where the key needs no slot, the manager is as before and `e` is the
/// error of sealing; where it needs one, either the manager refused the
/// reservation and holds what it held, or a slot that was empty was
/// reserved, sealing with its secrets failed with `e`, and no other slot
/// differs.
pub open spec fn fails_with_manager<M: SecureDeletionSecretManager, A: Aes, H: Hmac>(
    before: M,
    after: M,
    aes: A,
    hmac: H,
    root_key: Seq<u8>,
    keyblob: PlaintextKeyBlobView,
    hidden: Seq<KeyParamView>,
    e: Error,
) -> bool {
    if requires_secure_deletion(keyblob.characteristics) {
        same_secrets(before, after) || exists|slot: SecureDeletionSlot, sdd: SecureDeletionData|
            #[trigger] fails_after_reserving(
                before,
                after,
                aes,
                hmac,
                root_key,
                keyblob,
                hidden,
                slot,
                sdd,
                e,
            )
    } else {
        after == before && seal_fails_with(aes, hmac, root_key, keyblob, hidden, None, e)
    }
}

/// What holds of a failure of [`encrypt`] that had no manager of slots:
/// where the key needs a slot, `e` is `RollbackResistanceUnavailable`;
/// where it needs none, `e` is the error of sealing.
pub open spec fn fails_without_manager<A: Aes, H: Hmac>(
    aes: A,
    hmac: H,
    root_key: Seq<u8>,
    keyblob: PlaintextKeyBlobView,
    hidden: Seq<KeyParamView>,
    e: Error,
) -> bool {
    if requires_secure_deletion(keyblob.characteristics) {
        e == Error::Hal(ErrorCode::RollbackResistanceUnavailable)
    } else {
        seal_fails_with(aes, hmac, root_key, keyblob, hidden, None, e)
    }
}

/// Why sealing into a reserved slot failed, and what the manager answered
/// when it was asked to delete the slot.
#[derive(Clone, Copy, Debug)]
pub struct SealFailure {
    pub error: Error,
    pub released: Result<(), Error>,
}

/// Seals a plaintext keyblob into a slot that has been reserved for it, with
/// the secrets `sdd` of that slot and the derivation input given.
///
/// On success the reservation is committed: the keyblob carries the slot and
/// the manager is left as it is. On failure the manager is asked to delete
/// the slot, whose answer is returned beside the error of sealing; no other
/// slot changes.
pub fn seal_into_slot<M: SecureDeletionSecretManager, A: Aes, H: Hmac>(
    slot_holder: SlotHolder<'_, M>,
    sdd: &SecureDeletionData,
    aes: &A,
    hmac: &H,
    root_key: &[u8],
    key_derivation_input: &[u8; 32],
    plaintext_keyblob: PlaintextKeyBlob,
    hidden: &Vec<KeyParam>,
) -> (r: Result<EncryptedKeyBlob, SealFailure>)
    ensures
        match r {
            Ok(blob) => {
                &&& sealed(
                    *aes,
                    *hmac,
                    root_key@,
                    key_derivation_input@,
                    plaintext_keyblob@,
                    views(hidden@),
                    Some(*sdd),
                    Some(slot_holder.slot),
                ) == Ok::<EncryptedKeyBlobView, Error>(blob@)
                &&& *final(slot_holder.mgr) == *old(slot_holder.mgr)
            },
            Err(failure) => {
                &&& sealed(
                    *aes,
                    *hmac,
                    root_key@,
                    key_derivation_input@,
                    plaintext_keyblob@,
                    views(hidden@),
                    Some(*sdd),
                    Some(slot_holder.slot),
                ) == Err::<EncryptedKeyBlobView, Error>(failure.error)
                &&& forall|s: SecureDeletionSlot|
                    s != slot_holder.slot ==> final(slot_holder.mgr).secret(s) == old(
                        slot_holder.mgr,
                    ).secret(s)
                &&& failure.released is Ok ==> final(slot_holder.mgr).secret(slot_holder.slot)
                    is Err
            },
        },
{
    let sealed_parts = seal(
        aes,
        hmac,
        root_key,
        key_derivation_input,
        &plaintext_keyblob,
        hidden,
        Some(sdd),
    );
    match sealed_parts {
        Err(error) => {
            let released = slot_holder.release();
            Err(SealFailure { error, released })
        },
        Ok(envelope) => {
            let slot = slot_holder.consume();
            Ok(
                EncryptedKeyBlob::V1(
                    EncryptedKeyBlobV1 {
                        characteristics: plaintext_keyblob.characteristics,
                        key_derivation_input: *key_derivation_input,
                        encrypted_key_material: envelope,
                        secure_deletion_slot: Some(slot),
                    },
                ),
            )
        },
    }
}

/// Seals a plaintext keyblob.
///
/// A key whose characteristics ask for rollback resistance or for a single
/// use is bound to a slot of secure storage, which is reserved before
/// anything is encrypted; without a manager of such slots the call fails
/// with `RollbackResistanceUnavailable`. The slot becomes part of the
/// keyblob only when sealing has succeeded: on every failure after the
/// reservation the manager is asked to delete it, so that no secret which
/// the manager held before the call is touched.
///
/// The keyblob returned is the one that [`sealed`] describes for the
/// derivation input that was drawn, and it carries a slot exactly when the
/// characteristics ask for one. A failure is the error of sealing for the
/// input that was drawn, unless the reservation itself was refused.
pub fn encrypt<M: SecureDeletionSecretManager, A: Aes, H: Hmac, R: Rng>(
    sdd_mgr: Option<&mut M>,
    aes: &A,
    hmac: &H,
    rng: &mut R,
    root_key: &[u8],
    plaintext_keyblob: PlaintextKeyBlob,
    hidden: Vec<KeyParam>,
) -> (r: Result<EncryptedKeyBlob, Error>)
    ensures
        requires_secure_deletion(plaintext_keyblob@.characteristics) && sdd_mgr is None ==> r
            == Err::<EncryptedKeyBlob, Error>(
            Error::Hal(ErrorCode::RollbackResistanceUnavailable),
        ),
        match r {
            Ok(blob) => {
                &&& blob@.secure_deletion_slot() is Some <==> requires_secure_deletion(
                    plaintext_keyblob@.characteristics,
                )
                &&& exists|key_derivation_input: Seq<u8>, sdd: Option<SecureDeletionData>|
                    {
                        &&& key_derivation_input.len() == 32
                        &&& #[trigger] sealed(
                            *aes,
                            *hmac,
                            root_key@,
                            key_derivation_input,
                            plaintext_keyblob@,
                            views(hidden@),
                            sdd,
                            blob@.secure_deletion_slot(),
                        ) == Ok::<EncryptedKeyBlobView, Error>(blob@)
                        &&& match blob@.secure_deletion_slot() {
                            None => sdd is None && (sdd_mgr matches Some(m) ==> *final(m) == *m),
                            Some(slot) => sdd is Some && sdd_mgr is Some && stores_secret(
                                *sdd_mgr->Some_0,
                                *final(sdd_mgr->Some_0),
                                slot,
                                sdd->Some_0,
                            ),
                        }
                    }
            },
            Err(e) => {
                &&& sdd_mgr matches Some(m) ==> keeps_secrets(*m, *final(m))
                &&& sdd_mgr matches Some(m) ==> fails_with_manager(
                    *m,
                    *final(m),
                    *aes,
                    *hmac,
                    root_key@,
                    plaintext_keyblob@,
                    views(hidden@),
                    e,
                )
                &&& sdd_mgr is None ==> fails_without_manager(
                    *aes,
                    *hmac,
                    root_key@,
                    plaintext_keyblob@,
                    views(hidden@),
                    e,
                )
            },
        },
{
    let requires_sdd = needs_slot(&plaintext_keyblob.characteristics);
    if !requires_sdd {
        let key_derivation_input = draw_derivation_input(rng);
        let sealed_parts = seal(
            aes,
            hmac,
            root_key,
            &key_derivation_input,
            &plaintext_keyblob,
            &hidden,
            None,
        );
        let ghost whole = sealed(
            *aes,
            *hmac,
            root_key@,
            key_derivation_input@,
            plaintext_keyblob@,
            views(hidden@),
            None,
            None,
        );
        return match sealed_parts {
            Err(e) => {
                assert(whole == Err::<EncryptedKeyBlobView, Error>(e));
                Err(e)
            },
            Ok(envelope) => {
                let blob = EncryptedKeyBlob::V1(
                    EncryptedKeyBlobV1 {
                        characteristics: plaintext_keyblob.characteristics,
                        key_derivation_input,
                        encrypted_key_material: envelope,
                        secure_deletion_slot: None,
                    },
                );
                assert(whole == Ok::<EncryptedKeyBlobView, Error>(blob@));
                Ok(blob)
            },
        };
    }
    let mgr = match sdd_mgr {
        Some(mgr) => mgr,
        None => { return Err(Error::Hal(ErrorCode::RollbackResistanceUnavailable)); },
    };
    let ghost before = *mgr;
    let (slot_holder, sdd) = match SlotHolder::new(mgr, rng) {
        Err(e) => { return Err(e); },
        Ok(reserved) => reserved,
    };
    let ghost slot = slot_holder.slot;
    let key_derivation_input = draw_derivation_input(rng);
    match seal_into_slot(
        slot_holder,
        &sdd,
        aes,
        hmac,
        root_key,
        &key_derivation_input,
        plaintext_keyblob,
        &hidden,
    ) {
        Err(failure) => {
            proof {
                assert(sealed(
                    *aes,
                    *hmac,
                    root_key@,
                    key_derivation_input@,
                    plaintext_keyblob@,
                    views(hidden@),
                    Some(sdd),
                    None,
                ) == Err::<EncryptedKeyBlobView, Error>(failure.error));
                assert(fails_after_reserving(
                    before,
                    *final(mgr),
                    *aes,
                    *hmac,
                    root_key@,
                    plaintext_keyblob@,
                    views(hidden@),
                    slot,
                    sdd,
                    failure.error,
                ));
            }
            Err(failure.error)
        },
        Ok(blob) => {
            assert(sealed(
                *aes,
                *hmac,
                root_key@,
                key_derivation_input@,
                plaintext_keyblob@,
                views(hidden@),
                Some(sdd),
                blob@.secure_deletion_slot(),
            ) == Ok::<EncryptedKeyBlobView, Error>(blob@));
            Ok(blob)
        },
    }
}

/// The key material inside an envelope, opened under the key with bytes
/// `kek`. A ciphertext that the cipher refuses gives `InvalidKeyBlob`, and
/// then nothing of the plaintext is returned; an envelope without a
/// ciphertext is opened as one with an empty ciphertext.
pub open spec fn opened_material<A: Aes>(aes: A, kek: Seq<u8>, envelope: CoseEncrypt0View) -> Result<
    KeyMaterialView,
    Error,
> {
    let ciphertext = match envelope.ciphertext {
        Some(c) => c,
        None => Seq::empty(),
    };
    match aes.gcm_opened(
        kek,
        zero_nonce(),
        enc_structure(envelope.protected, Seq::empty()),
        ciphertext,
    ) {
        Err(_) => Err(Error::Hal(ErrorCode::InvalidKeyBlob)),
        Ok(plaintext) => match crate::cbor::decoded(plaintext) {
            Err(e) => Err(Error::Cbor(e)),
            Ok(item) => match KeyMaterialView::from_item(item) {
                Err(e) => Err(Error::Cbor(e)),
                Ok(key_material) => Ok(key_material),
            },
        },
    }
}

/// The plaintext keyblob inside `blob`, opened with the hidden parameters
/// and the secure deletion data given.
pub open spec fn unsealed<A: Aes, H: Hmac>(
    aes: A,
    hmac: H,
    root_key: Seq<u8>,
    blob: EncryptedKeyBlobView,
    hidden: Seq<KeyParamView>,
    sdd: Option<SecureDeletionData>,
) -> Result<PlaintextKeyBlobView, Error> {
    match blob {
        EncryptedKeyBlobView::V1(inner) => match derived_kek(
            hmac,
            root_key,
            inner.key_derivation_input,
            inner.characteristics,
            hidden,
            sdd,
        ) {
            Err(e) => Err(e),
            Ok(kek) => match opened_material(aes, kek, inner.encrypted_key_material) {
                Err(e) => Err(e),
                Ok(key_material) => Ok(
                    PlaintextKeyBlobView { characteristics: inner.characteristics, key_material },
                ),
            },
        },
    }
}

/// What [`decrypt`] returns: a keyblob without a slot is opened without
/// secure deletion data; one with a slot needs a manager, whose secrets for
/// the slot enter the derivation and whose error is handed on unchanged.
pub open spec fn decrypted<M: SecureDeletionSecretManager, A: Aes, H: Hmac>(
    sdd_mgr: Option<M>,
    aes: A,
    hmac: H,
    root_key: Seq<u8>,
    blob: EncryptedKeyBlobView,
    hidden: Seq<KeyParamView>,
) -> Result<PlaintextKeyBlobView, Error> {
    match blob.secure_deletion_slot() {
        None => unsealed(aes, hmac, root_key, blob, hidden, None),
        Some(slot) => match sdd_mgr {
            None => Err(Error::Hal(ErrorCode::InvalidKeyBlob)),
            Some(mgr) => match mgr.secret(slot) {
                Err(e) => Err(e),
                Ok(sdd) => unsealed(aes, hmac, root_key, blob, hidden, Some(sdd)),
            },
        },
    }
}

/// Opens an encrypted keyblob.
///
/// The key-encryption key is derived again from the derivation input and the
/// characteristics stored in the keyblob, from the hidden parameters of the
/// caller and, where the keyblob names a slot, from the secrets of that
/// slot. Fails with `InvalidKeyBlob` where the keyblob names a slot and
/// there is no manager, and where the cipher refuses the ciphertext.
pub fn decrypt<M: SecureDeletionSecretManager, A: Aes, H: Hmac>(
    sdd_mgr: Option<&M>,
    aes: &A,
    hmac: &H,
    root_key: &[u8],
    encrypted_keyblob: EncryptedKeyBlob,
    hidden: Vec<KeyParam>,
) -> (r: Result<PlaintextKeyBlob, Error>)
    ensures
        view_of(r) == decrypted(
            owned(sdd_mgr),
            *aes,
            *hmac,
            root_key@,
            encrypted_keyblob@,
            views(hidden@),
        ),
{
    let EncryptedKeyBlob::V1(encrypted_keyblob) = encrypted_keyblob;
    let sdd = match encrypted_keyblob.secure_deletion_slot {
        Some(slot) => match sdd_mgr {
            Some(mgr) => match mgr.get_secret(slot) {
                Err(e) => { return Err(e); },
                Ok(sdd) => Some(sdd),
            },
            None => { return Err(Error::Hal(ErrorCode::InvalidKeyBlob)); },
        },
        None => None,
    };
    let kek = match derive_kek(
        hmac,
        root_key,
        &encrypted_keyblob.key_derivation_input,
        &encrypted_keyblob.characteristics,
        &hidden,
        sdd.as_ref(),
    ) {
        Err(e) => { return Err(e); },
        Ok(kek) => kek,
    };
    let cose_encrypt = encrypted_keyblob.encrypted_key_material;
    let no_aad: Vec<u8> = Vec::new();
    assert(no_aad@ =~= Seq::<u8>::empty());
    let extended_aad = enc_structure_data(cose_encrypt.protected.as_slice(), no_aad.as_slice());
    let nonce = [0u8;12];
    assert(nonce@ =~= zero_nonce());
    let ciphertext = match cose_encrypt.ciphertext {
        Some(c) => c,
        None => Vec::new(),
    };
    let pt_data = match aes.gcm_decrypt(
        &kek,
        &nonce,
        extended_aad.as_slice(),
        ciphertext.as_slice(),
    ) {
        Err(_) => { return Err(Error::Hal(ErrorCode::InvalidKeyBlob)); },
        Ok(pt) => pt,
    };
    let value = match from_slice(pt_data.as_slice()) {
        Err(e) => { return Err(Error::Cbor(e)); },
        Ok(v) => v,
    };
    match KeyMaterial::from_cbor_value(&value) {
        Err(e) => Err(Error::Cbor(e)),
        Ok(key_material) => Ok(
            PlaintextKeyBlob { characteristics: encrypted_keyblob.characteristics, key_material },
        ),
    }
}

/// Opening a sealed keyblob gives the plaintext keyblob back.
///
/// Let the cipher recover what it has sealed, and let the bytes written for
/// the key material be read back as written. Then a keyblob sealed under a
/// root key, hidden parameters and secure deletion data is opened, under
/// the same three, to the keyblob that went in.
pub proof fn lemma_unseal_inverts_seal<A: Aes, H: Hmac>(
    aes: A,
    hmac: H,
    root_key: Seq<u8>,
    key_derivation_input: Seq<u8>,
    keyblob: PlaintextKeyBlobView,
    hidden: Seq<KeyParamView>,
    sdd: Option<SecureDeletionData>,
    slot: Option<SecureDeletionSlot>,
)
    requires
        keyblob.key_material.wf(),
        crate::crypto::opens_what_it_seals(aes),
        crate::cbor::reads_back(keyblob.key_material.item()),
        sealed(aes, hmac, root_key, key_derivation_input, keyblob, hidden, sdd, slot) is Ok,
    ensures
        unsealed(
            aes,
            hmac,
            root_key,
            sealed(aes, hmac, root_key, key_derivation_input, keyblob, hidden, sdd, slot)->Ok_0,
            hidden,
            sdd,
        ) == Ok::<PlaintextKeyBlobView, Error>(keyblob),
{
    let kek = derived_kek(
        hmac,
        root_key,
        key_derivation_input,
        keyblob.characteristics,
        hidden,
        sdd,
    )->Ok_0;
    let plaintext = encoded(keyblob.key_material.item())->Ok_0;
    let aad = enc_structure(a256gcm_header(), Seq::empty());
    assert(aes.gcm_sealed(kek, zero_nonce(), aad, plaintext) is Ok);
    assert(encoded(keyblob.key_material.item()) == Ok::<Seq<u8>, CborError>(plaintext));
    keyblob.key_material.lemma_round_trip();
}

/// Decrypting what was encrypted gives the plaintext keyblob back.
///
/// Let the cipher recover what it has sealed, and let the bytes written for
/// the key material be read back as written. Take a keyblob as [`encrypt`]
/// returns it: sealed under a root key and hidden parameters, without slot
/// and secure deletion data, or with a slot whose secrets the manager
/// holds. Then [`decrypt`], given the same root key, the same hidden
/// parameters and that manager, returns the keyblob that went in.
pub proof fn lemma_decrypt_inverts_encrypt<M: SecureDeletionSecretManager, A: Aes, H: Hmac>(
    sdd_mgr: Option<M>,
    aes: A,
    hmac: H,
    root_key: Seq<u8>,
    key_derivation_input: Seq<u8>,
    keyblob: PlaintextKeyBlobView,
    hidden: Seq<KeyParamView>,
    sdd: Option<SecureDeletionData>,
    slot: Option<SecureDeletionSlot>,
)
    requires
        keyblob.key_material.wf(),
        crate::crypto::opens_what_it_seals(aes),
        crate::cbor::reads_back(keyblob.key_material.item()),
        sealed(aes, hmac, root_key, key_derivation_input, keyblob, hidden, sdd, slot) is Ok,
        match slot {
            None => sdd is None,
            Some(s) => sdd is Some && sdd_mgr is Some && sdd_mgr->Some_0.secret(s) == Ok::<
                SecureDeletionData,
                Error,
            >(sdd->Some_0),
        },
    ensures
        decrypted(
            sdd_mgr,
            aes,
            hmac,
            root_key,
            sealed(aes, hmac, root_key, key_derivation_input, keyblob, hidden, sdd, slot)->Ok_0,
            hidden,
        ) == Ok::<PlaintextKeyBlobView, Error>(keyblob),
{
    lemma_unseal_inverts_seal(
        aes,
        hmac,
        root_key,
        key_derivation_input,
        keyblob,
        hidden,
        sdd,
        slot,
    );
}

/// A keyblob whose ciphertext the cipher refuses, under the key that its
/// context derives, is an invalid keyblob: opening it gives
/// `InvalidKeyBlob`, and so no plaintext.
///
/// Whether the cipher refuses an altered ciphertext, or a ciphertext under
/// a key that altered characteristics, hidden parameters, root key or
/// derivation input derive, is the promise of the cipher.
pub proof fn lemma_refused_ciphertext_is_invalid_keyblob<A: Aes, H: Hmac>(
    aes: A,
    hmac: H,
    root_key: Seq<u8>,
    blob: EncryptedKeyBlobV1View,
    hidden: Seq<KeyParamView>,
    sdd: Option<SecureDeletionData>,
)
    requires
        derived_kek(
            hmac,
            root_key,
            blob.key_derivation_input,
            blob.characteristics,
            hidden,
            sdd,
        ) matches Ok(kek) && aes.gcm_opened(
            kek,
            zero_nonce(),
            enc_structure(blob.encrypted_key_material.protected, Seq::empty()),
            match blob.encrypted_key_material.ciphertext {
                Some(c) => c,
                None => Seq::empty(),
            },
        ) is Err,
    ensures
        unsealed(aes, hmac, root_key, EncryptedKeyBlobView::V1(blob), hidden, sdd) == Err::<
            PlaintextKeyBlobView,
            Error,
        >(Error::Hal(ErrorCode::InvalidKeyBlob)),
{
}

/// Reading the CBOR form of a keyblob gives the keyblob back, where `coset`
/// reads the envelope back as it was written.
pub proof fn lemma_keyblob_round_trip(blob: EncryptedKeyBlobV1View)
    requires
        blob.wf(),
        cose_encrypt0_written(blob.encrypted_key_material) matches Some(written)
            && cose_encrypt0_read(written) == Some(blob.encrypted_key_material),
    ensures
        EncryptedKeyBlobView::V1(blob).item() matches Ok(item) && EncryptedKeyBlobView::from_item(
            item,
        ) == Ok::<EncryptedKeyBlobView, CborError>(EncryptedKeyBlobView::V1(blob)),
{
    let inner = blob.item()->Ok_0;
    let outer = EncryptedKeyBlobView::V1(blob).item()->Ok_0;
    let parts = seq![Item::Integer(Version::V1.code()), inner];
    assert(tuple_of(outer, 2) == Ok::<Seq<Item>, CborError>(parts));
    assert(parts[0] == Item::Integer(Version::V1.code()));
    assert(parts[1] == inner);
    let fields = inner->Array_0;
    assert(tuple_of(inner, 4) == Ok::<Seq<Item>, CborError>(fields));
    assert(fields[0] == characteristics_item(blob.characteristics));
    assert(fields[1] == Item::Bytes(blob.key_derivation_input));
    assert(fields[2] == blob.encrypted_key_material.item()->Ok_0);
    assert(fields[3] == slot_option_item(blob.secure_deletion_slot));
    crate::wire::characteristics::lemma_characteristics_round_trip(blob.characteristics);
    match blob.secure_deletion_slot {
        None => {},
        Some(slot) => {
            let one = seq![slot.item()];
            assert(one[0] == slot.item());
            let number = seq![Item::Integer(slot.0 as int)];
            assert(tuple_of(slot.item(), 1) == Ok::<Seq<Item>, CborError>(number));
            assert(number[0] == Item::Integer(slot.0 as int));
        },
    }
}

} // verus!
