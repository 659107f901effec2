//! Creation and upgrade of keys.

use crate::bytes::copy_bytes;
use crate::cbor::{views, CborError};
use crate::crypto::{Aes, AesKey, Hmac, KeyMaterial, KeyMaterialView, Rng};
use crate::device::{CryptoImplementation, DeviceImplementation, Platform, RetrieveKeys};
use crate::error::Error;
use crate::keyblob::{
    abandons_slot, decrypt, decrypted, encrypt, fails_with_manager, fails_without_manager,
    keeps_secrets, requires_secure_deletion, sealed, stores_secret, EncryptedKeyBlob,
    EncryptedKeyBlobView, PlaintextKeyBlob, PlaintextKeyBlobView, SecureDeletionData,
    SecureDeletionSecretManager, SecureDeletionSlot,
};
use crate::ta::keyblobs::index_at;
use crate::ta::KeyMintTa;
use crate::tag::{hidden, hidden_params, keymint_tags};
use crate::ta::info::{BootInfo, HalInfo};
use crate::wire::characteristics::{
    duplicate_characteristics, KeyCharacteristics, KeyCharacteristicsView,
};
use crate::wire::keymint::{Algorithm, ErrorCode, KeyFormat, KeyOrigin, SecurityLevel};
use crate::wire::params::{KeyParam, KeyParamView};
use crate::wire::types::{AttestationKey, Certificate, KeyCreationResult};
use vstd::prelude::*;

verus! {

/// The algorithm among the parameters of a key: that of the first
/// parameter that names one.
pub open spec fn algorithm_param(params: Seq<KeyParamView>) -> Option<Algorithm>
    decreases params.len(),
{
    if params.len() == 0 {
        None
    } else {
        match params[0] {
            KeyParamView::Algorithm(a) => Some(a),
            _ => algorithm_param(params.drop_first()),
        }
    }
}

/// The size in bits among the parameters of a key.
pub open spec fn key_size_param(params: Seq<KeyParamView>) -> Option<u32>
    decreases params.len(),
{
    if params.len() == 0 {
        None
    } else {
        match params[0] {
            KeyParamView::KeySize(size) => Some(size.0),
            _ => key_size_param(params.drop_first()),
        }
    }
}

/// The algorithm among `params`, if there is one.
fn find_algorithm(params: &[KeyParam]) -> (r: Option<Algorithm>)
    ensures
        r == algorithm_param(views(params@)),
{
    let mut i: usize = 0;
    assert(views(params@).skip(0) =~= views(params@));
    while i < params.len()
        invariant
            i <= params.len(),
            algorithm_param(views(params@)) == algorithm_param(views(params@).skip(i as int)),
        decreases params.len() - i,
    {
        let ghost rest = views(params@).skip(i as int);
        assert(rest[0] == params@[i as int]@);
        assert(rest.drop_first() =~= views(params@).skip(i as int + 1));
        match &params[i] {
            KeyParam::Algorithm(a) => {
                return Some(*a);
            },
            _ => {},
        }
        i += 1;
    }
    None
}

/// The size in bits among `params`, if there is one.
fn find_key_size(params: &[KeyParam]) -> (r: Option<u32>)
    ensures
        r == key_size_param(views(params@)),
{
    let mut i: usize = 0;
    assert(views(params@).skip(0) =~= views(params@));
    while i < params.len()
        invariant
            i <= params.len(),
            key_size_param(views(params@)) == key_size_param(views(params@).skip(i as int)),
        decreases params.len() - i,
    {
        let ghost rest = views(params@).skip(i as int);
        assert(rest[0] == params@[i as int]@);
        assert(rest.drop_first() =~= views(params@).skip(i as int + 1));
        match &params[i] {
            KeyParam::KeySize(size) => {
                return Some(size.0);
            },
            _ => {},
        }
        i += 1;
    }
    None
}

/// Whether a parameter belongs to the hidden parameters only, and so is not
/// stored with the key.
pub open spec fn hidden_only(param: KeyParamView) -> bool {
    param is ApplicationId || param is ApplicationData
}

/// The parameters of a caller that are stored with a key: all but those
/// that are hidden.
pub open spec fn stored_params(params: Seq<KeyParamView>) -> Seq<KeyParamView>
    decreases params.len(),
{
    if params.len() == 0 {
        Seq::empty()
    } else if hidden_only(params.last()) {
        stored_params(params.drop_last())
    } else {
        stored_params(params.drop_last()).push(params.last())
    }
}

/// Copies the parameters that are stored with a key.
fn params_to_store(params: &[KeyParam]) -> (r: Vec<KeyParam>)
    ensures
        views(r@) == stored_params(views(params@)),
{
    let mut out: Vec<KeyParam> = Vec::new();
    let mut i: usize = 0;
    assert(views(params@).take(0) =~= Seq::<KeyParamView>::empty());
    assert(views(out@) =~= Seq::<KeyParamView>::empty());
    while i < params.len()
        invariant
            i <= params.len(),
            views(out@) == stored_params(views(params@).take(i as int)),
        decreases params.len() - i,
    {
        let ghost next = views(params@).take(i as int + 1);
        assert(next.drop_last() =~= views(params@).take(i as int));
        assert(next.last() == params@[i as int]@);
        let skip = match &params[i] {
            KeyParam::ApplicationId(_) => true,
            KeyParam::ApplicationData(_) => true,
            _ => false,
        };
        if !skip {
            let ghost before = views(out@);
            out.push(params[i].duplicate());
            assert(views(out@) =~= before.push(params@[i as int]@));
        }
        i += 1;
    }
    assert(views(params@).take(i as int) =~= views(params@));
    out
}

/// The number of bytes of the key that the parameters ask to generate.
///
/// An AES key has 128, 192 or 256 bits; an HMAC key has a whole number of
/// bytes, between 64 and 512 bits. Another size, or none, gives
/// `UnsupportedKeySize`; another algorithm, or none, `UnsupportedAlgorithm`.
pub open spec fn generated_key_len(params: Seq<KeyParamView>) -> Result<(Algorithm, nat), Error> {
    match algorithm_param(params) {
        Some(Algorithm::Aes) => match key_size_param(params) {
            Some(bits) => if bits == 128 || bits == 192 || bits == 256 {
                Ok((Algorithm::Aes, (bits / 8) as nat))
            } else {
                Err(Error::Hal(ErrorCode::UnsupportedKeySize))
            },
            None => Err(Error::Hal(ErrorCode::UnsupportedKeySize)),
        },
        Some(Algorithm::Hmac) => match key_size_param(params) {
            Some(bits) => if bits % 8 == 0 && 64 <= bits <= 512 {
                Ok((Algorithm::Hmac, (bits / 8) as nat))
            } else {
                Err(Error::Hal(ErrorCode::UnsupportedKeySize))
            },
            None => Err(Error::Hal(ErrorCode::UnsupportedKeySize)),
        },
        _ => Err(Error::Hal(ErrorCode::UnsupportedAlgorithm)),
    }
}

/// The key that raw key data stands for under the parameters of an import.
///
/// Only raw data is taken (`UnsupportedKeyFormat`), and only for AES and
/// HMAC (`UnsupportedAlgorithm`). The data of an AES key has 16, 24 or 32
/// bytes, that of an HMAC key between 8 and 64 (`UnsupportedKeySize`). A
/// size among the parameters that is not the size of the data gives
/// `ImportParameterMismatch`.
pub open spec fn imported_key(
    params: Seq<KeyParamView>,
    key_format: KeyFormat,
    key_data: Seq<u8>,
) -> Result<KeyMaterialView, Error> {
    if key_format != KeyFormat::Raw {
        Err(Error::Hal(ErrorCode::UnsupportedKeyFormat))
    } else {
        let size_fits = match key_size_param(params) {
            Some(bits) => bits == key_data.len() * 8,
            None => true,
        };
        match algorithm_param(params) {
            Some(Algorithm::Aes) => if !crate::crypto::is_aes_key_len(key_data.len()) {
                Err(Error::Hal(ErrorCode::UnsupportedKeySize))
            } else if !size_fits {
                Err(Error::Hal(ErrorCode::ImportParameterMismatch))
            } else {
                Ok(KeyMaterialView::Aes(key_data))
            },
            Some(Algorithm::Hmac) => if !(8 <= key_data.len() <= 64) {
                Err(Error::Hal(ErrorCode::UnsupportedKeySize))
            } else if !size_fits {
                Err(Error::Hal(ErrorCode::ImportParameterMismatch))
            } else {
                Ok(KeyMaterialView::Hmac(key_data))
            },
            _ => Err(Error::Hal(ErrorCode::UnsupportedAlgorithm)),
        }
    }
}

/// Reads raw key data as the key that the parameters of an import ask for.
pub fn import_raw_key(params: &[KeyParam], key_format: KeyFormat, key_data: &[u8]) -> (r: Result<
    KeyMaterial,
    Error,
>)
    ensures
        crate::keyblob::view_of(r) == imported_key(views(params@), key_format, key_data@),
{
    match key_format {
        KeyFormat::Raw => {},
        _ => { return Err(Error::Hal(ErrorCode::UnsupportedKeyFormat)); },
    }
    let size_fits = match find_key_size(params) {
        Some(bits) => key_data.len() <= 0x1fff_ffff && bits as usize == key_data.len() * 8,
        None => true,
    };
    match find_algorithm(params) {
        Some(Algorithm::Aes) => match AesKey::from_bytes(key_data) {
            None => Err(Error::Hal(ErrorCode::UnsupportedKeySize)),
            Some(key) => if !size_fits {
                Err(Error::Hal(ErrorCode::ImportParameterMismatch))
            } else {
                Ok(KeyMaterial::Aes(key))
            },
        },
        Some(Algorithm::Hmac) => if !(8 <= key_data.len() && key_data.len() <= 64) {
            Err(Error::Hal(ErrorCode::UnsupportedKeySize))
        } else if !size_fits {
            Err(Error::Hal(ErrorCode::ImportParameterMismatch))
        } else {
            Ok(KeyMaterial::Hmac(copy_bytes(key_data)))
        },
        _ => Err(Error::Hal(ErrorCode::UnsupportedAlgorithm)),
    }
}

/// The characteristics of a key that this device creates from the
/// parameters of a caller: one entry at the level of the device, with the
/// stored parameters of the caller followed by what the device vouches for.
pub open spec fn created_characteristics(
    level: SecurityLevel,
    params: Seq<KeyParamView>,
    origin: KeyOrigin,
    hal_info: Option<HalInfo>,
    boot_info: Option<BootInfo>,
) -> Seq<KeyCharacteristicsView> {
    seq![
        KeyCharacteristicsView {
            security_level: level,
            authorizations: stored_params(params) + keymint_tags(origin, hal_info, boot_info),
        },
    ]
}

/// Whether `bytes` are those of a keyblob that seals `keyblob` under the
/// root key and the hidden parameters given, with some derivation input and
/// with secure deletion data exactly where the keyblob names a slot.
pub open spec fn seals<A: Aes, H: Hmac>(
    aes: A,
    hmac: H,
    root_kek: Seq<u8>,
    keyblob: PlaintextKeyBlobView,
    hidden: Seq<KeyParamView>,
    bytes: Seq<u8>,
) -> bool {
    exists|
        key_derivation_input: Seq<u8>,
        sdd: Option<SecureDeletionData>,
        slot: Option<SecureDeletionSlot>,
    |
        {
            &&& key_derivation_input.len() == 32
            &&& (sdd is Some <==> slot is Some)
            &&& (slot is Some <==> requires_secure_deletion(keyblob.characteristics))
            &&& (#[trigger] sealed(
                aes,
                hmac,
                root_kek,
                key_derivation_input,
                keyblob,
                hidden,
                sdd,
                slot,
            )) matches Ok(blob) && blob.bytes() == Ok::<Seq<u8>, CborError>(bytes)
        }
}

/// Whether, for some derivation input of 32 bytes, the keyblob is sealed
/// with the secrets `sdd` into `slot` and the sealed keyblob cannot be
/// serialized, which gives the error `e`.
pub open spec fn sealed_but_unserializable<A: Aes, H: Hmac>(
    aes: A,
    hmac: H,
    root_kek: Seq<u8>,
    keyblob: PlaintextKeyBlobView,
    hidden: Seq<KeyParamView>,
    sdd: Option<SecureDeletionData>,
    slot: Option<SecureDeletionSlot>,
    e: Error,
) -> bool {
    exists|key_derivation_input: Seq<u8>|
        {
            &&& key_derivation_input.len() == 32
            &&& (#[trigger] sealed(
                aes,
                hmac,
                root_kek,
                key_derivation_input,
                keyblob,
                hidden,
                sdd,
                slot,
            )) matches Ok(blob) && blob.bytes() matches Err(refusal) && e == Error::Cbor(refusal)
        }
}

/// Whether a slot that was empty was reserved with the secrets `sdd`, the
/// keyblob sealed into it could not be serialized, and no other slot
/// differs from before.
pub open spec fn gives_up_sealed<M: SecureDeletionSecretManager, A: Aes, H: Hmac>(
    before: M,
    after: M,
    aes: A,
    hmac: H,
    root_kek: Seq<u8>,
    keyblob: PlaintextKeyBlobView,
    hidden: Seq<KeyParamView>,
    slot: SecureDeletionSlot,
    sdd: SecureDeletionData,
    e: Error,
) -> bool {
    &&& abandons_slot(before, after, slot)
    &&& sealed_but_unserializable(aes, hmac, root_kek, keyblob, hidden, Some(sdd), Some(slot), e)
}

/// What holds when a keyblob could not be sealed and serialized, of the
/// error `e` and of the secure storage before and after.
///
/// Either sealing failed, as [`fails_with_manager`] and
/// [`fails_without_manager`] say, or the sealed keyblob could not be
/// serialized: then `e` is the error of the serializer, and the slot that
/// was reserved for the keyblob, if it needed one, is the only one that may
/// differ from before.
pub open spec fn fails_to_seal<M: SecureDeletionSecretManager, A: Aes, H: Hmac>(
    before: Option<M>,
    after: Option<M>,
    aes: A,
    hmac: H,
    root_kek: Seq<u8>,
    keyblob: PlaintextKeyBlobView,
    hidden: Seq<KeyParamView>,
    e: Error,
) -> bool {
    match (before, after) {
        (Some(b), Some(a)) => {
            ||| fails_with_manager(b, a, aes, hmac, root_kek, keyblob, hidden, e)
            ||| if requires_secure_deletion(keyblob.characteristics) {
                exists|slot: SecureDeletionSlot, sdd: SecureDeletionData| #[trigger]
                    gives_up_sealed(b, a, aes, hmac, root_kek, keyblob, hidden, slot, sdd, e)
            } else {
                a == b && sealed_but_unserializable(
                    aes,
                    hmac,
                    root_kek,
                    keyblob,
                    hidden,
                    None,
                    None,
                    e,
                )
            }
        },
        (None, None) => {
            ||| fails_without_manager(aes, hmac, root_kek, keyblob, hidden, e)
            ||| !requires_secure_deletion(keyblob.characteristics) && sealed_but_unserializable(
                aes,
                hmac,
                root_kek,
                keyblob,
                hidden,
                None,
                None,
                e,
            )
        },
        _ => false,
    }
}

impl<P: Platform> KeyMintTa<P> {
    /// What has to hold before a key is sealed, and the root key and the
    /// hidden parameters that it is sealed under: the root of trust must be
    /// known (`HardwareNotYetAvailable`), the device must hand out its root
    /// key, and a key that needs secure deletion needs secure storage
    /// (`RollbackResistanceUnavailable`).
    pub open spec fn sealing_context(
        &self,
        params: Seq<KeyParamView>,
        characteristics: Seq<KeyCharacteristicsView>,
    ) -> Result<(Seq<u8>, Seq<KeyParamView>), Error> {
        match self.rot_data {
            None => Err(Error::Hal(ErrorCode::HardwareNotYetAvailable)),
            Some(rot) => match self.dev.keys.root_kek_of(Seq::empty()) {
                Err(e) => Err(e),
                Ok(root_kek) => if requires_secure_deletion(characteristics)
                    && self.dev.sdd_mgr is None {
                    Err(Error::Hal(ErrorCode::RollbackResistanceUnavailable))
                } else {
                    Ok((root_kek, hidden_params(params, rot@)))
                },
            },
        }
    }

    /// Seals a plaintext keyblob under the root key of the device and the
    /// hidden parameters that belong to `params`, and serializes it.
    ///
    /// A keyblob that cannot be serialized is given up: the slot that was
    /// reserved for it is released again. Whatever happens, no secret that
    /// the manager held before is touched, and nothing changes but the
    /// random number generator and the secure storage.
    pub fn seal_keyblob(&mut self, params: &[KeyParam], keyblob: PlaintextKeyBlob) -> (r: Result<
        Vec<u8>,
        Error,
    >)
        ensures
            *final(self) == (KeyMintTa {
                imp: CryptoImplementation { rng: final(self).imp.rng, ..old(self).imp },
                dev: DeviceImplementation { sdd_mgr: final(self).dev.sdd_mgr, ..old(self).dev },
                ..*old(self)
            }),
            match (old(self).dev.sdd_mgr, final(self).dev.sdd_mgr) {
                (Some(before), Some(after)) => keeps_secrets(before, after),
                (None, None) => true,
                _ => false,
            },
            match old(self).sealing_context(views(params@), keyblob@.characteristics) {
                Err(e) => r is Err && r->Err_0 == e,
                Ok((root_kek, hidden)) => match r {
                    Ok(bytes) => seals(
                        old(self).imp.aes,
                        old(self).imp.hmac,
                        root_kek,
                        keyblob@,
                        hidden,
                        bytes@,
                    ),
                    Err(e) => fails_to_seal(
                        old(self).dev.sdd_mgr,
                        final(self).dev.sdd_mgr,
                        old(self).imp.aes,
                        old(self).imp.hmac,
                        root_kek,
                        keyblob@,
                        hidden,
                        e,
                    ),
                },
            },
    {
        let hidden = match self.root_of_trust() {
            Err(e) => { return Err(e); },
            Ok(rot) => hidden(params, rot.as_slice()),
        };
        let no_context: Vec<u8> = Vec::new();
        assert(no_context@ =~= Seq::<u8>::empty());
        let root_kek = match self.root_kek(no_context.as_slice()) {
            Err(e) => { return Err(e); },
            Ok(k) => k,
        };
        let ghost plain = keyblob@;
        let ghost hidden_view = views(hidden@);
        let encrypted = match encrypt(
            self.dev.sdd_mgr.as_mut(),
            &self.imp.aes,
            &self.imp.hmac,
            &mut self.imp.rng,
            root_kek.as_slice(),
            keyblob,
            hidden,
        ) {
            Err(e) => { return Err(e); },
            Ok(b) => b,
        };
        match encrypted.into_vec() {
            Ok(bytes) => {
                proof {
                    let (kdi, sdd) = choose|kdi: Seq<u8>, sdd: Option<SecureDeletionData>|
                        {
                            &&& kdi.len() == 32
                            &&& #[trigger] sealed(
                                self.imp.aes,
                                self.imp.hmac,
                                root_kek@,
                                kdi,
                                plain,
                                hidden_view,
                                sdd,
                                encrypted@.secure_deletion_slot(),
                            ) == Ok::<EncryptedKeyBlobView, Error>(encrypted@)
                            &&& match encrypted@.secure_deletion_slot() {
                                None => sdd is None,
                                Some(slot) => sdd is Some,
                            }
                        };
                    assert(sealed(
                        old(self).imp.aes,
                        old(self).imp.hmac,
                        root_kek@,
                        kdi,
                        plain,
                        hidden_view,
                        sdd,
                        encrypted@.secure_deletion_slot(),
                    ) matches Ok(blob) && blob.bytes() == Ok::<Seq<u8>, CborError>(bytes@));
                }
                Ok(bytes)
            },
            Err(e) => {
                let ghost (kdi, sdd) = choose|kdi: Seq<u8>, sdd: Option<SecureDeletionData>|
                    {
                        &&& kdi.len() == 32
                        &&& #[trigger] sealed(
                            self.imp.aes,
                            self.imp.hmac,
                            root_kek@,
                            kdi,
                            plain,
                            hidden_view,
                            sdd,
                            encrypted@.secure_deletion_slot(),
                        ) == Ok::<EncryptedKeyBlobView, Error>(encrypted@)
                        &&& match encrypted@.secure_deletion_slot() {
                            None => sdd is None && self.dev.sdd_mgr == old(self).dev.sdd_mgr,
                            Some(slot) => sdd is Some && self.dev.sdd_mgr is Some
                                && old(self).dev.sdd_mgr is Some && stores_secret(
                                old(self).dev.sdd_mgr->Some_0,
                                self.dev.sdd_mgr->Some_0,
                                slot,
                                sdd->Some_0,
                            ),
                        }
                    };
                assert(sealed_but_unserializable(
                    self.imp.aes,
                    self.imp.hmac,
                    root_kek@,
                    plain,
                    hidden_view,
                    sdd,
                    encrypted@.secure_deletion_slot(),
                    Error::Cbor(e),
                ));
                match encrypted.secure_deletion_slot() {
                    Some(slot) => match &mut self.dev.sdd_mgr {
                        Some(mgr) => {
                            let _ = mgr.delete_secret(slot);
                        },
                        None => {},
                    },
                    None => {},
                }
                proof {
                    if encrypted@.secure_deletion_slot() is Some {
                        let slot = encrypted@.secure_deletion_slot()->Some_0;
                        assert(gives_up_sealed(
                            old(self).dev.sdd_mgr->Some_0,
                            self.dev.sdd_mgr->Some_0,
                            self.imp.aes,
                            self.imp.hmac,
                            root_kek@,
                            plain,
                            hidden_view,
                            slot,
                            sdd->Some_0,
                            Error::Cbor(e),
                        ));
                    }
                }
                Err(Error::Cbor(e))
            },
        }
    }

    /// Seals new key material with the characteristics that belong to the
    /// parameters of the caller and to the origin of the key, and returns
    /// what the host is told about the new key. No certificate comes with
    /// the key.
    pub fn finish_keyblob_creation(
        &mut self,
        params: &[KeyParam],
        key_material: KeyMaterial,
        origin: KeyOrigin,
    ) -> (r: Result<KeyCreationResult, Error>)
        ensures
            *final(self) == (KeyMintTa {
                imp: CryptoImplementation { rng: final(self).imp.rng, ..old(self).imp },
                dev: DeviceImplementation { sdd_mgr: final(self).dev.sdd_mgr, ..old(self).dev },
                ..*old(self)
            }),
            match (old(self).dev.sdd_mgr, final(self).dev.sdd_mgr) {
                (Some(before), Some(after)) => keeps_secrets(before, after),
                (None, None) => true,
                _ => false,
            },
            ({
                let characteristics = created_characteristics(
                    old(self).hw_info.security_level,
                    views(params@),
                    origin,
                    old(self).hal_info,
                    old(self).boot_info,
                );
                match old(self).sealing_context(views(params@), characteristics) {
                    Err(e) => r is Err && r->Err_0 == e,
                    Ok((root_kek, hidden)) => match r {
                        Ok(result) => {
                            &&& result@.key_characteristics == characteristics
                            &&& result@.certificate_chain.len() == 0
                            &&& seals(
                                old(self).imp.aes,
                                old(self).imp.hmac,
                                root_kek,
                                PlaintextKeyBlobView {
                                    characteristics,
                                    key_material: key_material@,
                                },
                                hidden,
                                result@.key_blob,
                            )
                        },
                        Err(e) => fails_to_seal(
                            old(self).dev.sdd_mgr,
                            final(self).dev.sdd_mgr,
                            old(self).imp.aes,
                            old(self).imp.hmac,
                            root_kek,
                            PlaintextKeyBlobView { characteristics, key_material: key_material@ },
                            hidden,
                            e,
                        ),
                    },
                }
            }),
    {
        let mut chars: Vec<KeyCharacteristics> = Vec::new();
        chars.push(
            KeyCharacteristics {
                security_level: self.hw_info.security_level,
                authorizations: params_to_store(params),
            },
        );
        assert(views(chars@)[0] == chars@[0]@);
        match self.add_keymint_tags(&mut chars, origin) {
            Err(e) => {
                assert(false);
                return Err(e);
            },
            Ok(()) => {},
        }
        assert(views(chars@) =~= created_characteristics(
            self.hw_info.security_level,
            views(params@),
            origin,
            self.hal_info,
            self.boot_info,
        ));
        let keyblob = PlaintextKeyBlob {
            characteristics: duplicate_characteristics(&chars),
            key_material,
        };
        match self.seal_keyblob(params, keyblob) {
            Err(e) => Err(e),
            Ok(key_blob) => {
                let certificate_chain: Vec<Certificate> = Vec::new();
                Ok(KeyCreationResult { key_blob, key_characteristics: chars, certificate_chain })
            },
        }
    }

    /// Generates a key as the parameters ask and seals it: see
    /// [`generated_key_len`] for the keys that can be generated and
    /// [`Self::finish_keyblob_creation`] for the keyblob. A request that
    /// asks for a key that cannot be generated changes nothing.
    pub fn generate_key(&mut self, params: &[KeyParam], attestation_key: Option<AttestationKey>) -> (r:
        Result<KeyCreationResult, Error>)
        ensures
            *final(self) == (KeyMintTa {
                imp: CryptoImplementation { rng: final(self).imp.rng, ..old(self).imp },
                dev: DeviceImplementation { sdd_mgr: final(self).dev.sdd_mgr, ..old(self).dev },
                ..*old(self)
            }),
            match (old(self).dev.sdd_mgr, final(self).dev.sdd_mgr) {
                (Some(before), Some(after)) => keeps_secrets(before, after),
                (None, None) => true,
                _ => false,
            },
            ({
                let characteristics = created_characteristics(
                    old(self).hw_info.security_level,
                    views(params@),
                    KeyOrigin::Generated,
                    old(self).hal_info,
                    old(self).boot_info,
                );
                match generated_key_len(views(params@)) {
                    Err(e) => r is Err && r->Err_0 == e && *final(self) == *old(self),
                    Ok((algorithm, len)) => match old(self).sealing_context(
                        views(params@),
                        characteristics,
                    ) {
                        Err(e) => r is Err && r->Err_0 == e,
                        Ok((root_kek, hidden)) => match r {
                            Ok(result) => {
                                &&& result@.key_characteristics == characteristics
                                &&& result@.certificate_chain.len() == 0
                                &&& exists|key_material: KeyMaterialView|
                                    {
                                        &&& key_material.algorithm() == algorithm
                                        &&& key_material.key_len() == len
                                        &&& #[trigger] seals(
                                            old(self).imp.aes,
                                            old(self).imp.hmac,
                                            root_kek,
                                            PlaintextKeyBlobView { characteristics, key_material },
                                            hidden,
                                            result@.key_blob,
                                        )
                                    }
                            },
                            Err(e) => exists|key_material: KeyMaterialView|
                                {
                                    &&& key_material.algorithm() == algorithm
                                    &&& key_material.key_len() == len
                                    &&& #[trigger] fails_to_seal(
                                        old(self).dev.sdd_mgr,
                                        final(self).dev.sdd_mgr,
                                        old(self).imp.aes,
                                        old(self).imp.hmac,
                                        root_kek,
                                        PlaintextKeyBlobView { characteristics, key_material },
                                        hidden,
                                        e,
                                    )
                                },
                        },
                    },
                }
            }),
    {
        let size = match find_key_size(params) {
            Some(bits) => bits,
            None => 0,
        };
        let key_material = match find_algorithm(params) {
            Some(Algorithm::Aes) => {
                if !(size == 128 || size == 192 || size == 256) {
                    return Err(Error::Hal(ErrorCode::UnsupportedKeySize));
                }
                let mut drawn: Vec<u8> = vec![0u8; (size / 8) as usize];
                self.imp.rng.fill_bytes(&mut drawn);
                match AesKey::from_bytes(drawn.as_slice()) {
                    Some(key) => KeyMaterial::Aes(key),
                    None => {
                        assert(false);
                        return Err(Error::Hal(ErrorCode::UnknownError));
                    },
                }
            },
            Some(Algorithm::Hmac) => {
                if !(size % 8 == 0 && 64 <= size && size <= 512) {
                    return Err(Error::Hal(ErrorCode::UnsupportedKeySize));
                }
                let mut drawn: Vec<u8> = vec![0u8; (size / 8) as usize];
                self.imp.rng.fill_bytes(&mut drawn);
                KeyMaterial::Hmac(drawn)
            },
            _ => { return Err(Error::Hal(ErrorCode::UnsupportedAlgorithm)); },
        };
        let ghost generated = key_material@;
        let r = self.finish_keyblob_creation(params, key_material, KeyOrigin::Generated);
        proof {
            let characteristics = created_characteristics(
                old(self).hw_info.security_level,
                views(params@),
                KeyOrigin::Generated,
                old(self).hal_info,
                old(self).boot_info,
            );
            let context = old(self).sealing_context(views(params@), characteristics);
            if r is Ok && context is Ok {
                assert(seals(
                    old(self).imp.aes,
                    old(self).imp.hmac,
                    context->Ok_0.0,
                    PlaintextKeyBlobView { characteristics, key_material: generated },
                    context->Ok_0.1,
                    r->Ok_0@.key_blob,
                ));
            }
            if r is Err && context is Ok {
                assert(fails_to_seal(
                    old(self).dev.sdd_mgr,
                    self.dev.sdd_mgr,
                    old(self).imp.aes,
                    old(self).imp.hmac,
                    context->Ok_0.0,
                    PlaintextKeyBlobView { characteristics, key_material: generated },
                    context->Ok_0.1,
                    r->Err_0,
                ));
            }
        }
        r
    }

    /// Imports a key from raw key data and seals it: see [`imported_key`]
    /// for the data that is taken and [`Self::finish_keyblob_creation`] for
    /// the keyblob. Data that is refused changes nothing.
    pub fn import_key(
        &mut self,
        params: &[KeyParam],
        key_format: KeyFormat,
        key_data: &[u8],
        attestation_key: Option<AttestationKey>,
    ) -> (r: Result<KeyCreationResult, Error>)
        ensures
            *final(self) == (KeyMintTa {
                imp: CryptoImplementation { rng: final(self).imp.rng, ..old(self).imp },
                dev: DeviceImplementation { sdd_mgr: final(self).dev.sdd_mgr, ..old(self).dev },
                ..*old(self)
            }),
            match (old(self).dev.sdd_mgr, final(self).dev.sdd_mgr) {
                (Some(before), Some(after)) => keeps_secrets(before, after),
                (None, None) => true,
                _ => false,
            },
            ({
                let characteristics = created_characteristics(
                    old(self).hw_info.security_level,
                    views(params@),
                    KeyOrigin::Imported,
                    old(self).hal_info,
                    old(self).boot_info,
                );
                match imported_key(views(params@), key_format, key_data@) {
                    Err(e) => r is Err && r->Err_0 == e && *final(self) == *old(self),
                    Ok(key_material) => match old(self).sealing_context(
                        views(params@),
                        characteristics,
                    ) {
                        Err(e) => r is Err && r->Err_0 == e,
                        Ok((root_kek, hidden)) => match r {
                            Ok(result) => {
                                &&& result@.key_characteristics == characteristics
                                &&& result@.certificate_chain.len() == 0
                                &&& seals(
                                    old(self).imp.aes,
                                    old(self).imp.hmac,
                                    root_kek,
                                    PlaintextKeyBlobView { characteristics, key_material },
                                    hidden,
                                    result@.key_blob,
                                )
                            },
                            Err(e) => fails_to_seal(
                                old(self).dev.sdd_mgr,
                                final(self).dev.sdd_mgr,
                                old(self).imp.aes,
                                old(self).imp.hmac,
                                root_kek,
                                PlaintextKeyBlobView { characteristics, key_material },
                                hidden,
                                e,
                            ),
                        },
                    },
                }
            }),
    {
        match import_raw_key(params, key_format, key_data) {
            Err(e) => Err(e),
            Ok(key_material) => self.finish_keyblob_creation(
                params,
                key_material,
                KeyOrigin::Imported,
            ),
        }
    }

    /// Imports a key that is wrapped under another key. This device cannot
    /// unwrap keys: the request is refused with `Unimplemented`.
    pub fn import_wrapped_key(
        &mut self,
        wrapped_key_data: &[u8],
        wrapping_key_blob: &[u8],
        masking_key: &[u8],
        unwrapping_params: &[KeyParam],
        password_sid: i64,
        biometric_sid: i64,
    ) -> (r: Result<KeyCreationResult, Error>)
        ensures
            r is Err && r->Err_0 == Error::Hal(ErrorCode::Unimplemented),
            *final(self) == *old(self),
    {
        Err(Error::Hal(ErrorCode::Unimplemented))
    }
}

/// What upgrading a version `v` of a keyblob to the current version `curr`
/// gives, and whether anything changes: an older version is raised to the
/// current one, the current one stays, and a version from the future is
/// refused with `InvalidArgument`.
pub open spec fn upgraded_version(v: u32, curr: u32) -> Result<(u32, bool), Error> {
    if v < curr {
        Ok((curr, true))
    } else if v == curr {
        Ok((v, false))
    } else {
        Err(Error::Hal(ErrorCode::InvalidArgument))
    }
}

/// What upgrading one parameter of a keyblob gives, and whether anything
/// changes. A parameter that holds a version or a patch level is upgraded
/// to the value that the device has latched, where one is latched; a device
/// whose version of the operating system is zero sets the version to zero.
/// Every other parameter stays.
pub open spec fn upgraded_param(
    param: KeyParamView,
    hal_info: Option<HalInfo>,
    boot_info: Option<BootInfo>,
) -> Result<(KeyParamView, bool), Error> {
    match param {
        KeyParamView::OsVersion(v) => match hal_info {
            Some(hal) => if hal.os_version == 0 {
                Ok((KeyParamView::OsVersion(0), v != 0))
            } else {
                match upgraded_version(v, hal.os_version) {
                    Err(e) => Err(e),
                    Ok((n, m)) => Ok((KeyParamView::OsVersion(n), m)),
                }
            },
            None => Ok((param, false)),
        },
        KeyParamView::OsPatchlevel(v) => match hal_info {
            Some(hal) => match upgraded_version(v, hal.os_patchlevel) {
                Err(e) => Err(e),
                Ok((n, m)) => Ok((KeyParamView::OsPatchlevel(n), m)),
            },
            None => Ok((param, false)),
        },
        KeyParamView::VendorPatchlevel(v) => match hal_info {
            Some(hal) => match upgraded_version(v, hal.vendor_patchlevel) {
                Err(e) => Err(e),
                Ok((n, m)) => Ok((KeyParamView::VendorPatchlevel(n), m)),
            },
            None => Ok((param, false)),
        },
        KeyParamView::BootPatchlevel(v) => match boot_info {
            Some(boot) => match upgraded_version(v, boot.boot_patchlevel) {
                Err(e) => Err(e),
                Ok((n, m)) => Ok((KeyParamView::BootPatchlevel(n), m)),
            },
            None => Ok((param, false)),
        },
        _ => Ok((param, false)),
    }
}

/// What upgrading the parameters of a keyblob gives, and whether anything
/// changes; the error of the first parameter that cannot be upgraded.
pub open spec fn upgraded_params(
    params: Seq<KeyParamView>,
    hal_info: Option<HalInfo>,
    boot_info: Option<BootInfo>,
) -> Result<(Seq<KeyParamView>, bool), Error>
    decreases params.len(),
{
    if params.len() == 0 {
        Ok((Seq::empty(), false))
    } else {
        match upgraded_params(params.drop_last(), hal_info, boot_info) {
            Err(e) => Err(e),
            Ok((front, modified)) => match upgraded_param(params.last(), hal_info, boot_info) {
                Err(e) => Err(e),
                Ok((param, m)) => Ok((front.push(param), modified || m)),
            },
        }
    }
}

/// An error met while upgrading the first `i` parameters is the error of
/// upgrading them all.
pub proof fn lemma_upgraded_params_error(
    params: Seq<KeyParamView>,
    hal_info: Option<HalInfo>,
    boot_info: Option<BootInfo>,
    i: int,
)
    requires
        0 <= i <= params.len(),
        upgraded_params(params.take(i), hal_info, boot_info) is Err,
    ensures
        upgraded_params(params, hal_info, boot_info) == upgraded_params(
            params.take(i),
            hal_info,
            boot_info,
        ),
    decreases params.len() - i,
{
    if i == params.len() {
        assert(params.take(i) =~= params);
    } else {
        assert(params.take(i + 1).drop_last() =~= params.take(i));
        lemma_upgraded_params_error(params, hal_info, boot_info, i + 1);
    }
}

/// Upgrades a version of a keyblob to the current version.
fn upgrade_version(v: u32, curr: u32) -> (r: Result<(u32, bool), Error>)
    ensures
        r == upgraded_version(v, curr),
{
    if v < curr {
        Ok((curr, true))
    } else if v == curr {
        Ok((v, false))
    } else {
        Err(Error::Hal(ErrorCode::InvalidArgument))
    }
}

/// Upgrades one parameter of a keyblob.
fn upgrade_param(param: &KeyParam, hal_info: &Option<HalInfo>, boot_info: &Option<BootInfo>) -> (r:
    Result<(KeyParam, bool), Error>)
    ensures
        match r {
            Ok((p, m)) => upgraded_param(param@, *hal_info, *boot_info) == Ok::<
                (KeyParamView, bool),
                Error,
            >((p@, m)),
            Err(e) => upgraded_param(param@, *hal_info, *boot_info) == Err::<
                (KeyParamView, bool),
                Error,
            >(e),
        },
{
    match param {
        KeyParam::OsVersion(v) => match hal_info {
            Some(hal) => if hal.os_version == 0 {
                Ok((KeyParam::OsVersion(0), *v != 0))
            } else {
                match upgrade_version(*v, hal.os_version) {
                    Err(e) => Err(e),
                    Ok((n, m)) => Ok((KeyParam::OsVersion(n), m)),
                }
            },
            None => Ok((param.duplicate(), false)),
        },
        KeyParam::OsPatchlevel(v) => match hal_info {
            Some(hal) => match upgrade_version(*v, hal.os_patchlevel) {
                Err(e) => Err(e),
                Ok((n, m)) => Ok((KeyParam::OsPatchlevel(n), m)),
            },
            None => Ok((param.duplicate(), false)),
        },
        KeyParam::VendorPatchlevel(v) => match hal_info {
            Some(hal) => match upgrade_version(*v, hal.vendor_patchlevel) {
                Err(e) => Err(e),
                Ok((n, m)) => Ok((KeyParam::VendorPatchlevel(n), m)),
            },
            None => Ok((param.duplicate(), false)),
        },
        KeyParam::BootPatchlevel(v) => match boot_info {
            Some(boot) => match upgrade_version(*v, boot.boot_patchlevel) {
                Err(e) => Err(e),
                Ok((n, m)) => Ok((KeyParam::BootPatchlevel(n), m)),
            },
            None => Ok((param.duplicate(), false)),
        },
        _ => Ok((param.duplicate(), false)),
    }
}

/// Upgrades the parameters of a keyblob, in order.
pub fn upgrade_all_params(
    params: &Vec<KeyParam>,
    hal_info: &Option<HalInfo>,
    boot_info: &Option<BootInfo>,
) -> (r: Result<(Vec<KeyParam>, bool), Error>)
    ensures
        match r {
            Ok((p, m)) => upgraded_params(views(params@), *hal_info, *boot_info) == Ok::<
                (Seq<KeyParamView>, bool),
                Error,
            >((views(p@), m)),
            Err(e) => upgraded_params(views(params@), *hal_info, *boot_info) == Err::<
                (Seq<KeyParamView>, bool),
                Error,
            >(e),
        },
{
    let mut out: Vec<KeyParam> = Vec::new();
    let mut modified = false;
    let mut i: usize = 0;
    let ghost all = views(params@);
    assert(all.take(0) =~= Seq::<KeyParamView>::empty());
    assert(views(out@) =~= Seq::<KeyParamView>::empty());
    while i < params.len()
        invariant
            i <= params.len(),
            all == views(params@),
            upgraded_params(all.take(i as int), *hal_info, *boot_info) == Ok::<
                (Seq<KeyParamView>, bool),
                Error,
            >((views(out@), modified)),
        decreases params.len() - i,
    {
        let ghost next = all.take(i as int + 1);
        assert(next.drop_last() =~= all.take(i as int));
        assert(next.last() == params@[i as int]@);
        match upgrade_param(&params[i], hal_info, boot_info) {
            Err(e) => {
                proof {
                    lemma_upgraded_params_error(all, *hal_info, *boot_info, i as int + 1);
                }
                return Err(e);
            },
            Ok((p, m)) => {
                let ghost before = views(out@);
                out.push(p);
                assert(views(out@) =~= before.push(p@));
                modified = modified || m;
            },
        }
        i += 1;
    }
    assert(all.take(i as int) =~= all);
    Ok((out, modified))
}

/// Copies a list of characteristics with the parameters of the entry at
/// `index` replaced.
fn with_params_at(chars: &Vec<KeyCharacteristics>, index: usize, params: Vec<KeyParam>) -> (r: Vec<
    KeyCharacteristics,
>)
    requires
        index < chars@.len(),
    ensures
        views(r@) == views(chars@).update(
            index as int,
            KeyCharacteristicsView {
                security_level: chars@[index as int].security_level,
                authorizations: views(params@),
            },
        ),
{
    let mut out: Vec<KeyCharacteristics> = Vec::new();
    let mut params = Some(params);
    let ghost new_params = views(params->Some_0@);
    let mut i: usize = 0;
    while i < chars.len()
        invariant
            i <= chars.len(),
            index < chars@.len(),
            out@.len() == i,
            i <= index ==> params is Some && views(params->Some_0@) == new_params,
            forall|j: int|
                0 <= j < i ==> out@[j]@ == if j == index {
                    KeyCharacteristicsView {
                        security_level: chars@[index as int].security_level,
                        authorizations: new_params,
                    }
                } else {
                    chars@[j]@
                },
        decreases chars.len() - i,
    {
        if i == index {
            match params.take() {
                Some(p) => {
                    out.push(
                        KeyCharacteristics {
                            security_level: chars[i].security_level,
                            authorizations: p,
                        },
                    );
                },
                None => {
                    out.push(chars[i].duplicate());
                },
            }
        } else {
            out.push(chars[i].duplicate());
        }
        i += 1;
    }
    assert(views(out@) =~= views(chars@).update(
        index as int,
        KeyCharacteristicsView {
            security_level: chars@[index as int].security_level,
            authorizations: new_params,
        },
    ));
    out
}

impl<P: Platform> KeyMintTa<P> {
    /// Index of the first characteristics at the level of this device.
    fn own_level_index(&self, chars: &Vec<KeyCharacteristics>) -> (r: Option<usize>)
        ensures
            match r {
                Some(i) => index_at(views(chars@), self.hw_info.security_level, 0) == Some(
                    i as int,
                ) && i < chars@.len() && chars@[i as int].security_level
                    == self.hw_info.security_level,
                None => index_at(views(chars@), self.hw_info.security_level, 0) is None,
            },
    {
        let mut i: usize = 0;
        while i < chars.len()
            invariant
                i <= chars.len(),
                index_at(views(chars@), self.hw_info.security_level, 0) == index_at(
                    views(chars@),
                    self.hw_info.security_level,
                    i as int,
                ),
            decreases chars.len() - i,
        {
            assert(views(chars@)[i as int] == chars@[i as int]@);
            if chars[i].security_level == self.hw_info.security_level {
                return Some(i);
            }
            i += 1;
        }
        None
    }

    /// What a request to upgrade a keyblob asks for: nothing, where the
    /// keyblob is up to date, or the plaintext keyblob that is to be sealed
    /// anew.
    ///
    /// The keyblob is read and opened with the hidden parameters that belong
    /// to the parameters of the caller, whatever its versions. The
    /// parameters of its first characteristics at the level of this device
    /// are upgraded; without characteristics at that level the keyblob is
    /// refused with `InvalidKeyBlob`.
    pub open spec fn upgrade_plan(&self, key_blob: Seq<u8>, params: Seq<KeyParamView>) -> Result<
        Option<PlaintextKeyBlobView>,
        Error,
    > {
        match EncryptedKeyBlobView::parse(key_blob) {
            Err(e) => Err(e),
            Ok(blob) => match self.rot_data {
                None => Err(Error::Hal(ErrorCode::HardwareNotYetAvailable)),
                Some(rot) => match self.dev.keys.root_kek_of(Seq::empty()) {
                    Err(e) => Err(e),
                    Ok(root_kek) => match decrypted(
                        self.dev.sdd_mgr,
                        self.imp.aes,
                        self.imp.hmac,
                        root_kek,
                        blob,
                        hidden_params(params, rot@),
                    ) {
                        Err(e) => Err(e),
                        Ok(keyblob) => match index_at(
                            keyblob.characteristics,
                            self.hw_info.security_level,
                            0,
                        ) {
                            None => Err(Error::Hal(ErrorCode::InvalidKeyBlob)),
                            Some(i) => match upgraded_params(
                                keyblob.characteristics[i].authorizations,
                                self.hal_info,
                                self.boot_info,
                            ) {
                                Err(e) => Err(e),
                                Ok((authorizations, modified)) => if !modified {
                                    Ok(None)
                                } else {
                                    Ok(
                                        Some(
                                            PlaintextKeyBlobView {
                                                characteristics: keyblob.characteristics.update(
                                                    i,
                                                    KeyCharacteristicsView {
                                                        security_level: self.hw_info.security_level,
                                                        authorizations,
                                                    },
                                                ),
                                                key_material: keyblob.key_material,
                                            },
                                        ),
                                    )
                                },
                            },
                        },
                    },
                },
            },
        }
    }

    /// Upgrades a keyblob to the versions that the device has latched.
    ///
    /// A keyblob that is up to date gives the empty byte string, and
    /// nothing changes; so does a request that [`Self::upgrade_plan`]
    /// refuses. Otherwise the upgraded key is sealed anew, as
    /// [`Self::seal_keyblob`] says, and the slot of secure storage of the
    /// old keyblob is released. Nothing changes but the random number
    /// generator and the secure storage.
    pub fn upgrade_key(&mut self, keyblob_to_upgrade: &[u8], upgrade_params: Vec<KeyParam>) -> (r:
        Result<Vec<u8>, Error>)
        ensures
            *final(self) == (KeyMintTa {
                imp: CryptoImplementation { rng: final(self).imp.rng, ..old(self).imp },
                dev: DeviceImplementation { sdd_mgr: final(self).dev.sdd_mgr, ..old(self).dev },
                ..*old(self)
            }),
            match old(self).upgrade_plan(keyblob_to_upgrade@, views(upgrade_params@)) {
                Err(e) => r is Err && r->Err_0 == e && *final(self) == *old(self),
                Ok(None) => r is Ok && r->Ok_0@.len() == 0 && *final(self) == *old(self),
                Ok(Some(keyblob)) => match old(self).sealing_context(
                    views(upgrade_params@),
                    keyblob.characteristics,
                ) {
                    Err(e) => r is Err && r->Err_0 == e,
                    Ok((root_kek, hidden)) => match r {
                        Ok(bytes) => seals(
                            old(self).imp.aes,
                            old(self).imp.hmac,
                            root_kek,
                            keyblob,
                            hidden,
                            bytes@,
                        ),
                        Err(e) => fails_to_seal(
                            old(self).dev.sdd_mgr,
                            final(self).dev.sdd_mgr,
                            old(self).imp.aes,
                            old(self).imp.hmac,
                            root_kek,
                            keyblob,
                            hidden,
                            e,
                        ),
                    },
                },
            },
    {
        let encrypted_keyblob = match EncryptedKeyBlob::new(keyblob_to_upgrade) {
            Err(e) => { return Err(e); },
            Ok(b) => b,
        };
        let old_slot = encrypted_keyblob.secure_deletion_slot();
        let hidden = match self.root_of_trust() {
            Err(e) => { return Err(e); },
            Ok(rot) => hidden(upgrade_params.as_slice(), rot.as_slice()),
        };
        let no_context: Vec<u8> = Vec::new();
        assert(no_context@ =~= Seq::<u8>::empty());
        let root_kek = match self.root_kek(no_context.as_slice()) {
            Err(e) => { return Err(e); },
            Ok(k) => k,
        };
        let keyblob = match decrypt(
            self.dev.sdd_mgr.as_ref(),
            &self.imp.aes,
            &self.imp.hmac,
            root_kek.as_slice(),
            encrypted_keyblob,
            hidden,
        ) {
            Err(e) => { return Err(e); },
            Ok(k) => k,
        };
        let index = match self.own_level_index(&keyblob.characteristics) {
            None => { return Err(Error::Hal(ErrorCode::InvalidKeyBlob)); },
            Some(i) => i,
        };
        assert(views(keyblob.characteristics@)[index as int] == keyblob.characteristics@[index as int]@);
        let (authorizations, modified) = match upgrade_all_params(
            &keyblob.characteristics[index].authorizations,
            &self.hal_info,
            &self.boot_info,
        ) {
            Err(e) => { return Err(e); },
            Ok(u) => u,
        };
        if !modified {
            return Ok(Vec::new());
        }
        let upgraded = PlaintextKeyBlob {
            characteristics: with_params_at(&keyblob.characteristics, index, authorizations),
            key_material: keyblob.key_material,
        };
        let bytes = match self.seal_keyblob(upgrade_params.as_slice(), upgraded) {
            Err(e) => { return Err(e); },
            Ok(b) => b,
        };
        match old_slot {
            Some(slot) => match &mut self.dev.sdd_mgr {
                Some(mgr) => {
                    let _ = mgr.delete_secret(slot);
                },
                None => {},
            },
            None => {},
        }
        Ok(bytes)
    }
}

} // verus!
