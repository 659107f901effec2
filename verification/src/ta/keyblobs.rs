//! How the trusted application opens the keyblobs that the host hands in.

use crate::cbor::views;
use crate::device::{Platform, RetrieveKeys, StorageKeyWrapper};
use crate::error::Error;
use crate::keyblob::{
    authorizations_at, decrypt, decrypted, view_of, EncryptedKeyBlob, EncryptedKeyBlobView,
    PlaintextKeyBlob, PlaintextKeyBlobView, SecureDeletionSlot,
};
use crate::ta::KeyMintTa;
use crate::tag::{
    check_upgrade, hidden, hidden_params, keymint_tags, push_keymint_tags, upgrade_check,
};
use crate::wire::characteristics::{KeyCharacteristics, KeyCharacteristicsView};
use crate::wire::keymint::{ErrorCode, KeyOrigin};
use crate::wire::params::{KeyParam, KeyParamView};
use vstd::prelude::*;

verus! {

/// The parameters that stand for an application identifier and for
/// application data: one parameter for each that is not empty.
pub open spec fn application_params(app_id: Seq<u8>, app_data: Seq<u8>) -> Seq<KeyParamView> {
    let id = if app_id.len() > 0 {
        seq![KeyParamView::ApplicationId(app_id)]
    } else {
        Seq::empty()
    };
    let data = if app_data.len() > 0 {
        seq![KeyParamView::ApplicationData(app_data)]
    } else {
        Seq::empty()
    };
    id + data
}

/// Index of the first characteristics at a security level.
pub open spec fn index_at(
    chars: Seq<KeyCharacteristicsView>,
    level: crate::wire::keymint::SecurityLevel,
    from: int,
) -> Option<int>
    decreases chars.len() - from,
{
    if from < 0 || from >= chars.len() {
        None
    } else if chars[from].security_level == level {
        Some(from)
    } else {
        index_at(chars, level, from + 1)
    }
}

impl<P: Platform> KeyMintTa<P> {
    /// What [`Self::keyblob_decrypt`] returns.
    ///
    /// The keyblob is opened under the root key of the device. The
    /// parameters at the security level of the device are then compared with
    /// the versions that the device has latched: a keyblob that is older
    /// than the device gives `KeyRequiresUpgrade`, one that is newer
    /// `InvalidKeyBlob`.
    pub open spec fn keyblob_decrypted(
        &self,
        blob: EncryptedKeyBlobView,
        hidden: Seq<KeyParamView>,
    ) -> Result<PlaintextKeyBlobView, Error> {
        match self.dev.keys.root_kek_of(Seq::empty()) {
            Err(e) => Err(e),
            Ok(root_kek) => match decrypted(
                self.dev.sdd_mgr,
                self.imp.aes,
                self.imp.hmac,
                root_kek,
                blob,
                hidden,
            ) {
                Err(e) => Err(e),
                Ok(keyblob) => match authorizations_at(
                    keyblob.characteristics,
                    self.hw_info.security_level,
                ) {
                    None => Err(Error::Hal(ErrorCode::InvalidKeyBlob)),
                    Some(key_chars) => match upgrade_check(
                        key_chars,
                        self.hal_info,
                        self.boot_info,
                    ) {
                        Err(e) => Err(e),
                        Ok(()) => Ok(keyblob),
                    },
                },
            },
        }
    }

    /// Opens an encrypted keyblob and checks its versions.
    pub fn keyblob_decrypt(&self, encrypted_keyblob: EncryptedKeyBlob, hidden: Vec<KeyParam>) -> (r:
        Result<PlaintextKeyBlob, Error>)
        ensures
            view_of(r) == self.keyblob_decrypted(encrypted_keyblob@, views(hidden@)),
    {
        let no_context: Vec<u8> = Vec::new();
        assert(no_context@ =~= Seq::<u8>::empty());
        let root_kek = match self.root_kek(no_context.as_slice()) {
            Err(e) => { return Err(e); },
            Ok(k) => k,
        };
        let keyblob = match decrypt(
            self.dev.sdd_mgr.as_ref(),
            &self.imp.aes,
            &self.imp.hmac,
            root_kek.as_slice(),
            encrypted_keyblob,
            hidden,
        ) {
            Err(e) => { return Err(e); },
            Ok(k) => k,
        };
        let checked = match keyblob.characteristics_at(self.hw_info.security_level) {
            Err(e) => Err(e),
            Ok(key_chars) => check_upgrade(key_chars, &self.hal_info, &self.boot_info),
        };
        match checked {
            Err(e) => Err(e),
            Ok(()) => Ok(keyblob),
        }
    }

    /// What [`Self::keyblob_parse_decrypt`] returns: the bytes are read as a
    /// keyblob, which is opened with the hidden parameters that belong to
    /// the parameters of the caller and to the root of trust of the device.
    pub open spec fn keyblob_parsed_decrypted(
        &self,
        key_blob: Seq<u8>,
        params: Seq<KeyParamView>,
    ) -> Result<(PlaintextKeyBlobView, Option<SecureDeletionSlot>), Error> {
        match EncryptedKeyBlobView::parse(key_blob) {
            Err(e) => Err(e),
            Ok(blob) => match self.rot_data {
                None => Err(Error::Hal(ErrorCode::HardwareNotYetAvailable)),
                Some(rot) => match self.keyblob_decrypted(blob, hidden_params(params, rot@)) {
                    Err(e) => Err(e),
                    Ok(keyblob) => Ok((keyblob, blob.secure_deletion_slot())),
                },
            },
        }
    }

    /// Reads and opens an encrypted keyblob.
    pub fn keyblob_parse_decrypt(&self, key_blob: &[u8], params: &[KeyParam]) -> (r: Result<
        (PlaintextKeyBlob, Option<SecureDeletionSlot>),
        Error,
    >)
        ensures
            match r {
                Ok((keyblob, slot)) => self.keyblob_parsed_decrypted(key_blob@, views(params@))
                    == Ok::<(PlaintextKeyBlobView, Option<SecureDeletionSlot>), Error>(
                    (keyblob@, slot),
                ),
                Err(e) => self.keyblob_parsed_decrypted(key_blob@, views(params@)) == Err::<
                    (PlaintextKeyBlobView, Option<SecureDeletionSlot>),
                    Error,
                >(e),
            },
    {
        let encrypted_keyblob = match EncryptedKeyBlob::new(key_blob) {
            Err(e) => { return Err(e); },
            Ok(b) => b,
        };
        let rot = match self.root_of_trust() {
            Err(e) => { return Err(e); },
            Ok(rot) => rot,
        };
        let hidden = hidden(params, rot.as_slice());
        let sdd_slot = encrypted_keyblob.secure_deletion_slot();
        match self.keyblob_decrypt(encrypted_keyblob, hidden) {
            Err(e) => Err(e),
            Ok(keyblob) => Ok((keyblob, sdd_slot)),
        }
    }

    /// The characteristics of the key in a keyblob, which is opened with the
    /// application identifier and the application data given, each where it
    /// is not empty.
    pub fn get_key_characteristics(&self, key_blob: &[u8], app_id: Vec<u8>, app_data: Vec<u8>) -> (r:
        Result<Vec<KeyCharacteristics>, Error>)
        ensures
            match r {
                Ok(chars) => self.keyblob_parsed_decrypted(
                    key_blob@,
                    application_params(app_id@, app_data@),
                ) matches Ok((keyblob, _)) && keyblob.characteristics == views(chars@),
                Err(e) => self.keyblob_parsed_decrypted(
                    key_blob@,
                    application_params(app_id@, app_data@),
                ) == Err::<(PlaintextKeyBlobView, Option<SecureDeletionSlot>), Error>(e),
            },
    {
        let mut params: Vec<KeyParam> = Vec::new();
        if app_id.len() > 0 {
            params.push(KeyParam::ApplicationId(app_id));
        }
        if app_data.len() > 0 {
            params.push(KeyParam::ApplicationData(app_data));
        }
        assert(views(params@) =~= application_params(app_id@, app_data@));
        match self.keyblob_parse_decrypt(key_blob, params.as_slice()) {
            Err(e) => Err(e),
            Ok((keyblob, _)) => Ok(keyblob.characteristics),
        }
    }

    /// Wraps the key of a storage keyblob under a key that lasts until the
    /// next boot. Fails with `Unimplemented` where the device has no wrapper
    /// for storage keys, and with the error of opening the keyblob, which is
    /// opened without application identifier and data; otherwise the answer
    /// is that of the wrapper.
    pub fn convert_storage_key_to_ephemeral(&self, keyblob: &[u8]) -> (r: Result<Vec<u8>, Error>)
        ensures
            self.dev.sk_wrapper is None ==> r == Err::<Vec<u8>, Error>(
                Error::Hal(ErrorCode::Unimplemented),
            ),
            self.dev.sk_wrapper is Some ==> match self.keyblob_parsed_decrypted(
                keyblob@,
                Seq::empty(),
            ) {
                Err(e) => r == Err::<Vec<u8>, Error>(e),
                Ok(_) => true,
            },
    {
        match &self.dev.sk_wrapper {
            Some(sk_wrapper) => {
                let no_params: Vec<KeyParam> = Vec::new();
                assert(views(no_params@) =~= Seq::<KeyParamView>::empty());
                match self.keyblob_parse_decrypt(keyblob, no_params.as_slice()) {
                    Err(e) => Err(e),
                    Ok((keyblob, _)) => sk_wrapper.ephemeral_wrap(&keyblob.key_material),
                }
            },
            None => Err(Error::Hal(ErrorCode::Unimplemented)),
        }
    }

    /// Adds to the characteristics at the security level of this device the
    /// parameters that the trusted application itself vouches for: see
    /// [`keymint_tags`]. They go to the first entry at that level; without
    /// such an entry nothing changes and the call fails with `UnknownError`.
    pub fn add_keymint_tags(&self, chars: &mut Vec<KeyCharacteristics>, origin: KeyOrigin) -> (r:
        Result<(), Error>)
        ensures
            match index_at(views(old(chars)@), self.hw_info.security_level, 0) {
                None => r == Err::<(), Error>(Error::Hal(ErrorCode::UnknownError)) && views(
                    final(chars)@,
                ) == views(old(chars)@),
                Some(i) => r is Ok && views(final(chars)@) == views(old(chars)@).update(
                    i,
                    KeyCharacteristicsView {
                        security_level: self.hw_info.security_level,
                        authorizations: views(old(chars)@)[i].authorizations + keymint_tags(
                            origin,
                            self.hal_info,
                            self.boot_info,
                        ),
                    },
                ),
            },
    {
        let mut i: usize = 0;
        while i < chars.len()
            invariant
                i <= chars.len(),
                *chars == *old(chars),
                index_at(views(chars@), self.hw_info.security_level, 0) == index_at(
                    views(chars@),
                    self.hw_info.security_level,
                    i as int,
                ),
            decreases chars.len() - i,
        {
            assert(views(chars@)[i as int] == chars@[i as int]@);
            if chars[i].security_level == self.hw_info.security_level {
                let ghost before = views(chars@);
                let kc = &mut chars[i];
                push_keymint_tags(&mut kc.authorizations, origin, &self.hal_info, &self.boot_info);
                assert(views(chars@) =~= before.update(
                    i as int,
                    KeyCharacteristicsView {
                        security_level: self.hw_info.security_level,
                        authorizations: before[i as int].authorizations + keymint_tags(
                            origin,
                            self.hal_info,
                            self.boot_info,
                        ),
                    },
                ));
                return Ok(());
            }
            i += 1;
        }
        assert(views(chars@) =~= views(old(chars)@));
        Err(Error::Hal(ErrorCode::UnknownError))
    }
}

} // verus!
