use keymint_ta::cbor::{from_slice, to_vec, CborError, CborValue};
use keymint_ta::crypto::{hkdf, Aes, AesKey, Hmac, KeyMaterial, Rng};
use keymint_ta::error::Error;
use keymint_ta::keyblob::{
    characteristics_at, decrypt, derive_kek, encrypt, needs_slot, seal,
    seal_into_slot, EncryptedKeyBlob, EncryptedKeyBlobV1, PlaintextKeyBlob, RootOfTrustInfo,
    SecureDeletionData, SecureDeletionSecretManager, SecureDeletionSlot, SlotHolder, Version,
};
use keymint_ta::wire::characteristics::{characteristics_to_cbor_value, params_to_cbor_value, KeyCharacteristics};
use keymint_ta::wire::keymint::{Algorithm, EcCurve, ErrorCode, KeyPurpose, SecurityLevel, VerifiedBootState};
use keymint_ta::wire::params::{KeyParam, KeySizeInBits};

// Collaborators for the tests: real HMAC-SHA256 and AES-GCM, a counting
// random number generator, and secure storage in memory.

struct Sha256Hmac;

impl Hmac for Sha256Hmac {
    fn mac(&self, _: vstd::seq::Seq<u8>, _: vstd::seq::Seq<u8>) -> Result<vstd::seq::Seq<u8>, Error> {
        unreachable!()
    }

    fn hmac_sha256(&self, key: &[u8], data: &[u8]) -> Result<Vec<u8>, Error> {
        let mut mac = <hmac::Hmac<sha2::Sha256> as hmac::Mac>::new_from_slice(key)
            .map_err(|_| Error::Hal(ErrorCode::UnknownError))?;
        hmac::Mac::update(&mut mac, data);
        Ok(hmac::Mac::finalize(mac).into_bytes().to_vec())
    }
}

struct GcmAes {
    fail_encrypt: bool,
}

impl Aes for GcmAes {
    fn gcm_sealed(&self, _: vstd::seq::Seq<u8>, _: vstd::seq::Seq<u8>, _: vstd::seq::Seq<u8>, _: vstd::seq::Seq<u8>) -> Result<vstd::seq::Seq<u8>, Error> {
        unreachable!()
    }

    fn gcm_opened(&self, _: vstd::seq::Seq<u8>, _: vstd::seq::Seq<u8>, _: vstd::seq::Seq<u8>, _: vstd::seq::Seq<u8>) -> Result<vstd::seq::Seq<u8>, Error> {
        unreachable!()
    }

    fn gcm_encrypt(&self, key: &AesKey, nonce: &[u8; 12], aad: &[u8], plaintext: &[u8]) -> Result<Vec<u8>, Error> {
        if self.fail_encrypt {
            return Err(Error::Hal(ErrorCode::SecureHwBusy));
        }
        let payload = aes_gcm::aead::Payload { msg: plaintext, aad };
        let nonce = aes_gcm::Nonce::from_slice(nonce);
        let sealed = match key {
            AesKey::Aes128(k) => aes_gcm::aead::Aead::encrypt(&<aes_gcm::Aes128Gcm as aes_gcm::KeyInit>::new_from_slice(k).unwrap(), nonce, payload),
            AesKey::Aes256(k) => aes_gcm::aead::Aead::encrypt(&<aes_gcm::Aes256Gcm as aes_gcm::KeyInit>::new_from_slice(k).unwrap(), nonce, payload),
            AesKey::Aes192(_) => return Err(Error::Hal(ErrorCode::UnsupportedKeySize)),
        };
        sealed.map_err(|_| Error::Hal(ErrorCode::UnknownError))
    }

    fn gcm_decrypt(&self, key: &AesKey, nonce: &[u8; 12], aad: &[u8], sealed: &[u8]) -> Result<Vec<u8>, Error> {
        let payload = aes_gcm::aead::Payload { msg: sealed, aad };
        let nonce = aes_gcm::Nonce::from_slice(nonce);
        let opened = match key {
            AesKey::Aes128(k) => aes_gcm::aead::Aead::decrypt(&<aes_gcm::Aes128Gcm as aes_gcm::KeyInit>::new_from_slice(k).unwrap(), nonce, payload),
            AesKey::Aes256(k) => aes_gcm::aead::Aead::decrypt(&<aes_gcm::Aes256Gcm as aes_gcm::KeyInit>::new_from_slice(k).unwrap(), nonce, payload),
            AesKey::Aes192(_) => return Err(Error::Hal(ErrorCode::UnsupportedKeySize)),
        };
        opened.map_err(|_| Error::Hal(ErrorCode::VerificationFailed))
    }
}

struct CountingRng {
    next: u8,
    entropy: usize,
}

impl Rng for CountingRng {
    fn add_entropy(&mut self, data: &[u8]) {
        self.entropy += data.len();
    }

    fn fill_bytes(&mut self, dest: &mut Vec<u8>) {
        for b in dest.iter_mut() {
            self.next = self.next.wrapping_mul(73).wrapping_add(41);
            *b = self.next;
        }
    }
}

struct MemorySecrets {
    slots: Vec<Option<SecureDeletionData>>,
    fail_new: bool,
    deleted: Vec<u32>,
}

impl MemorySecrets {
    fn with_slots(n: usize) -> Self {
        MemorySecrets { slots: vec![None; n], fail_new: false, deleted: Vec::new() }
    }

    fn in_use(&self) -> usize {
        self.slots.iter().filter(|s| s.is_some()).count()
    }
}

impl SecureDeletionSecretManager for MemorySecrets {
    fn secret(&self, _: SecureDeletionSlot) -> Result<SecureDeletionData, Error> {
        unreachable!()
    }

    fn new_secret<R: Rng>(&mut self, rng: &mut R) -> Result<(SecureDeletionSlot, SecureDeletionData), Error> {
        if self.fail_new {
            return Err(Error::Hal(ErrorCode::SecureHwBusy));
        }
        let free = self.slots.iter().position(|s| s.is_none()).ok_or(Error::Hal(ErrorCode::RollbackResistanceUnavailable))?;
        let mut secret = vec![0u8; 16];
        rng.fill_bytes(&mut secret);
        let mut sdd = SecureDeletionData { factory_reset_secret: [0x11; 32], secure_deletion_secret: [0; 16] };
        sdd.secure_deletion_secret.copy_from_slice(&secret);
        self.slots[free] = Some(sdd);
        Ok((SecureDeletionSlot(free as u32), sdd))
    }

    fn get_secret(&self, slot: SecureDeletionSlot) -> Result<SecureDeletionData, Error> {
        match self.slots.get(slot.0 as usize) {
            Some(Some(sdd)) => Ok(*sdd),
            _ => Err(Error::Hal(ErrorCode::InvalidKeyBlob)),
        }
    }

    fn delete_secret(&mut self, slot: SecureDeletionSlot) -> Result<(), Error> {
        self.deleted.push(slot.0);
        match self.slots.get_mut(slot.0 as usize) {
            Some(s) => {
                *s = None;
                Ok(())
            }
            None => Err(Error::Hal(ErrorCode::InvalidArgument)),
        }
    }

    fn delete_all(&mut self) {
        for s in self.slots.iter_mut() {
            *s = None;
        }
    }
}

fn hex(bytes: &[u8]) -> String {
    bytes.iter().map(|b| format!("{:02x}", b)).collect()
}


fn aes_keyblob(extra: Vec<KeyParam>) -> PlaintextKeyBlob {
    let mut authorizations = vec![
        KeyParam::Purpose(KeyPurpose::Encrypt),
        KeyParam::Algorithm(Algorithm::Aes),
        KeyParam::KeySize(KeySizeInBits(128)),
    ];
    authorizations.extend(extra);
    PlaintextKeyBlob {
        characteristics: vec![KeyCharacteristics { security_level: SecurityLevel::TrustedEnvironment, authorizations }],
        key_material: KeyMaterial::Aes(AesKey::Aes128([0x0f; 16])),
    }
}

fn aes() -> GcmAes {
    GcmAes { fail_encrypt: false }
}

fn rng() -> CountingRng {
    CountingRng { next: 7, entropy: 0 }
}

const ROOT_KEY: [u8; 32] = [0u8; 32];

#[test]
fn hkdf_matches_rfc_5869_test_case_3() {
    // Input keying material of 22 bytes 0x0b, no salt, no info: the first 32 bytes of the
    // output keying material of the RFC.
    let okm = hkdf(&Sha256Hmac, &[], &[0x0b; 22], &[]).unwrap();
    assert_eq!(hex(&okm), "8da4e775a563c18f715f802a063c5a31b8a11f5c5ee1879ec3454e5f3c738d2d");
}

#[test]
fn hkdf_matches_rfc_5869_test_case_1() {
    let ikm = [0x0b; 22];
    let salt: Vec<u8> = (0u8..=0x0c).collect();
    let info: Vec<u8> = (0xf0u8..=0xf9).collect();
    let okm = hkdf(&Sha256Hmac, &salt, &ikm, &info).unwrap();
    assert_eq!(hex(&okm), "3cb25f25faacd57a90434f64d0362f2a2d2d0a90cf1a5a4c5db02d56ecc4c5bf");
}

#[test]
fn hkdf_fails_where_hmac_is_short() {
    struct ShortHmac;
    impl Hmac for ShortHmac {
        fn mac(&self, _: vstd::seq::Seq<u8>, _: vstd::seq::Seq<u8>) -> Result<vstd::seq::Seq<u8>, Error> {
            unreachable!()
        }
        fn hmac_sha256(&self, _key: &[u8], _data: &[u8]) -> Result<Vec<u8>, Error> {
            Ok(vec![1, 2, 3])
        }
    }
    assert_eq!(hkdf(&ShortHmac, &[], &[1], &[2]), Err(Error::Hal(ErrorCode::UnknownError)));
}

#[test]
fn derive_kek_concatenates_context_in_order() {
    let keyblob = aes_keyblob(vec![]);
    let hidden = vec![KeyParam::ApplicationId(vec![1, 2, 3])];
    let kdi = [0x42u8; 32];
    let sdd = SecureDeletionData { factory_reset_secret: [0x0a; 32], secure_deletion_secret: [0x0b; 16] };

    let mut info = kdi.to_vec();
    info.extend(to_vec(&characteristics_to_cbor_value(&keyblob.characteristics)).unwrap());
    info.extend(to_vec(&params_to_cbor_value(&hidden)).unwrap());
    let without_sdd = hkdf(&Sha256Hmac, &[], &ROOT_KEY, &info).unwrap();
    info.extend(to_vec(&sdd.to_cbor_value()).unwrap());
    let with_sdd = hkdf(&Sha256Hmac, &[], &ROOT_KEY, &info).unwrap();

    assert_eq!(derive_kek(&Sha256Hmac, &ROOT_KEY, &kdi, &keyblob.characteristics, &hidden, None), Ok(AesKey::Aes256(without_sdd)));
    assert_eq!(derive_kek(&Sha256Hmac, &ROOT_KEY, &kdi, &keyblob.characteristics, &hidden, Some(&sdd)), Ok(AesKey::Aes256(with_sdd)));
    assert_ne!(without_sdd, with_sdd);
}

#[test]
fn secure_deletion_data_has_its_cbor_form() {
    let sdd = SecureDeletionData { factory_reset_secret: [0x0a; 32], secure_deletion_secret: [0x0b; 16] };
    let mut expected = vec![0x82, 0x58, 0x20];
    expected.extend([0x0a; 32]);
    expected.push(0x50);
    expected.extend([0x0b; 16]);
    assert_eq!(to_vec(&sdd.to_cbor_value()).unwrap(), expected);
}

#[test]
fn round_trip_seal_unseal() {
    let keyblob = aes_keyblob(vec![]);
    let blob = encrypt(None::<&mut MemorySecrets>, &aes(), &Sha256Hmac, &mut rng(), &ROOT_KEY, keyblob.clone(), vec![]).unwrap();
    assert_eq!(blob.secure_deletion_slot(), None);
    let back = decrypt(None::<&MemorySecrets>, &aes(), &Sha256Hmac, &ROOT_KEY, blob, vec![]).unwrap();
    assert_eq!(back, keyblob);
}

#[test]
fn round_trip_through_bytes() {
    let keyblob = aes_keyblob(vec![]);
    let hidden = vec![KeyParam::ApplicationId(b"app".to_vec()), KeyParam::RootOfTrust(vec![9; 4])];
    let blob = encrypt(None::<&mut MemorySecrets>, &aes(), &Sha256Hmac, &mut rng(), &ROOT_KEY, keyblob.clone(), hidden.clone()).unwrap();
    let bytes = blob.into_vec().unwrap();
    let parsed = EncryptedKeyBlob::new(&bytes).unwrap();
    assert_eq!(parsed, blob);
    let back = decrypt(None::<&MemorySecrets>, &aes(), &Sha256Hmac, &ROOT_KEY, parsed, hidden).unwrap();
    assert_eq!(back, keyblob);
}

#[test]
fn changed_hidden_parameter_gives_invalid_keyblob() {
    let keyblob = aes_keyblob(vec![]);
    let hidden = vec![KeyParam::ApplicationId(b"app".to_vec())];
    let sealed = || encrypt(None::<&mut MemorySecrets>, &aes(), &Sha256Hmac, &mut rng(), &ROOT_KEY, keyblob.clone(), hidden.clone()).unwrap();
    for other in [
        vec![],
        vec![KeyParam::ApplicationId(b"apq".to_vec())],
        vec![KeyParam::ApplicationData(b"app".to_vec())],
        vec![KeyParam::ApplicationId(b"app".to_vec()), KeyParam::ApplicationData(vec![])],
    ] {
        let r = decrypt(None::<&MemorySecrets>, &aes(), &Sha256Hmac, &ROOT_KEY, sealed(), other);
        assert_eq!(r, Err(Error::Hal(ErrorCode::InvalidKeyBlob)));
    }
    // Sealed without hidden parameters, opened with one.
    let plain = encrypt(None::<&mut MemorySecrets>, &aes(), &Sha256Hmac, &mut rng(), &ROOT_KEY, keyblob.clone(), vec![]).unwrap();
    let r = decrypt(None::<&MemorySecrets>, &aes(), &Sha256Hmac, &ROOT_KEY, plain, hidden.clone());
    assert_eq!(r, Err(Error::Hal(ErrorCode::InvalidKeyBlob)));
}

#[test]
fn altered_keyblob_gives_invalid_keyblob() {
    let keyblob = aes_keyblob(vec![]);
    let sealed = || match encrypt(None::<&mut MemorySecrets>, &aes(), &Sha256Hmac, &mut rng(), &ROOT_KEY, keyblob.clone(), vec![]).unwrap() {
        EncryptedKeyBlob::V1(inner) => inner,
    };
    let open = |inner: EncryptedKeyBlobV1, root: &[u8]| decrypt(None::<&MemorySecrets>, &aes(), &Sha256Hmac, root, EncryptedKeyBlob::V1(inner), vec![]);

    assert!(open(sealed(), &ROOT_KEY).is_ok());

    let mut blob = sealed();
    blob.characteristics[0].authorizations.push(KeyParam::NoAuthRequired);
    assert_eq!(open(blob, &ROOT_KEY), Err(Error::Hal(ErrorCode::InvalidKeyBlob)));

    let mut blob = sealed();
    blob.key_derivation_input[31] ^= 1;
    assert_eq!(open(blob, &ROOT_KEY), Err(Error::Hal(ErrorCode::InvalidKeyBlob)));

    let mut blob = sealed();
    let ct = blob.encrypted_key_material.ciphertext.as_mut().unwrap();
    ct[0] ^= 0x80;
    assert_eq!(open(blob, &ROOT_KEY), Err(Error::Hal(ErrorCode::InvalidKeyBlob)));

    let mut blob = sealed();
    let ct = blob.encrypted_key_material.ciphertext.as_mut().unwrap();
    let last = ct.len() - 1;
    ct[last] ^= 1;
    assert_eq!(open(blob, &ROOT_KEY), Err(Error::Hal(ErrorCode::InvalidKeyBlob)));

    let mut blob = sealed();
    blob.encrypted_key_material.ciphertext = None;
    assert_eq!(open(blob, &ROOT_KEY), Err(Error::Hal(ErrorCode::InvalidKeyBlob)));

    let mut blob = sealed();
    blob.encrypted_key_material.protected = vec![0xa1, 0x01, 0x01];
    assert_eq!(open(blob, &ROOT_KEY), Err(Error::Hal(ErrorCode::InvalidKeyBlob)));

    let mut other_root = ROOT_KEY;
    other_root[0] = 1;
    assert_eq!(open(sealed(), &other_root), Err(Error::Hal(ErrorCode::InvalidKeyBlob)));
}

#[test]
fn envelope_is_cose_encrypt0_with_a256gcm() {
    let keyblob = aes_keyblob(vec![]);
    let blob = match encrypt(None::<&mut MemorySecrets>, &aes(), &Sha256Hmac, &mut rng(), &ROOT_KEY, keyblob.clone(), vec![]).unwrap() {
        EncryptedKeyBlob::V1(inner) => inner,
    };
    assert_eq!(blob.encrypted_key_material.protected, vec![0xa1, 0x01, 0x03]);
    assert_eq!(blob.encrypted_key_material.unprotected, CborValue::Dict(vec![]));

    // The ciphertext opens under the derived key, the zero nonce and the Enc_structure
    // ["Encrypt0", h'a10103', h''] as additional data.
    let kek = derive_kek(&Sha256Hmac, &ROOT_KEY, &blob.key_derivation_input, &blob.characteristics, &vec![], None).unwrap();
    let mut aad = vec![0x83, 0x68];
    aad.extend(b"Encrypt0");
    aad.extend([0x43, 0xa1, 0x01, 0x03, 0x40]);
    let ct = blob.encrypted_key_material.ciphertext.clone().unwrap();
    let plaintext = aes().gcm_decrypt(&kek, &[0u8; 12], &aad, &ct).unwrap();
    assert_eq!(plaintext, to_vec(&keyblob.key_material.to_cbor_value()).unwrap());
    assert_eq!(ct.len(), plaintext.len() + 16);
    // [32, h'0f0f...']
    let mut expected = vec![0x82, 0x18, 0x20, 0x50];
    expected.extend([0x0f; 16]);
    assert_eq!(plaintext, expected);
}

#[test]
fn seal_is_exact_for_a_given_derivation_input() {
    let keyblob = aes_keyblob(vec![]);
    let a = seal(&aes(), &Sha256Hmac, &ROOT_KEY, &[3u8; 32], &keyblob, &vec![], None).unwrap();
    let b = seal(&aes(), &Sha256Hmac, &ROOT_KEY, &[3u8; 32], &keyblob, &vec![], None).unwrap();
    let c = seal(&aes(), &Sha256Hmac, &ROOT_KEY, &[4u8; 32], &keyblob, &vec![], None).unwrap();
    assert_eq!(a, b);
    assert_ne!(a.ciphertext, c.ciphertext);
}

#[test]
fn keyblob_bytes_have_the_wire_layout() {
    let keyblob = aes_keyblob(vec![]);
    let blob = encrypt(None::<&mut MemorySecrets>, &aes(), &Sha256Hmac, &mut rng(), &ROOT_KEY, keyblob, vec![]).unwrap();
    let bytes = blob.into_vec().unwrap();
    let outer = match from_slice(&bytes).unwrap() {
        CborValue::Array(a) => a,
        other => panic!("unexpected {:?}", other),
    };
    assert_eq!(outer.len(), 2);
    assert_eq!(outer[0], CborValue::Integer(0));
    let inner = match &outer[1] {
        CborValue::Array(a) => a,
        other => panic!("unexpected {:?}", other),
    };
    assert_eq!(inner.len(), 4);
    assert!(matches!(&inner[0], CborValue::Array(chars) if chars.len() == 1));
    assert!(matches!(&inner[1], CborValue::Bytes(kdi) if kdi.len() == 32));
    match &inner[2] {
        CborValue::Tag(16, envelope) => match envelope.as_ref() {
            CborValue::Array(parts) => {
                assert_eq!(parts.len(), 3);
                assert_eq!(parts[0], CborValue::Bytes(vec![0xa1, 0x01, 0x03]));
                assert_eq!(parts[1], CborValue::Dict(vec![]));
                assert!(matches!(&parts[2], CborValue::Bytes(_)));
            }
            other => panic!("unexpected {:?}", other),
        },
        other => panic!("unexpected {:?}", other),
    }
    assert_eq!(inner[3], CborValue::Array(vec![]));
}

#[test]
fn rollback_resistance_without_storage() {
    let keyblob = aes_keyblob(vec![KeyParam::RollbackResistance]);
    let r = encrypt(None::<&mut MemorySecrets>, &aes(), &Sha256Hmac, &mut rng(), &ROOT_KEY, keyblob, vec![]);
    assert_eq!(r, Err(Error::Hal(ErrorCode::RollbackResistanceUnavailable)));
}

#[test]
fn single_use_key_without_storage() {
    let keyblob = aes_keyblob(vec![KeyParam::UsageCountLimit(1)]);
    let r = encrypt(None::<&mut MemorySecrets>, &aes(), &Sha256Hmac, &mut rng(), &ROOT_KEY, keyblob, vec![]);
    assert_eq!(r, Err(Error::Hal(ErrorCode::RollbackResistanceUnavailable)));
}

#[test]
fn needs_slot_looks_at_every_level() {
    assert!(!needs_slot(&aes_keyblob(vec![KeyParam::UsageCountLimit(2)]).characteristics));
    assert!(needs_slot(&aes_keyblob(vec![KeyParam::UsageCountLimit(1)]).characteristics));
    assert!(needs_slot(&aes_keyblob(vec![KeyParam::RollbackResistance]).characteristics));
    let chars = vec![
        KeyCharacteristics { security_level: SecurityLevel::Software, authorizations: vec![KeyParam::NoAuthRequired] },
        KeyCharacteristics { security_level: SecurityLevel::Keystore, authorizations: vec![KeyParam::RollbackResistance] },
    ];
    assert!(needs_slot(&chars));
    assert!(!needs_slot(&vec![]));
}

#[test]
fn slot_is_bound_into_the_keyblob() {
    let mut mgr = MemorySecrets::with_slots(4);
    mgr.slots[0] = Some(SecureDeletionData { factory_reset_secret: [1; 32], secure_deletion_secret: [2; 16] });
    let keyblob = aes_keyblob(vec![KeyParam::RollbackResistance]);
    let blob = encrypt(Some(&mut mgr), &aes(), &Sha256Hmac, &mut rng(), &ROOT_KEY, keyblob.clone(), vec![]).unwrap();
    assert_eq!(blob.secure_deletion_slot(), Some(SecureDeletionSlot(1)));
    assert_eq!(mgr.in_use(), 2);
    assert!(mgr.deleted.is_empty());

    let bytes = blob.into_vec().unwrap();
    let back = decrypt(Some(&mgr), &aes(), &Sha256Hmac, &ROOT_KEY, EncryptedKeyBlob::new(&bytes).unwrap(), vec![]).unwrap();
    assert_eq!(back, keyblob);

    // Without the manager the keyblob cannot be opened.
    let r = decrypt(None::<&MemorySecrets>, &aes(), &Sha256Hmac, &ROOT_KEY, EncryptedKeyBlob::new(&bytes).unwrap(), vec![]);
    assert_eq!(r, Err(Error::Hal(ErrorCode::InvalidKeyBlob)));

    // Once the secret is gone, so is the key; the error is the manager's.
    mgr.delete_secret(SecureDeletionSlot(1)).unwrap();
    let r = decrypt(Some(&mgr), &aes(), &Sha256Hmac, &ROOT_KEY, EncryptedKeyBlob::new(&bytes).unwrap(), vec![]);
    assert_eq!(r, Err(Error::Hal(ErrorCode::InvalidKeyBlob)));

    // With other secrets in the slot the key does not come back.
    mgr.slots[1] = Some(SecureDeletionData { factory_reset_secret: [1; 32], secure_deletion_secret: [3; 16] });
    let r = decrypt(Some(&mgr), &aes(), &Sha256Hmac, &ROOT_KEY, EncryptedKeyBlob::new(&bytes).unwrap(), vec![]);
    assert_eq!(r, Err(Error::Hal(ErrorCode::InvalidKeyBlob)));
}

#[test]
fn key_without_need_takes_no_slot() {
    let mut mgr = MemorySecrets::with_slots(2);
    let blob = encrypt(Some(&mut mgr), &aes(), &Sha256Hmac, &mut rng(), &ROOT_KEY, aes_keyblob(vec![]), vec![]).unwrap();
    assert_eq!(blob.secure_deletion_slot(), None);
    assert_eq!(mgr.in_use(), 0);
}

#[test]
fn slot_is_released_when_sealing_fails() {
    let mut mgr = MemorySecrets::with_slots(4);
    let keyblob = aes_keyblob(vec![KeyParam::UsageCountLimit(1)]);
    let r = encrypt(Some(&mut mgr), &GcmAes { fail_encrypt: true }, &Sha256Hmac, &mut rng(), &ROOT_KEY, keyblob, vec![]);
    assert_eq!(r, Err(Error::Hal(ErrorCode::SecureHwBusy)));
    assert_eq!(mgr.in_use(), 0);
    assert_eq!(mgr.deleted, vec![0]);
}

#[test]
fn failure_to_reserve_is_handed_on() {
    let mut mgr = MemorySecrets::with_slots(4);
    mgr.fail_new = true;
    let r = encrypt(Some(&mut mgr), &aes(), &Sha256Hmac, &mut rng(), &ROOT_KEY, aes_keyblob(vec![KeyParam::RollbackResistance]), vec![]);
    assert_eq!(r, Err(Error::Hal(ErrorCode::SecureHwBusy)));
    assert!(mgr.deleted.is_empty());
}

#[test]
fn slot_holder_consume_and_release() {
    let mut mgr = MemorySecrets::with_slots(2);
    let (holder, sdd) = SlotHolder::new(&mut mgr, &mut rng()).unwrap();
    assert_eq!(holder.slot, SecureDeletionSlot(0));
    let slot = holder.consume();
    assert_eq!(mgr.get_secret(slot), Ok(sdd));
    assert!(mgr.deleted.is_empty());

    let (holder, _) = SlotHolder::new(&mut mgr, &mut rng()).unwrap();
    assert_eq!(holder.slot, SecureDeletionSlot(1));
    assert_eq!(holder.release(), Ok(()));
    assert_eq!(mgr.deleted, vec![1]);
    assert_eq!(mgr.in_use(), 1);

    mgr.fail_new = true;
    assert!(SlotHolder::new(&mut mgr, &mut rng()).is_err());
}

#[test]
fn seal_into_slot_commits_the_reservation() {
    let mut mgr = MemorySecrets::with_slots(4);
    let keyblob = aes_keyblob(vec![KeyParam::RollbackResistance]);
    let (holder, sdd) = SlotHolder::new(&mut mgr, &mut rng()).unwrap();
    let kdi = [0x5a; 32];
    let blob = seal_into_slot(holder, &sdd, &aes(), &Sha256Hmac, &ROOT_KEY, &kdi, keyblob.clone(), &vec![]).unwrap();
    let envelope = seal(&aes(), &Sha256Hmac, &ROOT_KEY, &kdi, &keyblob, &vec![], Some(&sdd)).unwrap();
    assert_eq!(
        blob,
        EncryptedKeyBlob::V1(EncryptedKeyBlobV1 {
            characteristics: keyblob.characteristics.clone(),
            key_derivation_input: kdi,
            encrypted_key_material: envelope,
            secure_deletion_slot: Some(SecureDeletionSlot(0)),
        })
    );
    assert_eq!(mgr.in_use(), 1);
    assert_eq!(mgr.get_secret(SecureDeletionSlot(0)), Ok(sdd));
    assert!(mgr.deleted.is_empty());
    assert_eq!(decrypt(Some(&mgr), &aes(), &Sha256Hmac, &ROOT_KEY, blob, vec![]), Ok(keyblob));
}

#[test]
fn seal_into_slot_releases_the_slot_on_failure() {
    let mut mgr = MemorySecrets::with_slots(4);
    mgr.slots[0] = Some(SecureDeletionData { factory_reset_secret: [1; 32], secure_deletion_secret: [2; 16] });
    let kept = mgr.slots[0];
    let keyblob = aes_keyblob(vec![KeyParam::UsageCountLimit(1)]);
    let (holder, sdd) = SlotHolder::new(&mut mgr, &mut rng()).unwrap();
    assert_eq!(holder.slot, SecureDeletionSlot(1));
    let failure = seal_into_slot(holder, &sdd, &GcmAes { fail_encrypt: true }, &Sha256Hmac, &ROOT_KEY, &[0x5a; 32], keyblob, &vec![]).unwrap_err();
    assert_eq!(failure.error, Error::Hal(ErrorCode::SecureHwBusy));
    assert_eq!(failure.released, Ok(()));
    assert_eq!(mgr.deleted, vec![1]);
    assert_eq!(mgr.slots, vec![kept, None, None, None]);
}

#[test]
fn refused_release_does_not_replace_the_error_of_sealing() {
    let mut mgr = MemorySecrets::with_slots(2);
    let sdd = SecureDeletionData { factory_reset_secret: [1; 32], secure_deletion_secret: [2; 16] };
    mgr.slots[1] = Some(sdd);
    // A slot that the manager does not know: it refuses to delete it.
    let holder = SlotHolder { mgr: &mut mgr, slot: SecureDeletionSlot(9) };
    let failure = seal_into_slot(holder, &sdd, &GcmAes { fail_encrypt: true }, &Sha256Hmac, &ROOT_KEY, &[0x5a; 32], aes_keyblob(vec![KeyParam::RollbackResistance]), &vec![]).unwrap_err();
    assert_eq!(failure.error, Error::Hal(ErrorCode::SecureHwBusy));
    assert_eq!(failure.released, Err(Error::Hal(ErrorCode::InvalidArgument)));
    assert_eq!(mgr.deleted, vec![9]);
    assert_eq!(mgr.slots, vec![None, Some(sdd)]);
}

#[test]
fn failure_without_need_of_a_slot_is_the_error_of_sealing() {
    let mut mgr = MemorySecrets::with_slots(2);
    mgr.slots[0] = Some(SecureDeletionData { factory_reset_secret: [1; 32], secure_deletion_secret: [2; 16] });
    let before = mgr.slots.clone();
    let failing = GcmAes { fail_encrypt: true };
    for extra in [vec![], vec![KeyParam::UsageCountLimit(0)], vec![KeyParam::UsageCountLimit(2)]] {
        let r = encrypt(Some(&mut mgr), &failing, &Sha256Hmac, &mut rng(), &ROOT_KEY, aes_keyblob(extra.clone()), vec![]);
        assert_eq!(r, Err(Error::Hal(ErrorCode::SecureHwBusy)));
        let r = encrypt(None::<&mut MemorySecrets>, &failing, &Sha256Hmac, &mut rng(), &ROOT_KEY, aes_keyblob(extra), vec![]);
        assert_eq!(r, Err(Error::Hal(ErrorCode::SecureHwBusy)));
    }
    assert_eq!(mgr.slots, before);
    assert!(mgr.deleted.is_empty());
}

#[test]
fn derivation_input_is_drawn_from_the_generator() {
    let mut expected = vec![0u8; 32];
    rng().fill_bytes(&mut expected);
    assert_eq!(&expected[..4], &[40, 145, 130, 59]);

    // Without a slot the input is the first thing drawn.
    let blob = encrypt(None::<&mut MemorySecrets>, &aes(), &Sha256Hmac, &mut rng(), &ROOT_KEY, aes_keyblob(vec![]), vec![]).unwrap();
    let EncryptedKeyBlob::V1(v1) = blob;
    assert_eq!(v1.key_derivation_input.to_vec(), expected);
    let envelope = seal(&aes(), &Sha256Hmac, &ROOT_KEY, &v1.key_derivation_input, &aes_keyblob(vec![]), &vec![], None).unwrap();
    assert_eq!(v1.encrypted_key_material, envelope);

    // With a slot the reservation draws first.
    let mut mgr = MemorySecrets::with_slots(1);
    let blob = encrypt(Some(&mut mgr), &aes(), &Sha256Hmac, &mut rng(), &ROOT_KEY, aes_keyblob(vec![KeyParam::RollbackResistance]), vec![]).unwrap();
    let mut again = rng();
    let mut secret = vec![0u8; 16];
    again.fill_bytes(&mut secret);
    let mut second = vec![0u8; 32];
    again.fill_bytes(&mut second);
    let EncryptedKeyBlob::V1(v1) = blob;
    assert_eq!(v1.key_derivation_input.to_vec(), second);
    assert_eq!(mgr.slots[0].unwrap().secure_deletion_secret.to_vec(), secret);
}

#[test]
fn characteristics_at_finds_first_entry_at_level() {
    let chars = vec![
        KeyCharacteristics { security_level: SecurityLevel::Software, authorizations: vec![KeyParam::NoAuthRequired] },
        KeyCharacteristics { security_level: SecurityLevel::TrustedEnvironment, authorizations: vec![KeyParam::Purpose(KeyPurpose::Sign)] },
        KeyCharacteristics { security_level: SecurityLevel::TrustedEnvironment, authorizations: vec![KeyParam::Purpose(KeyPurpose::Verify)] },
    ];
    assert_eq!(characteristics_at(&chars, SecurityLevel::TrustedEnvironment), Ok(&vec![KeyParam::Purpose(KeyPurpose::Sign)]));
    assert_eq!(characteristics_at(&chars, SecurityLevel::Software), Ok(&vec![KeyParam::NoAuthRequired]));
    assert_eq!(characteristics_at(&chars, SecurityLevel::Strongbox), Err(Error::Hal(ErrorCode::InvalidKeyBlob)));
    assert_eq!(characteristics_at(&[], SecurityLevel::Software), Err(Error::Hal(ErrorCode::InvalidKeyBlob)));
}

#[test]
fn suitable_for_checks_purpose_at_level() {
    let keyblob = aes_keyblob(vec![KeyParam::Purpose(KeyPurpose::Decrypt)]);
    assert_eq!(keyblob.suitable_for(KeyPurpose::Encrypt, SecurityLevel::TrustedEnvironment), Ok(()));
    assert_eq!(keyblob.suitable_for(KeyPurpose::Decrypt, SecurityLevel::TrustedEnvironment), Ok(()));
    assert_eq!(keyblob.suitable_for(KeyPurpose::Sign, SecurityLevel::TrustedEnvironment), Err(Error::Hal(ErrorCode::IncompatiblePurpose)));
    assert_eq!(keyblob.suitable_for(KeyPurpose::Encrypt, SecurityLevel::Strongbox), Err(Error::Hal(ErrorCode::InvalidKeyBlob)));
    assert_eq!(keyblob.characteristics_at(SecurityLevel::TrustedEnvironment).map(|p| p.len()), Ok(4));
}

#[test]
fn every_kind_of_key_material_round_trips() {
    for key_material in [
        KeyMaterial::Rsa(vec![1, 2, 3]),
        KeyMaterial::Ec(EcCurve::P256, vec![4, 5]),
        KeyMaterial::Aes(AesKey::Aes128([1; 16])),
        KeyMaterial::Aes(AesKey::Aes192([2; 24])),
        KeyMaterial::Aes(AesKey::Aes256([3; 32])),
        KeyMaterial::Hmac(vec![]),
        KeyMaterial::TripleDes([7; 24]),
    ] {
        let bytes = to_vec(&key_material.to_cbor_value()).unwrap();
        let back = KeyMaterial::from_cbor_value(&from_slice(&bytes).unwrap());
        assert_eq!(back, Ok(key_material));
    }
}

#[test]
fn key_material_of_wrong_length_is_refused() {
    let aes15 = CborValue::Array(vec![CborValue::Integer(32), CborValue::Bytes(vec![0; 15])]);
    assert_eq!(KeyMaterial::from_cbor_value(&aes15), Err(CborError::InvalidValue));
    let des23 = CborValue::Array(vec![CborValue::Integer(33), CborValue::Bytes(vec![0; 23])]);
    assert_eq!(KeyMaterial::from_cbor_value(&des23), Err(CborError::InvalidValue));
    let unknown = CborValue::Array(vec![CborValue::Integer(2), CborValue::Bytes(vec![])]);
    assert_eq!(KeyMaterial::from_cbor_value(&unknown), Err(CborError::NonEnumValue));
    let ec_flat = CborValue::Array(vec![CborValue::Integer(3), CborValue::Bytes(vec![])]);
    assert_eq!(KeyMaterial::from_cbor_value(&ec_flat), Err(CborError::UnexpectedItem));
}

#[test]
fn root_of_trust_has_canonical_bytes() {
    let rot = RootOfTrustInfo {
        verified_boot_key: [0xaa; 32],
        device_boot_locked: true,
        verified_boot_state: VerifiedBootState::Unverified,
        verified_boot_hash: [0xbb; 32],
    };
    let mut expected = vec![0x84, 0x58, 0x20];
    expected.extend([0xaa; 32]);
    expected.extend([0xf5, 0x02, 0x58, 0x20]);
    expected.extend([0xbb; 32]);
    assert_eq!(rot.into_vec().unwrap(), expected);
}

#[test]
fn version_has_number_zero() {
    assert_eq!(Version::V1.to_cbor_value(), CborValue::Integer(0));
    assert_eq!(Version::from_cbor_value(&CborValue::Integer(0)), Ok(Version::V1));
    assert_eq!(Version::from_cbor_value(&CborValue::Integer(1)), Err(CborError::NonEnumValue));
    assert_eq!(Version::from_cbor_value(&CborValue::Null), Err(CborError::UnexpectedItem));
}
