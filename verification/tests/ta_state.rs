use keymint_ta::cbor::{from_slice, to_vec, CborValue};
use keymint_ta::crypto::{Aes, AesKey, ConstTimeEq, Hmac, KeyMaterial, MonotonicClock, Rng};
use keymint_ta::device::{
    AttestationChainInfo, CryptoImplementation, DeviceImplementation, Platform,
    RetrieveAttestationIds, RetrieveCertSigningInfo, RetrieveKeys, SigningAlgorithm, SigningKey,
    SigningKeyType, StorageKeyWrapper,
};
use keymint_ta::error::Error;
use keymint_ta::keyblob::{
    EncryptedKeyBlob, SecureDeletionData, SecureDeletionSecretManager, SecureDeletionSlot,
};
use keymint_ta::ta::clock::{
    hardware_auth_token_mac_input, hardware_auth_token_mac_input_for, timestamp_token_mac_input,
};
use keymint_ta::ta::dispatch::{error_rsp, invalid_cbor_rsp_data, op_error_rsp};
use keymint_ta::ta::info::{BootInfo, HalInfo, HardwareInfo, LockState};
use keymint_ta::ta::rkp::{RpcInfo, RpcInfoV2};
use keymint_ta::ta::{KeyId, KeyMintTa, OpHandle};
use keymint_ta::tag::{check_upgrade, check_version, hidden};
use keymint_ta::wire::characteristics::KeyCharacteristics;
use keymint_ta::wire::keymint::{
    Algorithm, BlockMode, Digest, ErrorCode, HardwareAuthenticatorType, KeyFormat, KeyOrigin,
    KeyPurpose, SecurityLevel, VerifiedBootState,
};
use keymint_ta::wire::messages::{
    AddRngEntropyRequest, BeginRequest, EarlyBootEndedRequest, GetHardwareInfoRequest,
    KeyMintOperation, PerformOpReq, PerformOpResponse, PerformOpRsp, SetBootInfoRequest,
    SetHalInfoRequest,
};
use keymint_ta::wire::params::{KeyParam, KeySizeInBits};
use keymint_ta::wire::types::{
    AttestationIdInfo, Certificate, EekCurve, HardwareAuthToken, SharedSecretParameters,
    TimeStampToken, Timestamp,
};

// Collaborators for the tests: real HMAC-SHA256 and AES-GCM, a counting
// random number generator, and secure storage in memory.

struct Sha256Hmac;

impl Hmac for Sha256Hmac {
    fn mac(&self, _: vstd::seq::Seq<u8>, _: vstd::seq::Seq<u8>) -> Result<vstd::seq::Seq<u8>, Error> {
        unreachable!()
    }

    fn hmac_sha256(&self, key: &[u8], data: &[u8]) -> Result<Vec<u8>, Error> {
        let mut mac = <hmac::Hmac<sha2::Sha256> as hmac::Mac>::new_from_slice(key)
            .map_err(|_| Error::Hal(ErrorCode::UnknownError))?;
        hmac::Mac::update(&mut mac, data);
        Ok(hmac::Mac::finalize(mac).into_bytes().to_vec())
    }
}

struct GcmAes {
    fail_encrypt: bool,
}

impl Aes for GcmAes {
    fn gcm_sealed(&self, _: vstd::seq::Seq<u8>, _: vstd::seq::Seq<u8>, _: vstd::seq::Seq<u8>, _: vstd::seq::Seq<u8>) -> Result<vstd::seq::Seq<u8>, Error> {
        unreachable!()
    }

    fn gcm_opened(&self, _: vstd::seq::Seq<u8>, _: vstd::seq::Seq<u8>, _: vstd::seq::Seq<u8>, _: vstd::seq::Seq<u8>) -> Result<vstd::seq::Seq<u8>, Error> {
        unreachable!()
    }

    fn gcm_encrypt(&self, key: &AesKey, nonce: &[u8; 12], aad: &[u8], plaintext: &[u8]) -> Result<Vec<u8>, Error> {
        if self.fail_encrypt {
            return Err(Error::Hal(ErrorCode::SecureHwBusy));
        }
        let payload = aes_gcm::aead::Payload { msg: plaintext, aad };
        let nonce = aes_gcm::Nonce::from_slice(nonce);
        let sealed = match key {
            AesKey::Aes128(k) => aes_gcm::aead::Aead::encrypt(&<aes_gcm::Aes128Gcm as aes_gcm::KeyInit>::new_from_slice(k).unwrap(), nonce, payload),
            AesKey::Aes256(k) => aes_gcm::aead::Aead::encrypt(&<aes_gcm::Aes256Gcm as aes_gcm::KeyInit>::new_from_slice(k).unwrap(), nonce, payload),
            AesKey::Aes192(_) => return Err(Error::Hal(ErrorCode::UnsupportedKeySize)),
        };
        sealed.map_err(|_| Error::Hal(ErrorCode::UnknownError))
    }

    fn gcm_decrypt(&self, key: &AesKey, nonce: &[u8; 12], aad: &[u8], sealed: &[u8]) -> Result<Vec<u8>, Error> {
        let payload = aes_gcm::aead::Payload { msg: sealed, aad };
        let nonce = aes_gcm::Nonce::from_slice(nonce);
        let opened = match key {
            AesKey::Aes128(k) => aes_gcm::aead::Aead::decrypt(&<aes_gcm::Aes128Gcm as aes_gcm::KeyInit>::new_from_slice(k).unwrap(), nonce, payload),
            AesKey::Aes256(k) => aes_gcm::aead::Aead::decrypt(&<aes_gcm::Aes256Gcm as aes_gcm::KeyInit>::new_from_slice(k).unwrap(), nonce, payload),
            AesKey::Aes192(_) => return Err(Error::Hal(ErrorCode::UnsupportedKeySize)),
        };
        opened.map_err(|_| Error::Hal(ErrorCode::VerificationFailed))
    }
}

struct CountingRng {
    next: u8,
    entropy: usize,
}

impl Rng for CountingRng {
    fn add_entropy(&mut self, data: &[u8]) {
        self.entropy += data.len();
    }

    fn fill_bytes(&mut self, dest: &mut Vec<u8>) {
        for b in dest.iter_mut() {
            self.next = self.next.wrapping_mul(73).wrapping_add(41);
            *b = self.next;
        }
    }
}

struct MemorySecrets {
    slots: Vec<Option<SecureDeletionData>>,
    fail_new: bool,
    deleted: Vec<u32>,
}

impl MemorySecrets {
    fn with_slots(n: usize) -> Self {
        MemorySecrets { slots: vec![None; n], fail_new: false, deleted: Vec::new() }
    }

    fn in_use(&self) -> usize {
        self.slots.iter().filter(|s| s.is_some()).count()
    }
}

impl SecureDeletionSecretManager for MemorySecrets {
    fn secret(&self, _: SecureDeletionSlot) -> Result<SecureDeletionData, Error> {
        unreachable!()
    }

    fn new_secret<R: Rng>(&mut self, rng: &mut R) -> Result<(SecureDeletionSlot, SecureDeletionData), Error> {
        if self.fail_new {
            return Err(Error::Hal(ErrorCode::SecureHwBusy));
        }
        let free = self.slots.iter().position(|s| s.is_none()).ok_or(Error::Hal(ErrorCode::RollbackResistanceUnavailable))?;
        let mut secret = vec![0u8; 16];
        rng.fill_bytes(&mut secret);
        let mut sdd = SecureDeletionData { factory_reset_secret: [0x11; 32], secure_deletion_secret: [0; 16] };
        sdd.secure_deletion_secret.copy_from_slice(&secret);
        self.slots[free] = Some(sdd);
        Ok((SecureDeletionSlot(free as u32), sdd))
    }

    fn get_secret(&self, slot: SecureDeletionSlot) -> Result<SecureDeletionData, Error> {
        match self.slots.get(slot.0 as usize) {
            Some(Some(sdd)) => Ok(*sdd),
            _ => Err(Error::Hal(ErrorCode::InvalidKeyBlob)),
        }
    }

    fn delete_secret(&mut self, slot: SecureDeletionSlot) -> Result<(), Error> {
        self.deleted.push(slot.0);
        match self.slots.get_mut(slot.0 as usize) {
            Some(s) => {
                *s = None;
                Ok(())
            }
            None => Err(Error::Hal(ErrorCode::InvalidArgument)),
        }
    }

    fn delete_all(&mut self) {
        for s in self.slots.iter_mut() {
            *s = None;
        }
    }
}

fn hex(bytes: &[u8]) -> String {
    bytes.iter().map(|b| format!("{:02x}", b)).collect()
}


struct FixedClock(i64);

impl MonotonicClock for FixedClock {
    fn now(&self) -> i64 {
        self.0
    }
}

struct SliceEq;

impl ConstTimeEq for SliceEq {
    fn eq(&self, left: &[u8], right: &[u8]) -> bool {
        left == right
    }
}

struct FixedKeys;

impl RetrieveKeys for FixedKeys {
    fn root_kek_of(&self, _: vstd::seq::Seq<u8>) -> Result<vstd::seq::Seq<u8>, Error> {
        unreachable!()
    }

    fn kak_of(&self) -> Result<vstd::seq::Seq<u8>, Error> {
        unreachable!()
    }

    fn root_kek(&self, _context: &[u8]) -> Result<Vec<u8>, Error> {
        Ok(vec![0u8; 32])
    }

    fn kak(&self) -> Result<Vec<u8>, Error> {
        Ok(vec![0x5a; 32])
    }
}

struct OwnIds {
    destroyed: bool,
}

fn sample_ids() -> AttestationIdInfo {
    AttestationIdInfo {
        brand: b"acme".to_vec(),
        device: b"anvil".to_vec(),
        product: b"anvil-pro".to_vec(),
        serial: b"0001".to_vec(),
        imei: b"490154203237518".to_vec(),
        imei2: vec![],
        meid: vec![],
        manufacturer: b"acme corp".to_vec(),
        model: b"A1".to_vec(),
    }
}

impl RetrieveAttestationIds for OwnIds {
    fn get(&self) -> Result<AttestationIdInfo, Error> {
        if self.destroyed {
            Err(Error::Hal(ErrorCode::CannotAttestIds))
        } else {
            Ok(sample_ids())
        }
    }

    fn destroy_all(&mut self) -> Result<(), Error> {
        self.destroyed = true;
        Ok(())
    }
}

struct CountingSignInfo {
    asked: std::cell::Cell<u32>,
    fail: bool,
}

impl RetrieveCertSigningInfo for CountingSignInfo {
    fn cert_chain(&self, key_type: SigningKeyType) -> Result<AttestationChainInfo, Error> {
        self.asked.set(self.asked.get() + 1);
        if self.fail {
            return Err(Error::Hal(ErrorCode::AttestationKeysNotProvisioned));
        }
        let which = match key_type.which {
            SigningKey::Batch => 1u8,
            SigningKey::DeviceUnique => 2u8,
        };
        let algo = match key_type.algo_hint {
            SigningAlgorithm::Ec => 1u8,
            SigningAlgorithm::Rsa => 2u8,
        };
        Ok(AttestationChainInfo {
            chain: vec![Certificate { encoded_certificate: vec![which, algo, self.asked.get() as u8] }],
            issuer: vec![which, algo],
        })
    }
}

struct TaggingWrapper;

impl StorageKeyWrapper for TaggingWrapper {
    fn ephemeral_wrap(&self, key_material: &KeyMaterial) -> Result<Vec<u8>, Error> {
        match key_material {
            KeyMaterial::Aes(AesKey::Aes128(k)) => {
                let mut out = b"wrapped:".to_vec();
                out.extend_from_slice(k);
                Ok(out)
            }
            _ => Err(Error::Hal(ErrorCode::InvalidArgument)),
        }
    }
}

struct TestPlatform;

impl Platform for TestPlatform {
    type Rng = CountingRng;
    type Clock = FixedClock;
    type Compare = SliceEq;
    type Aes = GcmAes;
    type Hmac = Sha256Hmac;
    type Keys = FixedKeys;
    type SignInfo = CountingSignInfo;
    type AttestIds = OwnIds;
    type SddMgr = MemorySecrets;
    type SkWrapper = TaggingWrapper;
}

type Ta = KeyMintTa<TestPlatform>;

fn hw_info(security_level: SecurityLevel) -> HardwareInfo {
    HardwareInfo {
        security_level,
        version_number: 3,
        impl_name: "Verified KeyMint",
        author_name: "The Authors",
        unique_id: "verified keymint",
        fused: false,
    }
}

struct Setup {
    level: SecurityLevel,
    clock: Option<i64>,
    own_ids: bool,
    secure_storage: bool,
    sk_wrapper: bool,
    seed: u8,
}

impl Setup {
    fn tee() -> Setup {
        Setup { level: SecurityLevel::TrustedEnvironment, clock: Some(1000), own_ids: false, secure_storage: true, sk_wrapper: true, seed: 1 }
    }

    fn strongbox() -> Setup {
        Setup { level: SecurityLevel::Strongbox, ..Setup::tee() }
    }

    fn build(self) -> Ta {
        KeyMintTa::new(
            hw_info(self.level),
            CryptoImplementation {
                rng: CountingRng { next: self.seed, entropy: 0 },
                clock: self.clock.map(FixedClock),
                compare: SliceEq,
                aes: GcmAes { fail_encrypt: false },
                hmac: Sha256Hmac,
            },
            DeviceImplementation {
                keys: FixedKeys,
                sign_info: CountingSignInfo { asked: std::cell::Cell::new(0), fail: false },
                attest_ids: if self.own_ids { Some(OwnIds { destroyed: false }) } else { None },
                sdd_mgr: if self.secure_storage { Some(MemorySecrets::with_slots(8)) } else { None },
                sk_wrapper: if self.sk_wrapper { Some(TaggingWrapper) } else { None },
            },
        )
    }
}

fn boot_info(patchlevel: u32) -> BootInfo {
    BootInfo {
        verified_boot_key: [0xaa; 32],
        device_boot_locked: true,
        verified_boot_state: VerifiedBootState::Verified,
        verified_boot_hash: [0xbb; 32],
        boot_patchlevel: patchlevel,
    }
}

fn hal_info(os_version: u32) -> HalInfo {
    HalInfo { os_version, os_patchlevel: 202301, vendor_patchlevel: 20230105 }
}

/// A trusted application that has learnt its boot and HAL information.
fn booted(setup: Setup, os_version: u32) -> Ta {
    let mut ta = setup.build();
    ta.set_boot_info(boot_info(20230101));
    ta.set_hal_info(hal_info(os_version));
    ta
}

fn aes_params(extra: Vec<KeyParam>) -> Vec<KeyParam> {
    let mut params = vec![
        KeyParam::Purpose(KeyPurpose::Encrypt),
        KeyParam::Purpose(KeyPurpose::Decrypt),
        KeyParam::Algorithm(Algorithm::Aes),
        KeyParam::KeySize(KeySizeInBits(128)),
        KeyParam::BlockMode(BlockMode::Gcm),
        KeyParam::NoAuthRequired,
    ];
    params.extend(extra);
    params
}

fn hmac_params(extra: Vec<KeyParam>) -> Vec<KeyParam> {
    let mut params = vec![
        KeyParam::Purpose(KeyPurpose::Sign),
        KeyParam::Purpose(KeyPurpose::Verify),
        KeyParam::Algorithm(Algorithm::Hmac),
        KeyParam::KeySize(KeySizeInBits(256)),
        KeyParam::Digest(Digest::Sha256),
        KeyParam::MinMacLength(128),
        KeyParam::NoAuthRequired,
    ];
    params.extend(extra);
    params
}


#[test]
fn new_ta_starts_in_early_boot() {
    let ta = Setup::tee().build();
    assert!(ta.in_early_boot);
    assert!(!ta.is_strongbox());
    assert!(ta.secure_storage_available());
    assert_eq!(ta.operations.len(), 32);
    assert!(ta.operations.iter().all(|op| op.is_none()));
    assert!(ta.use_count.iter().all(|u| u.is_none()));
    assert_eq!(ta.device_locked, LockState::Unlocked);
    assert!(ta.boot_info.is_none() && ta.hal_info.is_none() && ta.hmac_key.is_none());
    assert!(ta.shared_secret_params.is_none() && ta.rot_data.is_none());
    assert_eq!(ta.presence_required_op, None);

    let sb = Setup { secure_storage: false, ..Setup::strongbox() }.build();
    assert!(sb.is_strongbox());
    assert!(!sb.secure_storage_available());
    assert_eq!(sb.operations.len(), 4);
}

#[test]
fn boot_info_is_write_once() {
    let mut ta = Setup::tee().build();
    assert_eq!(ta.root_of_trust(), Err(Error::Hal(ErrorCode::HardwareNotYetAvailable)));
    ta.set_boot_info(boot_info(20230101));
    assert_eq!(ta.boot_info, Some(boot_info(20230101)));
    let mut expected = vec![0x84, 0x58, 0x20];
    expected.extend([0xaa; 32]);
    expected.extend([0xf5, 0x00, 0x58, 0x20]);
    expected.extend([0xbb; 32]);
    assert_eq!(ta.root_of_trust(), Ok(&expected));

    ta.set_boot_info(boot_info(20240101));
    assert_eq!(ta.boot_info, Some(boot_info(20230101)));
    assert_eq!(ta.rot_data, Some(expected));
}

#[test]
fn boot_info_is_refused_after_early_boot() {
    let mut ta = Setup::tee().build();
    assert_eq!(ta.early_boot_ended(), Ok(()));
    assert!(!ta.in_early_boot);
    ta.set_boot_info(boot_info(20230101));
    assert_eq!(ta.boot_info, None);
    assert_eq!(ta.rot_data, None);
    assert_eq!(ta.early_boot_ended(), Ok(()));
    assert!(!ta.in_early_boot);
}

#[test]
fn hal_info_is_write_once() {
    let mut ta = Setup::tee().build();
    ta.set_hal_info(hal_info(110000));
    ta.set_hal_info(hal_info(120000));
    assert_eq!(ta.hal_info, Some(hal_info(110000)));
}

#[test]
fn attestation_ids_are_set_once() {
    let mut ta = Setup::tee().build();
    assert_eq!(ta.get_attestation_ids(), None);
    ta.set_attestation_ids(sample_ids());
    let mut other = sample_ids();
    other.brand = b"other".to_vec();
    ta.set_attestation_ids(other);
    assert_eq!(ta.get_attestation_ids(), Some(sample_ids()));

    // A device that keeps its identifiers itself does not take them from outside.
    let mut own = Setup { own_ids: true, ..Setup::tee() }.build();
    let mut outside = sample_ids();
    outside.brand = b"outside".to_vec();
    own.set_attestation_ids(outside);
    assert_eq!(own.attestation_id_info, None);
    assert_eq!(own.get_attestation_ids(), Some(sample_ids()));
    assert_eq!(own.attestation_id_info, Some(sample_ids()));
}

#[test]
fn destroy_attestation_ids_needs_own_ids() {
    let mut ta = Setup::tee().build();
    assert_eq!(ta.destroy_attestation_ids(), Err(Error::Hal(ErrorCode::Unimplemented)));
    let mut own = Setup { own_ids: true, ..Setup::tee() }.build();
    assert_eq!(own.destroy_attestation_ids(), Ok(()));
    assert_eq!(own.get_attestation_ids(), None);
}

#[test]
fn shared_secret_is_write_once() {
    let mut ta = Setup::tee().build();
    assert_eq!(ta.compute_shared_secret(&[]), Err(Error::Hal(ErrorCode::HardwareNotYetAvailable)));
    let local = ta.get_shared_secret_params().unwrap();
    assert!(local.seed.is_empty());
    assert_eq!(local.nonce.len(), 32);
    assert_eq!(ta.get_shared_secret_params(), Ok(local.clone()));

    let peer = SharedSecretParameters { seed: vec![1], nonce: vec![2; 32] };
    assert_eq!(ta.compute_shared_secret(&[peer.clone()]), Err(Error::Hal(ErrorCode::InvalidArgument)));
    assert_eq!(ta.hmac_key, None);

    let check = ta.compute_shared_secret(&[local.clone(), peer.clone()]).unwrap();
    let key = ta.hmac_key.clone().unwrap();
    assert_eq!(key.len(), 32);
    assert_eq!(check, Sha256Hmac.hmac_sha256(&key, b"Keymaster HMAC Verification").unwrap());

    // The key is HKDF over the key agreement key with the label and the context.
    let mut info = b"KeymasterSharedMac".to_vec();
    info.extend(&local.seed);
    info.extend(&local.nonce);
    info.extend(&peer.seed);
    info.extend(&peer.nonce);
    assert_eq!(key, keymint_ta::crypto::hkdf(&Sha256Hmac, &[], &[0x5a; 32], &info).unwrap().to_vec());

    // A later agreement does not replace the key.
    let other = SharedSecretParameters { seed: vec![3], nonce: vec![4; 32] };
    assert_eq!(ta.compute_shared_secret(&[other, local]), Ok(check));
    assert_eq!(ta.hmac_key, Some(key));
}

#[test]
fn add_rng_entropy_limits_length() {
    let mut ta = Setup::tee().build();
    assert_eq!(ta.add_rng_entropy(&[0; 2048]), Ok(()));
    assert_eq!(ta.imp.rng.entropy, 2048);
    assert_eq!(ta.add_rng_entropy(&[0; 2049]), Err(Error::Hal(ErrorCode::InvalidInputLength)));
    assert_eq!(ta.imp.rng.entropy, 2048);
    assert_eq!(ta.add_rng_entropy(&[]), Ok(()));
}

#[test]
fn hardware_info_reports_clock() {
    let ta = Setup::tee().build();
    let info = ta.get_hardware_info().unwrap();
    assert_eq!(info.version_number, 3);
    assert_eq!(info.security_level, SecurityLevel::TrustedEnvironment);
    assert_eq!(info.key_mint_name, "Verified KeyMint");
    assert_eq!(info.key_mint_author_name, "The Authors");
    assert!(!info.timestamp_token_required);
    let no_clock = Setup { clock: None, ..Setup::tee() }.build();
    assert!(no_clock.get_hardware_info().unwrap().timestamp_token_required);
}

#[test]
fn device_hmac_needs_agreed_key() {
    let mut ta = Setup::tee().build();
    assert_eq!(ta.device_hmac(b"data"), Err(Error::Hal(ErrorCode::HardwareNotYetAvailable)));
    assert_eq!(ta.verify_device_hmac(b"data", &[0; 32]), Err(Error::Hal(ErrorCode::HardwareNotYetAvailable)));
    ta.hmac_key = Some(vec![7; 32]);
    let mac = ta.device_hmac(b"data").unwrap();
    assert_eq!(mac, Sha256Hmac.hmac_sha256(&[7; 32], b"data").unwrap());
    assert_eq!(ta.verify_device_hmac(b"data", &mac), Ok(true));
    assert_eq!(ta.verify_device_hmac(b"datb", &mac), Ok(false));
    assert_eq!(ta.verify_device_hmac(b"data", &mac[..31]), Ok(false));
}

#[test]
fn timestamp_token_mac_input_layout() {
    let token = TimeStampToken { challenge: 0x0102030405060708, timestamp: Timestamp { milliseconds: -2 }, mac: vec![9] };
    let mut expected = b"Auth Verification".to_vec();
    expected.extend([1, 2, 3, 4, 5, 6, 7, 8]);
    expected.extend([0xff, 0xff, 0xff, 0xff, 0xff, 0xff, 0xff, 0xfe]);
    expected.extend([0, 0, 0, 1]);
    assert_eq!(timestamp_token_mac_input(&token), Ok(expected));
}

fn auth_token() -> HardwareAuthToken {
    HardwareAuthToken {
        challenge: 0x0102030405060708,
        user_id: -1,
        authenticator_id: 0x1112131415161718,
        authenticator_type: HardwareAuthenticatorType::Fingerprint,
        timestamp: Timestamp { milliseconds: 0x2122232425262728 },
        mac: vec![1, 2, 3],
    }
}

#[test]
fn hardware_auth_token_mac_input_layout() {
    let token = auth_token();
    let little = hardware_auth_token_mac_input_for(&token, true);
    let mut expected = vec![0u8];
    expected.extend([8, 7, 6, 5, 4, 3, 2, 1]);
    expected.extend([0xff; 8]);
    expected.extend([0x18, 0x17, 0x16, 0x15, 0x14, 0x13, 0x12, 0x11]);
    expected.extend([0, 0, 0, 2]);
    expected.extend([0x21, 0x22, 0x23, 0x24, 0x25, 0x26, 0x27, 0x28]);
    assert_eq!(little, expected);
    assert_eq!(little.len(), 37);

    let big = hardware_auth_token_mac_input_for(&token, false);
    let mut expected = vec![0u8];
    expected.extend([1, 2, 3, 4, 5, 6, 7, 8]);
    expected.extend([0xff; 8]);
    expected.extend([0x11, 0x12, 0x13, 0x14, 0x15, 0x16, 0x17, 0x18]);
    expected.extend([0, 0, 0, 2]);
    expected.extend([0x21, 0x22, 0x23, 0x24, 0x25, 0x26, 0x27, 0x28]);
    assert_eq!(big, expected);

    let any = HardwareAuthToken { authenticator_type: HardwareAuthenticatorType::Any, ..auth_token() };
    assert_eq!(hardware_auth_token_mac_input_for(&any, false)[25..29], [0xff, 0xff, 0xff, 0xff]);
}

#[test]
fn hardware_auth_token_mac_input_uses_native_order() {
    let token = auth_token();
    let mut expected = vec![0u8];
    expected.extend(token.challenge.to_ne_bytes());
    expected.extend(token.user_id.to_ne_bytes());
    expected.extend(token.authenticator_id.to_ne_bytes());
    expected.extend(2i32.to_be_bytes());
    expected.extend(token.timestamp.milliseconds.to_be_bytes());
    assert_eq!(hardware_auth_token_mac_input(&token), Ok(expected.clone()));
    // Equal tokens give equal input.
    assert_eq!(hardware_auth_token_mac_input(&auth_token()), Ok(expected));
}

#[test]
fn device_locked_uses_clock() {
    let mut ta = Setup::tee().build();
    assert_eq!(ta.device_locked(false, None), Ok(()));
    assert_eq!(ta.device_locked, LockState::LockedSince(Timestamp { milliseconds: 1000 }));
    assert_eq!(ta.device_locked(true, None), Ok(()));
    assert_eq!(ta.device_locked, LockState::PasswordLockedSince(Timestamp { milliseconds: 1000 }));
}

#[test]
fn device_locked_without_clock_needs_verified_token() {
    let mut ta = Setup { clock: None, ..Setup::tee() }.build();
    assert_eq!(ta.device_locked(false, None), Err(Error::Hal(ErrorCode::InvalidArgument)));
    let mut token = TimeStampToken { challenge: 5, timestamp: Timestamp { milliseconds: 77 }, mac: vec![] };
    assert_eq!(ta.device_locked(false, Some(token.clone())), Err(Error::Hal(ErrorCode::HardwareNotYetAvailable)));
    ta.hmac_key = Some(vec![7; 32]);
    assert_eq!(ta.device_locked(false, Some(token.clone())), Err(Error::Hal(ErrorCode::InvalidArgument)));
    assert_eq!(ta.device_locked, LockState::Unlocked);
    token.mac = ta.device_hmac(&timestamp_token_mac_input(&token).unwrap()).unwrap();
    assert_eq!(ta.device_locked(true, Some(token.clone())), Ok(()));
    assert_eq!(ta.device_locked, LockState::PasswordLockedSince(Timestamp { milliseconds: 77 }));
    token.timestamp.milliseconds = 78;
    assert_eq!(ta.device_locked(false, Some(token)), Err(Error::Hal(ErrorCode::InvalidArgument)));
    assert_eq!(ta.device_locked, LockState::PasswordLockedSince(Timestamp { milliseconds: 77 }));
}

#[test]
fn generate_timestamp_needs_clock_and_key() {
    let mut ta = Setup::tee().build();
    assert_eq!(ta.generate_timestamp(9), Err(Error::Hal(ErrorCode::HardwareNotYetAvailable)));
    ta.hmac_key = Some(vec![7; 32]);
    let token = ta.generate_timestamp(9).unwrap();
    assert_eq!(token.challenge, 9);
    assert_eq!(token.timestamp, Timestamp { milliseconds: 1000 });
    assert_eq!(ta.verify_device_hmac(&timestamp_token_mac_input(&token).unwrap(), &token.mac), Ok(true));
    let no_clock = Setup { clock: None, ..Setup::tee() }.build();
    assert_eq!(no_clock.generate_timestamp(9), Err(Error::Hal(ErrorCode::Unimplemented)));
}

#[test]
fn key_id_is_hmac_under_zero_key() {
    let ta = Setup::tee().build();
    let id = ta.key_id(b"some keyblob").unwrap();
    assert_eq!(id.0.to_vec(), Sha256Hmac.hmac_sha256(&[0u8; 16], b"some keyblob").unwrap());
    assert_eq!(ta.key_id(b"some keyblob"), Ok(id));
    assert_ne!(ta.key_id(b"some keyblob!"), Ok(id));
}

#[test]
fn use_count_table_counts_per_key() {
    let mut ta = Setup::tee().build();
    let a = KeyId([1; 32]);
    let b = KeyId([2; 32]);
    assert_eq!(ta.update_use_count(a, 2), Ok(()));
    assert_eq!(ta.update_use_count(b, 1), Ok(()));
    assert_eq!(ta.update_use_count(a, 2), Ok(()));
    assert_eq!(ta.update_use_count(a, 2), Err(Error::Hal(ErrorCode::KeyMaxOpsExceeded)));
    assert_eq!(ta.update_use_count(b, 1), Err(Error::Hal(ErrorCode::KeyMaxOpsExceeded)));
    assert_eq!(ta.use_count[0].map(|u| (u.key_id, u.count)), Some((a, 2)));
    assert_eq!(ta.use_count[1].map(|u| (u.key_id, u.count)), Some((b, 1)));
    assert!(ta.use_count[2].is_none());
    // A key that allows no use takes an entry and is refused.
    assert_eq!(ta.update_use_count(KeyId([3; 32]), 0), Err(Error::Hal(ErrorCode::KeyMaxOpsExceeded)));
    assert_eq!(ta.use_count[2].map(|u| u.count), Some(0));
}

#[test]
fn use_count_table_is_bounded() {
    let mut ta = Setup::tee().build();
    for i in 0..32u8 {
        assert_eq!(ta.update_use_count(KeyId([i; 32]), 5), Ok(()));
    }
    assert_eq!(ta.update_use_count(KeyId([32; 32]), 5), Err(Error::Hal(ErrorCode::TooManyOperations)));
    assert_eq!(ta.update_use_count(KeyId([31; 32]), 5), Ok(()));
    assert_eq!(ta.use_count[31].map(|u| u.count), Some(2));
}

#[test]
fn version_checks() {
    assert_eq!(check_version(1, 2), Err(Error::Hal(ErrorCode::KeyRequiresUpgrade)));
    assert_eq!(check_version(2, 2), Ok(()));
    assert_eq!(check_version(3, 2), Err(Error::Hal(ErrorCode::InvalidKeyBlob)));
    let hal = Some(hal_info(110000));
    let boot = Some(boot_info(20230101));
    assert_eq!(check_upgrade(&vec![KeyParam::OsVersion(110000), KeyParam::OsPatchlevel(202301), KeyParam::VendorPatchlevel(20230105), KeyParam::BootPatchlevel(20230101)], &hal, &boot), Ok(()));
    assert_eq!(check_upgrade(&vec![KeyParam::OsPatchlevel(202212)], &hal, &boot), Err(Error::Hal(ErrorCode::KeyRequiresUpgrade)));
    assert_eq!(check_upgrade(&vec![KeyParam::VendorPatchlevel(20230106)], &hal, &boot), Err(Error::Hal(ErrorCode::InvalidKeyBlob)));
    assert_eq!(check_upgrade(&vec![KeyParam::BootPatchlevel(20220101)], &hal, &boot), Err(Error::Hal(ErrorCode::KeyRequiresUpgrade)));
    // The first parameter that is not in order decides.
    assert_eq!(check_upgrade(&vec![KeyParam::OsVersion(120000), KeyParam::OsPatchlevel(1)], &hal, &boot), Err(Error::Hal(ErrorCode::InvalidKeyBlob)));
    // Nothing is checked while nothing is latched.
    assert_eq!(check_upgrade(&vec![KeyParam::OsVersion(120000), KeyParam::BootPatchlevel(1)], &None, &None), Ok(()));
    // A device at version zero accepts only version zero.
    let zero = Some(hal_info(0));
    assert_eq!(check_upgrade(&vec![KeyParam::OsVersion(0)], &zero, &boot), Ok(()));
    assert_eq!(check_upgrade(&vec![KeyParam::OsVersion(110000)], &zero, &boot), Err(Error::Hal(ErrorCode::KeyRequiresUpgrade)));
}

#[test]
fn hidden_parameters_bind_application_and_root_of_trust() {
    let params = vec![
        KeyParam::Purpose(KeyPurpose::Sign),
        KeyParam::ApplicationData(vec![4]),
        KeyParam::ApplicationId(vec![1, 2]),
        KeyParam::ApplicationId(vec![3]),
    ];
    assert_eq!(hidden(&params, &[9, 9]), vec![KeyParam::ApplicationId(vec![1, 2]), KeyParam::ApplicationData(vec![4]), KeyParam::RootOfTrust(vec![9, 9])]);
    assert_eq!(hidden(&[], &[]), vec![KeyParam::RootOfTrust(vec![])]);
}

#[test]
fn generated_key_has_keymint_tags() {
    let mut ta = booted(Setup::tee(), 110000);
    let result = ta.generate_key(&aes_params(vec![KeyParam::ApplicationId(b"app".to_vec())]), None).unwrap();
    assert!(result.certificate_chain.is_empty());
    let mut expected = aes_params(vec![]);
    expected.extend([
        KeyParam::Origin(KeyOrigin::Generated),
        KeyParam::OsVersion(110000),
        KeyParam::OsPatchlevel(202301),
        KeyParam::VendorPatchlevel(20230105),
        KeyParam::BootPatchlevel(20230101),
    ]);
    assert_eq!(result.key_characteristics, vec![KeyCharacteristics { security_level: SecurityLevel::TrustedEnvironment, authorizations: expected.clone() }]);

    // The keyblob opens only with the application identifier.
    assert_eq!(ta.get_key_characteristics(&result.key_blob, b"app".to_vec(), vec![]), Ok(result.key_characteristics.clone()));
    assert_eq!(ta.get_key_characteristics(&result.key_blob, vec![], vec![]), Err(Error::Hal(ErrorCode::InvalidKeyBlob)));
    assert_eq!(ta.get_key_characteristics(&result.key_blob, b"app".to_vec(), b"data".to_vec()), Err(Error::Hal(ErrorCode::InvalidKeyBlob)));
    assert_eq!(ta.get_key_characteristics(b"junk", vec![], vec![]), Err(Error::Hal(ErrorCode::InvalidKeyBlob)));
}

#[test]
fn generate_key_checks_algorithm_and_size() {
    let mut ta = booted(Setup::tee(), 110000);
    assert!(matches!(ta.generate_key(&[], None), Err(Error::Hal(ErrorCode::UnsupportedAlgorithm))));
    assert!(matches!(ta.generate_key(&[KeyParam::Algorithm(Algorithm::Rsa), KeyParam::KeySize(KeySizeInBits(2048))], None), Err(Error::Hal(ErrorCode::UnsupportedAlgorithm))));
    assert!(matches!(ta.generate_key(&[KeyParam::Algorithm(Algorithm::Aes)], None), Err(Error::Hal(ErrorCode::UnsupportedKeySize))));
    assert!(matches!(ta.generate_key(&[KeyParam::Algorithm(Algorithm::Aes), KeyParam::KeySize(KeySizeInBits(129))], None), Err(Error::Hal(ErrorCode::UnsupportedKeySize))));
    assert!(matches!(ta.generate_key(&[KeyParam::Algorithm(Algorithm::Hmac), KeyParam::KeySize(KeySizeInBits(56))], None), Err(Error::Hal(ErrorCode::UnsupportedKeySize))));
    assert!(matches!(ta.generate_key(&[KeyParam::Algorithm(Algorithm::Hmac), KeyParam::KeySize(KeySizeInBits(520))], None), Err(Error::Hal(ErrorCode::UnsupportedKeySize))));
    assert!(ta.generate_key(&[KeyParam::Algorithm(Algorithm::Hmac), KeyParam::KeySize(KeySizeInBits(512))], None).is_ok());
    assert!(ta.generate_key(&[KeyParam::Algorithm(Algorithm::Aes), KeyParam::KeySize(KeySizeInBits(256))], None).is_ok());

    let mut unbooted = Setup::tee().build();
    assert!(matches!(unbooted.generate_key(&aes_params(vec![]), None), Err(Error::Hal(ErrorCode::HardwareNotYetAvailable))));
}

#[test]
fn import_key_takes_raw_keys() {
    let mut ta = booted(Setup::tee(), 110000);
    let result = ta.import_key(&aes_params(vec![]), KeyFormat::Raw, &[0x0f; 16], None).unwrap();
    let auths = &result.key_characteristics[0].authorizations;
    assert!(auths.contains(&KeyParam::Origin(KeyOrigin::Imported)));
    assert_eq!(ta.convert_storage_key_to_ephemeral(&result.key_blob), Ok([b"wrapped:".to_vec(), vec![0x0f; 16]].concat()));

    assert!(matches!(ta.import_key(&aes_params(vec![]), KeyFormat::Pkcs8, &[0x0f; 16], None), Err(Error::Hal(ErrorCode::UnsupportedKeyFormat))));
    assert!(matches!(ta.import_key(&aes_params(vec![]), KeyFormat::Raw, &[0x0f; 17], None), Err(Error::Hal(ErrorCode::UnsupportedKeySize))));
    assert!(matches!(ta.import_key(&aes_params(vec![]), KeyFormat::Raw, &[0x0f; 32], None), Err(Error::Hal(ErrorCode::ImportParameterMismatch))));
    assert!(matches!(ta.import_key(&hmac_params(vec![]), KeyFormat::Raw, &[0x0f; 7], None), Err(Error::Hal(ErrorCode::UnsupportedKeySize))));
    assert!(matches!(ta.import_key(&hmac_params(vec![]), KeyFormat::Raw, &[0x0f; 16], None), Err(Error::Hal(ErrorCode::ImportParameterMismatch))));
    assert!(ta.import_key(&hmac_params(vec![]), KeyFormat::Raw, &[0x0f; 32], None).is_ok());
    assert!(matches!(ta.import_key(&[KeyParam::Algorithm(Algorithm::Ec)], KeyFormat::Raw, &[1], None), Err(Error::Hal(ErrorCode::UnsupportedAlgorithm))));
    assert!(matches!(ta.import_wrapped_key(&[], &[], &[], &[], 0, 0), Err(Error::Hal(ErrorCode::Unimplemented))));
}

#[test]
fn storage_key_conversion_needs_wrapper() {
    let mut ta = booted(Setup { sk_wrapper: false, ..Setup::tee() }, 110000);
    let result = ta.import_key(&aes_params(vec![]), KeyFormat::Raw, &[0x0f; 16], None).unwrap();
    assert_eq!(ta.convert_storage_key_to_ephemeral(&result.key_blob), Err(Error::Hal(ErrorCode::Unimplemented)));
    let with = booted(Setup::tee(), 110000);
    assert_eq!(with.convert_storage_key_to_ephemeral(b"junk"), Err(Error::Hal(ErrorCode::InvalidKeyBlob)));
}

#[test]
fn os_version_upgrade() {
    // Sealed at 120000, opened where 110000 is latched: a keyblob from the future.
    let blob = booted(Setup::tee(), 120000).generate_key(&aes_params(vec![]), None).unwrap().key_blob;
    let older = booted(Setup::tee(), 110000);
    assert_eq!(older.get_key_characteristics(&blob, vec![], vec![]), Err(Error::Hal(ErrorCode::InvalidKeyBlob)));
    // The other way round: the keyblob needs an upgrade.
    let blob = booted(Setup::tee(), 110000).generate_key(&aes_params(vec![]), None).unwrap().key_blob;
    let newer = booted(Setup::tee(), 120000);
    assert_eq!(newer.get_key_characteristics(&blob, vec![], vec![]), Err(Error::Hal(ErrorCode::KeyRequiresUpgrade)));
    // A device at version zero asks for an upgrade too.
    let zero = booted(Setup::tee(), 0);
    assert_eq!(zero.get_key_characteristics(&blob, vec![], vec![]), Err(Error::Hal(ErrorCode::KeyRequiresUpgrade)));
    // Where the versions agree the keyblob opens.
    assert!(booted(Setup::tee(), 110000).get_key_characteristics(&blob, vec![], vec![]).is_ok());
}

#[test]
fn upgrade_key_raises_versions() {
    let blob = booted(Setup::tee(), 110000).generate_key(&aes_params(vec![]), None).unwrap().key_blob;
    let mut newer = booted(Setup::tee(), 120000);
    let upgraded = newer.upgrade_key(&blob, vec![]).unwrap();
    assert!(!upgraded.is_empty());
    let chars = newer.get_key_characteristics(&upgraded, vec![], vec![]).unwrap();
    assert!(chars[0].authorizations.contains(&KeyParam::OsVersion(120000)));
    assert!(!chars[0].authorizations.contains(&KeyParam::OsVersion(110000)));
    // A keyblob that is up to date needs nothing.
    assert_eq!(newer.upgrade_key(&upgraded, vec![]), Ok(vec![]));
    // A keyblob from the future cannot be upgraded.
    let mut older = booted(Setup::tee(), 110000);
    assert_eq!(older.upgrade_key(&upgraded, vec![]), Err(Error::Hal(ErrorCode::InvalidArgument)));
    // The step down to version zero is an upgrade.
    let mut zero = booted(Setup::tee(), 0);
    let lowered = zero.upgrade_key(&blob, vec![]).unwrap();
    let chars = zero.get_key_characteristics(&lowered, vec![], vec![]).unwrap();
    assert!(chars[0].authorizations.contains(&KeyParam::OsVersion(0)));
    assert_eq!(zero.upgrade_key(b"junk", vec![]), Err(Error::Hal(ErrorCode::InvalidKeyBlob)));
}

#[test]
fn failure_to_seal_is_handed_on_and_frees_the_slot() {
    let mut ta = booted(Setup::tee(), 110000);
    let kept = ta.generate_key(&aes_params(vec![KeyParam::RollbackResistance]), None).unwrap().key_blob;
    ta.imp.aes.fail_encrypt = true;

    // A key that needs no slot: the storage is not asked for anything.
    assert_eq!(ta.generate_key(&aes_params(vec![]), None).err(), Some(Error::Hal(ErrorCode::SecureHwBusy)));
    let r = ta.import_key(&hmac_params(vec![]), KeyFormat::Raw, &[0x0f; 32], None);
    assert_eq!(r.err(), Some(Error::Hal(ErrorCode::SecureHwBusy)));
    assert_eq!(ta.dev.sdd_mgr.as_ref().unwrap().in_use(), 1);
    assert!(ta.dev.sdd_mgr.as_ref().unwrap().deleted.is_empty());

    // A key that needs one: the slot is reserved and given back.
    assert_eq!(ta.generate_key(&aes_params(vec![KeyParam::UsageCountLimit(1)]), None).err(), Some(Error::Hal(ErrorCode::SecureHwBusy)));
    let r = ta.import_key(&hmac_params(vec![KeyParam::RollbackResistance]), KeyFormat::Raw, &[0x0f; 32], None);
    assert_eq!(r.err(), Some(Error::Hal(ErrorCode::SecureHwBusy)));
    assert_eq!(ta.dev.sdd_mgr.as_ref().unwrap().in_use(), 1);
    assert_eq!(ta.dev.sdd_mgr.as_ref().unwrap().deleted, vec![1, 1]);

    // The key that was sealed before is still there.
    ta.imp.aes.fail_encrypt = false;
    assert!(ta.get_key_characteristics(&kept, vec![], vec![]).is_ok());

    // An upgrade that cannot seal keeps the slot of the old keyblob.
    let storage = ta.dev.sdd_mgr.take();
    let mut newer = booted(Setup::tee(), 120000);
    newer.dev.sdd_mgr = storage;
    newer.imp.aes.fail_encrypt = true;
    assert_eq!(newer.upgrade_key(&kept, vec![]), Err(Error::Hal(ErrorCode::SecureHwBusy)));
    assert_eq!(newer.dev.sdd_mgr.as_ref().unwrap().in_use(), 1);
    assert_eq!(newer.dev.sdd_mgr.as_ref().unwrap().deleted, vec![1, 1, 1]);
    assert!(newer.dev.sdd_mgr.as_ref().unwrap().slots[0].is_some());
}

#[test]
fn upgrade_moves_secure_deletion_slot() {
    let mut ta = booted(Setup::tee(), 110000);
    let blob = ta.generate_key(&aes_params(vec![KeyParam::RollbackResistance]), None).unwrap().key_blob;
    assert_eq!(EncryptedKeyBlob::new(&blob).unwrap().secure_deletion_slot(), Some(SecureDeletionSlot(0)));
    // The same device learns of a newer system after a reboot; storage persists.
    let storage = ta.dev.sdd_mgr.take();
    let mut newer = booted(Setup::tee(), 120000);
    newer.dev.sdd_mgr = storage;
    let upgraded = newer.upgrade_key(&blob, vec![]).unwrap();
    assert_eq!(EncryptedKeyBlob::new(&upgraded).unwrap().secure_deletion_slot(), Some(SecureDeletionSlot(1)));
    let mgr = newer.dev.sdd_mgr.as_ref().unwrap();
    assert_eq!(mgr.deleted, vec![0]);
    assert_eq!(mgr.in_use(), 1);
    assert!(newer.get_key_characteristics(&upgraded, vec![], vec![]).is_ok());
    assert_eq!(newer.get_key_characteristics(&blob, vec![], vec![]), Err(Error::Hal(ErrorCode::InvalidKeyBlob)));
}

#[test]
fn rollback_resistant_key_needs_secure_storage() {
    let mut ta = booted(Setup { secure_storage: false, ..Setup::tee() }, 110000);
    assert!(matches!(ta.generate_key(&aes_params(vec![KeyParam::RollbackResistance]), None), Err(Error::Hal(ErrorCode::RollbackResistanceUnavailable))));
    assert!(matches!(ta.generate_key(&aes_params(vec![KeyParam::UsageCountLimit(1)]), None), Err(Error::Hal(ErrorCode::RollbackResistanceUnavailable))));
    assert!(ta.generate_key(&aes_params(vec![KeyParam::UsageCountLimit(2)]), None).is_ok());
}

#[test]
fn delete_key_releases_slot() {
    let mut ta = booted(Setup::tee(), 110000);
    let blob = ta.generate_key(&aes_params(vec![KeyParam::RollbackResistance]), None).unwrap().key_blob;
    assert_eq!(ta.dev.sdd_mgr.as_ref().unwrap().in_use(), 1);
    assert_eq!(ta.delete_key(b"not a keyblob"), Ok(()));
    assert_eq!(ta.dev.sdd_mgr.as_ref().unwrap().in_use(), 1);
    assert_eq!(ta.delete_key(&blob), Ok(()));
    assert_eq!(ta.dev.sdd_mgr.as_ref().unwrap().in_use(), 0);
    assert_eq!(ta.get_key_characteristics(&blob, vec![], vec![]), Err(Error::Hal(ErrorCode::InvalidKeyBlob)));
    // A second deletion, and one without storage, still succeed.
    assert_eq!(ta.delete_key(&blob), Ok(()));
    let mut no_storage = booted(Setup { secure_storage: false, ..Setup::tee() }, 110000);
    assert_eq!(no_storage.delete_key(&blob), Ok(()));
    assert_eq!(no_storage.delete_all_keys(), Ok(()));
}

#[test]
fn delete_all_keys_empties_storage() {
    let mut ta = booted(Setup::tee(), 110000);
    let a = ta.generate_key(&aes_params(vec![KeyParam::RollbackResistance]), None).unwrap().key_blob;
    let b = ta.generate_key(&aes_params(vec![KeyParam::UsageCountLimit(1)]), None).unwrap().key_blob;
    let c = ta.generate_key(&aes_params(vec![]), None).unwrap().key_blob;
    assert_eq!(ta.dev.sdd_mgr.as_ref().unwrap().in_use(), 2);
    assert_eq!(ta.delete_all_keys(), Ok(()));
    assert_eq!(ta.dev.sdd_mgr.as_ref().unwrap().in_use(), 0);
    assert!(ta.get_key_characteristics(&a, vec![], vec![]).is_err());
    assert!(ta.get_key_characteristics(&b, vec![], vec![]).is_err());
    assert!(ta.get_key_characteristics(&c, vec![], vec![]).is_ok());
}

#[test]
fn aes_gcm_operation_round_trip() {
    let mut ta = booted(Setup::tee(), 110000);
    let blob = ta.import_key(&aes_params(vec![]), KeyFormat::Raw, &[0x0f; 16], None).unwrap().key_blob;
    let begun = ta.begin_operation(KeyPurpose::Encrypt, &blob, vec![], None).unwrap();
    assert_eq!(begun.challenge, begun.op_handle);
    let nonce = match begun.params.as_slice() {
        [KeyParam::Nonce(n)] => n.clone(),
        other => panic!("unexpected {:?}", other),
    };
    assert_eq!(nonce.len(), 12);
    let handle = OpHandle(begun.op_handle);
    assert_eq!(ta.op_update_aad(handle, b"header"), Ok(()));
    assert_eq!(ta.op_update(handle, b"hello "), Ok(vec![]));
    assert_eq!(ta.op_update_aad(handle, b"late"), Err(Error::Hal(ErrorCode::InvalidTag)));
    let sealed = ta.op_finish(handle, Some(b"world"), None).unwrap();
    assert_eq!(sealed.len(), 11 + 16);
    assert_eq!(ta.op_update(handle, b"x"), Err(Error::Hal(ErrorCode::InvalidOperationHandle)));

    // The same bytes as AES-GCM gives directly.
    let mut n = [0u8; 12];
    n.copy_from_slice(&nonce);
    assert_eq!(sealed, GcmAes { fail_encrypt: false }.gcm_encrypt(&AesKey::Aes128([0x0f; 16]), &n, b"header", b"hello world").unwrap());

    let begun = ta.begin_operation(KeyPurpose::Decrypt, &blob, vec![KeyParam::Nonce(nonce.clone())], None).unwrap();
    assert!(begun.params.is_empty());
    let handle = OpHandle(begun.op_handle);
    assert_eq!(ta.op_update_aad(handle, b"header"), Ok(()));
    assert_eq!(ta.op_finish(handle, Some(&sealed), None), Ok(b"hello world".to_vec()));

    // Other additional data does not verify, and the operation is gone all the same.
    let begun = ta.begin_operation(KeyPurpose::Decrypt, &blob, vec![KeyParam::Nonce(nonce)], None).unwrap();
    let handle = OpHandle(begun.op_handle);
    assert_eq!(ta.op_finish(handle, Some(&sealed), None), Err(Error::Hal(ErrorCode::VerificationFailed)));
    assert_eq!(ta.op_abort(handle), Err(Error::Hal(ErrorCode::InvalidOperationHandle)));
    assert!(ta.operations.iter().all(|op| op.is_none()));
}

#[test]
fn begin_checks_parameters() {
    let mut ta = booted(Setup::tee(), 110000);
    let aes = ta.import_key(&aes_params(vec![]), KeyFormat::Raw, &[0x0f; 16], None).unwrap().key_blob;
    let hmac = ta.import_key(&hmac_params(vec![]), KeyFormat::Raw, &[0x0f; 32], None).unwrap().key_blob;
    let mut begin = |purpose, blob: &[u8], params| ta.begin_operation(purpose, blob, params, None).map(|_| ());
    assert_eq!(begin(KeyPurpose::Decrypt, &aes, vec![]), Err(Error::Hal(ErrorCode::MissingNonce)));
    assert_eq!(begin(KeyPurpose::Encrypt, &aes, vec![KeyParam::Nonce(vec![0; 11])]), Err(Error::Hal(ErrorCode::InvalidNonce)));
    assert_eq!(begin(KeyPurpose::Sign, &aes, vec![]), Err(Error::Hal(ErrorCode::IncompatiblePurpose)));
    assert_eq!(begin(KeyPurpose::Sign, &hmac, vec![]), Err(Error::Hal(ErrorCode::MissingMacLength)));
    assert_eq!(begin(KeyPurpose::Sign, &hmac, vec![KeyParam::MacLength(60)]), Err(Error::Hal(ErrorCode::UnsupportedMacLength)));
    assert_eq!(begin(KeyPurpose::Sign, &hmac, vec![KeyParam::MacLength(264)]), Err(Error::Hal(ErrorCode::UnsupportedMacLength)));
    assert_eq!(begin(KeyPurpose::Encrypt, &hmac, vec![]), Err(Error::Hal(ErrorCode::IncompatiblePurpose)));
    assert_eq!(begin(KeyPurpose::Encrypt, b"junk", vec![]), Err(Error::Hal(ErrorCode::InvalidKeyBlob)));
    assert_eq!(begin(KeyPurpose::Encrypt, &aes, vec![KeyParam::ApplicationId(vec![1])]), Err(Error::Hal(ErrorCode::InvalidKeyBlob)));
    assert!(ta.operations.iter().all(|op| op.is_none()));
}

#[test]
fn begin_refuses_keys_of_other_algorithms() {
    let ta_params = vec![KeyParam::Purpose(KeyPurpose::Sign), KeyParam::Algorithm(Algorithm::Rsa)];
    let mut ta = booted(Setup::tee(), 110000);
    let keyblob = keymint_ta::keyblob::PlaintextKeyBlob {
        characteristics: vec![KeyCharacteristics { security_level: SecurityLevel::TrustedEnvironment, authorizations: ta_params.clone() }],
        key_material: KeyMaterial::Rsa(vec![1, 2, 3]),
    };
    let blob = ta.seal_keyblob(&[], keyblob).unwrap();
    assert!(matches!(ta.begin_operation(KeyPurpose::Sign, &blob, vec![], None), Err(Error::Hal(ErrorCode::UnsupportedAlgorithm))));
}

#[test]
fn hmac_operation_signs_and_verifies() {
    let mut ta = booted(Setup::tee(), 110000);
    let blob = ta.import_key(&hmac_params(vec![]), KeyFormat::Raw, &[0x0f; 32], None).unwrap().key_blob;
    let begun = ta.begin_operation(KeyPurpose::Sign, &blob, vec![KeyParam::MacLength(128)], None).unwrap();
    let handle = OpHandle(begun.op_handle);
    assert_eq!(ta.op_update_aad(handle, b"aad"), Err(Error::Hal(ErrorCode::InvalidTag)));
    assert_eq!(ta.op_update(handle, b"mess"), Ok(vec![]));
    let tag = ta.op_finish(handle, Some(b"age"), None).unwrap();
    assert_eq!(tag, Sha256Hmac.hmac_sha256(&[0x0f; 32], b"message").unwrap()[..16].to_vec());

    let verify = |ta: &mut Ta, message: &[u8], signature: Option<&[u8]>| {
        let begun = ta.begin_operation(KeyPurpose::Verify, &blob, vec![], None).unwrap();
        ta.op_finish(OpHandle(begun.op_handle), Some(message), signature)
    };
    assert_eq!(verify(&mut ta, b"message", Some(&tag)), Ok(vec![]));
    assert_eq!(verify(&mut ta, b"massage", Some(&tag)), Err(Error::Hal(ErrorCode::VerificationFailed)));
    assert_eq!(verify(&mut ta, b"message", None), Err(Error::Hal(ErrorCode::VerificationFailed)));
    assert_eq!(verify(&mut ta, b"message", Some(&[])), Err(Error::Hal(ErrorCode::VerificationFailed)));
    assert_eq!(verify(&mut ta, b"message", Some(&[0; 33])), Err(Error::Hal(ErrorCode::VerificationFailed)));
    let mut wrong = tag.clone();
    wrong[15] ^= 1;
    assert_eq!(verify(&mut ta, b"message", Some(&wrong)), Err(Error::Hal(ErrorCode::VerificationFailed)));
}

#[test]
fn operation_table_is_bounded() {
    let mut sb = booted(Setup::strongbox(), 110000);
    let blob = sb.import_key(&hmac_params(vec![]), KeyFormat::Raw, &[0x0f; 32], None).unwrap().key_blob;
    let mut handles = Vec::new();
    for _ in 0..4 {
        handles.push(sb.begin_operation(KeyPurpose::Verify, &blob, vec![], None).unwrap().op_handle);
    }
    let mut distinct = handles.clone();
    distinct.sort();
    distinct.dedup();
    assert_eq!(distinct.len(), 4);
    assert!(matches!(sb.begin_operation(KeyPurpose::Verify, &blob, vec![], None), Err(Error::Hal(ErrorCode::TooManyOperations))));
    assert_eq!(sb.op_abort(OpHandle(handles[1])), Ok(()));
    assert!(sb.operations[1].is_none());
    // The first free entry is taken.
    let again = sb.begin_operation(KeyPurpose::Verify, &blob, vec![], None).unwrap();
    assert_eq!(sb.operations[1].as_ref().map(|op| op.handle), Some(OpHandle(again.op_handle)));
    assert_eq!(sb.op_abort(OpHandle(handles[1])), Err(Error::Hal(ErrorCode::InvalidOperationHandle)));
}

#[test]
fn use_count_enforcement() {
    let mut ta = booted(Setup::tee(), 110000);
    let blob = ta.import_key(&hmac_params(vec![KeyParam::UsageCountLimit(2)]), KeyFormat::Raw, &[0x0f; 32], None).unwrap().key_blob;
    let mut outcomes = Vec::new();
    for _ in 0..3 {
        outcomes.push(match ta.begin_operation(KeyPurpose::Verify, &blob, vec![], None) {
            Ok(begun) => {
                ta.op_abort(OpHandle(begun.op_handle)).unwrap();
                Ok(())
            }
            Err(e) => Err(e),
        });
    }
    assert_eq!(outcomes, vec![Ok(()), Ok(()), Err(Error::Hal(ErrorCode::KeyMaxOpsExceeded))]);
    // Another key has its own count.
    let other = ta.import_key(&hmac_params(vec![KeyParam::MaxUsesPerBoot(1)]), KeyFormat::Raw, &[0x0e; 32], None).unwrap().key_blob;
    assert!(ta.begin_operation(KeyPurpose::Verify, &other, vec![], None).is_ok());
    assert!(matches!(ta.begin_operation(KeyPurpose::Verify, &other, vec![], None), Err(Error::Hal(ErrorCode::KeyMaxOpsExceeded))));
}

#[test]
fn only_one_operation_waits_for_user_presence() {
    let mut ta = booted(Setup::tee(), 110000);
    let blob = ta.import_key(&hmac_params(vec![KeyParam::TrustedUserPresenceRequired]), KeyFormat::Raw, &[0x0f; 32], None).unwrap().key_blob;
    let plain = ta.import_key(&hmac_params(vec![]), KeyFormat::Raw, &[0x0f; 32], None).unwrap().key_blob;
    let first = ta.begin_operation(KeyPurpose::Verify, &blob, vec![], None).unwrap();
    assert_eq!(ta.presence_required_op, Some(OpHandle(first.op_handle)));
    assert!(matches!(ta.begin_operation(KeyPurpose::Verify, &blob, vec![], None), Err(Error::Hal(ErrorCode::ConcurrentProofOfPresenceRequested))));
    let other = ta.begin_operation(KeyPurpose::Verify, &plain, vec![], None).unwrap();
    assert_eq!(ta.presence_required_op, Some(OpHandle(first.op_handle)));
    assert_eq!(ta.operations.iter().filter(|op| matches!(op, Some(o) if o.presence_required)).count(), 1);
    // An operation that does not wait leaves the record alone.
    assert_eq!(ta.op_abort(OpHandle(other.op_handle)), Ok(()));
    assert_eq!(ta.presence_required_op, Some(OpHandle(first.op_handle)));
    assert!(ta.op_finish(OpHandle(first.op_handle), None, None).is_err());
    assert_eq!(ta.presence_required_op, None);
    let second = ta.begin_operation(KeyPurpose::Verify, &blob, vec![], None).unwrap();
    assert_eq!(ta.presence_required_op, Some(OpHandle(second.op_handle)));
    assert_eq!(ta.op_abort(OpHandle(second.op_handle)), Ok(()));
    assert_eq!(ta.presence_required_op, None);
}

#[test]
fn root_of_trust_transfer() {
    let mut tee = booted(Setup::tee(), 110000);
    let mut sb = Setup::strongbox().build();
    tee.hmac_key = Some(vec![7; 32]);
    sb.hmac_key = Some(vec![7; 32]);

    assert_eq!(tee.get_root_of_trust_challenge(), Err(Error::Hal(ErrorCode::Unimplemented)));
    assert_eq!(tee.send_root_of_trust(&[]), Err(Error::Hal(ErrorCode::Unimplemented)));
    assert_eq!(sb.get_root_of_trust(&[0; 16]), Err(Error::Hal(ErrorCode::Unimplemented)));

    let challenge = sb.get_root_of_trust_challenge().unwrap();
    assert_eq!(sb.rot_challenge, challenge);
    assert_ne!(challenge, [0; 16]);
    let message = tee.get_root_of_trust(&challenge).unwrap();
    // A COSE_Mac0 inside tag 17.
    assert_eq!(message[0], 0xd1);

    // A message for another challenge does not verify.
    let stale = tee.get_root_of_trust(&[0; 16]).unwrap();
    assert_eq!(sb.send_root_of_trust(&stale), Err(Error::Hal(ErrorCode::VerificationFailed)));
    let mut altered = message.clone();
    let last = altered.len() - 1;
    altered[last] ^= 1;
    assert_eq!(sb.send_root_of_trust(&altered), Err(Error::Hal(ErrorCode::VerificationFailed)));
    assert_eq!(sb.send_root_of_trust(b"junk"), Err(Error::Hal(ErrorCode::InvalidArgument)));
    assert_eq!(sb.boot_info, None);

    assert_eq!(sb.send_root_of_trust(&message), Ok(()));
    assert_eq!(sb.boot_info, Some(boot_info(20230101)));

    // The message is [h'a10105', {}, payload, tag] inside tag 17, and the tag is the HMAC over
    // the MAC structure ["MAC0", h'a10105', challenge, payload].
    let parts = match from_slice(&message).unwrap() {
        CborValue::Tag(17, inner) => match *inner {
            CborValue::Array(parts) => parts,
            other => panic!("unexpected {:?}", other),
        },
        other => panic!("unexpected {:?}", other),
    };
    assert_eq!(parts.len(), 4);
    assert_eq!(parts[0], CborValue::Bytes(vec![0xa1, 0x01, 0x05]));
    assert_eq!(parts[1], CborValue::Dict(vec![]));
    assert_eq!(parts[2], CborValue::Bytes(boot_info(20230101).to_tagged_vec().unwrap()));
    let structure = to_vec(&CborValue::Array(vec![
        CborValue::Text("MAC0".to_string()),
        CborValue::Bytes(vec![0xa1, 0x01, 0x05]),
        CborValue::Bytes(challenge.to_vec()),
        CborValue::Bytes(boot_info(20230101).to_tagged_vec().unwrap()),
    ])).unwrap();
    assert_eq!(parts[3], CborValue::Bytes(Sha256Hmac.hmac_sha256(&[7; 32], &structure).unwrap()));

    // A device that has not booted has nothing to hand out.
    let mut unbooted = Setup::tee().build();
    unbooted.hmac_key = Some(vec![7; 32]);
    assert_eq!(unbooted.get_root_of_trust(&challenge), Err(Error::Hal(ErrorCode::HardwareNotYetAvailable)));
    let mut keyless = booted(Setup::tee(), 110000);
    assert_eq!(keyless.get_root_of_trust(&challenge), Err(Error::Hal(ErrorCode::HardwareNotYetAvailable)));
    keyless.hmac_key = Some(vec![8; 32]);
    let foreign = keyless.get_root_of_trust(&challenge).unwrap();
    let mut fresh = Setup::strongbox().build();
    fresh.hmac_key = Some(vec![7; 32]);
    fresh.rot_challenge = challenge;
    assert_eq!(fresh.send_root_of_trust(&foreign), Err(Error::Hal(ErrorCode::VerificationFailed)));
}

#[test]
fn attestation_chain_is_fetched_once_per_key() {
    let mut ta = Setup::tee().build();
    let batch_ec = SigningKeyType { which: SigningKey::Batch, algo_hint: SigningAlgorithm::Ec };
    let unique_rsa = SigningKeyType { which: SigningKey::DeviceUnique, algo_hint: SigningAlgorithm::Rsa };
    let first = ta.get_attestation_chain_info(batch_ec).unwrap();
    assert_eq!(first, AttestationChainInfo { chain: vec![Certificate { encoded_certificate: vec![1, 1, 1] }], issuer: vec![1, 1] });
    assert_eq!(ta.get_attestation_chain_info(batch_ec), Ok(first.clone()));
    assert_eq!(ta.dev.sign_info.asked.get(), 1);
    let other = ta.get_attestation_chain_info(unique_rsa).unwrap();
    assert_eq!(other.issuer, vec![2, 2]);
    assert_eq!(ta.dev.sign_info.asked.get(), 2);
    assert_eq!(ta.get_attestation_chain_info(batch_ec), Ok(first));
    assert_eq!(ta.get_attestation_chain_info(unique_rsa), Ok(other));
    assert_eq!(ta.dev.sign_info.asked.get(), 2);
    assert_eq!(ta.attestation_chain_info.iter().filter(|c| c.is_some()).count(), 2);

    // A failure is handed on and nothing is kept.
    let mut failing = Setup::tee().build();
    failing.dev.sign_info.fail = true;
    assert_eq!(failing.get_attestation_chain_info(batch_ec), Err(Error::Hal(ErrorCode::AttestationKeysNotProvisioned)));
    assert!(failing.attestation_chain_info.iter().all(|c| c.is_none()));
    failing.dev.sign_info.fail = false;
    assert!(failing.get_attestation_chain_info(batch_ec).is_ok());
    assert_eq!(failing.dev.sign_info.asked.get(), 2);
}

#[test]
fn well_formed_checks_the_operation_table() {
    let mut ta = booted(Setup::tee(), 110000);
    assert!(ta.well_formed());
    let blob = ta.import_key(&hmac_params(vec![KeyParam::TrustedUserPresenceRequired]), KeyFormat::Raw, &[0x0f; 32], None).unwrap().key_blob;
    ta.begin_operation(KeyPurpose::Verify, &blob, vec![], None).unwrap();
    assert!(ta.well_formed());
    // An operation that waits for user presence without being recorded.
    let recorded = ta.presence_required_op.take();
    assert!(!ta.well_formed());
    ta.presence_required_op = recorded;
    assert!(ta.well_formed());
    // A record of user presence for a handle that no operation has.
    ta.presence_required_op = Some(OpHandle(recorded.unwrap().0.wrapping_add(1)));
    assert!(!ta.well_formed());
    ta.presence_required_op = recorded;
    // A table of the wrong size.
    ta.operations.push(None);
    assert!(!ta.well_formed());
    ta.operations.pop();
    // The bytes of the root of trust without boot information.
    ta.boot_info = None;
    assert!(!ta.well_formed());
}

#[test]
fn boot_info_tagged_round_trip() {
    let info = boot_info(20230101);
    let bytes = info.to_tagged_vec().unwrap();
    // Tag 40001, then an array of five.
    assert_eq!(bytes[..4], [0xd9, 0x9c, 0x41, 0x85]);
    assert_eq!(BootInfo::from_tagged_slice(&bytes), Ok(info));
    assert!(BootInfo::from_tagged_slice(&bytes[3..]).is_err());
    assert!(BootInfo::from_tagged_slice(&to_vec(&CborValue::Tag(40002, Box::new(info.to_cbor_value()))).unwrap()).is_err());
}

#[test]
fn rpc_device_info_has_canonical_key_order() {
    let mut ta = booted(Setup { own_ids: true, ..Setup::strongbox() }, 110000);
    let bytes = ta.rpc_device_info().unwrap();
    let entries = match from_slice(&bytes).unwrap() {
        CborValue::Dict(entries) => entries,
        other => panic!("unexpected {:?}", other),
    };
    let keys: Vec<String> = entries.iter().map(|(k, _)| match k {
        CborValue::Text(t) => t.clone(),
        other => panic!("unexpected {:?}", other),
    }).collect();
    assert_eq!(keys, vec![
        "brand", "fused", "model", "device", "product", "version", "vb_state", "os_version",
        "manufacturer", "vbmeta_digest", "security_level", "boot_patch_level", "bootloader_state",
        "system_patch_level", "vendor_patch_level",
    ]);
    // Shorter keys first, and keys of the same length in byte order.
    for pair in keys.windows(2) {
        assert!((pair[0].len(), pair[0].as_bytes()) < (pair[1].len(), pair[1].as_bytes()));
    }
    let value = |key: &str| entries.iter().find(|(k, _)| *k == CborValue::Text(key.to_string())).map(|(_, v)| v).unwrap();
    assert_eq!(*value("brand"), CborValue::Text("acme".to_string()));
    assert_eq!(*value("manufacturer"), CborValue::Text("acme corp".to_string()));
    assert_eq!(*value("fused"), CborValue::Integer(0));
    assert_eq!(*value("version"), CborValue::Integer(3));
    assert_eq!(*value("vb_state"), CborValue::Text("green".to_string()));
    assert_eq!(*value("os_version"), CborValue::Integer(110000));
    assert_eq!(*value("vbmeta_digest"), CborValue::Bytes(vec![0xbb; 32]));
    assert_eq!(*value("security_level"), CborValue::Text("strongbox".to_string()));
    assert_eq!(*value("boot_patch_level"), CborValue::Integer(20230101));
    assert_eq!(*value("bootloader_state"), CborValue::Text("locked".to_string()));
    assert_eq!(*value("system_patch_level"), CborValue::Integer(202301));
    assert_eq!(*value("vendor_patch_level"), CborValue::Integer(20230105));
}

#[test]
fn rpc_device_info_needs_everything_known() {
    let mut no_ids = booted(Setup::tee(), 110000);
    assert_eq!(no_ids.rpc_device_info(), Err(Error::Hal(ErrorCode::UnknownError)));
    let mut unbooted = Setup { own_ids: true, ..Setup::tee() }.build();
    assert_eq!(unbooted.rpc_device_info(), Err(Error::Hal(ErrorCode::UnknownError)));
    let mut ta = booted(Setup { own_ids: true, ..Setup::tee() }, 110000);
    ta.attestation_id_info = Some(AttestationIdInfo { brand: vec![0xff, b'a'], ..sample_ids() });
    ta.rpc_info = RpcInfo::V2(RpcInfoV2 { author_name: "a", supported_eek_curve: EekCurve::P256, unique_id: "u", fused: true });
    let bytes = ta.rpc_device_info().unwrap();
    let entries = match from_slice(&bytes).unwrap() {
        CborValue::Dict(entries) => entries,
        other => panic!("unexpected {:?}", other),
    };
    assert_eq!(entries[0].1, CborValue::Text("\u{fffd}a".to_string()));
    assert_eq!(entries[1].1, CborValue::Integer(1));
    assert_eq!(entries[5].1, CborValue::Integer(2));
    assert_eq!(entries[10].1, CborValue::Text("tee".to_string()));
    assert!(matches!(ta.generate_cert_req(false, vec![], &[], &[]), Err(Error::Hal(ErrorCode::Unimplemented))));
    assert!(matches!(no_ids.generate_cert_req(false, vec![], &[], &[]), Err(Error::Hal(ErrorCode::UnknownError))));
    assert!(matches!(ta.generate_cert_req_v2(vec![], &[]), Err(Error::Hal(ErrorCode::Unimplemented))));
    assert!(matches!(ta.generate_ecdsa_p256_keypair(false), Err(Error::Hal(ErrorCode::Unimplemented))));
}

#[test]
fn rpc_hardware_info_follows_version() {
    let mut ta = Setup::tee().build();
    let v3 = ta.get_rpc_hardware_info().unwrap();
    assert_eq!((v3.version_number, v3.supported_eek_curve, v3.supported_num_keys_in_csr), (3, EekCurve::NoCurve, 20));
    assert_eq!(v3.rpc_author_name, "The Authors");
    assert_eq!(v3.unique_id, Some("verified keymint".to_string()));
    ta.rpc_info = RpcInfo::V2(RpcInfoV2 { author_name: "a", supported_eek_curve: EekCurve::Curve25519, unique_id: "u", fused: true });
    let v2 = ta.get_rpc_hardware_info().unwrap();
    assert_eq!((v2.version_number, v2.supported_eek_curve, v2.supported_num_keys_in_csr), (2, EekCurve::Curve25519, 20));
}

#[test]
fn invalid_cbor_fallback() {
    let mut ta = Setup::tee().build();
    assert_eq!(ta.process(&[0xff]), vec![0x82, 0x39, 0x03, 0xe7, 0x80]);
    assert_eq!(ta.process(&[]), vec![0x82, 0x39, 0x03, 0xe7, 0x80]);
    // An operation that does not exist.
    assert_eq!(ta.process(&[0x82, 0x01, 0x80]), vec![0x82, 0x39, 0x03, 0xe7, 0x80]);
    assert_eq!(invalid_cbor_rsp_data(), [0x82, 0x39, 0x03, 0xe7, 0x80]);
    // The hand-written bytes are those of the response that reports UnknownError.
    assert_eq!(error_rsp(ErrorCode::UnknownError).into_vec().unwrap(), invalid_cbor_rsp_data().to_vec());
    assert_eq!(op_error_rsp(KeyMintOperation::DeviceBegin, Error::Hal(ErrorCode::UnknownError)), error_rsp(ErrorCode::UnknownError));
}

#[test]
fn process_dispatches_requests() {
    let mut ta = Setup::tee().build();
    let req = PerformOpReq::SetHalInfo(SetHalInfoRequest { os_version: 110000, os_patchlevel: 202301, vendor_patchlevel: 20230105 });
    let bytes = req.into_vec().unwrap();
    assert_eq!(bytes[..3], [0x82, 0x18, 0x81]);
    let rsp = PerformOpResponse::from_slice(&ta.process(&bytes)).unwrap();
    assert_eq!(rsp.error_code, ErrorCode::Success);
    assert!(matches!(rsp.rsp, Some(PerformOpRsp::SetHalInfo(_))));
    assert_eq!(ta.hal_info, Some(hal_info(110000)));

    let req = PerformOpReq::SetBootInfo(SetBootInfoRequest { verified_boot_key: [0xaa; 32], device_boot_locked: true, verified_boot_state: 0, verified_boot_hash: [0xbb; 32], boot_patchlevel: 20230101 });
    let rsp = PerformOpResponse::from_slice(&ta.process(&req.into_vec().unwrap())).unwrap();
    assert_eq!(rsp.error_code, ErrorCode::Success);
    assert_eq!(ta.boot_info, Some(boot_info(20230101)));

    let req = PerformOpReq::SetBootInfo(SetBootInfoRequest { verified_boot_key: [0; 32], device_boot_locked: true, verified_boot_state: 4, verified_boot_hash: [0; 32], boot_patchlevel: 1 });
    let rsp = PerformOpResponse::from_slice(&ta.process(&req.into_vec().unwrap())).unwrap();
    assert_eq!((rsp.error_code, rsp.rsp), (ErrorCode::InvalidArgument, None));

    let req = PerformOpReq::DeviceGetHardwareInfo(GetHardwareInfoRequest {});
    let rsp = PerformOpResponse::from_slice(&ta.process(&req.into_vec().unwrap())).unwrap();
    match rsp.rsp {
        Some(PerformOpRsp::DeviceGetHardwareInfo(info)) => assert_eq!(info.ret.key_mint_name, "Verified KeyMint"),
        other => panic!("unexpected {:?}", other),
    }

    let req = PerformOpReq::DeviceAddRngEntropy(AddRngEntropyRequest { data: vec![0; 2049] });
    let rsp = PerformOpResponse::from_slice(&ta.process(&req.into_vec().unwrap())).unwrap();
    assert_eq!((rsp.error_code, rsp.rsp), (ErrorCode::InvalidInputLength, None));
    // The bytes of an error response: the code, then the empty array.
    assert_eq!(ta.process(&req.into_vec().unwrap()), vec![0x82, 0x34, 0x80]);

    let req = PerformOpReq::DeviceEarlyBootEnded(EarlyBootEndedRequest {});
    let rsp = ta.process_req(req);
    assert_eq!(rsp.error_code, ErrorCode::Success);
    assert!(!ta.in_early_boot);

    let req = PerformOpReq::DeviceBegin(BeginRequest { purpose: KeyPurpose::Sign, key_blob: vec![1, 2, 3], params: vec![], auth_token: None });
    let rsp = ta.process_req(req);
    assert_eq!((rsp.error_code, rsp.rsp), (ErrorCode::InvalidKeyBlob, None));
}
