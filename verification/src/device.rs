//! The collaborators that are specific to a device: its keys, its
//! identifiers and its wrapping of storage keys.

use crate::crypto::{Aes, ConstTimeEq, Hmac, KeyMaterial, MonotonicClock, Rng};
use crate::error::{bytes_result, Error};
use crate::keyblob::SecureDeletionSecretManager;
use crate::bytes::copy_bytes;
use crate::cbor::views;
use crate::wire::types::{vec_certificate_duplicate, AttestationIdInfo, Certificate, CertificateView};
use vstd::prelude::*;

verus! {

/// Access to the keys that the hardware holds.
pub trait RetrieveKeys {
    /// What [`Self::root_kek`] returns for a context.
    spec fn root_kek_of(&self, context: Seq<u8>) -> Result<Seq<u8>, Error>;

    /// What [`Self::kak`] returns.
    spec fn kak_of(&self) -> Result<Seq<u8>, Error>;

    /// The root key from which the keys that encrypt keyblobs are derived.
    fn root_kek(&self, context: &[u8]) -> (r: Result<Vec<u8>, Error>)
        ensures
            bytes_result(r) == self.root_kek_of(context@),
    ;

    /// The key from which the HMAC key shared between the secure
    /// environments of the device is derived.
    fn kak(&self) -> (r: Result<Vec<u8>, Error>)
        ensures
            bytes_result(r) == self.kak_of(),
    ;
}

/// Access to the identifiers of the device.
pub trait RetrieveAttestationIds {
    /// The identifiers of the device.
    fn get(&self) -> Result<AttestationIdInfo, Error>;

    /// Destroys the identifiers for good.
    fn destroy_all(&mut self) -> Result<(), Error>;
}

/// Which of the attestation signing keys of the device is meant.
#[derive(Clone, Copy, Debug, PartialEq, Eq, Structural)]
pub enum SigningKey {
    /// The key that a batch of devices shares.
    Batch,
    /// The key of this device alone.
    DeviceUnique,
}

/// The algorithm of an attestation signing key.
#[derive(Clone, Copy, Debug, PartialEq, Eq, Structural)]
pub enum SigningAlgorithm {
    Ec,
    Rsa,
}

/// An attestation signing key of the device, by purpose and algorithm.
#[derive(Clone, Copy, Debug, PartialEq, Eq, Structural)]
pub struct SigningKeyType {
    pub which: SigningKey,
    pub algo_hint: SigningAlgorithm,
}

/// The chain of certificates of an attestation signing key.
#[derive(Clone, Debug, PartialEq, Eq)]
pub struct AttestationChainInfo {
    /// The certificates from the intermediate to the root.
    pub chain: Vec<Certificate>,
    /// The subject of the first certificate of the chain, as a DER-encoded
    /// name.
    pub issuer: Vec<u8>,
}

/// The content of an [`AttestationChainInfo`].
pub ghost struct AttestationChainInfoView {
    pub chain: Seq<CertificateView>,
    pub issuer: Seq<u8>,
}

impl View for AttestationChainInfo {
    type V = AttestationChainInfoView;

    open spec fn view(&self) -> AttestationChainInfoView {
        AttestationChainInfoView { chain: views(self.chain@), issuer: self.issuer@ }
    }
}

impl AttestationChainInfo {
    /// A copy of this value.
    pub fn duplicate(&self) -> (r: AttestationChainInfo)
        ensures
            r@ == self@,
    {
        AttestationChainInfo {
            chain: vec_certificate_duplicate(&self.chain),
            issuer: copy_bytes(self.issuer.as_slice()),
        }
    }
}

/// Access to the certificates of the attestation signing keys.
pub trait RetrieveCertSigningInfo {
    /// The chain of certificates of a signing key, with its issuer.
    fn cert_chain(&self, key_type: SigningKeyType) -> Result<AttestationChainInfo, Error>;
}

/// Wrapping of storage keys for use outside the secure environment.
pub trait StorageKeyWrapper {
    /// Wraps key material under a key that lasts until the next boot.
    fn ephemeral_wrap(&self, key_material: &KeyMaterial) -> Result<Vec<u8>, Error>;
}

/// The collaborators of a trusted application, as the types that supply
/// them.
pub trait Platform {
    /// The source of random bytes.
    type Rng: Rng;

    /// The clock inside the secure environment.
    type Clock: MonotonicClock;

    /// The comparison of byte strings.
    type Compare: ConstTimeEq;

    /// AES-GCM.
    type Aes: Aes;

    /// HMAC-SHA256.
    type Hmac: Hmac;

    /// The keys that the hardware holds.
    type Keys: RetrieveKeys;

    /// The certificates of the attestation signing keys.
    type SignInfo: RetrieveCertSigningInfo;

    /// The identifiers of the device.
    type AttestIds: RetrieveAttestationIds;

    /// The keeper of secure deletion secrets.
    type SddMgr: SecureDeletionSecretManager;

    /// The wrapper of storage keys.
    type SkWrapper: StorageKeyWrapper;
}

/// The cryptographic collaborators of one device.
pub struct CryptoImplementation<P: Platform> {
    pub rng: P::Rng,
    /// A clock inside the secure environment, where there is one.
    pub clock: Option<P::Clock>,
    pub compare: P::Compare,
    pub aes: P::Aes,
    pub hmac: P::Hmac,
}

/// The device-specific collaborators of one device.
pub struct DeviceImplementation<P: Platform> {
    pub keys: P::Keys,
    pub sign_info: P::SignInfo,
    /// The identifiers of the device, where the device keeps them itself.
    pub attest_ids: Option<P::AttestIds>,
    /// The keeper of secure deletion secrets, where there is secure storage.
    pub sdd_mgr: Option<P::SddMgr>,
    /// The wrapper of storage keys, where storage keys are supported.
    pub sk_wrapper: Option<P::SkWrapper>,
}

} // verus!
