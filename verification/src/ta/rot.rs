//! Transfer of the root of trust from the trusted execution environment to
//! a StrongBox, authenticated under the HMAC key that the two share.

use crate::bytes::array16_from;
use crate::cbor::{serialized, Item};
use crate::device::{CryptoImplementation, Platform};
use crate::error::Error;
use crate::ta::info::{BootInfo, BootInfoView};
use crate::ta::KeyMintTa;
use crate::wire::keymint::ErrorCode;
use crate::crypto::Rng;
use vstd::prelude::*;

verus! {

/// A message with its authentication tag, `COSE_Mac0` of RFC 8152.
#[derive(Clone, Debug, PartialEq, Eq)]
pub struct CoseMac0 {
    /// The protected header as it is serialized inside its byte string.
    pub protected: Vec<u8>,
    /// The message.
    pub payload: Option<Vec<u8>>,
    /// The authentication tag.
    pub tag: Vec<u8>,
}

/// The content of a [`CoseMac0`].
pub ghost struct CoseMac0View {
    pub protected: Seq<u8>,
    pub payload: Option<Seq<u8>>,
    pub tag: Seq<u8>,
}

impl View for CoseMac0 {
    type V = CoseMac0View;

    open spec fn view(&self) -> CoseMac0View {
        CoseMac0View {
            protected: self.protected@,
            payload: match self.payload {
                None => None,
                Some(p) => Some(p@),
            },
            tag: self.tag@,
        }
    }
}

/// What `coset::CoseMac0::from_tagged_slice` reads from bytes: the
/// serialized protected header, the payload and the tag; nothing where
/// `coset` refuses the bytes.
pub uninterp spec fn cose_mac0_read(bytes: Seq<u8>) -> Option<CoseMac0View>;

/// The bytes that `coset::CoseMac0::to_tagged_vec` writes for a message
/// with the given serialized protected header, an empty unprotected header,
/// the given payload and the given tag; nothing where `coset` fails.
pub uninterp spec fn cose_mac0_written(protected: Seq<u8>, payload: Seq<u8>, tag: Seq<u8>) -> Option<
    Seq<u8>,
>;

/// The `MAC_structure` of RFC 8152 for the context `MAC0`: the array of the
/// context text, the serialized protected header, the external data and the
/// payload.
pub open spec fn mac0_structure_item(
    protected: Seq<u8>,
    external_aad: Seq<u8>,
    payload: Seq<u8>,
) -> Item {
    Item::Array(
        seq![
            Item::Text("MAC0"@),
            Item::Bytes(protected),
            Item::Bytes(external_aad),
            Item::Bytes(payload),
        ],
    )
}

/// The bytes of the `MAC_structure`, over which the tag is computed.
pub open spec fn mac0_structure(
    protected: Seq<u8>,
    external_aad: Seq<u8>,
    payload: Seq<u8>,
) -> Seq<u8> {
    match serialized(mac0_structure_item(protected, external_aad, payload)) {
        Some(bytes) => bytes,
        None => Seq::empty(),
    }
}

/// Serialized protected header that names the algorithm HMAC 256/256: the
/// map from label 1 to the value 5.
pub open spec fn hmac256_header() -> Seq<u8> {
    seq![0xa1u8, 0x01u8, 0x05u8]
}

/// Calls `coset::CoseMac0::from_tagged_slice` and hands back the parts of
/// the message that the library reads. The contract names the outcome
/// [`cose_mac0_read`]; it claims nothing of what `coset` accepts.
#[verifier::external_body]
fn cose_mac0_from_tagged_slice(bytes: &[u8]) -> (r: Option<CoseMac0>)
    ensures
        match r {
            Some(m) => cose_mac0_read(bytes@) == Some(m@),
            None => cose_mac0_read(bytes@).is_none(),
        },
{
    let m = <coset::CoseMac0 as coset::TaggedCborSerializable>::from_tagged_slice(bytes).ok()?;
    Some(CoseMac0 { protected: m.protected.original_data?, payload: m.payload, tag: m.tag })
}

/// Puts the parts into a `coset::CoseMac0` with an empty unprotected header
/// and calls its `to_tagged_vec`. The contract names the outcome
/// [`cose_mac0_written`].
#[verifier::external_body]
fn cose_mac0_to_tagged_vec(protected: &[u8], payload: &[u8], tag: &[u8]) -> (r: Option<Vec<u8>>)
    ensures
        match r {
            Some(bytes) => cose_mac0_written(protected@, payload@, tag@) == Some(bytes@),
            None => cose_mac0_written(protected@, payload@, tag@).is_none(),
        },
{
    let protected = coset::ProtectedHeader { original_data: Some(protected.to_vec()), header: Default::default() };
    let m = coset::CoseMac0 { protected, unprotected: Default::default(), payload: Some(payload.to_vec()), tag: tag.to_vec() };
    coset::TaggedCborSerializable::to_tagged_vec(m).ok()
}

/// Calls `coset::mac_structure_data` for the context `MAC0`. The protected
/// header is handed over as its serialized bytes, which `coset` then uses as
/// they are. `coset` puts the context text, those bytes, the external data
/// and the payload into an array and writes the array with
/// `ciborium::ser::into_writer`, which cannot fail for such an array: the
/// result is what [`serialized`] gives for [`mac0_structure_item`].
#[verifier::external_body]
fn mac_structure_data(protected: &[u8], external_aad: &[u8], payload: &[u8]) -> (r: Vec<u8>)
    ensures
        serialized(mac0_structure_item(protected@, external_aad@, payload@)) == Some(r@),
{
    let header = coset::ProtectedHeader { original_data: Some(protected.to_vec()), header: Default::default() };
    coset::mac_structure_data(coset::MacContext::CoseMac0, header, external_aad, payload)
}

/// Builds a header that names the algorithm HMAC 256/256 with
/// `coset::HeaderBuilder` and serializes it as `coset` does for a protected
/// header. By RFC 8152 the algorithm has label 1 and HMAC 256/256 the value
/// 5, so the bytes are the one-entry map `a1 01 05`; `coset` cannot fail to
/// write a header that holds nothing but an assigned algorithm.
#[verifier::external_body]
fn hmac256_protected_header() -> (r: Vec<u8>)
    ensures
        r@ == hmac256_header(),
{
    let header = coset::HeaderBuilder::new().algorithm(coset::iana::Algorithm::HMAC_256_256).build();
    coset::CborSerializable::to_vec(header).unwrap_or_default()
}

impl<P: Platform> KeyMintTa<P> {
    /// Draws a new challenge for the transfer of the root of trust and
    /// remembers it. Only a StrongBox does this: any other device answers
    /// `Unimplemented` and changes nothing.
    pub fn get_root_of_trust_challenge(&mut self) -> (r: Result<[u8; 16], Error>)
        ensures
            !old(self).is_strongbox_spec() ==> r == Err::<[u8; 16], Error>(
                Error::Hal(ErrorCode::Unimplemented),
            ) && *final(self) == *old(self),
            old(self).is_strongbox_spec() ==> r is Ok && *final(self) == (KeyMintTa {
                imp: CryptoImplementation { rng: final(self).imp.rng, ..old(self).imp },
                rot_challenge: r->Ok_0,
                ..*old(self)
            }),
    {
        if !self.is_strongbox() {
            return Err(Error::Hal(ErrorCode::Unimplemented));
        }
        let mut drawn: Vec<u8> = vec![0u8; 16];
        self.imp.rng.fill_bytes(&mut drawn);
        let challenge = match array16_from(drawn.as_slice()) {
            Some(c) => c,
            None => {
                assert(false);
                [0u8;16]
            },
        };
        self.rot_challenge = challenge;
        Ok(challenge)
    }

    /// What [`Self::get_root_of_trust`] returns for a challenge.
    ///
    /// A StrongBox answers `Unimplemented`, and a device that has not
    /// learnt its boot information `HardwareNotYetAvailable`. Otherwise the
    /// answer is a `COSE_Mac0` around the tagged boot information, whose tag
    /// is the HMAC of the device over the MAC structure with the challenge
    /// as external data. A failure to write either gives `UnknownError`.
    pub open spec fn root_of_trust_message(&self, challenge: Seq<u8>) -> Result<Seq<u8>, Error> {
        if self.is_strongbox_spec() {
            Err(Error::Hal(ErrorCode::Unimplemented))
        } else {
            match self.boot_info {
                None => Err(Error::Hal(ErrorCode::HardwareNotYetAvailable)),
                Some(info) => match info@.tagged_bytes() {
                    Err(_) => Err(Error::Hal(ErrorCode::UnknownError)),
                    Ok(payload) => match self.device_hmac_of(
                        mac0_structure(hmac256_header(), challenge, payload),
                    ) {
                        Err(e) => Err(e),
                        Ok(tag) => match cose_mac0_written(hmac256_header(), payload, tag) {
                            None => Err(Error::Hal(ErrorCode::UnknownError)),
                            Some(bytes) => Ok(bytes),
                        },
                    },
                },
            }
        }
    }

    /// Hands out the root of trust, authenticated for the challenge of the
    /// StrongBox that asks for it.
    pub fn get_root_of_trust(&self, challenge: &[u8]) -> (r: Result<Vec<u8>, Error>)
        ensures
            crate::error::bytes_result(r) == self.root_of_trust_message(challenge@),
    {
        if self.is_strongbox() {
            return Err(Error::Hal(ErrorCode::Unimplemented));
        }
        let payload = match &self.boot_info {
            Some(info) => match info.to_tagged_vec() {
                Err(_) => { return Err(Error::Hal(ErrorCode::UnknownError)); },
                Ok(p) => p,
            },
            None => { return Err(Error::Hal(ErrorCode::HardwareNotYetAvailable)); },
        };
        let protected = hmac256_protected_header();
        let tbm = mac_structure_data(protected.as_slice(), challenge, payload.as_slice());
        let tag = match self.device_hmac(tbm.as_slice()) {
            Err(e) => { return Err(e); },
            Ok(tag) => tag,
        };
        match cose_mac0_to_tagged_vec(protected.as_slice(), payload.as_slice(), tag.as_slice()) {
            None => Err(Error::Hal(ErrorCode::UnknownError)),
            Some(bytes) => Ok(bytes),
        }
    }

    /// What [`Self::send_root_of_trust`] makes of a message: the boot
    /// information that it carries, once its tag has been found to be the
    /// HMAC of the device over the MAC structure with the remembered
    /// challenge as external data.
    ///
    /// A device that is no StrongBox answers `Unimplemented`. Bytes that
    /// are no `COSE_Mac0`, a message without payload and a payload that is
    /// no tagged boot information give `InvalidArgument`; a tag that does
    /// not verify gives `VerificationFailed`.
    pub open spec fn root_of_trust_received(&self, message: Seq<u8>) -> Result<BootInfoView, Error> {
        if !self.is_strongbox_spec() {
            Err(Error::Hal(ErrorCode::Unimplemented))
        } else {
            match cose_mac0_read(message) {
                None => Err(Error::Hal(ErrorCode::InvalidArgument)),
                Some(mac0) => match mac0.payload {
                    None => Err(Error::Hal(ErrorCode::InvalidArgument)),
                    Some(payload) => match self.device_hmac_of(
                        mac0_structure(mac0.protected, self.rot_challenge@, payload),
                    ) {
                        Err(e) => Err(e),
                        Ok(remac) => if mac0.tag != remac {
                            Err(Error::Hal(ErrorCode::VerificationFailed))
                        } else {
                            match BootInfoView::from_tagged_bytes(payload) {
                                Err(_) => Err(Error::Hal(ErrorCode::InvalidArgument)),
                                Ok(info) => Ok(info),
                            }
                        },
                    },
                },
            }
        }
    }

    /// Takes the root of trust that the trusted execution environment
    /// sends. Boot information that verifies is latched where none has been
    /// set before; otherwise, and on every failure, nothing changes.
    pub fn send_root_of_trust(&mut self, root_of_trust: &[u8]) -> (r: Result<(), Error>)
        ensures
            match old(self).root_of_trust_received(root_of_trust@) {
                Err(e) => r == Err::<(), Error>(e) && *final(self) == *old(self),
                Ok(info) => r is Ok && match old(self).boot_info {
                    Some(_) => *final(self) == *old(self),
                    None => final(self).boot_info is Some && final(self).boot_info->Some_0@ == info
                        && *final(self) == (KeyMintTa {
                        boot_info: final(self).boot_info,
                        ..*old(self)
                    }),
                },
            },
    {
        if !self.is_strongbox() {
            return Err(Error::Hal(ErrorCode::Unimplemented));
        }
        let mac0 = match cose_mac0_from_tagged_slice(root_of_trust) {
            None => { return Err(Error::Hal(ErrorCode::InvalidArgument)); },
            Some(m) => m,
        };
        let payload = match mac0.payload {
            None => { return Err(Error::Hal(ErrorCode::InvalidArgument)); },
            Some(p) => p,
        };
        let tbm = mac_structure_data(
            mac0.protected.as_slice(),
            self.rot_challenge.as_slice(),
            payload.as_slice(),
        );
        match self.verify_device_hmac(tbm.as_slice(), mac0.tag.as_slice()) {
            Err(e) => { return Err(e); },
            Ok(verified) => if !verified {
                return Err(Error::Hal(ErrorCode::VerificationFailed));
            },
        }
        let boot_info = match BootInfo::from_tagged_slice(payload.as_slice()) {
            Err(_) => { return Err(Error::Hal(ErrorCode::InvalidArgument)); },
            Ok(info) => info,
        };
        if self.boot_info.is_none() {
            self.boot_info = Some(boot_info);
        }
        Ok(())
    }
}

} // verus!
