//! Agreement on the HMAC key that the secure environments of one device
//! share.

use crate::bytes::{bytes_equal, copy_bytes};
use crate::cbor::views;
use crate::crypto::{hkdf, hkdf_sha256, Hmac, Rng};
use crate::device::{CryptoImplementation, Platform, RetrieveKeys};
use crate::error::{bytes_result, Error};
use crate::ta::KeyMintTa;
use crate::wire::keymint::ErrorCode;
use crate::wire::types::{SharedSecretParameters, SharedSecretParametersView};
use vstd::prelude::*;

verus! {

/// The label under which the shared HMAC key is derived: the text
/// `KeymasterSharedMac`.
pub open spec fn key_agreement_label() -> Seq<u8> {
    seq![
        0x4bu8, 0x65, 0x79, 0x6d, 0x61, 0x73, 0x74, 0x65, 0x72, 0x53, 0x68, 0x61, 0x72, 0x65, 0x64,
        0x4d, 0x61, 0x63,
    ]
}

/// The message whose HMAC shows that the parties have agreed on the same
/// key: the text `Keymaster HMAC Verification`.
pub open spec fn key_check_label() -> Seq<u8> {
    seq![
        0x4bu8, 0x65, 0x79, 0x6d, 0x61, 0x73, 0x74, 0x65, 0x72, 0x20, 0x48, 0x4d, 0x41, 0x43, 0x20,
        0x56, 0x65, 0x72, 0x69, 0x66, 0x69, 0x63, 0x61, 0x74, 0x69, 0x6f, 0x6e,
    ]
}

/// The context of an agreement: seed and nonce of each party, in the order
/// of the parties.
pub open spec fn shared_secret_context(params: Seq<SharedSecretParametersView>) -> Seq<u8>
    decreases params.len(),
{
    if params.len() == 0 {
        Seq::empty()
    } else {
        shared_secret_context(params.drop_last()) + params.last().seed + params.last().nonce
    }
}

/// The HMAC key that the parties with the given parameters agree on: HKDF
/// over the key agreement key of the device, with the label and the context
/// of the agreement as info.
pub open spec fn agreed_key<H: Hmac>(
    hmac: H,
    kak: Seq<u8>,
    params: Seq<SharedSecretParametersView>,
) -> Result<Seq<u8>, Error> {
    hkdf_sha256(hmac, Seq::empty(), kak, key_agreement_label() + shared_secret_context(params))
}

/// Whether `local` is among the parameters of an agreement.
fn takes_part(params: &[SharedSecretParameters], local: &SharedSecretParameters) -> (r: bool)
    ensures
        r == views(params@).contains(local@),
{
    let mut i: usize = 0;
    while i < params.len()
        invariant
            i <= params.len(),
            forall|j: int| 0 <= j < i ==> views(params@)[j] != local@,
        decreases params.len() - i,
    {
        assert(views(params@)[i as int] == params@[i as int]@);
        if bytes_equal(params[i].seed.as_slice(), local.seed.as_slice()) && bytes_equal(
            params[i].nonce.as_slice(),
            local.nonce.as_slice(),
        ) {
            return true;
        }
        i += 1;
    }
    false
}

/// The context of an agreement.
fn context_of(params: &[SharedSecretParameters]) -> (r: Vec<u8>)
    ensures
        r@ == shared_secret_context(views(params@)),
{
    let mut context: Vec<u8> = Vec::new();
    let mut i: usize = 0;
    assert(views(params@).take(0) =~= Seq::<SharedSecretParametersView>::empty());
    while i < params.len()
        invariant
            i <= params.len(),
            context@ == shared_secret_context(views(params@).take(i as int)),
        decreases params.len() - i,
    {
        let ghost before = views(params@).take(i as int);
        let ghost after = views(params@).take(i as int + 1);
        assert(after.drop_last() =~= before);
        assert(after.last() == params@[i as int]@);
        context.extend_from_slice(params[i].seed.as_slice());
        context.extend_from_slice(params[i].nonce.as_slice());
        i += 1;
    }
    assert(views(params@).take(i as int) =~= views(params@));
    context
}

impl<P: Platform> KeyMintTa<P> {
    /// The parameters that this device contributes to the agreement on a
    /// shared secret. They are drawn on the first call, an empty seed and a
    /// nonce of 32 random bytes, and stay the same until the next boot.
    pub fn get_shared_secret_params(&mut self) -> (r: Result<SharedSecretParameters, Error>)
        ensures
            r matches Ok(params) && final(self).shared_secret_params is Some && params@ == final(self).shared_secret_params->Some_0@,
            old(self).shared_secret_params is Some ==> *final(self) == *old(self),
            old(self).shared_secret_params is None ==> *final(self) == (KeyMintTa {
                imp: CryptoImplementation { rng: final(self).imp.rng, ..old(self).imp },
                shared_secret_params: final(self).shared_secret_params,
                ..*old(self)
            }) && final(self).shared_secret_params->Some_0@.seed.len() == 0 && final(self).shared_secret_params->Some_0@.nonce.len() == 32,
    {
        if self.shared_secret_params.is_none() {
            let mut nonce: Vec<u8> = vec![0u8; 32];
            self.imp.rng.fill_bytes(&mut nonce);
            self.shared_secret_params = Some(SharedSecretParameters { seed: Vec::new(), nonce });
        }
        match &self.shared_secret_params {
            Some(params) => Ok(params.duplicate()),
            None => {
                assert(false);
                Err(Error::Hal(ErrorCode::UnknownError))
            },
        }
    }

    /// What [`Self::compute_shared_secret`] returns, with the HMAC key that
    /// the device holds afterwards.
    ///
    /// A device that has not handed out its own parameters answers
    /// `HardwareNotYetAvailable`, and an agreement in which its own
    /// parameters do not take part `InvalidArgument`. The key of the
    /// agreement is latched where no key has been latched before. The
    /// answer is the HMAC of the check message under the latched key.
    pub open spec fn shared_secret_outcome(
        &self,
        params: Seq<SharedSecretParametersView>,
    ) -> (Option<Seq<u8>>, Result<Seq<u8>, Error>) {
        let unchanged = match self.hmac_key {
            Some(k) => Some(k@),
            None => None,
        };
        match self.shared_secret_params {
            None => (unchanged, Err(Error::Hal(ErrorCode::HardwareNotYetAvailable))),
            Some(local) => if !params.contains(local@) {
                (unchanged, Err(Error::Hal(ErrorCode::InvalidArgument)))
            } else {
                match self.dev.keys.kak_of() {
                    Err(e) => (unchanged, Err(e)),
                    Ok(kak) => match agreed_key(self.imp.hmac, kak, params) {
                        Err(e) => (unchanged, Err(e)),
                        Ok(key) => {
                            let latched = match self.hmac_key {
                                Some(k) => k@,
                                None => key,
                            };
                            (Some(latched), self.imp.hmac.mac(latched, key_check_label()))
                        },
                    },
                }
            },
        }
    }

    /// Agrees on the shared HMAC key with the parties whose parameters are
    /// given, and returns the check value that lets the host compare the
    /// outcome of all parties.
    pub fn compute_shared_secret(&mut self, params: &[SharedSecretParameters]) -> (r: Result<
        Vec<u8>,
        Error,
    >)
        ensures
            bytes_result(r) == old(self).shared_secret_outcome(views(params@)).1,
            *final(self) == (KeyMintTa { hmac_key: final(self).hmac_key, ..*old(self) }),
            match final(self).hmac_key {
                Some(k) => old(self).shared_secret_outcome(views(params@)).0 == Some(k@),
                None => old(self).shared_secret_outcome(views(params@)).0 is None,
            },
            old(self).hmac_key is Some ==> final(self).hmac_key == old(self).hmac_key,
    {
        let takes_part = match &self.shared_secret_params {
            None => { return Err(Error::Hal(ErrorCode::HardwareNotYetAvailable)); },
            Some(local) => takes_part(params, local),
        };
        if !takes_part {
            return Err(Error::Hal(ErrorCode::InvalidArgument));
        }
        let kak = match self.dev.keys.kak() {
            Err(e) => { return Err(e); },
            Ok(k) => k,
        };
        let label: [u8; 18] = [
            0x4b, 0x65, 0x79, 0x6d, 0x61, 0x73, 0x74, 0x65, 0x72, 0x53, 0x68, 0x61, 0x72, 0x65,
            0x64, 0x4d, 0x61, 0x63,
        ];
        assert(label@ =~= key_agreement_label());
        let mut info = copy_bytes(label.as_slice());
        let context = context_of(params);
        info.extend_from_slice(context.as_slice());
        assert(info@ == key_agreement_label() + shared_secret_context(views(params@)));
        let no_salt: Vec<u8> = Vec::new();
        assert(no_salt@ =~= Seq::<u8>::empty());
        let key = match hkdf(&self.imp.hmac, no_salt.as_slice(), kak.as_slice(), info.as_slice()) {
            Err(e) => { return Err(e); },
            Ok(k) => k,
        };
        if self.hmac_key.is_none() {
            self.hmac_key = Some(copy_bytes(key.as_slice()));
        }
        let check: [u8; 27] = [
            0x4b, 0x65, 0x79, 0x6d, 0x61, 0x73, 0x74, 0x65, 0x72, 0x20, 0x48, 0x4d, 0x41, 0x43,
            0x20, 0x56, 0x65, 0x72, 0x69, 0x66, 0x69, 0x63, 0x61, 0x74, 0x69, 0x6f, 0x6e,
        ];
        assert(check@ =~= key_check_label());
        self.device_hmac(check.as_slice())
    }
}

} // verus!
