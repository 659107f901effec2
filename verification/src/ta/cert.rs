//! The certificates of the attestation signing keys, fetched once and kept.

use crate::device::{
    AttestationChainInfo, Platform, RetrieveCertSigningInfo, SigningAlgorithm, SigningKey,
    SigningKeyType,
};
use crate::error::Error;
use crate::ta::KeyMintTa;
use vstd::prelude::*;

verus! {

/// The place of a signing key in the cache of chains.
pub open spec fn chain_index(key_type: SigningKeyType) -> int {
    (match key_type.which {
        SigningKey::Batch => 0int,
        SigningKey::DeviceUnique => 2int,
    }) + (match key_type.algo_hint {
        SigningAlgorithm::Ec => 0int,
        SigningAlgorithm::Rsa => 1int,
    })
}

/// The place of a signing key in the cache of chains.
fn index_of(key_type: SigningKeyType) -> (r: usize)
    ensures
        r == chain_index(key_type),
        r < 4,
{
    let base: usize = match key_type.which {
        SigningKey::Batch => 0,
        SigningKey::DeviceUnique => 2,
    };
    let offset: usize = match key_type.algo_hint {
        SigningAlgorithm::Ec => 0,
        SigningAlgorithm::Rsa => 1,
    };
    base + offset
}

/// Different signing keys have different places in the cache.
pub proof fn lemma_chain_index_is_injective(a: SigningKeyType, b: SigningKeyType)
    requires
        chain_index(a) == chain_index(b),
    ensures
        a == b,
{
}

impl<P: Platform> KeyMintTa<P> {
    /// The chain of certificates of a signing key.
    ///
    /// The chain is fetched from the device on the first use of the key and
    /// kept; from then on the chain that was kept is returned, and the
    /// device is not asked again. A failure to fetch is handed on and
    /// nothing is kept. Nothing changes but the cache, and in the cache
    /// nothing but the place of the key.
    pub fn get_attestation_chain_info(&mut self, key_type: SigningKeyType) -> (r: Result<
        AttestationChainInfo,
        Error,
    >)
        ensures
            *final(self) == (KeyMintTa {
                attestation_chain_info: final(self).attestation_chain_info,
                ..*old(self)
            }),
            forall|i: int|
                0 <= i < 4 && i != chain_index(key_type) ==> final(self).attestation_chain_info@[i]
                    == old(self).attestation_chain_info@[i],
            match old(self).attestation_chain_info@[chain_index(key_type)] {
                Some(kept) => *final(self) == *old(self) && r is Ok && r->Ok_0@ == kept@,
                None => match r {
                    Ok(info) => final(self).attestation_chain_info@[chain_index(key_type)]
                        is Some && final(self).attestation_chain_info@[chain_index(
                        key_type,
                    )]->Some_0@ == info@,
                    Err(_) => *final(self) == *old(self),
                },
            },
    {
        let index = index_of(key_type);
        match &self.attestation_chain_info[index] {
            Some(kept) => {
                return Ok(kept.duplicate());
            },
            None => {},
        }
        match self.dev.sign_info.cert_chain(key_type) {
            Err(e) => Err(e),
            Ok(info) => {
                let copy = info.duplicate();
                self.attestation_chain_info[index] = Some(info);
                Ok(copy)
            },
        }
    }
}

} // verus!
