//! The cryptographic collaborators of the trusted application, and the key
//! material that it protects.
//!
//! The primitives themselves are supplied by the device: each trait below is
//! implemented outside this library. Where a primitive is a function of its
//! inputs, the trait names that function so that contracts can speak of it.

use crate::bytes::{array16_from, array24_from, array32_from, copy_bytes};
use crate::cbor::{
    array_value, bytes_of, bytes_value, items_of, result_view, tuple_of, value_bytes, value_tuple,
    CborError, CborValue, Item,
};
use crate::error::{bytes_result, Error};
use crate::wire::keymint::{Algorithm, EcCurve, ErrorCode};
use vstd::prelude::*;

verus! {

/// Length in bytes of a SHA-256 digest, and so of an HMAC-SHA256 tag.
pub const SHA256_DIGEST_LEN: usize = 32;

/// Source of random bytes.
pub trait Rng {
    /// Mixes caller-supplied entropy into the generator.
    fn add_entropy(&mut self, data: &[u8]);

    /// Overwrites `dest` with random bytes, keeping its length.
    fn fill_bytes(&mut self, dest: &mut Vec<u8>)
        ensures
            final(dest)@.len() == old(dest)@.len(),
    ;
}

/// A clock that keeps time inside the secure environment.
pub trait MonotonicClock {
    /// The current time in milliseconds.
    fn now(&self) -> i64;
}

/// Comparison of byte strings in time that does not depend on their content.
pub trait ConstTimeEq {
    /// Whether the two byte strings are equal.
    fn eq(&self, left: &[u8], right: &[u8]) -> (r: bool)
        ensures
            r == (left@ == right@),
    ;
}

/// HMAC-SHA256.
pub trait Hmac {
    /// The outcome of HMAC-SHA256 under `key` over `data`, as this
    /// implementation computes it.
    spec fn mac(&self, key: Seq<u8>, data: Seq<u8>) -> Result<Seq<u8>, Error>;

    /// Computes HMAC-SHA256 under `key` over `data`.
    fn hmac_sha256(&self, key: &[u8], data: &[u8]) -> (r: Result<Vec<u8>, Error>)
        ensures
            bytes_result(r) == self.mac(key@, data@),
    ;
}

/// An AES key of one of the three sizes.
#[derive(Clone, Copy, Debug, PartialEq, Eq)]
pub enum AesKey {
    Aes128([u8; 16]),
    Aes192([u8; 24]),
    Aes256([u8; 32]),
}

impl AesKey {
    /// The bytes of the key.
    pub open spec fn bytes(self) -> Seq<u8> {
        match self {
            AesKey::Aes128(k) => k@,
            AesKey::Aes192(k) => k@,
            AesKey::Aes256(k) => k@,
        }
    }
}

/// AES in Galois/Counter mode with a 16-byte tag.
pub trait Aes {
    /// The ciphertext followed by the tag that this implementation produces
    /// for `plaintext` under the key with bytes `key`, `nonce` and additional
    /// data `aad`.
    spec fn gcm_sealed(
        &self,
        key: Seq<u8>,
        nonce: Seq<u8>,
        aad: Seq<u8>,
        plaintext: Seq<u8>,
    ) -> Result<Seq<u8>, Error>;

    /// The plaintext that this implementation recovers from `sealed`, a
    /// ciphertext followed by its tag, or the error with which it refuses it.
    spec fn gcm_opened(&self, key: Seq<u8>, nonce: Seq<u8>, aad: Seq<u8>, sealed: Seq<u8>) -> Result<
        Seq<u8>,
        Error,
    >;

    /// Encrypts `plaintext` and appends the tag.
    fn gcm_encrypt(&self, key: &AesKey, nonce: &[u8; 12], aad: &[u8], plaintext: &[u8]) -> (r:
        Result<Vec<u8>, Error>)
        ensures
            bytes_result(r) == self.gcm_sealed(key.bytes(), nonce@, aad@, plaintext@),
    ;

    /// Checks the tag at the end of `sealed` and decrypts what precedes it.
    fn gcm_decrypt(&self, key: &AesKey, nonce: &[u8; 12], aad: &[u8], sealed: &[u8]) -> (r: Result<
        Vec<u8>,
        Error,
    >)
        ensures
            bytes_result(r) == self.gcm_opened(key.bytes(), nonce@, aad@, sealed@),
    ;
}

/// Whether `aes` recovers, under the same key, nonce and additional data,
/// every plaintext that it has sealed.
pub open spec fn opens_what_it_seals<A: Aes>(aes: A) -> bool {
    forall|key: Seq<u8>, nonce: Seq<u8>, aad: Seq<u8>, plaintext: Seq<u8>|
        #![trigger aes.gcm_sealed(key, nonce, aad, plaintext)]
        aes.gcm_sealed(key, nonce, aad, plaintext) is Ok ==> aes.gcm_opened(
            key,
            nonce,
            aad,
            aes.gcm_sealed(key, nonce, aad, plaintext)->Ok_0,
        ) == Ok::<Seq<u8>, Error>(plaintext)
}

/// The salt that HKDF uses where none is given: one zero byte for each byte
/// of the digest.
pub open spec fn default_salt() -> Seq<u8> {
    Seq::new(SHA256_DIGEST_LEN as nat, |i: int| 0u8)
}

/// HKDF-SHA256 (RFC 5869) with an output of 32 bytes, over the HMAC of
/// `hmac`: the pseudorandom key is the HMAC of the input keying material
/// under the salt, and the output is the HMAC of `info` followed by the byte
/// 1 under that key. An HMAC that does not return 32 bytes makes the
/// derivation fail with `UnknownError`.
pub open spec fn hkdf_sha256<H: Hmac>(hmac: H, salt: Seq<u8>, ikm: Seq<u8>, info: Seq<u8>) -> Result<
    Seq<u8>,
    Error,
> {
    let salt = if salt.len() == 0 {
        default_salt()
    } else {
        salt
    };
    match hmac.mac(salt, ikm) {
        Err(e) => Err(e),
        Ok(prk) => match hmac.mac(prk, info.push(1u8)) {
            Err(e) => Err(e),
            Ok(okm) => if okm.len() == SHA256_DIGEST_LEN {
                Ok(okm)
            } else {
                Err(Error::Hal(ErrorCode::UnknownError))
            },
        },
    }
}

/// Derives 32 bytes with HKDF-SHA256 from the input keying material `ikm`,
/// an optional `salt` (empty for none) and the context `info`.
pub fn hkdf<H: Hmac>(hmac: &H, salt: &[u8], ikm: &[u8], info: &[u8]) -> (r: Result<[u8; 32], Error>)
    ensures
        match r {
            Ok(key) => hkdf_sha256(*hmac, salt@, ikm@, info@) == Ok::<Seq<u8>, Error>(key@),
            Err(e) => hkdf_sha256(*hmac, salt@, ikm@, info@) == Err::<Seq<u8>, Error>(e),
        },
{
    let salt_bytes = if salt.len() == 0 {
        let zeros: Vec<u8> = vec![0u8; SHA256_DIGEST_LEN];
        assert(zeros@ =~= default_salt());
        zeros
    } else {
        copy_bytes(salt)
    };
    let prk = match hmac.hmac_sha256(salt_bytes.as_slice(), ikm) {
        Err(e) => { return Err(e); },
        Ok(prk) => prk,
    };
    let mut input = copy_bytes(info);
    input.push(1u8);
    let okm = match hmac.hmac_sha256(prk.as_slice(), input.as_slice()) {
        Err(e) => { return Err(e); },
        Ok(okm) => okm,
    };
    match array32_from(okm.as_slice()) {
        Some(key) => Ok(key),
        None => Err(Error::Hal(ErrorCode::UnknownError)),
    }
}

/// Key material in the clear.
#[derive(Clone, Debug, PartialEq, Eq)]
pub enum KeyMaterial {
    /// An RSA private key, DER-encoded.
    Rsa(Vec<u8>),
    /// A private key on an elliptic curve, DER-encoded.
    Ec(EcCurve, Vec<u8>),
    /// An AES key.
    Aes(AesKey),
    /// An HMAC key.
    Hmac(Vec<u8>),
    /// A triple-DES key.
    TripleDes([u8; 24]),
}

/// Key material that is not encrypted.
pub type PlaintextKeyMaterial = KeyMaterial;

/// The content of a [`KeyMaterial`].
pub ghost enum KeyMaterialView {
    Rsa(Seq<u8>),
    Ec(EcCurve, Seq<u8>),
    /// The bytes of the key: 16, 24 or 32 of them.
    Aes(Seq<u8>),
    Hmac(Seq<u8>),
    /// The 24 bytes of the key.
    TripleDes(Seq<u8>),
}

impl View for KeyMaterial {
    type V = KeyMaterialView;

    open spec fn view(&self) -> KeyMaterialView {
        match self {
            KeyMaterial::Rsa(k) => KeyMaterialView::Rsa(k@),
            KeyMaterial::Ec(curve, k) => KeyMaterialView::Ec(*curve, k@),
            KeyMaterial::Aes(k) => KeyMaterialView::Aes(k.bytes()),
            KeyMaterial::Hmac(k) => KeyMaterialView::Hmac(k@),
            KeyMaterial::TripleDes(k) => KeyMaterialView::TripleDes(k@),
        }
    }
}

/// Whether a number of bytes is the size of an AES key.
pub open spec fn is_aes_key_len(n: nat) -> bool {
    n == 16 || n == 24 || n == 32
}

impl KeyMaterialView {
    /// Whether the key has a length that its algorithm allows. The view of
    /// every [`KeyMaterial`] is well-formed.
    pub open spec fn wf(self) -> bool {
        match self {
            KeyMaterialView::Aes(k) => is_aes_key_len(k.len()),
            KeyMaterialView::TripleDes(k) => k.len() == 24,
            _ => true,
        }
    }

    /// The algorithm that the key is for.
    pub open spec fn algorithm(self) -> Algorithm {
        match self {
            KeyMaterialView::Rsa(_) => Algorithm::Rsa,
            KeyMaterialView::Ec(_, _) => Algorithm::Ec,
            KeyMaterialView::Aes(_) => Algorithm::Aes,
            KeyMaterialView::Hmac(_) => Algorithm::Hmac,
            KeyMaterialView::TripleDes(_) => Algorithm::TripleDes,
        }
    }

    /// The number of bytes of the key.
    pub open spec fn key_len(self) -> nat {
        match self {
            KeyMaterialView::Rsa(k) => k.len(),
            KeyMaterialView::Ec(_, k) => k.len(),
            KeyMaterialView::Aes(k) => k.len(),
            KeyMaterialView::Hmac(k) => k.len(),
            KeyMaterialView::TripleDes(k) => k.len(),
        }
    }

    /// The item that holds the key itself: its bytes, preceded by the curve
    /// for a key on an elliptic curve.
    pub open spec fn payload(self) -> Item {
        match self {
            KeyMaterialView::Rsa(k) => Item::Bytes(k),
            KeyMaterialView::Ec(curve, k) => Item::Array(
                seq![Item::Integer(curve.code()), Item::Bytes(k)],
            ),
            KeyMaterialView::Aes(k) => Item::Bytes(k),
            KeyMaterialView::Hmac(k) => Item::Bytes(k),
            KeyMaterialView::TripleDes(k) => Item::Bytes(k),
        }
    }

    /// The CBOR form of key material: the algorithm, then the key.
    pub open spec fn item(self) -> Item {
        Item::Array(seq![Item::Integer(self.algorithm().code()), self.payload()])
    }

    /// The key that an algorithm and the item of the key stand for. A
    /// symmetric key of a length that its algorithm does not allow is
    /// refused with `InvalidValue`.
    pub open spec fn with_algorithm(algorithm: Algorithm, raw: Item) -> Result<
        KeyMaterialView,
        CborError,
    > {
        match algorithm {
            Algorithm::Rsa => match bytes_of(raw) {
                Err(e) => Err(e),
                Ok(k) => Ok(KeyMaterialView::Rsa(k)),
            },
            Algorithm::Ec => match tuple_of(raw, 2) {
                Err(e) => Err(e),
                Ok(a) => match EcCurve::from_item(a[0]) {
                    Err(e) => Err(e),
                    Ok(curve) => match bytes_of(a[1]) {
                        Err(e) => Err(e),
                        Ok(k) => Ok(KeyMaterialView::Ec(curve, k)),
                    },
                },
            },
            Algorithm::Aes => match bytes_of(raw) {
                Err(e) => Err(e),
                Ok(k) => if is_aes_key_len(k.len()) {
                    Ok(KeyMaterialView::Aes(k))
                } else {
                    Err(CborError::InvalidValue)
                },
            },
            Algorithm::Hmac => match bytes_of(raw) {
                Err(e) => Err(e),
                Ok(k) => Ok(KeyMaterialView::Hmac(k)),
            },
            Algorithm::TripleDes => match bytes_of(raw) {
                Err(e) => Err(e),
                Ok(k) => if k.len() == 24 {
                    Ok(KeyMaterialView::TripleDes(k))
                } else {
                    Err(CborError::InvalidValue)
                },
            },
        }
    }

    /// What [`KeyMaterial::from_cbor_value`] makes of an item.
    pub open spec fn from_item(item: Item) -> Result<KeyMaterialView, CborError> {
        match tuple_of(item, 2) {
            Err(e) => Err(e),
            Ok(a) => match Algorithm::from_item(a[0]) {
                Err(e) => Err(e),
                Ok(algorithm) => Self::with_algorithm(algorithm, a[1]),
            },
        }
    }

    /// Reading the CBOR form of well-formed key material gives it back.
    pub proof fn lemma_round_trip(self)
        requires
            self.wf(),
        ensures
            Self::from_item(self.item()) == Ok::<KeyMaterialView, CborError>(self),
    {
        self.algorithm().lemma_round_trip();
        let a = seq![Item::Integer(self.algorithm().code()), self.payload()];
        assert(tuple_of(self.item(), 2) == Ok::<Seq<Item>, CborError>(a));
        assert(a[0] == Item::Integer(self.algorithm().code()));
        assert(a[1] == self.payload());
        match self {
            KeyMaterialView::Ec(curve, k) => {
                curve.lemma_round_trip();
                let p = seq![Item::Integer(curve.code()), Item::Bytes(k)];
                assert(tuple_of(self.payload(), 2) == Ok::<Seq<Item>, CborError>(p));
                assert(p[0] == Item::Integer(curve.code()));
                assert(p[1] == Item::Bytes(k));
            },
            _ => {},
        }
    }
}

impl AesKey {
    /// The key that holds `bytes`, where their number is the size of an AES
    /// key.
    pub fn from_bytes(bytes: &[u8]) -> (r: Option<AesKey>)
        ensures
            match r {
                Some(key) => key.bytes() == bytes@,
                None => !is_aes_key_len(bytes@.len()),
            },
    {
        if bytes.len() == 16 {
            match array16_from(bytes) {
                Some(k) => Some(AesKey::Aes128(k)),
                None => None,
            }
        } else if bytes.len() == 24 {
            match array24_from(bytes) {
                Some(k) => Some(AesKey::Aes192(k)),
                None => None,
            }
        } else if bytes.len() == 32 {
            match array32_from(bytes) {
                Some(k) => Some(AesKey::Aes256(k)),
                None => None,
            }
        } else {
            None
        }
    }

    /// Writes the bytes of the key as a byte string.
    pub fn to_cbor_value(&self) -> (r: CborValue)
        ensures
            r@ == Item::Bytes(self.bytes()),
    {
        match self {
            AesKey::Aes128(k) => bytes_value(k.as_slice()),
            AesKey::Aes192(k) => bytes_value(k.as_slice()),
            AesKey::Aes256(k) => bytes_value(k.as_slice()),
        }
    }
}

impl KeyMaterial {
    /// The view of key material is well-formed.
    pub proof fn lemma_view_wf(self)
        ensures
            self@.wf(),
    {
    }

    /// The algorithm that the key is for.
    pub fn algorithm(&self) -> (r: Algorithm)
        ensures
            r == self@.algorithm(),
    {
        match self {
            KeyMaterial::Rsa(_) => Algorithm::Rsa,
            KeyMaterial::Ec(_, _) => Algorithm::Ec,
            KeyMaterial::Aes(_) => Algorithm::Aes,
            KeyMaterial::Hmac(_) => Algorithm::Hmac,
            KeyMaterial::TripleDes(_) => Algorithm::TripleDes,
        }
    }

    /// Writes the key material as the array of algorithm and key.
    pub fn to_cbor_value(&self) -> (r: CborValue)
        ensures
            r@ == self@.item(),
    {
        let payload = match self {
            KeyMaterial::Rsa(k) => bytes_value(k.as_slice()),
            KeyMaterial::Ec(curve, k) => {
                let mut p: Vec<CborValue> = Vec::new();
                p.push(curve.to_cbor_value());
                p.push(bytes_value(k.as_slice()));
                assert(items_of(p@) =~= seq![Item::Integer(curve.code()), Item::Bytes(k@)]);
                array_value(p)
            },
            KeyMaterial::Aes(k) => k.to_cbor_value(),
            KeyMaterial::Hmac(k) => bytes_value(k.as_slice()),
            KeyMaterial::TripleDes(k) => bytes_value(k.as_slice()),
        };
        let mut a: Vec<CborValue> = Vec::new();
        a.push(self.algorithm().to_cbor_value());
        a.push(payload);
        assert(items_of(a@) =~= seq![Item::Integer(self@.algorithm().code()), self@.payload()]);
        array_value(a)
    }

    /// Reads the key that belongs to `algorithm` from the item of the key.
    fn with_algorithm(algorithm: Algorithm, raw: &CborValue) -> (r: Result<KeyMaterial, CborError>)
        ensures
            result_view(r) == KeyMaterialView::with_algorithm(algorithm, raw@),
    {
        match algorithm {
            Algorithm::Rsa => match value_bytes(raw) {
                Err(e) => Err(e),
                Ok(k) => Ok(KeyMaterial::Rsa(k)),
            },
            Algorithm::Ec => {
                let a = match value_tuple(raw, 2) {
                    Err(e) => { return Err(e); },
                    Ok(a) => a,
                };
                assert(items_of(a@)[0] == a@[0]@);
                assert(items_of(a@)[1] == a@[1]@);
                let curve = match EcCurve::from_cbor_value(&a[0]) {
                    Err(e) => { return Err(e); },
                    Ok(curve) => curve,
                };
                match value_bytes(&a[1]) {
                    Err(e) => Err(e),
                    Ok(k) => Ok(KeyMaterial::Ec(curve, k)),
                }
            },
            Algorithm::Aes => match value_bytes(raw) {
                Err(e) => Err(e),
                Ok(k) => match AesKey::from_bytes(k.as_slice()) {
                    Some(key) => Ok(KeyMaterial::Aes(key)),
                    None => Err(CborError::InvalidValue),
                },
            },
            Algorithm::Hmac => match value_bytes(raw) {
                Err(e) => Err(e),
                Ok(k) => Ok(KeyMaterial::Hmac(k)),
            },
            Algorithm::TripleDes => match value_bytes(raw) {
                Err(e) => Err(e),
                Ok(k) => match array24_from(k.as_slice()) {
                    Some(key) => Ok(KeyMaterial::TripleDes(key)),
                    None => Err(CborError::InvalidValue),
                },
            },
        }
    }

    /// Reads key material from the array of algorithm and key.
    pub fn from_cbor_value(v: &CborValue) -> (r: Result<KeyMaterial, CborError>)
        ensures
            result_view(r) == KeyMaterialView::from_item(v@),
    {
        let a = match value_tuple(v, 2) {
            Err(e) => { return Err(e); },
            Ok(a) => a,
        };
        assert(items_of(a@)[0] == a@[0]@);
        assert(items_of(a@)[1] == a@[1]@);
        match Algorithm::from_cbor_value(&a[0]) {
            Err(e) => Err(e),
            Ok(algorithm) => Self::with_algorithm(algorithm, &a[1]),
        }
    }
}

} // verus!
