//! RSA keys as the bytes of their PKCS#1 DER documents, and the `rsa` crate's
//! work on them.
//!
//! A key is kept in the form in which it travels. Each operation hands the
//! document to the `rsa` crate, which reads the key from it and does the
//! arithmetic. What the crate computes from given bytes is named here, not
//! restated. What it draws from the random source is never named: the
//! padding of a ciphertext stands in the contracts as some sequence of
//! bytes, and a generated key as whatever came back.

use rsa::pkcs1::{DecodeRsaPrivateKey, DecodeRsaPublicKey, EncodeRsaPrivateKey, EncodeRsaPublicKey};
use rsa::traits::{PrivateKeyParts, PublicKeyParts};
use rsa::{Pkcs1v15Encrypt, RsaPrivateKey, RsaPublicKey};
use vstd::prelude::*;
use crate::message::DecodeError;

verus! {

/// The number of bits in the modulus of the public key that
/// `RsaPublicKey::from_pkcs1_der` reads from `public_der`; `None` where it
/// refuses the bytes.
pub uninterp spec fn pkcs1_modulus_bits(public_der: Seq<u8>) -> Option<nat>;

/// The ciphertext that `RsaPublicKey::encrypt` with PKCS#1 v1.5 padding gives
/// for `message` under the key read from `public_der`, when the random source
/// hands it `padding`.
pub uninterp spec fn pkcs1_sealed(public_der: Seq<u8>, message: Seq<u8>, padding: Seq<u8>) -> Seq<
    u8,
>;

/// The PKCS#1 DER document of the public half of the private key that
/// `RsaPrivateKey::from_pkcs1_der` reads from `private_der`; `None` where it
/// refuses the bytes or the public half cannot be written.
pub uninterp spec fn rsa_public_der(private_der: Seq<u8>) -> Option<Seq<u8>>;

/// The numbers of bits in the two primes of the private key that
/// `RsaPrivateKey::from_pkcs1_der` reads from `private_der`, in the order of
/// the document; `None` where it refuses the bytes.
pub uninterp spec fn rsa_prime_bits(private_der: Seq<u8>) -> Option<(nat, nat)>;

/// The plaintext that `RsaPrivateKey::decrypt` with PKCS#1 v1.5 padding gives
/// for `ciphertext` under the private key read from `private_der`; `None`
/// where the key or the ciphertext is refused.
pub uninterp spec fn rsa_opened(private_der: Seq<u8>, ciphertext: Seq<u8>) -> Option<Seq<u8>>;

#[verifier::external_type_specification]
#[verifier::external_body]
pub struct ExRsaError(rsa::Error);

#[verifier::external_type_specification]
#[verifier::external_body]
pub struct ExPkcs1Error(rsa::pkcs1::Error);

/// The largest modulus, in bits, that the `rsa` crate reads back as a public
/// key.
pub const MAX_KEY_BITS: usize = 4096;

/// Bytes of a modulus that PKCS#1 v1.5 padding takes for itself.
pub const PADDING_OVERHEAD: usize = 11;

/// The bytes that a modulus of `bits` bits takes.
pub open spec fn modulus_bytes(bits: nat) -> nat {
    (bits + 7) / 8
}

/// The modulus length in bytes of the public key in `public_der`, which is
/// the length of every ciphertext under it; `None` where the bytes are no
/// key.
pub open spec fn pkcs1_modulus_len(public_der: Seq<u8>) -> Option<nat> {
    match pkcs1_modulus_bits(public_der) {
        Some(bits) => Some(modulus_bytes(bits)),
        None => None,
    }
}

/// Whether `ciphertext` is one that the cipher can give for `message` under
/// the key in `public_der`: the one for some padding.
pub open spec fn is_sealing(public_der: Seq<u8>, message: Seq<u8>, ciphertext: Seq<u8>) -> bool {
    exists|padding: Seq<u8>| ciphertext == #[trigger] pkcs1_sealed(public_der, message, padding)
}

/// Whether a payload of `payload_len` bytes can be encrypted under a modulus
/// of `modulus_len` bytes.
pub open spec fn payload_fits(modulus_len: nat, payload_len: nat) -> bool {
    payload_len + PADDING_OVERHEAD <= modulus_len
}

/// Whether a payload of `payload_len` bytes is too long for the key in
/// `public_der`.
pub open spec fn payload_refused(public_der: Seq<u8>, payload_len: nat) -> bool {
    match pkcs1_modulus_len(public_der) {
        Some(modulus_len) => !payload_fits(modulus_len, payload_len),
        None => true,
    }
}

/// Whether the key in `private_der` has a public half, with a modulus of
/// exactly `bits` bits.
pub open spec fn has_size(private_der: Seq<u8>, bits: nat) -> bool {
    match public_half_of(private_der) {
        Ok(public_der) => pkcs1_modulus_bits(public_der) == Some(bits),
        Err(_) => false,
    }
}

/// Whether two primes of `first` and `second` bits are of like size: no more
/// than one bit apart.
pub open spec fn alike(first: nat, second: nat) -> bool {
    first <= second + 1 && second <= first + 1
}

/// Whether `private_der` is a private key whose two primes are of like size.
/// The generator makes no other keys. Decryption takes a number of steps
/// that grows with the quotient of the two primes, so under a key with one
/// small and one large prime it does not come to an end in any time that
/// matters.
pub open spec fn is_balanced(private_der: Seq<u8>) -> bool {
    match rsa_prime_bits(private_der) {
        Some((first, second)) => alike(first, second),
        None => false,
    }
}

/// `RsaPrivateKey::new` on the thread's random source, then
/// `EncodeRsaPrivateKey::to_pkcs1_der`.
///
/// Trusted: a key that comes back has a public half that the `rsa` crate
/// reads back, and its modulus has exactly `bits` bits. The key is random,
/// so no clause says which key it is, nor that one comes back.
#[verifier::external_body]
pub(crate) fn generate_private_der(bits: usize) -> (outcome: Result<Vec<u8>, rsa::Error>)
    requires
        bits <= MAX_KEY_BITS,
    ensures
        outcome matches Ok(der) ==> has_size(der@, bits as nat),
{
    let key = RsaPrivateKey::new(&mut rand::thread_rng(), bits)?;
    let document = key.to_pkcs1_der()?;
    Ok(document.as_bytes().to_vec())
}

/// `DecodeRsaPrivateKey::from_pkcs1_der`, `RsaPublicKey::from` on the private
/// key, then `EncodeRsaPublicKey::to_pkcs1_der`.
///
/// Trusted: the public document depends on the private document alone.
#[verifier::external_body]
pub(crate) fn public_half(private_der: &[u8]) -> (outcome: Result<Vec<u8>, rsa::pkcs1::Error>)
    ensures
        outcome is Ok <==> rsa_public_der(private_der@) is Some,
        outcome matches Ok(der) ==> rsa_public_der(private_der@) == Some(der@),
{
    let key = RsaPrivateKey::from_pkcs1_der(private_der)?;
    let document = RsaPublicKey::from(&key).to_pkcs1_der()?;
    Ok(document.as_bytes().to_vec())
}

/// `DecodeRsaPrivateKey::from_pkcs1_der`, then `BigUint::bits` on each of
/// the two primes of `PrivateKeyParts::primes`.
///
/// Trusted: whether the bytes are accepted as a private key, and the sizes
/// of its primes, depend on the bytes alone. A key that was read from a
/// document has exactly two primes.
#[verifier::external_body]
pub(crate) fn prime_bits(private_der: &[u8]) -> (outcome: Result<
    (usize, usize),
    rsa::pkcs1::Error,
>)
    ensures
        outcome is Ok <==> rsa_prime_bits(private_der@) is Some,
        outcome matches Ok(bits) ==> rsa_prime_bits(private_der@) == Some(
            (bits.0 as nat, bits.1 as nat),
        ),
{
    let key = RsaPrivateKey::from_pkcs1_der(private_der)?;
    let primes = key.primes();
    Ok((primes[0].bits(), primes[1].bits()))
}

/// `DecodeRsaPublicKey::from_pkcs1_der`, then `BigUint::bits` on
/// `PublicKeyParts::n`.
///
/// Trusted: whether the bytes are accepted as a public key, and the number
/// of bits in its modulus, depend on the bytes alone.
#[verifier::external_body]
pub(crate) fn modulus_bits(public_der: &[u8]) -> (outcome: Result<usize, rsa::pkcs1::Error>)
    ensures
        outcome is Ok <==> pkcs1_modulus_bits(public_der@) is Some,
        outcome matches Ok(bits) ==> pkcs1_modulus_bits(public_der@) == Some(bits as nat),
{
    let key = RsaPublicKey::from_pkcs1_der(public_der)?;
    Ok(key.n().bits())
}

/// `DecodeRsaPublicKey::from_pkcs1_der`, then `RsaPublicKey::encrypt` with
/// PKCS#1 v1.5 padding on the thread's random source.
///
/// Trusted: for a key that is accepted and a message that leaves room for
/// the padding, a ciphertext comes back. It is as long as the modulus, which
/// takes its bits rounded up to whole bytes, and it is the one that the
/// cipher gives for this key, this message and the padding drawn. The
/// padding is random, so no clause says which it was.
#[verifier::external_body]
pub(crate) fn seal(public_der: &[u8], message: &[u8]) -> (outcome: Result<Vec<u8>, rsa::Error>)
    ensures
        !payload_refused(public_der@, message@.len()) ==> outcome is Ok,
        outcome matches Ok(ciphertext) ==> pkcs1_modulus_len(public_der@) == Some(
            ciphertext@.len(),
        ),
        outcome matches Ok(ciphertext) ==> exists|padding: Seq<u8>|
            ciphertext@ == #[trigger] pkcs1_sealed(public_der@, message@, padding),
{
    let key = RsaPublicKey::from_pkcs1_der(public_der)?;
    key.encrypt(&mut rand::thread_rng(), Pkcs1v15Encrypt, message)
}

/// `DecodeRsaPrivateKey::from_pkcs1_der`, then `RsaPrivateKey::decrypt` with
/// PKCS#1 v1.5 padding and no blinding.
///
/// Trusted: whether the ciphertext opens, and the plaintext, depend on the
/// private document and the ciphertext alone. Asked of keys with primes of
/// like size only: under others the call may run without end.
#[verifier::external_body]
pub(crate) fn open(private_der: &[u8], ciphertext: &[u8]) -> (outcome: Result<
    Vec<u8>,
    rsa::Error,
>)
    requires
        is_balanced(private_der@),
    ensures
        outcome is Ok <==> rsa_opened(private_der@, ciphertext@) is Some,
        outcome matches Ok(plaintext) ==> rsa_opened(private_der@, ciphertext@) == Some(
            plaintext@,
        ),
{
    let key = RsaPrivateKey::from_pkcs1_der(private_der)?;
    key.decrypt(Pkcs1v15Encrypt, ciphertext)
}

/// Why a payload was not encrypted.
#[derive(Clone, Copy, Debug, PartialEq, Eq, Structural)]
pub enum EncryptError {
    /// No public key of the counterpart is known yet.
    NoPeerKey,
    /// The payload is longer than the counterpart's modulus allows.
    PayloadTooLarge,
    /// The cipher failed. `sealed` gives this for a failure of the cipher;
    /// no payload within the bound meets one.
    CipherFailure,
}

/// A ciphertext did not open under this peer's private key. Says no more, on
/// purpose: the reason is of use only to an attacker.
#[derive(Clone, Copy, Debug, PartialEq, Eq, Structural)]
pub struct DecryptError;

/// Why no key pair was made.
#[derive(Clone, Copy, Debug, PartialEq, Eq, Structural)]
pub enum KeyError {
    /// The modulus size asked for is above `MAX_KEY_BITS`.
    UnsupportedSize,
    /// The generator failed, or what came back is no key that can be used:
    /// it has no public half, or its primes are not of like size.
    GenerationFailed,
}

/// What a key document means as a public key.
pub open spec fn decoded_key(bytes: Seq<u8>) -> Result<Seq<u8>, DecodeError> {
    if pkcs1_modulus_bits(bytes) is Some {
        Ok(bytes)
    } else {
        Err(DecodeError::InvalidKeyEncoding)
    }
}

/// An RSA public key: a PKCS#1 DER document that the `rsa` crate accepts,
/// with the number of bits in its modulus.
#[derive(Debug, PartialEq, Eq)]
pub struct PublicKey {
    der: Vec<u8>,
    bits: usize,
}

impl View for PublicKey {
    type V = Seq<u8>;

    closed spec fn view(&self) -> Seq<u8> {
        self.der@
    }
}

impl Clone for PublicKey {
    fn clone(&self) -> (copy: Self)
        ensures
            copy@ == self@,
    {
        proof {
            use_type_invariant(self);
        }
        let der = self.der.clone();
        assert(der@ =~= self.der@);
        PublicKey { der, bits: self.bits }
    }
}

impl PublicKey {
    /// The document is one that the `rsa` crate accepts, and the number kept
    /// with it is the number of bits in its modulus.
    #[verifier::type_invariant]
    pub closed spec fn well_formed(&self) -> bool {
        pkcs1_modulus_bits(self.der@) == Some(self.bits as nat)
    }

    /// What `well_formed` says, over the view.
    pub proof fn lemma_well_formed(&self)
        requires
            self.well_formed(),
        ensures
            pkcs1_modulus_bits(self@) is Some,
            decoded_key(self@) == Ok::<Seq<u8>, DecodeError>(self@),
    {
    }

    /// Reads a public key from its PKCS#1 DER document.
    pub fn from_der(bytes: Vec<u8>) -> (outcome: Result<PublicKey, DecodeError>)
        ensures
            outcome matches Ok(key) ==> decoded_key(bytes@) == Ok::<Seq<u8>, DecodeError>(key@),
            outcome matches Err(error) ==> decoded_key(bytes@) == Err::<Seq<u8>, DecodeError>(
                error,
            ),
    {
        match modulus_bits(bytes.as_slice()) {
            Ok(bits) => Ok(PublicKey { der: bytes, bits }),
            Err(_) => Err(DecodeError::InvalidKeyEncoding),
        }
    }

    /// The PKCS#1 DER document of this key.
    pub fn to_der(&self) -> (bytes: Vec<u8>)
        ensures
            bytes@ == self@,
            decoded_key(bytes@) == Ok::<Seq<u8>, DecodeError>(self@),
    {
        proof {
            use_type_invariant(self);
        }
        let bytes = self.der.clone();
        assert(bytes@ =~= self.der@);
        bytes
    }

    /// The number of bits in the modulus.
    pub fn bits(&self) -> (bits: usize)
        ensures
            pkcs1_modulus_bits(self@) == Some(bits as nat),
    {
        proof {
            use_type_invariant(self);
        }
        self.bits
    }

    /// The length of the modulus in bytes: the length of every ciphertext
    /// under this key.
    pub fn size(&self) -> (len: usize)
        ensures
            pkcs1_modulus_len(self@) == Some(len as nat),
    {
        proof {
            use_type_invariant(self);
        }
        let whole: usize = self.bits / 8;
        if self.bits % 8 == 0 {
            whole
        } else {
            whole + 1
        }
    }

    /// Encrypts `message` to the holder of the private half.
    pub fn encrypt(&self, message: &[u8]) -> (outcome: Result<Vec<u8>, EncryptError>)
        ensures
            payload_refused(self@, message@.len()) ==> outcome matches Err(
                EncryptError::PayloadTooLarge,
            ),
            !payload_refused(self@, message@.len()) ==> outcome is Ok,
            outcome matches Ok(ciphertext) ==> pkcs1_modulus_len(self@) == Some(
                ciphertext@.len(),
            ),
            outcome matches Ok(ciphertext) ==> is_sealing(self@, message@, ciphertext@),
    {
        let size = self.size();
        if size < PADDING_OVERHEAD || message.len() > size - PADDING_OVERHEAD {
            Err(EncryptError::PayloadTooLarge)
        } else {
            sealed(seal(self.der.as_slice(), message))
        }
    }
}

/// An RSA private key: a PKCS#1 DER document that the `rsa` crate accepts,
/// with two primes of like size.
#[derive(Debug)]
pub struct PrivateKey {
    der: Vec<u8>,
}

impl View for PrivateKey {
    type V = Seq<u8>;

    closed spec fn view(&self) -> Seq<u8> {
        self.der@
    }
}

impl Clone for PrivateKey {
    fn clone(&self) -> (copy: Self)
        ensures
            copy@ == self@,
    {
        proof {
            use_type_invariant(self);
        }
        let der = self.der.clone();
        assert(der@ =~= self.der@);
        PrivateKey { der }
    }
}

/// What a private key has for its public half.
pub open spec fn public_half_of(private_der: Seq<u8>) -> Result<Seq<u8>, KeyError> {
    match rsa_public_der(private_der) {
        Some(public_der) if pkcs1_modulus_bits(public_der) is Some => Ok(public_der),
        _ => Err(KeyError::GenerationFailed),
    }
}

/// What a ciphertext means under a private key.
pub open spec fn decrypted(private_der: Seq<u8>, ciphertext: Seq<u8>) -> Result<
    Seq<u8>,
    DecryptError,
> {
    match rsa_opened(private_der, ciphertext) {
        Some(plaintext) => Ok(plaintext),
        None => Err(DecryptError),
    }
}

/// What the generator's answer is as a private key: the document that came
/// back, where its primes are of like size.
pub open spec fn accepted_key(outcome: Result<Vec<u8>, rsa::Error>) -> Result<Seq<u8>, KeyError> {
    match outcome {
        Ok(der) if is_balanced(der@) => Ok(der@),
        _ => Err(KeyError::GenerationFailed),
    }
}

impl PrivateKey {
    /// The document is a private key with two primes of like size.
    #[verifier::type_invariant]
    pub closed spec fn well_formed(&self) -> bool {
        is_balanced(self.der@)
    }

    /// What `well_formed` says, over the view.
    pub proof fn lemma_well_formed(&self)
        requires
            self.well_formed(),
        ensures
            is_balanced(self@),
    {
    }

    /// Makes a fresh private key with a modulus of `bits` bits.
    pub fn generate(bits: usize) -> (outcome: Result<PrivateKey, KeyError>)
        ensures
            bits > MAX_KEY_BITS <==> outcome matches Err(KeyError::UnsupportedSize),
            outcome matches Ok(key) ==> has_size(key@, bits as nat),
    {
        if bits > MAX_KEY_BITS {
            Err(KeyError::UnsupportedSize)
        } else {
            generated(generate_private_der(bits))
        }
    }

    /// The public half of this key.
    pub fn public_key(&self) -> (outcome: Result<PublicKey, KeyError>)
        ensures
            outcome matches Ok(key) ==> public_half_of(self@) == Ok::<Seq<u8>, KeyError>(key@),
            outcome matches Err(error) ==> public_half_of(self@) == Err::<Seq<u8>, KeyError>(
                error,
            ),
    {
        match public_half(self.der.as_slice()) {
            Err(_) => Err(KeyError::GenerationFailed),
            Ok(bytes) => match PublicKey::from_der(bytes) {
                Ok(key) => Ok(key),
                Err(_) => Err(KeyError::GenerationFailed),
            },
        }
    }

    /// Opens a ciphertext that was encrypted to the public half of this key.
    pub fn decrypt(&self, ciphertext: &[u8]) -> (outcome: Result<Vec<u8>, DecryptError>)
        ensures
            outcome matches Ok(plaintext) ==> decrypted(self@, ciphertext@) == Ok::<
                Seq<u8>,
                DecryptError,
            >(plaintext@),
            outcome is Err ==> decrypted(self@, ciphertext@) is Err,
    {
        proof {
            use_type_invariant(self);
        }
        opened(open(self.der.as_slice(), ciphertext))
    }
}

/// What the generator's answer means to the caller of `generate`: the key
/// that came back, if its primes are of like size.
pub fn generated(outcome: Result<Vec<u8>, rsa::Error>) -> (result: Result<PrivateKey, KeyError>)
    ensures
        result matches Ok(key) ==> accepted_key(outcome) == Ok::<Seq<u8>, KeyError>(key@),
        result matches Err(error) ==> accepted_key(outcome) == Err::<Seq<u8>, KeyError>(error),
{
    match outcome {
        Ok(der) => match prime_bits(der.as_slice()) {
            Ok((first, second)) => {
                let near = if first <= second {
                    second - first <= 1
                } else {
                    first - second <= 1
                };
                if near {
                    Ok(PrivateKey { der })
                } else {
                    Err(KeyError::GenerationFailed)
                }
            },
            Err(_) => Err(KeyError::GenerationFailed),
        },
        Err(_) => Err(KeyError::GenerationFailed),
    }
}

/// What the cipher's answer means to the caller of `encrypt`.
pub fn sealed(outcome: Result<Vec<u8>, rsa::Error>) -> (result: Result<Vec<u8>, EncryptError>)
    ensures
        outcome matches Ok(ciphertext) ==> result == Ok::<Vec<u8>, EncryptError>(ciphertext),
        outcome is Err ==> result == Err::<Vec<u8>, EncryptError>(EncryptError::CipherFailure),
{
    match outcome {
        Ok(ciphertext) => Ok(ciphertext),
        Err(_) => Err(EncryptError::CipherFailure),
    }
}

/// What the cipher's answer means to the caller of `decrypt`.
pub fn opened(outcome: Result<Vec<u8>, rsa::Error>) -> (result: Result<Vec<u8>, DecryptError>)
    ensures
        outcome matches Ok(plaintext) ==> result == Ok::<Vec<u8>, DecryptError>(plaintext),
        outcome is Err ==> result == Err::<Vec<u8>, DecryptError>(DecryptError),
{
    match outcome {
        Ok(plaintext) => Ok(plaintext),
        Err(_) => Err(DecryptError),
    }
}

} // verus!
