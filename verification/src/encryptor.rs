//! One peer's keys: its own pair and what it knows of its counterpart.

use vstd::prelude::*;
use crate::keys::{
    decoded_key, decrypted, is_sealing, payload_refused, pkcs1_modulus_bits, pkcs1_modulus_len,
    public_half_of, DecryptError, EncryptError, KeyError, PrivateKey, PublicKey, MAX_KEY_BITS,
};
use crate::message::DecodeError;
use crate::protocol::ENCRYPTION_BITS;

verus! {

/// The keys of a peer, each as its PKCS#1 DER document.
pub struct KeyRing {
    /// This peer's private key.
    pub private_der: Seq<u8>,
    /// This peer's public key.
    pub public_der: Seq<u8>,
    /// The counterpart's public key, once one was shared.
    pub peer_der: Option<Seq<u8>>,
}

/// Encrypts messages and generates keys.
#[derive(Debug)]
pub struct MessageEncryptor {
    /// Our own private key.
    privkey: PrivateKey,
    /// Our own public key.
    self_pubkey: PublicKey,
    /// Our peer's public key.
    peer_pubkey: Option<PublicKey>,
}

impl View for MessageEncryptor {
    type V = KeyRing;

    closed spec fn view(&self) -> KeyRing {
        KeyRing {
            private_der: self.privkey@,
            public_der: self.self_pubkey@,
            peer_der: match self.peer_pubkey {
                Some(key) => Some(key@),
                None => None,
            },
        }
    }
}

impl Clone for MessageEncryptor {
    fn clone(&self) -> (copy: Self)
        ensures
            copy@ == self@,
    {
        proof {
            use_type_invariant(self);
        }
        let peer_pubkey = match &self.peer_pubkey {
            Some(key) => Some(key.clone()),
            None => None,
        };
        MessageEncryptor {
            privkey: self.privkey.clone(),
            self_pubkey: self.self_pubkey.clone(),
            peer_pubkey,
        }
    }
}

/// The two keys of a ring are one pair.
pub open spec fn is_pair(ring: KeyRing) -> bool {
    public_half_of(ring.private_der) == Ok::<Seq<u8>, KeyError>(ring.public_der)
}

/// The two keys of a ring are one pair with a modulus of exactly `bits` bits.
pub open spec fn is_fresh(ring: KeyRing, bits: nat) -> bool {
    is_pair(ring) && pkcs1_modulus_bits(ring.public_der) == Some(bits)
}

/// Whether `ciphertext` is what encrypting `message` to the counterpart of
/// `ring` can give: a ciphertext for the peer key and this message, as long
/// as the peer's modulus.
pub open spec fn is_for_peer(ring: KeyRing, message: Seq<u8>, ciphertext: Seq<u8>) -> bool {
    match ring.peer_der {
        Some(peer) => is_sealing(peer, message, ciphertext) && pkcs1_modulus_len(peer) == Some(
            ciphertext.len(),
        ),
        None => false,
    }
}

/// What encrypting a payload of `payload_len` bytes to the counterpart is
/// refused with, if it is refused.
pub open spec fn refusal(ring: KeyRing, payload_len: nat) -> Option<EncryptError> {
    match ring.peer_der {
        None => Some(EncryptError::NoPeerKey),
        Some(peer) => if payload_refused(peer, payload_len) {
            Some(EncryptError::PayloadTooLarge)
        } else {
            None
        },
    }
}

/// While no peer key is known, every payload is refused with `NoPeerKey`.
pub proof fn lemma_no_peer_key_refuses(ring: KeyRing, payload_len: nat)
    requires
        ring.peer_der is None,
    ensures
        refusal(ring, payload_len) == Some(EncryptError::NoPeerKey),
{
}

/// Once a peer key is known, no payload is refused with `NoPeerKey`.
pub proof fn lemma_peer_key_lifts_refusal(ring: KeyRing, payload_len: nat)
    requires
        ring.peer_der is Some,
    ensures
        refusal(ring, payload_len) != Some(EncryptError::NoPeerKey),
{
}

impl MessageEncryptor {
    /// The public key is the public half of the private key.
    #[verifier::type_invariant]
    pub closed spec fn well_formed(&self) -> bool {
        is_pair(self@)
    }

    /// What `well_formed` says, over the view.
    pub proof fn lemma_well_formed(&self)
        requires
            self.well_formed(),
        ensures
            is_pair(self@),
    {
    }

    /// Creates an encryptor around `privkey`, with its public half and no
    /// peer key. Fails where the key has no public half.
    pub fn from_private_key(privkey: PrivateKey) -> (outcome: Result<MessageEncryptor, KeyError>)
        ensures
            public_half_of(privkey@) matches Ok(public_der) ==> outcome is Ok && outcome->Ok_0@
                == (KeyRing { private_der: privkey@, public_der: public_der, peer_der: None }),
            public_half_of(privkey@) matches Err(error) ==> outcome is Err && outcome->Err_0
                == error,
    {
        match privkey.public_key() {
            Ok(self_pubkey) => Ok(MessageEncryptor { privkey, self_pubkey, peer_pubkey: None }),
            Err(error) => Err(error),
        }
    }

    /// Puts `privkey` and its public half in place of the old pair. The peer
    /// key stays. Where the key has no public half, nothing changes.
    ///
    /// A key can be generated while others use the encryptor, and be put in
    /// place by this call once it is there.
    pub fn install_keypair(&mut self, privkey: PrivateKey) -> (outcome: Result<(), KeyError>)
        ensures
            public_half_of(privkey@) matches Ok(public_der) ==> outcome is Ok && final(self)@ == (
                KeyRing { private_der: privkey@, public_der: public_der, ..old(self)@ }),
            public_half_of(privkey@) matches Err(error) ==> outcome == Err::<(), KeyError>(error)
                && final(self)@ == old(self)@,
    {
        match privkey.public_key() {
            Ok(self_pubkey) => {
                let peer_pubkey = match &self.peer_pubkey {
                    Some(key) => Some(key.clone()),
                    None => None,
                };
                *self = MessageEncryptor { privkey, self_pubkey, peer_pubkey };
                Ok(())
            },
            Err(error) => Err(error),
        }
    }

    /// Creates an encryptor with a fresh key pair of `bit_strength` bits and
    /// no peer key.
    pub fn with_key_size(bit_strength: usize) -> (outcome: Result<MessageEncryptor, KeyError>)
        ensures
            bit_strength > MAX_KEY_BITS <==> outcome matches Err(KeyError::UnsupportedSize),
            outcome matches Ok(encryptor) ==> is_fresh(encryptor@, bit_strength as nat)
                && encryptor@.peer_der is None,
    {
        match PrivateKey::generate(bit_strength) {
            Ok(privkey) => Self::from_private_key(privkey),
            Err(error) => Err(error),
        }
    }

    /// Creates an encryptor with a fresh key pair of the default size and no
    /// peer key.
    pub fn new_generated() -> (outcome: Result<MessageEncryptor, KeyError>)
        ensures
            outcome matches Ok(encryptor) ==> is_fresh(encryptor@, ENCRYPTION_BITS as nat)
                && encryptor@.peer_der is None,
            outcome matches Err(error) ==> error == KeyError::GenerationFailed,
    {
        Self::with_key_size(ENCRYPTION_BITS)
    }

    /// Generates a new key pair of `bit_strength` bits and puts it in place of
    /// the old one. The peer key stays. Where no pair is made, nothing
    /// changes.
    pub fn generate_keypair(&mut self, bit_strength: usize) -> (outcome: Result<(), KeyError>)
        ensures
            bit_strength > MAX_KEY_BITS <==> outcome matches Err(KeyError::UnsupportedSize),
            outcome is Err ==> final(self)@ == old(self)@,
            outcome is Ok ==> is_fresh(final(self)@, bit_strength as nat),
            outcome is Ok ==> final(self)@.peer_der == old(self)@.peer_der,
    {
        match PrivateKey::generate(bit_strength) {
            Ok(privkey) => self.install_keypair(privkey),
            Err(error) => Err(error),
        }
    }

    /// This peer's public key, to share with the counterpart.
    pub fn self_pubkey(&self) -> (key: &PublicKey)
        ensures
            key@ == self@.public_der,
            is_pair(self@),
    {
        proof {
            use_type_invariant(self);
        }
        &self.self_pubkey
    }

    /// The counterpart's public key, if one is known.
    pub fn peer_pubkey(&self) -> (key: Option<&PublicKey>)
        ensures
            key is Some <==> self@.peer_der is Some,
            key matches Some(peer) ==> self@.peer_der == Some(peer@),
    {
        self.peer_pubkey.as_ref()
    }

    /// Takes `key` for the counterpart's public key, in place of any earlier
    /// one.
    pub fn set_peer_key(&mut self, key: PublicKey)
        ensures
            final(self)@ == (KeyRing { peer_der: Some(key@), ..old(self)@ }),
    {
        proof {
            use_type_invariant(&*self);
        }
        self.peer_pubkey = Some(key);
    }

    /// Encodes a public key for the wire.
    /// Inverse of `decode_pubkey`.
    pub fn encode_pubkey(key: PublicKey) -> (bytes: Vec<u8>)
        ensures
            bytes@ == key@,
            decoded_key(bytes@) == Ok::<Seq<u8>, DecodeError>(key@),
    {
        key.to_der()
    }

    /// Decodes a public key from the wire.
    /// Inverse of `encode_pubkey`.
    pub fn decode_pubkey(key: Vec<u8>) -> (outcome: Result<PublicKey, DecodeError>)
        ensures
            outcome matches Ok(decoded) ==> decoded_key(key@) == Ok::<Seq<u8>, DecodeError>(
                decoded@,
            ),
            outcome matches Err(error) ==> decoded_key(key@) == Err::<Seq<u8>, DecodeError>(
                error,
            ),
    {
        PublicKey::from_der(key)
    }

    /// Encrypts a message for the peer, under the peer's public key.
    pub fn encrypt_message_for_peer(&self, message: Vec<u8>) -> (outcome: Result<
        Vec<u8>,
        EncryptError,
    >)
        ensures
            refusal(self@, message@.len()) matches Some(error) ==> outcome == Err::<
                Vec<u8>,
                EncryptError,
            >(error),
            refusal(self@, message@.len()) is None ==> outcome is Ok,
            outcome matches Ok(ciphertext) ==> is_for_peer(self@, message@, ciphertext@),
    {
        match &self.peer_pubkey {
            None => Err(EncryptError::NoPeerKey),
            Some(peer) => peer.encrypt(message.as_slice()),
        }
    }

    /// Decrypts a message from the peer, under our private key.
    pub fn decrypt_message_from_peer(&self, message: Vec<u8>) -> (outcome: Result<
        Vec<u8>,
        DecryptError,
    >)
        ensures
            outcome matches Ok(plaintext) ==> decrypted(self@.private_der, message@) == Ok::<
                Seq<u8>,
                DecryptError,
            >(plaintext@),
            outcome is Err ==> decrypted(self@.private_der, message@) is Err,
    {
        self.privkey.decrypt(message.as_slice())
    }
}

} // verus!
