//! Authenticated encryption of single values.
//!
//! [`EncryptedBytes`] is a nonce and a ciphertext: what ChaCha20-Poly1305
//! makes of a plaintext under a key. [`Encrypted<T>`] is the same for a value
//! of a type with a wire encoding: the value is encoded, then sealed.
//! Decryption fails closed. It returns the value that was sealed or an error,
//! never part of a plaintext.
use crate::key::Cipher;
use crate::wire::{copy_range, framed, parse_framed, put_framed, take_framed, Wire};
use crate::wire::lemma_framed_round_trip;
use chacha20poly1305::aead::{Aead, AeadCore, KeyInit, OsRng};
use chacha20poly1305::{ChaCha20Poly1305, Key, Nonce};
use std::marker::PhantomData;
use vstd::prelude::*;

verus! {

/// Number of bytes in a nonce.
pub const NONCE_LEN: usize = 12;

/// Number of bytes that sealing adds to a plaintext.
pub const TAG_LEN: usize = 16;

/// The ciphertext, tag included, that ChaCha20-Poly1305 makes of `plaintext`
/// under `key` and `nonce`, with no associated data.
pub uninterp spec fn sealed(key: Seq<u8>, nonce: Seq<u8>, plaintext: Seq<u8>) -> Seq<u8>;

/// The plaintext that ChaCha20-Poly1305 recovers from `ciphertext` under
/// `key` and `nonce`, with no associated data; `None` where it rejects the
/// ciphertext.
pub uninterp spec fn opened(key: Seq<u8>, nonce: Seq<u8>, ciphertext: Seq<u8>) -> Option<Seq<u8>>;

/// The longest plaintext that the cipher takes: 64 bytes for each of the
/// blocks that its 32-bit block counter has left once the first block has
/// gone into the authentication key and the last value is kept free.
pub const MAX_PLAINTEXT_LEN: u64 = 274_877_906_816;

/// The plaintext lengths that the cipher accepts on this machine: the
/// ciphertext must fit in memory, and the plaintext must not outrun the
/// cipher's keystream.
pub open spec fn sealable(len: nat) -> bool {
    len + TAG_LEN <= isize::MAX && len <= MAX_PLAINTEXT_LEN
}

/// The ciphertext lengths that the cipher can be asked to open: too short
/// to hold a tag, which it rejects, or a tag behind a plaintext that does
/// not outrun the keystream.
pub open spec fn openable(len: nat) -> bool {
    len < TAG_LEN || len - TAG_LEN <= MAX_PLAINTEXT_LEN
}

/// Why a value could not be encrypted.
#[derive(Debug, Clone, Copy, PartialEq, Eq, Structural)]
pub enum EncryptionError {
    /// The value's encoding is longer than a single message may be.
    Serialization,
    /// The cipher refused a plaintext of acceptable length.
    Aead,
}

/// Why a ciphertext did not yield a value. `Auth` says nothing of the cause:
/// a wrong key, a changed ciphertext and a wrong nonce look alike.
#[derive(Debug, Clone, Copy, PartialEq, Eq, Structural)]
pub enum DecryptionError {
    /// The cipher rejected the nonce and ciphertext under this key.
    Auth,
    /// The authentic plaintext is not an encoding of the expected type.
    Decode,
}

/// Seals with `Aead::encrypt` of `ChaCha20Poly1305` under a cipher made from
/// `key` by `KeyInit::new`. For a plaintext of sealable length the call
/// succeeds; its result is the named ciphertext, which is the plaintext's
/// length and a tag long, and it opens under the same key and nonce to the
/// plaintext. On a longer plaintext the call may panic.
#[verifier::external_body]
fn aead_seal(key: &[u8; 32], nonce: &[u8; 12], plaintext: &[u8]) -> (r: Option<Vec<u8>>)
    requires
        sealable(plaintext@.len()),
    ensures
        r is Some,
        r matches Some(c) ==> c@ == sealed(key@, nonce@, plaintext@),
        r matches Some(c) ==> c@.len() == plaintext@.len() + TAG_LEN,
        r matches Some(c) ==> opened(key@, nonce@, c@) == Some(plaintext@),
{
    ChaCha20Poly1305::new(Key::from_slice(key)).encrypt(Nonce::from_slice(nonce), plaintext).ok()
}

/// Opens with `Aead::decrypt` of `ChaCha20Poly1305` under a cipher made from
/// `key` by `KeyInit::new`. The result is the named plaintext, absent where
/// the cipher rejects. On an authentic ciphertext of a length that is not
/// openable the call may panic.
#[verifier::external_body]
fn aead_open(key: &[u8; 32], nonce: &[u8; 12], ciphertext: &[u8]) -> (r: Option<Vec<u8>>)
    requires
        openable(ciphertext@.len()),
    ensures
        r is Some <==> opened(key@, nonce@, ciphertext@) is Some,
        r matches Some(p) ==> opened(key@, nonce@, ciphertext@) == Some(p@),
{
    ChaCha20Poly1305::new(Key::from_slice(key)).decrypt(Nonce::from_slice(nonce), ciphertext).ok()
}

/// Draws a nonce with `AeadCore::generate_nonce` of `ChaCha20Poly1305` on the
/// operating system's random source. Nothing is claimed of the bytes drawn.
#[verifier::external_body]
fn os_random_nonce() -> (r: [u8; 12]) {
    ChaCha20Poly1305::generate_nonce(&mut OsRng).into()
}

/// A fresh nonce from the operating system's random source.
pub fn fresh_nonce() -> (r: [u8; 12]) {
    os_random_nonce()
}

/// Whether a plaintext of `len` bytes can be sealed on this machine.
pub fn can_seal(len: usize) -> (r: bool)
    ensures
        r == sealable(len as nat),
{
    len <= isize::MAX as usize - TAG_LEN && len as u64 <= MAX_PLAINTEXT_LEN
}

/// Whether the cipher can be asked to open a ciphertext of `len` bytes.
pub fn can_open(len: usize) -> (r: bool)
    ensures
        r == openable(len as nat),
{
    len < TAG_LEN || (len - TAG_LEN) as u64 <= MAX_PLAINTEXT_LEN
}

/// What a nonce and a ciphertext open to under `key`: a nonce of the wrong
/// length opens nothing, and neither does a ciphertext longer than the
/// cipher could have made.
pub open spec fn opens_to(nonce: Seq<u8>, cipher_bytes: Seq<u8>, key: Seq<u8>) -> Option<Seq<u8>> {
    if nonce.len() == NONCE_LEN && openable(cipher_bytes.len()) {
        opened(key, nonce, cipher_bytes)
    } else {
        None
    }
}

/// A sealed byte string: the nonce it was sealed with, and the ciphertext.
#[derive(Debug)]
pub struct EncryptedBytes {
    nonce: Vec<u8>,
    cipher_bytes: Vec<u8>,
}

impl EncryptedBytes {
    /// The nonce.
    pub closed spec fn spec_nonce(&self) -> Seq<u8> {
        self.nonce@
    }

    /// The ciphertext, tag included.
    pub closed spec fn spec_cipher_bytes(&self) -> Seq<u8> {
        self.cipher_bytes@
    }

    /// The plaintext this opens to under the cipher's key, if any.
    pub open spec fn plaintext_under(&self, key: Seq<u8>) -> Option<Seq<u8>> {
        opens_to(self.spec_nonce(), self.spec_cipher_bytes(), key)
    }

    /// Puts a nonce and a ciphertext together as they came off the wire.
    pub fn from_parts(nonce: Vec<u8>, cipher_bytes: Vec<u8>) -> (r: EncryptedBytes)
        ensures
            r.spec_nonce() == nonce@,
            r.spec_cipher_bytes() == cipher_bytes@,
    {
        EncryptedBytes { nonce, cipher_bytes }
    }

    /// The nonce.
    pub fn nonce(&self) -> (r: &Vec<u8>)
        ensures
            r@ == self.spec_nonce(),
    {
        &self.nonce
    }

    /// The ciphertext, tag included.
    pub fn cipher_bytes(&self) -> (r: &Vec<u8>)
        ensures
            r@ == self.spec_cipher_bytes(),
    {
        &self.cipher_bytes
    }

    /// Seals `plain_bytes` under the cipher's key with the given nonce.
    ///
    /// Succeeds exactly on plaintexts of sealable length. The result carries
    /// the nonce, is the cipher's ciphertext for it, and opens under the same
    /// key to `plain_bytes`.
    pub fn encrypt_with_nonce(plain_bytes: &[u8], cipher: &Cipher, nonce: [u8; 12]) -> (r: Result<
        EncryptedBytes,
        EncryptionError,
    >)
        ensures
            r is Ok <==> sealable(plain_bytes@.len()),
            r matches Err(e) ==> e == EncryptionError::Serialization,
            r matches Ok(e) ==> {
                &&& e.spec_nonce() == nonce@
                &&& e.spec_cipher_bytes() == sealed(cipher.key(), nonce@, plain_bytes@)
                &&& e.plaintext_under(cipher.key()) == Some(plain_bytes@)
            },
    {
        if !can_seal(plain_bytes.len()) {
            return Err(EncryptionError::Serialization);
        }
        match aead_seal(cipher.key_bytes(), &nonce, plain_bytes) {
            Some(cipher_bytes) => {
                let mut kept: Vec<u8> = Vec::new();
                crate::wire::put_bytes(&mut kept, nonce.as_slice());
                assert(kept@ =~= nonce@);
                Ok(EncryptedBytes { nonce: kept, cipher_bytes })
            },
            None => Err(EncryptionError::Aead),
        }
    }

    /// Seals `plain_bytes` under the cipher's key with a fresh random nonce.
    ///
    /// Succeeds exactly on plaintexts of sealable length. Whatever nonce was
    /// drawn, the result carries it, is the cipher's ciphertext for it, and
    /// opens under the same key to `plain_bytes`.
    pub fn encrypt(plain_bytes: &[u8], cipher: &Cipher) -> (r: Result<EncryptedBytes, EncryptionError>)
        ensures
            r is Ok <==> sealable(plain_bytes@.len()),
            r matches Err(e) ==> e == EncryptionError::Serialization,
            r matches Ok(e) ==> {
                &&& e.spec_nonce().len() == NONCE_LEN
                &&& e.spec_cipher_bytes() == sealed(cipher.key(), e.spec_nonce(), plain_bytes@)
                &&& e.plaintext_under(cipher.key()) == Some(plain_bytes@)
            },
    {
        EncryptedBytes::encrypt_with_nonce(plain_bytes, cipher, os_random_nonce())
    }

    /// Opens under the cipher's key.
    ///
    /// Returns the plaintext where the cipher accepts nonce and ciphertext,
    /// and [`DecryptionError::Auth`] in every other case: a nonce of the wrong
    /// length and a ciphertext longer than the cipher could have made are
    /// not handed to the cipher at all.
    pub fn decrypt(self, cipher: &Cipher) -> (r: Result<Vec<u8>, DecryptionError>)
        ensures
            match self.plaintext_under(cipher.key()) {
                Some(p) => r matches Ok(v) && v@ == p,
                None => r == Err::<Vec<u8>, DecryptionError>(DecryptionError::Auth),
            },
    {
        if self.nonce.len() != NONCE_LEN || !can_open(self.cipher_bytes.len()) {
            return Err(DecryptionError::Auth);
        }
        let mut nonce: [u8; 12] = [0u8; 12];
        let mut i: usize = 0;
        while i < NONCE_LEN
            invariant
                i <= NONCE_LEN,
                self.nonce@.len() == NONCE_LEN,
                forall|j: int| 0 <= j < i ==> nonce@[j] == self.nonce@[j],
            decreases NONCE_LEN - i,
        {
            nonce[i] = self.nonce[i];
            i += 1;
        }
        assert(nonce@ =~= self.nonce@);
        match aead_open(cipher.key_bytes(), &nonce, self.cipher_bytes.as_slice()) {
            Some(p) => Ok(p),
            None => Err(DecryptionError::Auth),
        }
    }
}

impl View for EncryptedBytes {
    type V = (Seq<u8>, Seq<u8>);

    open spec fn view(&self) -> (Seq<u8>, Seq<u8>) {
        (self.spec_nonce(), self.spec_cipher_bytes())
    }
}

impl Clone for EncryptedBytes {
    fn clone(&self) -> (r: Self)
        ensures
            r@ == self@,
    {
        EncryptedBytes { nonce: self.nonce.clone(), cipher_bytes: self.cipher_bytes.clone() }
    }
}

impl Wire for EncryptedBytes {
    open spec fn encodable(v: (Seq<u8>, Seq<u8>)) -> bool {
        v.0.len() <= u64::MAX && v.1.len() <= u64::MAX
    }

    open spec fn wire_of(v: (Seq<u8>, Seq<u8>)) -> Seq<u8> {
        framed(v.0) + framed(v.1)
    }

    open spec fn parse(bytes: Seq<u8>) -> Option<((Seq<u8>, Seq<u8>), nat)> {
        match parse_framed(bytes) {
            Some((nonce, n)) => match parse_framed(bytes.skip(n as int)) {
                Some((cipher_bytes, m)) => Some(((nonce, cipher_bytes), n + m)),
                None => None,
            },
            None => None,
        }
    }

    proof fn lemma_round_trip(v: (Seq<u8>, Seq<u8>), rest: Seq<u8>) {
        let all = Self::wire_of(v) + rest;
        assert(all =~= framed(v.0) + (framed(v.1) + rest));
        lemma_framed_round_trip(v.0, framed(v.1) + rest);
        assert(all.skip(framed(v.0).len() as int) =~= framed(v.1) + rest);
        lemma_framed_round_trip(v.1, rest);
    }

    proof fn lemma_parse_bound(bytes: Seq<u8>) {
    }

    fn encode(&self) -> (r: Vec<u8>) {
        let mut out: Vec<u8> = Vec::new();
        let nonce_len = self.nonce.len();
        let cipher_len = self.cipher_bytes.len();
        assert(self.nonce@.len() == nonce_len && self.cipher_bytes@.len() == cipher_len);
        put_framed(&mut out, self.nonce.as_slice());
        put_framed(&mut out, self.cipher_bytes.as_slice());
        assert(out@ =~= framed(self.nonce@) + framed(self.cipher_bytes@));
        out
    }

    fn decode(bytes: &[u8]) -> (r: Option<Self>) {
        assert(bytes@.skip(0) =~= bytes@);
        let (s1, e1) = match take_framed(bytes, 0) {
            None => { return None; },
            Some(range) => range,
        };
        let (s2, e2) = match take_framed(bytes, e1) {
            None => { return None; },
            Some(range) => range,
        };
        Some(
            EncryptedBytes {
                nonce: copy_range(bytes, s1, e1),
                cipher_bytes: copy_range(bytes, s2, e2),
            },
        )
    }
}

/// A sealed value of type `T`: the nonce it was sealed with, and the
/// ciphertext of its encoding.
#[derive(Debug)]
pub struct Encrypted<T> {
    inner: EncryptedBytes,
    phantom_data: PhantomData<T>,
}

/// What a sealed value yields under `key` when read as a `T`.
pub open spec fn decrypts_to<T: Wire>(sealed_value: (Seq<u8>, Seq<u8>), key: Seq<u8>) -> Result<
    T::V,
    DecryptionError,
> {
    match opens_to(sealed_value.0, sealed_value.1, key) {
        None => Err(DecryptionError::Auth),
        Some(p) => match T::parse(p) {
            None => Err(DecryptionError::Decode),
            Some((v, _)) => Ok(v),
        },
    }
}

impl<T> View for Encrypted<T> {
    type V = (Seq<u8>, Seq<u8>);

    closed spec fn view(&self) -> (Seq<u8>, Seq<u8>) {
        self.inner@
    }
}

impl<T> Clone for Encrypted<T> {
    fn clone(&self) -> (r: Self)
        ensures
            r@ == self@,
    {
        Encrypted { inner: self.inner.clone(), phantom_data: PhantomData }
    }
}

impl<T: Wire> Encrypted<T> {
    /// Reads a sealed byte string as a sealed `T`.
    pub fn from_bytes(inner: EncryptedBytes) -> (r: Self)
        ensures
            r@ == inner@,
    {
        Encrypted { inner, phantom_data: PhantomData }
    }

    /// The sealed byte string underneath.
    pub fn into_bytes(self) -> (r: EncryptedBytes)
        ensures
            r@ == self@,
    {
        self.inner
    }

    /// The nonce.
    pub fn nonce(&self) -> (r: &Vec<u8>)
        ensures
            r@ == self@.0,
    {
        self.inner.nonce()
    }

    /// The ciphertext, tag included.
    pub fn cipher_bytes(&self) -> (r: &Vec<u8>)
        ensures
            r@ == self@.1,
    {
        self.inner.cipher_bytes()
    }

    /// Encodes `value` and seals the encoding with the given nonce.
    ///
    /// Succeeds exactly where the encoding has a sealable length. The result
    /// carries the nonce and the cipher's ciphertext of the encoding, and
    /// decrypts under the same key to `value`.
    pub fn encrypt_with_nonce(value: &T, cipher: &Cipher, nonce: [u8; 12]) -> (r: Result<
        Self,
        EncryptionError,
    >)
        ensures
            r is Ok <==> sealable(T::wire_of(value@).len()),
            r matches Err(e) ==> e == EncryptionError::Serialization,
            r matches Ok(e) ==> {
                &&& e@ == (nonce@, sealed(cipher.key(), nonce@, T::wire_of(value@)))
                &&& decrypts_to::<T>(e@, cipher.key()) == Ok::<T::V, DecryptionError>(value@)
            },
    {
        let value_bytes = value.encode();
        match EncryptedBytes::encrypt_with_nonce(value_bytes.as_slice(), cipher, nonce) {
            Ok(inner) => {
                proof {
                    T::lemma_round_trip(value@, Seq::empty());
                    assert(T::wire_of(value@) + Seq::<u8>::empty() =~= T::wire_of(value@));
                }
                Ok(Encrypted { inner, phantom_data: PhantomData })
            },
            Err(e) => Err(e),
        }
    }

    /// Encodes `value` and seals the encoding with a fresh random nonce.
    ///
    /// Succeeds exactly where the encoding has a sealable length. Whatever
    /// nonce was drawn, the result carries it with the cipher's ciphertext of
    /// the encoding, and decrypts under the same key to `value`.
    pub fn encrypt(value: &T, cipher: &Cipher) -> (r: Result<Self, EncryptionError>)
        ensures
            r is Ok <==> sealable(T::wire_of(value@).len()),
            r matches Err(e) ==> e == EncryptionError::Serialization,
            r matches Ok(e) ==> {
                &&& e@.0.len() == NONCE_LEN
                &&& e@.1 == sealed(cipher.key(), e@.0, T::wire_of(value@))
                &&& decrypts_to::<T>(e@, cipher.key()) == Ok::<T::V, DecryptionError>(value@)
            },
    {
        Self::encrypt_with_nonce(value, cipher, os_random_nonce())
    }

    /// Opens under the cipher's key and decodes the plaintext.
    ///
    /// [`DecryptionError::Auth`] where the cipher rejects nonce and
    /// ciphertext; [`DecryptionError::Decode`] where it accepts them and the
    /// plaintext does not start with an encoding of a `T`; else the value.
    pub fn decrypt(self, cipher: &Cipher) -> (r: Result<T, DecryptionError>)
        ensures
            match decrypts_to::<T>(self@, cipher.key()) {
                Ok(v) => r matches Ok(t) && t@ == v,
                Err(e) => r matches Err(f) && f == e,
            },
    {
        match self.inner.decrypt(cipher) {
            Err(e) => Err(e),
            Ok(value_bytes) => match T::decode(value_bytes.as_slice()) {
                Some(value) => Ok(value),
                None => Err(DecryptionError::Decode),
            },
        }
    }
}

impl<T> Wire for Encrypted<T> {
    open spec fn encodable(v: (Seq<u8>, Seq<u8>)) -> bool {
        EncryptedBytes::encodable(v)
    }

    open spec fn wire_of(v: (Seq<u8>, Seq<u8>)) -> Seq<u8> {
        EncryptedBytes::wire_of(v)
    }

    open spec fn parse(bytes: Seq<u8>) -> Option<((Seq<u8>, Seq<u8>), nat)> {
        EncryptedBytes::parse(bytes)
    }

    proof fn lemma_round_trip(v: (Seq<u8>, Seq<u8>), rest: Seq<u8>) {
        EncryptedBytes::lemma_round_trip(v, rest);
    }

    proof fn lemma_parse_bound(bytes: Seq<u8>) {
    }

    fn encode(&self) -> (r: Vec<u8>) {
        self.inner.encode()
    }

    fn decode(bytes: &[u8]) -> (r: Option<Self>) {
        match EncryptedBytes::decode(bytes) {
            Some(inner) => Some(Encrypted { inner, phantom_data: PhantomData }),
            None => None,
        }
    }
}

} // verus!
