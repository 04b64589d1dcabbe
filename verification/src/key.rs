//! Symmetric keys.
//!
//! A [`CipherKey`] is 32 bytes. The same representation serves two roles: a
//! session identifier (a bearer token) and the key under which a room's
//! messages are sealed. [`Cipher`] is the second role made explicit.
use chacha20poly1305::aead::{KeyInit, OsRng};
use vstd::prelude::*;

verus! {

/// Number of bytes in a key.
pub const KEY_LEN: usize = 32;

/// A 256-bit symmetric key.
#[derive(Debug)]
pub struct CipherKey {
    bytes: [u8; 32],
}

impl View for CipherKey {
    type V = Seq<u8>;

    closed spec fn view(&self) -> Seq<u8> {
        self.bytes@
    }
}

/// The cipher state that a key stands for: everything the authenticated
/// cipher needs besides the per-message nonce.
#[derive(Debug)]
pub struct Cipher {
    key: CipherKey,
}

impl Cipher {
    /// The key this cipher seals and opens with.
    pub closed spec fn key(&self) -> Seq<u8> {
        self.key@
    }

    /// Every cipher holds a full-length key.
    pub proof fn lemma_key_len(&self)
        ensures
            self.key().len() == KEY_LEN,
    {
        self.key.lemma_len();
    }

    /// The key bytes, for handing to the cipher.
    pub fn key_bytes(&self) -> (r: &[u8; 32])
        ensures
            r@ == self.key(),
    {
        &self.key.bytes
    }
}

/// Draws 32 bytes with `ChaCha20Poly1305::generate_key` on the operating
/// system's random source. Nothing is claimed of the bytes drawn.
#[verifier::external_body]
fn os_random_key() -> (r: [u8; 32]) {
    chacha20poly1305::ChaCha20Poly1305::generate_key(&mut OsRng).into()
}

impl CipherKey {
    /// Every key is exactly [`KEY_LEN`] bytes long.
    pub proof fn lemma_len(&self)
        ensures
            self@.len() == KEY_LEN,
    {
    }

    /// Two keys with the same bytes are the same key.
    pub proof fn lemma_ext_equal(&self, other: &CipherKey)
        requires
            self@ == other@,
        ensures
            *self == *other,
    {
        vstd::array::axiom_array_ext_equal(self.bytes, other.bytes);
    }

    /// A fresh key from the operating system's random source.
    pub fn generate() -> (r: CipherKey) {
        CipherKey { bytes: os_random_key() }
    }

    /// The cipher that seals and opens under this key.
    pub fn as_cipher(&self) -> (r: Cipher)
        ensures
            r.key() == self@,
    {
        Cipher { key: self.clone() }
    }

    /// The key made of the given bytes.
    pub fn from_bytes(bytes: [u8; 32]) -> (r: CipherKey)
        ensures
            r@ == bytes@,
    {
        CipherKey { bytes }
    }

    /// The key made of the given bytes, when there are exactly [`KEY_LEN`].
    pub fn from_slice(bytes: &[u8]) -> (r: Option<CipherKey>)
        ensures
            r is Some <==> bytes@.len() == KEY_LEN,
            r matches Some(k) ==> k@ == bytes@,
    {
        if bytes.len() != KEY_LEN {
            return None;
        }
        let mut out: [u8; 32] = [0u8; 32];
        let mut i: usize = 0;
        while i < KEY_LEN
            invariant
                i <= KEY_LEN,
                bytes@.len() == KEY_LEN,
                forall|j: int| 0 <= j < i ==> out@[j] == bytes@[j],
            decreases KEY_LEN - i,
        {
            out[i] = bytes[i];
            i += 1;
        }
        assert(out@ =~= bytes@);
        Some(CipherKey { bytes: out })
    }

    /// The bytes of the key.
    pub fn as_bytes(&self) -> (r: &[u8; 32])
        ensures
            r@ == self@,
    {
        &self.bytes
    }

    /// The bytes of the key, copied out.
    pub fn to_vec(&self) -> (r: Vec<u8>)
        ensures
            r@ == self@,
    {
        let mut out: Vec<u8> = Vec::new();
        let mut i: usize = 0;
        while i < KEY_LEN
            invariant
                i <= KEY_LEN,
                out@ == self.bytes@.subrange(0, i as int),
            decreases KEY_LEN - i,
        {
            out.push(self.bytes[i]);
            assert(self.bytes@.subrange(0, i as int).push(self.bytes@[i as int])
                =~= self.bytes@.subrange(0, i + 1));
            i += 1;
        }
        assert(self.bytes@.subrange(0, KEY_LEN as int) =~= self.bytes@);
        out
    }

    /// The key as it is shown in messages: the type's name around the list
    /// of its bytes.
    pub open spec fn debug_text(bytes: Seq<u8>) -> Seq<char> {
        "CipherKey(["@ + crate::text::byte_list_text(bytes) + "])"@
    }

    /// The key as it is shown in messages.
    pub fn to_debug_string(&self) -> (r: String)
        ensures
            r@ == Self::debug_text(self@),
    {
        let list = crate::text::byte_list(self.bytes.as_slice());
        crate::text::between("CipherKey([", list.as_str(), "])")
    }

    /// Whether two keys hold the same bytes.
    pub fn same_as(&self, other: &CipherKey) -> (r: bool)
        ensures
            r == (self@ == other@),
            r == (*self == *other),
    {
        let mut i: usize = 0;
        while i < KEY_LEN
            invariant
                i <= KEY_LEN,
                forall|j: int| 0 <= j < i ==> self.bytes@[j] == other.bytes@[j],
            decreases KEY_LEN - i,
        {
            if self.bytes[i] != other.bytes[i] {
                return false;
            }
            i += 1;
        }
        assert(self.bytes@ =~= other.bytes@);
        proof {
            self.lemma_ext_equal(other);
        }
        true
    }
}

impl PartialEq for CipherKey {
    fn eq(&self, other: &Self) -> (r: bool) {
        self.same_as(other)
    }
}

impl vstd::std_specs::cmp::PartialEqSpecImpl for CipherKey {
    open spec fn obeys_eq_spec() -> bool {
        true
    }

    open spec fn eq_spec(&self, other: &Self) -> bool {
        self@ == other@
    }
}

impl Eq for CipherKey {

}

impl Clone for CipherKey {
    fn clone(&self) -> (r: Self)
        ensures
            r == *self,
    {
        CipherKey { bytes: self.bytes }
    }
}

impl Clone for Cipher {
    fn clone(&self) -> (r: Self)
        ensures
            r == *self,
    {
        Cipher { key: self.key.clone() }
    }
}

} // verus!
