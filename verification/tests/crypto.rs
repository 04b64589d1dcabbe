use atris::encrypted::{DecryptionError, Encrypted, EncryptedBytes, NONCE_LEN, TAG_LEN};
use atris::key::CipherKey;
use atris::room_data::RoomData;
use atris::wire::Wire;

#[test]
fn round_trip_of_a_string() {
    let key = CipherKey::generate();
    let cipher = key.as_cipher();
    let value = String::from("hello");
    let sealed = Encrypted::<String>::encrypt(&value, &cipher).unwrap();
    assert_eq!(sealed.nonce().len(), NONCE_LEN);
    let opened = sealed.decrypt(&cipher).unwrap();
    assert_eq!(opened, "hello");
}

#[test]
fn round_trip_of_room_data() {
    let session = CipherKey::generate();
    let room_key = CipherKey::generate();
    let data = RoomData { responder_string: String::from("A-ANSWER"), symmetric_key: room_key.clone() };
    let sealed = Encrypted::<RoomData>::encrypt(&data, &session.as_cipher()).unwrap();
    let opened = sealed.decrypt(&session.as_cipher()).unwrap();
    assert_eq!(opened.responder_string, "A-ANSWER");
    assert_eq!(opened.symmetric_key.as_bytes(), room_key.as_bytes());
}

#[test]
fn a_different_key_fails_authentication() {
    let key = CipherKey::from_bytes([7u8; 32]);
    let other = CipherKey::from_bytes([8u8; 32]);
    let sealed = Encrypted::<String>::encrypt(&String::from("secret"), &key.as_cipher()).unwrap();
    assert_eq!(sealed.decrypt(&other.as_cipher()).err(), Some(DecryptionError::Auth));
}

#[test]
fn a_flipped_ciphertext_byte_fails_authentication() {
    let key = CipherKey::from_bytes([7u8; 32]);
    let sealed = Encrypted::<String>::encrypt(&String::from("secret"), &key.as_cipher()).unwrap();
    let nonce = sealed.nonce().clone();
    let untouched = sealed.cipher_bytes().clone();
    for i in 0..untouched.len() {
        let mut bytes = untouched.clone();
        bytes[i] ^= 1;
        let tampered = Encrypted::<String>::from_bytes(EncryptedBytes::from_parts(nonce.clone(), bytes));
        assert_eq!(tampered.decrypt(&key.as_cipher()).err(), Some(DecryptionError::Auth));
    }
}

#[test]
fn a_nonce_of_the_wrong_length_fails_authentication() {
    let key = CipherKey::from_bytes([7u8; 32]);
    let sealed = EncryptedBytes::encrypt(b"abc", &key.as_cipher()).unwrap();
    let short = EncryptedBytes::from_parts(sealed.nonce()[..11].to_vec(), sealed.cipher_bytes().clone());
    assert_eq!(short.decrypt(&key.as_cipher()).err(), Some(DecryptionError::Auth));
    let empty = EncryptedBytes::from_parts(Vec::new(), sealed.cipher_bytes().clone());
    assert_eq!(empty.decrypt(&key.as_cipher()).err(), Some(DecryptionError::Auth));
}

#[test]
fn two_encryptions_differ_in_nonce_and_ciphertext() {
    let key = CipherKey::generate();
    let value = String::from("same value");
    let a = Encrypted::<String>::encrypt(&value, &key.as_cipher()).unwrap();
    let b = Encrypted::<String>::encrypt(&value, &key.as_cipher()).unwrap();
    assert_ne!(a.nonce(), b.nonce());
    assert_ne!(a.cipher_bytes(), b.cipher_bytes());
}

#[test]
fn sealing_matches_rfc_8439_test_vector() {
    // RFC 8439, section 2.8.2, with no associated data the tag differs from
    // the RFC's, so only the ciphertext body is compared with the RFC.
    let key_bytes: Vec<u8> = (0x80u8..=0x9f).collect();
    let key = CipherKey::from_slice(&key_bytes).unwrap();
    let nonce: [u8; 12] = [0x07, 0, 0, 0, 0x40, 0x41, 0x42, 0x43, 0x44, 0x45, 0x46, 0x47];
    let plain = b"Ladies and Gentlemen of the class of '99: If I could offer you only one tip for the future, sunscreen would be it.";
    let sealed = EncryptedBytes::encrypt_with_nonce(plain, &key.as_cipher(), nonce).unwrap();
    assert_eq!(sealed.nonce().as_slice(), &nonce);
    let body = sealed.cipher_bytes();
    assert_eq!(body.len(), plain.len() + TAG_LEN);
    assert_eq!(&body[..8], &[0xd3, 0x1a, 0x8d, 0x34, 0x64, 0x8e, 0x60, 0xdb]);
    assert_eq!(sealed.decrypt(&key.as_cipher()).unwrap(), plain.to_vec());
}

#[test]
fn plaintext_that_is_no_encoding_fails_to_decode() {
    let key = CipherKey::from_bytes([1u8; 32]);
    let sealed = EncryptedBytes::encrypt(&[1, 2, 3], &key.as_cipher()).unwrap();
    let typed = Encrypted::<String>::from_bytes(sealed);
    assert_eq!(typed.decrypt(&key.as_cipher()).err(), Some(DecryptionError::Decode));
}

#[test]
fn string_layout_is_length_then_utf8() {
    let bytes = String::from("hé").encode();
    assert_eq!(bytes, vec![3, 0, 0, 0, 0, 0, 0, 0, b'h', 0xc3, 0xa9]);
    assert_eq!(bytes, bincode::serialize(&String::from("hé")).unwrap());
    assert_eq!(String::decode(&bytes), Some(String::from("hé")));
    let mut longer = bytes.clone();
    longer.push(0xff);
    assert_eq!(String::decode(&longer), Some(String::from("hé")));
    assert_eq!(String::decode(&bytes[..10]), None);
    assert_eq!(String::decode(&[1, 0, 0, 0, 0, 0, 0, 0, 0xff]), None);
}
