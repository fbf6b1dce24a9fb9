use md5::Digest;
use md5::Md5;
use rc4_md5::CipherError;
use rc4_md5::Mode;
use rc4_md5::Rc4;
use rc4_md5::Rc4Md5Cipher;
use rc4_md5::random_bytes;
use shadowsocks_crypto::v1::Cipher;
use shadowsocks_crypto::CipherKind;

#[test]
fn test_rc4_md5_enc() {
    let mut key = vec![0u8; Rc4Md5Cipher::KEY_LEN];
    let mut iv = vec![0u8; Rc4Md5Cipher::IV_LEN];

    random_bytes(&mut key);
    random_bytes(&mut iv);

    let mut cipher = Rc4Md5Cipher::new(&key, &iv, Mode::Encrypt);
    let mut ss_cipher = Cipher::new(CipherKind::SS_RC4_MD5, &key, &iv);

    let mut p1 = vec![0u8; 64];
    random_bytes(&mut p1);
    let mut p2 = p1.clone();

    for _ in 0..300 {
        cipher.in_place(&mut p1);
        ss_cipher.encrypt_packet(&mut p2);
        assert_eq!(&p1, &p2);
    }
}

#[test]
fn test_rc4_md5_dec() {
    let mut key = vec![0u8; Rc4Md5Cipher::KEY_LEN];
    let mut iv = vec![0u8; Rc4Md5Cipher::IV_LEN];

    random_bytes(&mut key);
    random_bytes(&mut iv);

    let mut cipher = Rc4Md5Cipher::new(&key, &iv, Mode::Decrypt);
    let mut ss_cipher = Cipher::new(CipherKind::SS_RC4_MD5, &key, &iv);

    let mut c1 = vec![0u8; 64];
    random_bytes(&mut c1);
    let mut c2 = c1.clone();

    for _ in 0..300 {
        cipher.in_place(&mut c1);
        let _ = ss_cipher.decrypt_packet(&mut c2);
        assert_eq!(&c1, &c2);
    }
}

#[test]
fn zero_key_zero_iv_matches_reference_across_chunks() {
    let key = vec![0u8; Rc4Md5Cipher::KEY_LEN];
    let iv = vec![0u8; Rc4Md5Cipher::IV_LEN];

    let mut cipher = Rc4Md5Cipher::new(&key, &iv, Mode::Encrypt);
    let mut ss_cipher = Cipher::new(CipherKind::SS_RC4_MD5, &key, &iv);

    let mut p1 = vec![0u8; 64];
    random_bytes(&mut p1);
    let mut p2 = p1.clone();

    for _ in 0..300 {
        cipher.in_place(&mut p1);
        ss_cipher.encrypt_packet(&mut p2);
        assert_eq!(&p1, &p2);
    }
}

#[test]
fn rc4_known_vector_key_plaintext() {
    let mut engine = Rc4::new(b"Key", b"", Mode::Encrypt).unwrap();
    let mut buf = b"Plaintext".to_vec();
    engine.in_place(&mut buf);
    assert_eq!(buf, vec![0xBB, 0xF3, 0x16, 0xE8, 0xD9, 0x40, 0xAF, 0x0A, 0xD3]);
}

#[test]
fn rc4_known_vector_wiki_pedia() {
    let mut engine = Rc4::new(b"Wiki", b"", Mode::Encrypt).unwrap();
    let mut buf = b"pedia".to_vec();
    engine.in_place(&mut buf);
    assert_eq!(buf, vec![0x10, 0x21, 0xBF, 0x04, 0x20]);
}

#[test]
fn identical_engines_produce_identical_output() {
    let key = vec![0x55u8; Rc4Md5Cipher::KEY_LEN];
    let iv = vec![0xAAu8; Rc4Md5Cipher::IV_LEN];
    let mut a = Rc4Md5Cipher::new(&key, &iv, Mode::Encrypt);
    let mut b = Rc4Md5Cipher::new(&key, &iv, Mode::Encrypt);
    for round in 0..5u8 {
        let mut x = vec![round; 32];
        let mut y = x.clone();
        a.in_place(&mut x);
        b.in_place(&mut y);
        assert_eq!(x, y);
    }
}

#[test]
fn chunked_transform_matches_whole_buffer() {
    let key = b"0123456789abcdef".to_vec();
    let iv = b"fedcba9876543210".to_vec();
    let data: Vec<u8> = (0u8..=255u8).collect();

    let mut whole_cipher = Rc4Md5Cipher::new(&key, &iv, Mode::Encrypt);
    let mut whole = data.clone();
    whole_cipher.in_place(&mut whole);

    let mut chunked_cipher = Rc4Md5Cipher::new(&key, &iv, Mode::Encrypt);
    let mut out: Vec<u8> = Vec::new();
    for chunk_len in [1usize, 3, 60, 128, 64] {
        let mut part = data[out.len()..out.len() + chunk_len].to_vec();
        chunked_cipher.in_place(&mut part);
        out.extend_from_slice(&part);
    }
    assert_eq!(whole, out);
}

#[test]
fn encrypt_then_decrypt_round_trips() {
    let key = vec![7u8; Rc4Md5Cipher::KEY_LEN];
    let iv = vec![9u8; Rc4Md5Cipher::IV_LEN];
    let plain = b"attack at dawn, twice over".to_vec();

    let mut enc = Rc4Md5Cipher::new(&key, &iv, Mode::Encrypt);
    let mut buf = plain.clone();
    enc.in_place(&mut buf);
    assert_ne!(buf, plain);

    let mut dec = Rc4Md5Cipher::new(&key, &iv, Mode::Decrypt);
    dec.in_place(&mut buf);
    assert_eq!(buf, plain);
}

#[test]
fn transform_preserves_length() {
    let key = vec![1u8; Rc4Md5Cipher::KEY_LEN];
    let iv = vec![2u8; Rc4Md5Cipher::IV_LEN];
    let mut cipher = Rc4Md5Cipher::new(&key, &iv, Mode::Encrypt);
    for len in [0usize, 1, 2, 63, 64, 65, 1024] {
        let mut buf = vec![0xA5u8; len];
        cipher.in_place(&mut buf);
        assert_eq!(buf.len(), len);
    }
}

#[test]
fn empty_buffer_does_not_advance_keystream() {
    let key = vec![3u8; Rc4Md5Cipher::KEY_LEN];
    let iv = vec![4u8; Rc4Md5Cipher::IV_LEN];
    let mut a = Rc4Md5Cipher::new(&key, &iv, Mode::Encrypt);
    let mut b = Rc4Md5Cipher::new(&key, &iv, Mode::Encrypt);

    let mut nothing: Vec<u8> = Vec::new();
    a.in_place(&mut nothing);
    assert!(nothing.is_empty());

    let mut x = vec![0x11u8; 16];
    let mut y = x.clone();
    a.in_place(&mut x);
    b.in_place(&mut y);
    assert_eq!(x, y);
}

#[test]
fn engine_rejects_unsupported_key_material() {
    assert!(matches!(
        Rc4::new(b"", b"", Mode::Encrypt),
        Err(CipherError::InvalidKeyMaterial)
    ));
    let long_key = vec![0u8; 257];
    assert!(matches!(
        Rc4::new(&long_key, b"", Mode::Decrypt),
        Err(CipherError::InvalidKeyMaterial)
    ));
    assert!(matches!(
        Rc4::new(b"key", b"iv", Mode::Encrypt),
        Err(CipherError::InvalidKeyMaterial)
    ));
    assert!(Rc4::new(b"key", b"", Mode::Encrypt).is_ok());
    let max_key = vec![0u8; 256];
    assert!(Rc4::new(&max_key, b"", Mode::Encrypt).is_ok());
}

#[test]
fn derived_key_matches_direct_md5_digest() {
    let key = vec![0x42u8; Rc4Md5Cipher::KEY_LEN];
    let iv = vec![0x24u8; Rc4Md5Cipher::IV_LEN];

    let mut hasher = Md5::new();
    hasher.update(&key);
    hasher.update(&iv);
    let digest = hasher.finalize().to_vec();

    let mut wrapper = Rc4Md5Cipher::new(&key, &iv, Mode::Encrypt);
    let mut engine = Rc4::new(&digest, b"", Mode::Encrypt).unwrap();

    let mut x = vec![0x42u8; 80];
    let mut y = x.clone();
    wrapper.in_place(&mut x);
    engine.in_place(&mut y);
    assert_eq!(x, y);
}

#[test]
fn random_bytes_keeps_length() {
    let mut buf = vec![0u8; 48];
    random_bytes(&mut buf);
    assert_eq!(buf.len(), 48);
}
