use openssl::symm::Cipher as OsslCipher;
use openssl::symm::Crypter;
use openssl::symm::Mode as OsslMode;
use rc4_md5::Mode;
use rc4_md5::Rc4;

#[test]
fn engine_matches_openssl_rc4() {
    // RC4 lives in the legacy provider of OpenSSL 3.
    let _legacy = openssl::provider::Provider::try_load(None, "legacy", true).unwrap();
    let key = b"0123456789abcdef";
    let mut ours = Rc4::new(key, b"", Mode::Encrypt).unwrap();
    let mut theirs = Crypter::new(OsslCipher::rc4(), OsslMode::Encrypt, key, None).unwrap();

    let data = vec![0x5Au8; 256];
    let mut mine = data.clone();
    ours.in_place(&mut mine);

    let mut out = vec![0u8; data.len() + 16];
    let n = theirs.update(&data, &mut out).unwrap();
    assert_eq!(&mine[..], &out[..n]);
}
