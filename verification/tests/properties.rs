use rustcube::cipher;
use rustcube::codec;
use rustcube::entropy::get_charset_size;
use rustcube::kdf::derive_key;
use rustcube::pipeline::{decrypt_container, encrypt_container};
use rustcube::secure::SecureBuffer;
use rustcube::CubeError;

fn salt16() -> Vec<u8> {
    vec![7u8; 16]
}

fn pws(words: &[&str]) -> Vec<String> {
    words.iter().map(|w| w.to_string()).collect()
}

#[test]
fn derive_is_deterministic() {
    let passwords = pws(&["alpha", "beta"]);
    let salt = salt16();
    let k1 = derive_key(&passwords, &salt).unwrap();
    let k2 = derive_key(&passwords, &salt).unwrap();
    assert_eq!(k1.bytes(), k2.bytes());
    assert_eq!(k1.len(), 32);
}

#[test]
fn derive_two_passwords_commutes() {
    let salt = salt16();
    let k_ab = derive_key(&pws(&["a", "b"]), &salt).unwrap();
    let k_ba = derive_key(&pws(&["b", "a"]), &salt).unwrap();
    assert_eq!(k_ab.bytes(), k_ba.bytes());
}

#[test]
fn derive_depends_on_password() {
    let salt = salt16();
    let k1 = derive_key(&pws(&["alpha"]), &salt).unwrap();
    let k2 = derive_key(&pws(&["omega"]), &salt).unwrap();
    assert_ne!(k1.bytes(), k2.bytes());
}

#[test]
fn derive_depends_on_salt() {
    let k1 = derive_key(&pws(&["alpha"]), &vec![1u8; 16]).unwrap();
    let k2 = derive_key(&pws(&["alpha"]), &vec![2u8; 16]).unwrap();
    assert_ne!(k1.bytes(), k2.bytes());
}

#[test]
fn derive_rejects_empty_password_list() {
    let empty: Vec<String> = Vec::new();
    let r = derive_key(&empty, &salt16());
    assert!(matches!(r, Err(CubeError::EmptyPasswordList)));
    let r2 = derive_key(&empty, &vec![250u8; 16]);
    assert!(matches!(r2, Err(CubeError::EmptyPasswordList)));
}

#[test]
fn secure_buffer_wipe_zeroes_in_place() {
    let mut buf = SecureBuffer::from_vec(vec![1u8, 2, 3, 4, 5]);
    assert_eq!(buf.len(), 5);
    buf.wipe();
    assert_eq!(buf.len(), 5);
    assert_eq!(buf.bytes(), &vec![0u8; 5]);
}

#[test]
fn cipher_round_trip_exact() {
    let key = derive_key(&pws(&["k"]), &salt16()).unwrap();
    let iv = vec![9u8; 16];
    let plaintext = b"attack at dawn".to_vec();
    let ciphertext = cipher::encrypt_payload(&key, &iv, &plaintext);
    // PKCS#7: 14 bytes round up to one 16-byte block.
    assert_eq!(ciphertext.len(), 16);
    assert_ne!(ciphertext, plaintext);
    let recovered = cipher::decrypt_payload(&key, &iv, &ciphertext);
    assert_eq!(recovered, plaintext);
}

#[test]
fn cipher_pads_whole_blocks() {
    let key = derive_key(&pws(&["k"]), &salt16()).unwrap();
    let iv = vec![0u8; 16];
    // A full block of plaintext gains a full block of padding.
    let plaintext = vec![42u8; 16];
    let ciphertext = cipher::encrypt_payload(&key, &iv, &plaintext);
    assert_eq!(ciphertext.len(), 32);
    // Empty plaintext still yields one padding block.
    let empty: Vec<u8> = Vec::new();
    let c2 = cipher::encrypt_payload(&key, &iv, &empty);
    assert_eq!(c2.len(), 16);
    assert_eq!(cipher::decrypt_payload(&key, &iv, &c2), empty);
}

#[test]
fn cipher_wrong_key_no_crash() {
    let key = derive_key(&pws(&["right"]), &salt16()).unwrap();
    let wrong = derive_key(&pws(&["wrong"]), &salt16()).unwrap();
    let iv = vec![3u8; 16];
    let plaintext = b"some secret bytes".to_vec();
    let ciphertext = cipher::encrypt_payload(&key, &iv, &plaintext);
    let garbled = cipher::decrypt_payload(&wrong, &iv, &ciphertext);
    assert_ne!(garbled, plaintext);
    assert!(garbled.len() <= ciphertext.len());
}

#[test]
fn codec_round_trip() {
    let salt: Vec<u8> = (0u8..16).collect();
    let iv: Vec<u8> = (16u8..32).collect();
    let ciphertext = vec![200u8, 201, 202];
    let container = codec::serialize(&salt, &iv, &ciphertext);
    assert_eq!(container.len(), 35);
    let (s, i, c) = codec::deserialize(&container).unwrap();
    assert_eq!(s, salt);
    assert_eq!(i, iv);
    assert_eq!(c, ciphertext);
}

#[test]
fn codec_rejects_truncated_container() {
    let short = vec![0u8; 31];
    assert_eq!(codec::deserialize(&short), Err(CubeError::TruncatedContainer));
    let empty: Vec<u8> = Vec::new();
    assert_eq!(codec::deserialize(&empty), Err(CubeError::TruncatedContainer));
}

#[test]
fn codec_accepts_exact_header() {
    let bare = vec![5u8; 32];
    let (s, i, c) = codec::deserialize(&bare).unwrap();
    assert_eq!(s, vec![5u8; 16]);
    assert_eq!(i, vec![5u8; 16]);
    assert_eq!(c, Vec::<u8>::new());
}

#[test]
fn pipeline_round_trip_hello() {
    // One file `a.txt` with contents "hello": at the byte level the payload
    // the archiver would hand over; here the contents stand directly.
    let passwords = pws(&["correct-horse", "battery-staple"]);
    let payload = b"hello".to_vec();
    let container = encrypt_container(&passwords, &payload).unwrap();
    let recovered = decrypt_container(&passwords, &container).unwrap();
    assert_eq!(recovered, payload);

    // The same container under a wrong password list: no error, garbled bytes.
    let wrong = pws(&["wrong"]);
    let garbled = decrypt_container(&wrong, &container).unwrap();
    assert_ne!(garbled, payload);
}

#[test]
fn pipeline_round_trip_same_order() {
    let passwords = pws(&["correct-horse", "battery-staple"]);
    let payload = b"hello".to_vec();
    let container = encrypt_container(&passwords, &payload).unwrap();
    let recovered = decrypt_container(&passwords, &container).unwrap();
    assert_eq!(recovered, payload);
}

#[test]
fn pipeline_rejects_empty_passwords() {
    let empty: Vec<String> = Vec::new();
    let payload = b"data".to_vec();
    assert_eq!(
        encrypt_container(&empty, &payload),
        Err(CubeError::EmptyPasswordList)
    );
    let container = encrypt_container(&pws(&["p"]), &payload).unwrap();
    assert_eq!(
        decrypt_container(&empty, &container),
        Err(CubeError::EmptyPasswordList)
    );
}

#[test]
fn pipeline_rejects_truncated_container() {
    let passwords = pws(&["p"]);
    let short = vec![1u8; 20];
    assert_eq!(
        decrypt_container(&passwords, &short),
        Err(CubeError::TruncatedContainer)
    );
}

#[test]
fn pipeline_fresh_salt_and_iv_every_time() {
    let passwords = pws(&["p"]);
    let payload = b"same payload".to_vec();
    let c1 = encrypt_container(&passwords, &payload).unwrap();
    let c2 = encrypt_container(&passwords, &payload).unwrap();
    assert_ne!(&c1[0..16], &c2[0..16], "salts must differ");
    assert_ne!(&c1[16..32], &c2[16..32], "IVs must differ");
}

#[test]
fn charset_size_password123() {
    // lowercase + digit: 26 + 10.
    assert_eq!(get_charset_size("password123"), 36);
}

#[test]
fn charset_size_classes() {
    assert_eq!(get_charset_size(""), 0);
    assert_eq!(get_charset_size("abc"), 26);
    assert_eq!(get_charset_size("ABC"), 26);
    assert_eq!(get_charset_size("123"), 10);
    assert_eq!(get_charset_size("!?"), 33);
    assert_eq!(get_charset_size("aB3!"), 95);
    // Non-ASCII counts as a symbol.
    assert_eq!(get_charset_size("é"), 33);
}
