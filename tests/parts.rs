use aes_gcm::aead::{Aead, KeyInit};
use aes_gcm::{Aes256Gcm, Nonce};
use pq_photo_decrypt::aead::{decrypt, AeadError};
use pq_photo_decrypt::batch::{decrypt_batch, has_container_extension, output_file_name, BatchSummary};
use pq_photo_decrypt::container::{parse_container, read_be_u32, ContainerField, FormatError};
use pq_photo_decrypt::kem::{decapsulate, derive_symmetric_key, KemCiphertext, KemSecretKey, KeyError};
use pq_photo_decrypt::keyfile::{private_key_from_text, KeyFileError};
use pq_photo_decrypt::pipeline::DecryptError;
use pqcrypto_kyber::kyber1024;
use pqcrypto_traits::kem::{Ciphertext as _, SecretKey as _, SharedSecret as _};

fn chars(s: &str) -> Vec<char> {
    s.chars().collect()
}

fn container_for(pk: &kyber1024::PublicKey, plaintext: &[u8]) -> Vec<u8> {
    let (ss, ct) = kyber1024::encapsulate(pk);
    let nonce = [3u8; 12];
    let cipher = Aes256Gcm::new_from_slice(&ss.as_bytes()[..32]).unwrap();
    let sealed = cipher.encrypt(Nonce::from_slice(&nonce), plaintext).unwrap();
    let mut out = vec![0x01, 0, 0, 0x06, 0x20];
    out.extend_from_slice(ct.as_bytes());
    out.extend_from_slice(&nonce);
    out.extend_from_slice(&sealed);
    out
}

#[test]
fn be_u32_reads_big_endian() {
    assert_eq!(read_be_u32(0, 0, 0x06, 0x20), 1568);
    assert_eq!(read_be_u32(0x12, 0x34, 0x56, 0x78), 0x1234_5678);
    assert_eq!(read_be_u32(0xff, 0xff, 0xff, 0xff), u32::MAX);
}

#[test]
fn parse_splits_fields() {
    let mut buf = vec![0x01, 0, 0, 0, 2, 0xaa, 0xbb];
    buf.extend_from_slice(&[9u8; 12]);
    buf.extend_from_slice(&[1, 2, 3]);
    let c = parse_container(&buf).ok().unwrap();
    assert_eq!(c.version, 1);
    assert_eq!(c.kem_ciphertext, vec![0xaa, 0xbb]);
    assert_eq!(c.nonce, vec![9u8; 12]);
    assert_eq!(c.payload, vec![1, 2, 3]);
}

#[test]
fn parse_accepts_empty_payload_and_empty_kem() {
    let mut buf = vec![0x01, 0, 0, 0, 0];
    buf.extend_from_slice(&[4u8; 12]);
    let c = parse_container(&buf).ok().unwrap();
    assert!(c.kem_ciphertext.is_empty());
    assert!(c.payload.is_empty());
}

#[test]
fn parse_errors() {
    assert_eq!(parse_container(&[]).err(), Some(FormatError::Truncated(ContainerField::Version)));
    assert_eq!(parse_container(&[5]).err(), Some(FormatError::UnsupportedVersion(5)));
    assert_eq!(
        parse_container(&[1, 0, 0]).err(),
        Some(FormatError::Truncated(ContainerField::LengthField))
    );
    assert_eq!(
        parse_container(&[1, 0, 0, 0, 3, 1, 2]).err(),
        Some(FormatError::Truncated(ContainerField::KemCiphertext))
    );
    assert_eq!(
        parse_container(&[1, 0xff, 0xff, 0xff, 0xff, 1, 2]).err(),
        Some(FormatError::Truncated(ContainerField::KemCiphertext))
    );
    assert_eq!(
        parse_container(&[1, 0, 0, 0, 1, 1, 2, 3]).err(),
        Some(FormatError::Truncated(ContainerField::Nonce))
    );
}

#[test]
fn derive_key_takes_first_32_bytes() {
    let ss: Vec<u8> = (0u8..40).collect();
    assert_eq!(derive_symmetric_key(&ss), (0u8..32).collect::<Vec<u8>>());
}

#[test]
fn kem_material_lengths() {
    assert!(KemSecretKey::from_bytes(&[0u8; 3168]).is_some());
    assert!(KemSecretKey::from_bytes(&[0u8; 3167]).is_none());
    assert!(KemCiphertext::from_bytes(&[0u8; 1568]).is_some());
    assert!(KemCiphertext::from_bytes(&[0u8; 1569]).is_none());
    assert_eq!(decapsulate(&[0u8; 10], &[0u8; 10]).err(), Some(KeyError::InvalidKey));
    assert_eq!(decapsulate(&[0u8; 3168], &[0u8; 10]).err(), Some(KeyError::InvalidCiphertext));
}

#[test]
fn decapsulate_recovers_encapsulated_secret() {
    let (pk, sk) = kyber1024::keypair();
    let (ss, ct) = kyber1024::encapsulate(&pk);
    let key = decapsulate(sk.as_bytes(), ct.as_bytes()).ok().unwrap();
    assert_eq!(key, ss.as_bytes()[..32].to_vec());
}

#[test]
fn aead_decrypt_cases() {
    let key = [5u8; 32];
    let nonce = [6u8; 12];
    let cipher = Aes256Gcm::new_from_slice(&key).unwrap();
    let sealed = cipher.encrypt(Nonce::from_slice(&nonce), &b"photo"[..]).unwrap();
    assert_eq!(decrypt(&key, &nonce, &sealed), Ok(b"photo".to_vec()));
    assert_eq!(decrypt(&key[..31], &nonce, &sealed), Err(AeadError::KeyInit));
    assert_eq!(decrypt(&key, &nonce, &sealed[..15]), Err(AeadError::Authentication));
    assert_eq!(decrypt(&key, &nonce, &[]), Err(AeadError::Authentication));
    assert_eq!(decrypt(&[4u8; 32], &nonce, &sealed), Err(AeadError::Authentication));
}

#[test]
fn batch_isolates_corrupted_middle_file() {
    let (pk, sk) = kyber1024::keypair();
    let sk = sk.as_bytes().to_vec();
    let first = container_for(&pk, b"first photo");
    let mut second = container_for(&pk, b"second photo");
    let third = container_for(&pk, b"third photo");
    let last = second.len() - 1;
    second[last] ^= 0x40;
    let names = vec![b"a.pqenc".to_vec(), b"b.pqenc".to_vec(), b"c.pqenc".to_vec()];
    let r = decrypt_batch(&names, &vec![first, second, third], &sk);
    assert_eq!(r.summary.successes, 2);
    assert_eq!(r.summary.failures, 1);
    assert_eq!(r.outcomes[0], Ok(b"first photo".to_vec()));
    assert_eq!(r.outcomes[1], Err(DecryptError::Authentication));
    assert_eq!(r.outcomes[2], Ok(b"third photo".to_vec()));
    assert_eq!(r.output_names[0], Some(b"a.jpg".to_vec()));
    assert_eq!(r.output_names[2], Some(b"c.jpg".to_vec()));
}

#[test]
fn batch_names_may_collide() {
    let names = vec![b"x.pqenc".to_vec(), b"x.pqenc".to_vec()];
    let r = decrypt_batch(&names, &vec![vec![], vec![0x09]], &[]);
    assert_eq!(r.output_names[0], r.output_names[1]);
    assert_eq!(r.summary.failures, 2);
}

#[test]
fn batch_of_nothing() {
    let r = decrypt_batch(&vec![], &vec![], &[]);
    assert!(r.outcomes.is_empty());
    assert!(r.output_names.is_empty());
    assert_eq!(r.summary, BatchSummary { successes: 0, failures: 0 });
}

#[test]
fn summary_counts() {
    let mut s = BatchSummary::new();
    s.record(true);
    s.record(false);
    s.record(true);
    assert_eq!(s.successes, 2);
    assert_eq!(s.failures, 1);
    assert_eq!(s.attempted(), 3);
}

#[test]
fn output_names() {
    assert_eq!(output_file_name(b"IMG_001.pqenc"), Some(b"IMG_001.jpg".to_vec()));
    assert_eq!(output_file_name(b"a.b.pqenc"), Some(b"a.b.jpg".to_vec()));
    assert_eq!(output_file_name(b"noext"), Some(b"noext.jpg".to_vec()));
    assert_eq!(output_file_name(b".pqenc"), Some(b".pqenc.jpg".to_vec()));
    assert_eq!(output_file_name(b""), Some(b".jpg".to_vec()));
    assert_eq!(output_file_name(b".."), None);
}

#[test]
fn container_extension_filter() {
    assert!(has_container_extension(b"x.pqenc"));
    assert!(has_container_extension(b"a.b.pqenc"));
    assert!(!has_container_extension(b".pqenc"));
    assert!(!has_container_extension(b"x.jpg"));
    assert!(!has_container_extension(b"x.pqenc2"));
    assert!(!has_container_extension(b"x.PQENC"));
    assert!(!has_container_extension(b"pqenc"));
}

#[test]
fn key_text_skips_comments_and_blank_lines() {
    let text = "# private key\n\n  # another comment\nAAEC\r\nAwQF\n   \n";
    assert_eq!(private_key_from_text(&chars(text)), Ok(vec![0, 1, 2, 3, 4, 5]));
}

#[test]
fn key_text_trims_ends() {
    assert_eq!(private_key_from_text(&chars("  AAECAw==  \n")), Ok(vec![0, 1, 2, 3]));
    assert_eq!(private_key_from_text(&chars("\u{a0}AAECAw==")), Ok(vec![0, 1, 2, 3]));
}

#[test]
fn key_text_bad_base64() {
    assert_eq!(private_key_from_text(&chars("not base64!\n")), Err(KeyFileError::Base64));
    assert_eq!(private_key_from_text(&chars("AAEC\n AwQF\n")), Err(KeyFileError::Base64));
}
