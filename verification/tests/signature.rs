use sha3::Digest;
use xid::attest::{verify, verify_message, RECOVERY_ID_SIZE, TRUSTED_SIGNER_KEY};
use xid::digest::{hash_keccak256, hash_message, ETH_PREFIX};
use xid::verify::Verification;

fn secret() -> libsecp256k1::SecretKey {
    let mut bytes = [0u8; 32];
    for (i, b) in bytes.iter_mut().enumerate() {
        *b = (i as u8).wrapping_mul(7).wrapping_add(3);
    }
    libsecp256k1::SecretKey::parse(&bytes).unwrap()
}

fn sign_digest(digest: &[u8; 32]) -> ([u8; 64], u8) {
    let message = libsecp256k1::Message::parse(digest);
    let (signature, recovery_id) = libsecp256k1::sign(&message, &secret());
    (signature.serialize(), recovery_id.serialize())
}

fn full_key() -> [u8; 65] {
    libsecp256k1::PublicKey::from_secret_key(&secret()).serialize()
}

fn compressed_key() -> [u8; 33] {
    libsecp256k1::PublicKey::from_secret_key(&secret()).serialize_compressed()
}

fn hex(bytes: &[u8]) -> String {
    let mut out = String::new();
    for b in bytes {
        out.push_str(&format!("{:02x}", b));
    }
    out
}

#[test]
fn prefix_is_the_personal_sign_prefix() {
    assert_eq!(&ETH_PREFIX[..], "\x19Ethereum Signed Message:\n".as_bytes());
}

#[test]
fn digest_of_hello_world_is_the_known_one() {
    let digest = hash_message(b"Hello World");
    assert_eq!(
        hex(&digest),
        "a1de988600a42c4b4ab089b619297c17d53cffae5d5120d82d8a92d0bb3b78f2"
    );
}

#[test]
fn digest_is_keccak_of_prefix_length_and_payload() {
    let payload = "{\"uuid\":\"1\"}";
    let mut hasher = sha3::Keccak256::new();
    hasher.update(format!("\x19Ethereum Signed Message:\n{}{}", payload.len(), payload));
    let expected: [u8; 32] = hasher.finalize().into();
    assert_eq!(hash_keccak256(payload), expected);
    assert_eq!(hash_message(payload.as_bytes()), expected);
}

#[test]
fn digest_length_is_counted_in_bytes() {
    let payload = "héllo wörld, ça va";
    assert_ne!(payload.len(), payload.chars().count());
    let mut hasher = sha3::Keccak256::new();
    hasher.update(b"\x19Ethereum Signed Message:\n");
    hasher.update(payload.len().to_string().as_bytes());
    hasher.update(payload.as_bytes());
    let expected: [u8; 32] = hasher.finalize().into();
    assert_eq!(hash_keccak256(payload), expected);
}

#[test]
fn digest_of_empty_payload_has_length_zero_written() {
    let mut hasher = sha3::Keccak256::new();
    hasher.update(b"\x19Ethereum Signed Message:\n0");
    let expected: [u8; 32] = hasher.finalize().into();
    assert_eq!(hash_message(b""), expected);
}

#[test]
fn signature_holds_under_each_key_layout() {
    let message = b"bind me";
    let (signature, _) = sign_digest(&hash_message(message));
    let full = full_key();
    assert!(verify_message(message, &signature, &full));
    assert!(verify_message(message, &signature, &full[1..]));
    assert!(verify_message(message, &signature, &compressed_key()));
}

#[test]
fn verify_takes_the_digest_as_message() {
    let digest = hash_message(b"bind me");
    let (signature, _) = sign_digest(&digest);
    let verification = Verification {
        message: digest.to_vec(),
        signature: signature.to_vec(),
        public_key: compressed_key().to_vec(),
    };
    assert!(verify(&verification));
    let unhashed = Verification {
        message: b"bind me".to_vec(),
        signature: signature.to_vec(),
        public_key: compressed_key().to_vec(),
    };
    assert!(!verify(&unhashed));
}

#[test]
fn flipped_message_bit_is_refused() {
    let message = b"bind me".to_vec();
    let (signature, _) = sign_digest(&hash_message(&message));
    let key = compressed_key();
    for bit in 0..message.len() * 8 {
        let mut changed = message.clone();
        changed[bit / 8] ^= 1 << (bit % 8);
        assert!(!verify_message(&changed, &signature, &key), "bit {}", bit);
    }
}

#[test]
fn flipped_signature_bit_is_refused() {
    let message = b"bind me";
    let (signature, _) = sign_digest(&hash_message(message));
    let key = compressed_key();
    for bit in (0..512).step_by(5) {
        let mut changed = signature;
        changed[bit / 8] ^= 1 << (bit % 8);
        assert!(!verify_message(message, &changed, &key), "bit {}", bit);
    }
}

#[test]
fn flipped_key_bit_is_refused() {
    let message = b"bind me";
    let (signature, _) = sign_digest(&hash_message(message));
    let compressed = compressed_key();
    for bit in (0..33 * 8).step_by(3) {
        let mut changed = compressed;
        changed[bit / 8] ^= 1 << (bit % 8);
        assert!(!verify_message(message, &signature, &changed), "compressed bit {}", bit);
    }
    let full = full_key();
    for bit in (8..65 * 8).step_by(7) {
        let mut changed = full;
        changed[bit / 8] ^= 1 << (bit % 8);
        assert!(!verify_message(message, &signature, &changed), "full bit {}", bit);
    }
    for bit in (0..64 * 8).step_by(7) {
        let mut changed = [0u8; 64];
        changed.copy_from_slice(&full[1..]);
        changed[bit / 8] ^= 1 << (bit % 8);
        assert!(!verify_message(message, &signature, &changed), "raw bit {}", bit);
    }
}

#[test]
fn full_key_with_hybrid_tag_of_its_parity_is_the_same_key() {
    let message = b"bind me";
    let (signature, _) = sign_digest(&hash_message(message));
    let mut key = full_key();
    let odd = key[64] & 1 == 1;
    key[0] = if odd { 0x07 } else { 0x06 };
    assert!(verify_message(message, &signature, &key));
    key[0] = if odd { 0x06 } else { 0x07 };
    assert!(!verify_message(message, &signature, &key));
    key[0] = 0x05;
    assert!(!verify_message(message, &signature, &key));
}

#[test]
fn signature_of_another_key_is_refused() {
    let message = b"bind me";
    let (signature, _) = sign_digest(&hash_message(message));
    assert!(!verify_message(message, &signature, &TRUSTED_SIGNER_KEY));
}

#[test]
fn signature_of_wrong_length_is_refused() {
    let message = b"bind me";
    let (signature, recovery_id) = sign_digest(&hash_message(message));
    let key = compressed_key();
    assert!(!verify_message(message, &signature[..63], &key));
    let mut long = signature.to_vec();
    long.push(recovery_id);
    assert!(!verify_message(message, &long, &key));
    assert!(!verify_message(message, &[], &key));
}

#[test]
fn digest_of_wrong_length_is_refused() {
    let digest = hash_message(b"bind me");
    let (signature, _) = sign_digest(&digest);
    for len in [0usize, 31, 33] {
        let mut message = digest.to_vec();
        message.resize(len, 0);
        let verification = Verification {
            message,
            signature: signature.to_vec(),
            public_key: compressed_key().to_vec(),
        };
        assert!(!verify(&verification));
    }
}

#[test]
fn overflowing_signature_is_refused() {
    let message = b"bind me";
    assert!(!verify_message(message, &[0xff; 64], &compressed_key()));
    assert!(!verify_message(message, &[0xff; 64], &[0]));
    assert!(!verify_message(message, &[0u8; 64], &compressed_key()));
}

#[test]
fn key_field_of_unknown_length_is_refused() {
    let message = b"bind me";
    let (signature, _) = sign_digest(&hash_message(message));
    let full = full_key();
    for len in [0usize, 2, 32, 34, 63, 66] {
        let mut field = full.to_vec();
        field.resize(len, 4);
        assert!(!verify_message(message, &signature, &field), "length {}", len);
    }
}

#[test]
fn key_that_is_no_point_is_refused() {
    let message = b"bind me";
    let (signature, _) = sign_digest(&hash_message(message));
    assert!(!verify_message(message, &signature, &[0u8; 33]));
    assert!(!verify_message(message, &signature, &[0u8; 64]));
    assert!(!verify_message(message, &signature, &[4u8; 65]));
}

#[test]
fn recovery_id_recovers_a_key_and_passes() {
    assert_eq!(RECOVERY_ID_SIZE, 1);
    let message = b"bind me";
    let (signature, recovery_id) = sign_digest(&hash_message(message));
    assert!(recovery_id < 4);
    assert!(verify_message(message, &signature, &[recovery_id]));
}

#[test]
fn recovery_id_of_other_parity_recovers_another_key_that_passes() {
    let message = b"bind me";
    let digest = hash_message(message);
    let (signature, recovery_id) = sign_digest(&digest);
    let other = recovery_id ^ 1;
    let recovered = libsecp256k1::recover(
        &libsecp256k1::Message::parse(&digest),
        &libsecp256k1::Signature::parse_standard(&signature).unwrap(),
        &libsecp256k1::RecoveryId::parse(other).unwrap(),
    )
    .unwrap();
    assert_ne!(recovered.serialize(), full_key());
    assert!(verify_message(message, &signature, &[other]));
}

#[test]
fn recovery_id_from_four_on_is_refused() {
    let message = b"bind me";
    let (signature, _) = sign_digest(&hash_message(message));
    for id in 4..=255u8 {
        assert!(!verify_message(message, &signature, &[id]), "recovery id {}", id);
    }
}

#[test]
fn recovery_without_a_key_is_refused() {
    let message = b"bind me";
    let mut signature = [0u8; 64];
    signature[31] = 5;
    signature[63] = 1;
    assert!(libsecp256k1::recover(
        &libsecp256k1::Message::parse(&hash_message(message)),
        &libsecp256k1::Signature::parse_standard(&signature).unwrap(),
        &libsecp256k1::RecoveryId::parse(0).unwrap(),
    )
    .is_err());
    assert!(!verify_message(message, &signature, &[0]));
}
