use tari_dan::template_crypto::{BalanceProofSignature, InvalidByteLengthError, RistrettoPublicKeyBytes};

fn bytes(n: usize, start: u8) -> Vec<u8> {
    (0..n).map(|i| start.wrapping_add(i as u8)).collect()
}

#[test]
fn public_key_length_is_32() {
    assert_eq!(RistrettoPublicKeyBytes::length(), 32);
}

#[test]
fn public_key_from_32_bytes() {
    let b = bytes(32, 7);
    let k = RistrettoPublicKeyBytes::from_bytes(&b).ok().unwrap();
    assert_eq!(k.as_bytes(), b.as_slice());
    assert_eq!(k.into_array().to_vec(), b);
    assert_eq!(k.as_hash().as_bytes(), b.as_slice());
    assert_eq!(k.as_hash().into_array().to_vec(), b);
}

#[test]
fn public_key_wrong_lengths() {
    for n in [0usize, 1, 31, 33, 64] {
        let e: InvalidByteLengthError = RistrettoPublicKeyBytes::from_bytes(&bytes(n, 0)).err().unwrap();
        assert_eq!(e.actual_size(), n);
        assert_eq!(e.expected(), 32);
    }
}

#[test]
fn public_key_try_from_slice() {
    let b = bytes(32, 1);
    let k = RistrettoPublicKeyBytes::try_from(b.as_slice()).ok().unwrap();
    assert_eq!(k.as_bytes(), b.as_slice());
    let e = RistrettoPublicKeyBytes::try_from(&b[..5]).err().unwrap();
    assert_eq!(e.actual_size(), 5);
}

#[test]
fn public_key_round_trip() {
    let k = RistrettoPublicKeyBytes::from_bytes(&bytes(32, 200)).ok().unwrap();
    let k2 = RistrettoPublicKeyBytes::from_bytes(k.as_bytes()).ok().unwrap();
    assert_eq!(k2.into_array(), k.into_array());
}

#[test]
fn error_message_names_both_lengths() {
    let e = RistrettoPublicKeyBytes::from_bytes(&bytes(3, 0)).err().unwrap();
    assert_eq!(e.to_error_string(), "Invalid byte length. Expected 32 bytes, got 3");
    let e = BalanceProofSignature::from_bytes(&bytes(0, 0)).err().unwrap();
    assert_eq!(e.to_error_string(), "Invalid byte length. Expected 64 bytes, got 0");
    let e = BalanceProofSignature::from_bytes(&bytes(1234, 0)).err().unwrap();
    assert_eq!(e.to_error_string(), "Invalid byte length. Expected 64 bytes, got 1234");
}

#[test]
fn signature_length_is_64() {
    assert_eq!(BalanceProofSignature::length(), 64);
}

#[test]
fn signature_from_parts_joins_nonce_then_signature() {
    let nonce = bytes(32, 0);
    let sig = bytes(32, 100);
    let s = BalanceProofSignature::try_from_parts(&nonce, &sig).ok().unwrap();
    assert_eq!(s.as_public_nonce(), nonce.as_slice());
    assert_eq!(s.as_signature(), sig.as_slice());
    let mut joined = nonce.clone();
    joined.extend_from_slice(&sig);
    assert_eq!(s.as_bytes(), joined.as_slice());
    assert_eq!(s.into_array().to_vec(), joined);
}

#[test]
fn signature_from_parts_checks_nonce_first() {
    let e = BalanceProofSignature::try_from_parts(&bytes(31, 0), &bytes(30, 0)).err().unwrap();
    assert_eq!(e.actual_size(), 31);
    assert_eq!(e.expected(), 32);
    let e = BalanceProofSignature::try_from_parts(&bytes(32, 0), &bytes(33, 0)).err().unwrap();
    assert_eq!(e.actual_size(), 33);
    assert_eq!(e.expected(), 32);
}

#[test]
fn signature_from_bytes() {
    let b = bytes(64, 9);
    let s = BalanceProofSignature::from_bytes(&b).ok().unwrap();
    assert_eq!(s.as_bytes(), b.as_slice());
    assert_eq!(s.as_public_nonce(), &b[..32]);
    assert_eq!(s.as_signature(), &b[32..]);
    let e = BalanceProofSignature::from_bytes(&b[..63]).err().unwrap();
    assert_eq!(e.actual_size(), 63);
    assert_eq!(e.expected(), 64);
}

#[test]
fn signature_parts_rejoin() {
    let s = BalanceProofSignature::from_bytes(&bytes(64, 77)).ok().unwrap();
    let s2 = BalanceProofSignature::try_from_parts(s.as_public_nonce(), s.as_signature()).ok().unwrap();
    assert_eq!(s2.into_array(), s.into_array());
}

#[test]
fn signature_try_from_slice() {
    let b = bytes(64, 3);
    let s = BalanceProofSignature::try_from(b.as_slice()).ok().unwrap();
    assert_eq!(s.as_bytes(), b.as_slice());
    assert_eq!(BalanceProofSignature::try_from(&b[..10]).err().unwrap().actual_size(), 10);
}

#[test]
fn byte_types_compare_by_content() {
    let a = RistrettoPublicKeyBytes::from_bytes(&bytes(32, 1)).ok().unwrap();
    let b = RistrettoPublicKeyBytes::try_from(bytes(32, 1).as_slice()).ok().unwrap();
    let c = RistrettoPublicKeyBytes::from_bytes(&bytes(32, 2)).ok().unwrap();
    assert_eq!(a, b);
    assert_ne!(a, c);
    assert_eq!(RistrettoPublicKeyBytes::default().into_array(), [0u8; 32]);
    let s = BalanceProofSignature::from_bytes(&bytes(64, 0)).ok().unwrap();
    assert_eq!(s, BalanceProofSignature::try_from_parts(&bytes(32, 0), &bytes(32, 32)).ok().unwrap());
    let e1 = RistrettoPublicKeyBytes::from_bytes(&bytes(3, 0)).err().unwrap();
    let e2 = BalanceProofSignature::try_from_parts(&bytes(3, 0), &[]).err().unwrap();
    assert_eq!(e1, e2);
    assert_eq!(a.as_hash(), tari_dan::template_crypto::Hash::from_array(a.into_array()));
}
