//! Value-type and software-provider behaviour: byte round-trips, length
//! rejection, RFC 8032 conformance vectors, and negative verification.

use signatory::TestVector;
use signatory::ErrorKind;
use signatory::ed25519::PublicKey;
use signatory::ed25519::Signature;
use signatory::ed25519::Signer;
use signatory::ed25519::Verifier;
use signatory::ed25519::conformance;
use signatory::ed25519::flip_bit;
use signatory::ed25519::dalek::DalekSigner;
use signatory::ed25519::dalek::DalekVerifier;

fn hex(s: &str) -> Vec<u8> {
    let digits: Vec<u8> = s
        .bytes()
        .map(|c| match c {
            b'0'..=b'9' => c - b'0',
            b'a'..=b'f' => c - b'a' + 10,
            b'A'..=b'F' => c - b'A' + 10,
            _ => panic!("not a hex digit"),
        })
        .collect();
    digits.chunks(2).map(|p| p[0] * 16 + p[1]).collect()
}

/// RFC 8032 section 7.1, TEST 1 (empty message).
fn rfc8032_test1() -> TestVector {
    TestVector {
        sk: hex("9d61b19deffd5a60ba844af492ec2cc44449c5697b326919703bac031cae7f60"),
        pk: hex("d75a980182b10ab7d54bfed3c964073a0ee172f3daa62325af021a68f707511a"),
        msg: Vec::new(),
        sig: hex(
            "e5564300c360ac729086e2cc806e828a84877f1eb8e5d974d873e06522490155\
             5fb8821590a33bacc61e39701cf9b46bd25bf5f0595bbe24655141438e7a100b",
        ),
    }
}

/// RFC 8032 section 7.1, TEST 3 (two-byte message).
fn rfc8032_test3() -> TestVector {
    TestVector {
        sk: hex("c5aa8df43f9f837bedb7442f31dcb7b166d38535076f094b85ce3a2e0b4458f7"),
        pk: hex("fc51cd8e6218a1a38da47ed00230f0580816ed13ba3303ac5deb911548908025"),
        msg: hex("af82"),
        sig: hex(
            "6291d657deec24024827e69c3abe01a30ce548a284743a445e3680d7db5ac3ac\
             18ff9b538d16f290ae67f760984dc6594a7c15e9716ed28dc027beceea1ec40a",
        ),
    }
}

#[test]
fn signature_round_trip() {
    let v = rfc8032_test1();
    let original = Signature::from_bytes(&v.sig).unwrap();
    let rebuilt = Signature::from_bytes(original.to_bytes()).unwrap();
    assert_eq!(rebuilt, original);
    assert_eq!(rebuilt.into_bytes(), v.sig);
}

#[test]
fn public_key_round_trip() {
    let v = rfc8032_test1();
    let original = PublicKey::from_bytes(&v.pk).unwrap();
    let rebuilt = PublicKey::from_bytes(original.to_bytes()).unwrap();
    assert_eq!(rebuilt, original);
    assert_eq!(rebuilt.into_bytes(), v.pk);
}

#[test]
fn signature_length_rejection() {
    for len in [0usize, 1, 32, 63, 65, 128] {
        let bytes = vec![0u8; len];
        let r = Signature::from_bytes(&bytes);
        assert_eq!(r.unwrap_err().kind(), ErrorKind::FormatFailure);
    }
    assert!(Signature::from_bytes(&vec![0u8; 64]).is_ok());
}

#[test]
fn public_key_length_rejection() {
    for len in [0usize, 1, 16, 31, 33, 64] {
        let bytes = vec![0u8; len];
        let r = PublicKey::from_bytes(&bytes);
        assert_eq!(r.unwrap_err().kind(), ErrorKind::FormatFailure);
    }
    assert!(PublicKey::from_bytes(&vec![0u8; 32]).is_ok());
}

#[test]
fn seed_length_rejection() {
    for len in [0usize, 31, 33, 64] {
        let r = DalekSigner::from_seed(&vec![0u8; len]);
        assert_eq!(r.err().unwrap().kind(), ErrorKind::FormatFailure);
    }
}

#[test]
fn rfc8032_test1_signs_exactly() {
    let v = rfc8032_test1();
    let signer = DalekSigner::from_seed(&v.sk).unwrap();
    let sig = signer.sign(&v.msg).unwrap();
    assert_eq!(sig.to_bytes(), v.sig.as_slice());
    assert_eq!(signer.public_key().to_bytes(), v.pk.as_slice());
}

#[test]
fn rfc8032_test3_signs_exactly() {
    let v = rfc8032_test3();
    let signer = DalekSigner::from_seed(&v.sk).unwrap();
    let sig = signer.sign(&v.msg).unwrap();
    assert_eq!(sig.to_bytes(), v.sig.as_slice());
    assert_eq!(signer.public_key().to_bytes(), v.pk.as_slice());
}

#[test]
fn rfc8032_vectors_verify() {
    for v in [rfc8032_test1(), rfc8032_test3()] {
        let verifier = DalekVerifier::from_public_key(PublicKey::from_bytes(&v.pk).unwrap());
        let sig = Signature::from_bytes(&v.sig).unwrap();
        assert!(verifier.verify(&v.msg, &sig).is_ok());
    }
}

#[test]
fn conformance_software_provider() {
    for v in [rfc8032_test1(), rfc8032_test3()] {
        let signer = DalekSigner::from_seed(&v.sk).unwrap();
        let verifier = DalekVerifier::from_public_key(PublicKey::from_bytes(&v.pk).unwrap());
        assert!(conformance(&signer, &verifier, &v).is_ok());
    }
}

#[test]
fn every_signature_bit_flip_fails_verification() {
    let v = rfc8032_test3();
    let verifier = DalekVerifier::from_public_key(PublicKey::from_bytes(&v.pk).unwrap());
    for byte_index in 0..v.sig.len() {
        for bit_index in 0..8u8 {
            let corrupted = flip_bit(&v.sig, byte_index, bit_index);
            let sig = Signature::from_bytes(&corrupted).unwrap();
            let r = verifier.verify(&v.msg, &sig);
            assert_eq!(r.unwrap_err().kind(), ErrorKind::VerificationFailure);
        }
    }
}

#[test]
fn every_message_bit_flip_fails_verification() {
    let v = rfc8032_test3();
    let verifier = DalekVerifier::from_public_key(PublicKey::from_bytes(&v.pk).unwrap());
    let sig = Signature::from_bytes(&v.sig).unwrap();
    for byte_index in 0..v.msg.len() {
        for bit_index in 0..8u8 {
            let corrupted = flip_bit(&v.msg, byte_index, bit_index);
            let r = verifier.verify(&corrupted, &sig);
            assert_eq!(r.unwrap_err().kind(), ErrorKind::VerificationFailure);
        }
    }
}

#[test]
fn flip_bit_flips_exactly_one_bit() {
    let bytes = vec![0x00u8, 0xffu8, 0x5au8];
    let flipped = flip_bit(&bytes, 1, 4);
    assert_eq!(flipped, vec![0x00u8, 0xefu8, 0x5au8]);
    let restored = flip_bit(&flipped, 1, 4);
    assert_eq!(restored, bytes);
}

#[test]
fn verify_rejects_wrong_key() {
    let v1 = rfc8032_test1();
    let v3 = rfc8032_test3();
    let verifier = DalekVerifier::from_public_key(PublicKey::from_bytes(&v1.pk).unwrap());
    let sig = Signature::from_bytes(&v3.sig).unwrap();
    let r = verifier.verify(&v3.msg, &sig);
    assert_eq!(r.unwrap_err().kind(), ErrorKind::VerificationFailure);
}

#[test]
fn error_constructors_carry_kind_and_cause() {
    let e = signatory::Error::new(ErrorKind::InvalidInput);
    assert_eq!(e.kind(), ErrorKind::InvalidInput);
    assert!(e.cause.is_none());
    let e = signatory::Error::with_cause(ErrorKind::ProviderFailure, String::from("timed out"));
    assert_eq!(e.kind(), ErrorKind::ProviderFailure);
    assert_eq!(e.cause.as_deref(), Some("timed out"));
}
