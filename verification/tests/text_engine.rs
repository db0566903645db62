use rcli::errors::TextError;
use rcli::formats::TextSignFormat;
use rcli::keys::validate;
use rcli::text::{
    ct_bytes_equal, process_text_generate_key, process_text_sign, process_text_verify, Blake3,
    Ed25519Signer, Ed25519Verifier, TextSigner, TextVerify,
};

const KEY: &[u8] = b"0123456789abcdef0123456789abcdef";

#[test]
fn test_process_text_generate_key() {
    // generate Blake3 key
    let b3_fmt = TextSignFormat::Blake3;
    let map = process_text_generate_key(b3_fmt);
    assert_eq!(map.get("blake3.txt").unwrap().len(), 32);

    // generate Ed25519 key
    let e25519_fmt = TextSignFormat::Ed25519;
    let map = process_text_generate_key(e25519_fmt);
    println!("ed25519 sk: {:?}", map.get("ed25519.sk").unwrap());
    println!("ed25519 pk: {:?}", map.get("ed25519.pk").unwrap());
    assert_eq!(map.get("ed25519.sk").unwrap().len(), 32);
    assert_eq!(map.get("ed25519.pk").unwrap().len(), 32);
}

#[test]
fn test_blake3_sign_verify() {
    // test sign and verify with Blake3
    let content = "hello".as_bytes();
    let format = TextSignFormat::Blake3;
    let signature = process_text_sign(content, format, KEY).unwrap();
    let verified = process_text_verify(content, KEY, &signature, format).unwrap();
    assert!(verified);
}

#[test]
fn test_ed25519_sign_verify() {
    // test sign and verify with an Ed25519 pk and sk generated as a pair
    let content = "hello".as_bytes();
    let format = TextSignFormat::Ed25519;
    let bundle = process_text_generate_key(format);
    let sk = bundle.get("ed25519.sk").unwrap().clone();
    let pk = bundle.get("ed25519.pk").unwrap().clone();
    let signature = process_text_sign(content, format, &sk).unwrap();
    let verified = process_text_verify(content, &pk, &signature, format).unwrap();
    assert!(verified);
}

#[test]
fn test_blake3_tamper_detected() {
    let content = b"some signed content".to_vec();
    let signature = process_text_sign(&content, TextSignFormat::Blake3, KEY).unwrap();
    for i in 0..content.len() {
        let mut tampered = content.clone();
        tampered[i] ^= 0x01;
        let verified =
            process_text_verify(&tampered, KEY, &signature, TextSignFormat::Blake3).unwrap();
        assert!(!verified);
    }
}

#[test]
fn test_ed25519_tamper_detected() {
    let content = b"some signed content".to_vec();
    let bundle = process_text_generate_key(TextSignFormat::Ed25519);
    let sk = bundle.get("ed25519.sk").unwrap().clone();
    let pk = bundle.get("ed25519.pk").unwrap().clone();
    let signature = process_text_sign(&content, TextSignFormat::Ed25519, &sk).unwrap();
    for i in 0..content.len() {
        let mut tampered = content.clone();
        tampered[i] ^= 0x01;
        let verified =
            process_text_verify(&tampered, &pk, &signature, TextSignFormat::Ed25519).unwrap();
        assert!(!verified);
    }
}

#[test]
fn test_blake3_distinct_keys() {
    let content = b"distinct keys";
    let key2: &[u8] = b"abcdef0123456789abcdef0123456789";
    let signature = process_text_sign(content, TextSignFormat::Blake3, KEY).unwrap();
    let verified = process_text_verify(content, key2, &signature, TextSignFormat::Blake3).unwrap();
    assert!(!verified);
}

#[test]
fn test_ed25519_distinct_keys() {
    let content = b"distinct keys";
    let bundle1 = process_text_generate_key(TextSignFormat::Ed25519);
    let bundle2 = process_text_generate_key(TextSignFormat::Ed25519);
    let sk1 = bundle1.get("ed25519.sk").unwrap().clone();
    let pk2 = bundle2.get("ed25519.pk").unwrap().clone();
    let signature = process_text_sign(content, TextSignFormat::Ed25519, &sk1).unwrap();
    let verified =
        process_text_verify(content, &pk2, &signature, TextSignFormat::Ed25519).unwrap();
    assert!(!verified);
}

#[test]
fn test_generate_blake3_single_entry() {
    let bundle = process_text_generate_key(TextSignFormat::Blake3);
    assert_eq!(bundle.entries.len(), 1);
    assert_eq!(bundle.entries[0].name, "blake3.txt");
    assert_eq!(bundle.entries[0].content.len(), 32);
    // two draws from the entropy source all but surely differ
    let other = process_text_generate_key(TextSignFormat::Blake3);
    assert_ne!(bundle.entries[0].content, other.entries[0].content);
}

#[test]
fn test_generate_ed25519_two_entries() {
    let bundle = process_text_generate_key(TextSignFormat::Ed25519);
    assert_eq!(bundle.entries.len(), 2);
    assert_eq!(bundle.entries[0].name, "ed25519.sk");
    assert_eq!(bundle.entries[1].name, "ed25519.pk");
    assert_eq!(bundle.entries[0].content.len(), 32);
    assert_eq!(bundle.entries[1].content.len(), 32);
}

#[test]
fn test_short_key_rejected() {
    let content = b"anything";
    let short_key = [7u8; 20];
    assert_eq!(
        process_text_sign(content, TextSignFormat::Blake3, &short_key),
        Err(TextError::KeyTooShort)
    );
    assert_eq!(
        process_text_sign(content, TextSignFormat::Ed25519, &short_key),
        Err(TextError::KeyTooShort)
    );
    assert_eq!(
        process_text_verify(content, &short_key, &[0u8; 32], TextSignFormat::Blake3),
        Err(TextError::KeyTooShort)
    );
    assert_eq!(
        process_text_verify(content, &short_key, &[0u8; 64], TextSignFormat::Ed25519),
        Err(TextError::KeyTooShort)
    );
}

#[test]
fn test_long_key_truncated() {
    let content = b"prefix only";
    let mut long_key = [0u8; 40];
    for (i, b) in long_key.iter_mut().enumerate() {
        *b = i as u8;
    }
    let prefix: [u8; 32] = long_key[..32].try_into().unwrap();
    for format in [TextSignFormat::Blake3, TextSignFormat::Ed25519] {
        let with_long = process_text_sign(content, format, &long_key).unwrap();
        let with_prefix = process_text_sign(content, format, &prefix).unwrap();
        assert_eq!(with_long, with_prefix);
    }
}

#[test]
fn test_ed25519_short_signature_malformed() {
    let content = b"anything";
    let bundle = process_text_generate_key(TextSignFormat::Ed25519);
    let pk = bundle.get("ed25519.pk").unwrap().clone();
    let short_sig = [0u8; 10];
    assert_eq!(
        process_text_verify(content, &pk, &short_sig, TextSignFormat::Ed25519),
        Err(TextError::MalformedSignature)
    );
}

#[test]
fn test_cross_scheme_signature_rejected() {
    // a signature of one scheme presented to the other fails, rather than
    // silently comparing to false
    let content = b"cross scheme";
    let blake3_sig = process_text_sign(content, TextSignFormat::Blake3, KEY).unwrap();
    let bundle = process_text_generate_key(TextSignFormat::Ed25519);
    let sk = bundle.get("ed25519.sk").unwrap().clone();
    let pk = bundle.get("ed25519.pk").unwrap().clone();
    let ed_sig = process_text_sign(content, TextSignFormat::Ed25519, &sk).unwrap();
    assert_eq!(
        process_text_verify(content, &pk, &blake3_sig, TextSignFormat::Ed25519),
        Err(TextError::MalformedSignature)
    );
    assert_eq!(
        process_text_verify(content, KEY, &ed_sig, TextSignFormat::Blake3),
        Err(TextError::MalformedSignature)
    );
}

#[test]
fn test_blake3_wrong_length_signature_malformed() {
    let content = b"anything";
    let sig_33 = [0u8; 33];
    assert_eq!(
        process_text_verify(content, KEY, &sig_33, TextSignFormat::Blake3),
        Err(TextError::MalformedSignature)
    );
}

#[test]
fn test_ed25519_invalid_public_key() {
    let content = b"anything";
    // find 32 repeated bytes that do not decode to a curve point
    let mut bad: Option<[u8; 32]> = None;
    for b in 0..=255u8 {
        let candidate = [b; 32];
        if ed25519_dalek::VerifyingKey::from_bytes(&candidate).is_err() {
            bad = Some(candidate);
            break;
        }
    }
    let bad = bad.expect("some repeated byte pattern is no curve point");
    assert_eq!(
        process_text_verify(content, &bad, &[0u8; 64], TextSignFormat::Ed25519),
        Err(TextError::InvalidKey)
    );
}

#[test]
fn test_blake3_zero_key_hello() {
    let content = "hello".as_bytes();
    let zero_key = [0u8; 32];
    let first = process_text_sign(content, TextSignFormat::Blake3, &zero_key).unwrap();
    let second = process_text_sign(content, TextSignFormat::Blake3, &zero_key).unwrap();
    assert_eq!(first, second);
    assert_eq!(first.len(), 32);
    assert!(process_text_verify(content, &zero_key, &first, TextSignFormat::Blake3).unwrap());
    let other_key = [0xFFu8; 32];
    assert!(!process_text_verify(content, &other_key, &first, TextSignFormat::Blake3).unwrap());
}

#[test]
fn test_scheme_types_direct() {
    let content = b"direct scheme use";
    let signer = Blake3::new([9u8; 32]);
    let signature = signer.sign(content);
    assert_eq!(signature.len(), 32);
    assert!(signer.verify(content, &signature).unwrap());

    let sk = [3u8; 32];
    let ed_signer = Ed25519Signer::new(&sk);
    let ed_signature = ed_signer.sign(content);
    assert_eq!(ed_signature.len(), 64);
    let bundle = Ed25519Signer::generate();
    assert_eq!(bundle.entries.len(), 2);
    let verifier = Ed25519Verifier::try_new(bundle.entries[1].content.as_slice()).unwrap();
    assert_eq!(verifier.verify(content, &ed_signature), Ok(false));
}

#[test]
fn test_try_new_truncates() {
    let long_key = [5u8; 40];
    let scheme = Blake3::try_new(&long_key).unwrap();
    let exact = Blake3::new([5u8; 32]);
    let content = b"same prefix, same digest";
    assert_eq!(scheme.sign(content), exact.sign(content));
    assert_eq!(
        Blake3::try_new(&[5u8; 31]).err(),
        Some(TextError::KeyTooShort)
    );
    assert_eq!(
        Ed25519Signer::try_new(&[5u8; 31]).err(),
        Some(TextError::KeyTooShort)
    );
    assert_eq!(
        Ed25519Verifier::try_new(&[5u8; 31]).err(),
        Some(TextError::KeyTooShort)
    );
}

#[test]
fn test_validate_prefix() {
    let bytes = [8u8; 40];
    let material = validate(&bytes, 32).unwrap();
    assert_eq!(material.as_bytes(), &bytes[..32]);
    assert_eq!(validate(&bytes, 64).err(), Some(TextError::KeyTooShort));
}

#[test]
fn test_ct_bytes_equal() {
    assert!(ct_bytes_equal(b"abcd", b"abcd"));
    assert!(!ct_bytes_equal(b"abcd", b"abce"));
    assert!(!ct_bytes_equal(b"abcd", b"xbcd"));
    assert!(ct_bytes_equal(b"", b""));
}

#[test]
fn test_bundle_get_absent() {
    let bundle = process_text_generate_key(TextSignFormat::Blake3);
    assert!(bundle.get("ed25519.sk").is_none());
    assert!(bundle.get("").is_none());
}

#[test]
fn test_error_messages() {
    assert_eq!(
        TextError::KeyTooShort.message(),
        "key is shorter than the scheme requires"
    );
    assert_eq!(TextError::UnknownFormat.message(), "unknown signature format");
    assert_ne!(
        TextError::InvalidKey.message(),
        TextError::MalformedSignature.message()
    );
}
