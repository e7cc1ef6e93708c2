use zend::b64::{
    decode_base64, decode_base64_slice, decode_base64_slice_exact, encode_base64, DecodeExactError,
    DecodeSliceError,
};
use zend::keys::{
    ClientSigningKey, EcdsaPublicKeyWrapper, EcdsaSignatureWrapper, SignatureFromBase64Error,
    VerifyingKeyFromBase64Error,
};

fn fixed_key() -> ClientSigningKey {
    let mut bytes = vec![0u8; 32];
    bytes[31] = 1;
    ClientSigningKey::from_bytes(bytes).unwrap()
}

#[test]
fn encode_decode_round_trip() {
    let data = vec![0u8, 1, 2, 250, 251, 252];
    let text = encode_base64(&data);
    assert_eq!(text, "AAEC+vv8");
    let back = decode_base64(&text).unwrap();
    assert_eq!(back, data);
}

#[test]
fn decode_rejects_missing_padding() {
    assert!(decode_base64("YQ").is_err());
    assert_eq!(decode_base64("YQ==").unwrap(), b"a".to_vec());
}

#[test]
fn decode_rejects_garbage() {
    assert!(decode_base64("not base64!").is_err());
}

#[test]
fn decode_slice_fills_prefix() {
    let mut buf = vec![9u8; 8];
    let n = decode_base64_slice("YWJj", &mut buf).unwrap();
    assert_eq!(n, 3);
    assert_eq!(&buf[..3], b"abc");
    assert_eq!(&buf[3..], &[9u8; 5]);
}

#[test]
fn decode_slice_rejects_small_buffer() {
    let mut buf = vec![0u8; 2];
    assert_eq!(
        decode_base64_slice("YWJj", &mut buf),
        Err(DecodeSliceError::OutputSliceTooSmall)
    );
    let mut buf2 = vec![0u8; 2];
    assert_eq!(
        decode_base64_slice("!!", &mut buf2),
        Err(DecodeSliceError::DecodeError)
    );
}

#[test]
fn decode_exact_demands_the_length() {
    let mut buf = vec![0u8; 4];
    assert!(decode_base64_slice_exact("YWJj", 3, &mut buf).is_ok());
    assert_eq!(&buf[..3], b"abc");
    let mut buf2 = vec![0u8; 4];
    assert_eq!(
        decode_base64_slice_exact("YWJj", 4, &mut buf2),
        Err(DecodeExactError::BadLength)
    );
    let mut buf3 = vec![0u8; 4];
    assert_eq!(
        decode_base64_slice_exact("!!", 3, &mut buf3),
        Err(DecodeExactError::DecodeError)
    );
}

#[test]
fn public_key_base64_round_trip() {
    let key = ClientSigningKey::generate();
    let public = key.verifying_key();
    let text = public.to_base64();
    let back = EcdsaPublicKeyWrapper::from_base64(&text).unwrap();
    assert_eq!(back.to_base64(), text);
}

#[test]
fn public_key_rejects_bad_base64_and_bad_point() {
    assert!(matches!(
        EcdsaPublicKeyWrapper::from_base64("@@@"),
        Err(VerifyingKeyFromBase64Error::BytesFromBase64Error)
    ));
    // valid base64 of 33 zero bytes: not a curve point
    let zeros = encode_base64(&[0u8; 33]);
    assert!(matches!(
        EcdsaPublicKeyWrapper::from_base64(&zeros),
        Err(VerifyingKeyFromBase64Error::KeyFromBytesError)
    ));
    // valid base64, wrong length
    let short = encode_base64(&[2u8; 5]);
    assert!(matches!(
        EcdsaPublicKeyWrapper::from_base64(&short),
        Err(VerifyingKeyFromBase64Error::KeyFromBytesError)
    ));
}

#[test]
fn signature_base64_round_trip_and_errors() {
    let key = fixed_key();
    let sig = key.sign_text("hello");
    let text = sig.to_base64();
    let back = EcdsaSignatureWrapper::from_base64(&text).unwrap();
    assert_eq!(back.to_base64(), text);
    assert!(matches!(
        EcdsaSignatureWrapper::from_base64("@@@"),
        Err(SignatureFromBase64Error::BytesFromBase64Error)
    ));
    let zeros = encode_base64(&[0u8; 64]);
    assert!(matches!(
        EcdsaSignatureWrapper::from_base64(&zeros),
        Err(SignatureFromBase64Error::SignatureFromBytesError)
    ));
}

#[test]
fn signing_key_from_bytes_validates() {
    assert!(ClientSigningKey::from_bytes(vec![0u8; 32]).is_none());
    assert!(ClientSigningKey::from_bytes(vec![1u8; 31]).is_none());
    assert!(fixed_key().sign_text("x").to_base64().len() > 0);
}

#[test]
fn signing_is_deterministic_and_verifies() {
    let key = fixed_key();
    let a = key.sign_text("payload");
    let b = key.sign_text("payload");
    assert_eq!(a.to_base64(), b.to_base64());
    let public = key.verifying_key();
    assert!(public.verify_text("payload", &a));
    assert!(!public.verify_text("payloae", &a));
    let other = ClientSigningKey::generate().verifying_key();
    assert!(!other.verify_text("payload", &a));
}
