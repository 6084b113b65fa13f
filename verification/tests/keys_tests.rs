use solkit::errors::ApiError;
use solkit::keys::{
    generate_keypair, generate_pubkey_only, generated_keypair_decodes_consistently, sign_message,
    sign_then_verify, verify_message, SignRequest, VerifyRequest,
};

const KNOWN_SEED_B58: &str = "6AoKS5iPKnvmJrknxwLPvHMcMR8jPxQVqT5wbrUnJNQz";
const KNOWN_PUBKEY_B58: &str = "586Z7H2vpX9qNhN2T4e9Utugie3ogjbxzGaMtM3E6HR5";
const KNOWN_SIG_R_B64: &str =
    "kqAJqfDUyrhyDoILX2QlQKKye1QWUD+Ps3YiI+vbadoIWsHkPhWZbkWPNhPQ8R2MOHsurrQwKu6wDSkWErsMAA==";

fn sign(message: &str, secret: &str) -> Result<solkit::keys::SignResponse, ApiError> {
    sign_message(&SignRequest { message: message.to_string(), secret: secret.to_string() })
}

fn verify(message: &str, signature: &str, pubkey: &str) -> Result<solkit::keys::VerifyResponse, ApiError> {
    verify_message(&VerifyRequest {
        message: message.to_string(),
        signature: signature.to_string(),
        pubkey: pubkey.to_string(),
    })
}

#[test]
fn generated_keypair_is_well_formed_and_consistent() {
    let resp = generate_keypair();
    let secret = bs58::decode(&resp.secret).into_vec().unwrap();
    let pubkey = bs58::decode(&resp.pubkey).into_vec().unwrap();
    assert_eq!(secret.len(), 64);
    assert_eq!(pubkey.len(), 32);
    // The second half of the combined form is the public key itself.
    assert_eq!(&secret[32..], pubkey.as_slice());
}

#[test]
fn public_key_rederived_from_seed_matches_generated() {
    let resp = generate_keypair();
    let secret = bs58::decode(&resp.secret).into_vec().unwrap();
    let seed_b58 = bs58::encode(&secret[..32]).into_string();
    let signed = sign("check", &seed_b58).unwrap();
    assert_eq!(signed.public_key, resp.pubkey);
}

#[test]
fn generated_keypair_decode_consistency_law_holds() {
    assert!(generated_keypair_decodes_consistently());
}

#[test]
fn generated_keypairs_do_not_repeat() {
    let a = generate_keypair();
    let b = generate_keypair();
    assert_ne!(a.pubkey, b.pubkey);
    assert_ne!(a.secret, b.secret);
}

#[test]
fn pubkey_only_is_base58_of_32_bytes() {
    let pubkey = generate_pubkey_only();
    let bytes = bs58::decode(&pubkey).into_vec().unwrap();
    assert_eq!(bytes.len(), 32);
}

#[test]
fn signing_known_seed_gives_known_signature() {
    let resp = sign("r", KNOWN_SEED_B58).unwrap();
    assert_eq!(resp.signature, KNOWN_SIG_R_B64);
    assert_eq!(resp.public_key, KNOWN_PUBKEY_B58);
    assert_eq!(resp.message, "r");
}

#[test]
fn signing_hello_is_deterministic_and_verifies() {
    let first = sign("hello", KNOWN_SEED_B58).unwrap();
    let second = sign("hello", KNOWN_SEED_B58).unwrap();
    assert_eq!(first.signature, second.signature);
    let sig_bytes = base64::Engine::decode(
        &base64::engine::general_purpose::STANDARD,
        &first.signature,
    )
    .unwrap();
    assert_eq!(sig_bytes.len(), 64);
    let ok = verify("hello", &first.signature, &first.public_key).unwrap();
    assert!(ok.valid);
    let wrong = verify("hellp", &first.signature, &first.public_key).unwrap();
    assert!(!wrong.valid);
}

#[test]
fn sign_then_verify_law_holds_on_concrete_values() {
    let r = sign_then_verify(&"hello".to_string(), &KNOWN_SEED_B58.to_string());
    assert_eq!(r, Some(true));
    let rejected = sign_then_verify(&"".to_string(), &KNOWN_SEED_B58.to_string());
    assert_eq!(rejected, None);
}

#[test]
fn flipped_signature_bit_fails_verification_without_error() {
    let signed = sign("hello", KNOWN_SEED_B58).unwrap();
    let engine = base64::engine::general_purpose::STANDARD;
    let mut sig = base64::Engine::decode(&engine, &signed.signature).unwrap();
    // Flip the lowest bit of the first byte: lengths stay 64/32.
    sig[0] ^= 1;
    let tampered = base64::Engine::encode(&engine, &sig);
    let resp = verify("hello", &tampered, &signed.public_key).unwrap();
    assert!(!resp.valid);
}

#[test]
fn flipped_low_bit_in_scalar_half_fails_verification_without_error() {
    let signed = sign("hello", KNOWN_SEED_B58).unwrap();
    let engine = base64::engine::general_purpose::STANDARD;
    let mut sig = base64::Engine::decode(&engine, &signed.signature).unwrap();
    sig[63] ^= 1;
    let tampered = base64::Engine::encode(&engine, &sig);
    let resp = verify("hello", &tampered, &signed.public_key).unwrap();
    assert!(!resp.valid);
}

#[test]
fn sign_rejects_missing_fields() {
    assert_eq!(sign("", KNOWN_SEED_B58), Err(ApiError::MissingFields));
    assert_eq!(sign("hello", ""), Err(ApiError::MissingFields));
    assert_eq!(ApiError::MissingFields.message(), "Missing required fields");
    assert_eq!(ApiError::MissingFields.status_code(), 400);
}

#[test]
fn sign_rejects_bad_secret_encoding() {
    assert_eq!(sign("hello", "!!not-base58"), Err(ApiError::InvalidSecretEncoding));
    assert_eq!(
        ApiError::InvalidSecretEncoding.message(),
        "Invalid base58 encoding for secret key"
    );
}

#[test]
fn sign_rejects_wrong_secret_length() {
    let thirty_one = bs58::encode(vec![7u8; 31]).into_string();
    assert_eq!(sign("hello", &thirty_one), Err(ApiError::InvalidSecretKey));
    let sixty_four = bs58::encode(vec![7u8; 64]).into_string();
    assert_eq!(sign("hello", &sixty_four), Err(ApiError::InvalidSecretKey));
    assert_eq!(ApiError::InvalidSecretKey.message(), "Secret key must be exactly 32 bytes");
}

#[test]
fn verify_rejects_missing_fields() {
    assert_eq!(verify("", "sig", "key"), Err(ApiError::MissingFields));
    assert_eq!(verify("m", "", "key"), Err(ApiError::MissingFields));
    assert_eq!(verify("m", "sig", ""), Err(ApiError::MissingFields));
}

#[test]
fn verify_rejects_bad_pubkey_encoding_and_length() {
    let signed = sign("hello", KNOWN_SEED_B58).unwrap();
    assert_eq!(
        verify("hello", &signed.signature, "!!bad"),
        Err(ApiError::InvalidPublicKeyEncoding)
    );
    let thirty_one = bs58::encode(vec![7u8; 31]).into_string();
    assert_eq!(
        verify("hello", &signed.signature, &thirty_one),
        Err(ApiError::InvalidPublicKeyLength)
    );
    let thirty_three = bs58::encode(vec![8u8; 33]).into_string();
    assert_eq!(
        verify("hello", &signed.signature, &thirty_three),
        Err(ApiError::InvalidPublicKeyLength)
    );
    assert_eq!(
        ApiError::InvalidPublicKeyLength.message(),
        "Public key must be exactly 32 bytes"
    );
}

#[test]
fn verify_rejects_non_decompressing_pubkey() {
    // The y-coordinate 2 is not on the curve, so these 32 bytes do not
    // decompress to a valid point.
    let mut bad = vec![0u8; 32];
    bad[0] = 2;
    let bad_point = bs58::encode(bad).into_string();
    let signed = sign("hello", KNOWN_SEED_B58).unwrap();
    assert_eq!(
        verify("hello", &signed.signature, &bad_point),
        Err(ApiError::InvalidPublicKey)
    );
}

#[test]
fn verify_rejects_bad_signature_encoding_and_length() {
    assert_eq!(
        verify("hello", "%%%not-base64", KNOWN_PUBKEY_B58),
        Err(ApiError::InvalidSignatureEncoding)
    );
    let engine = base64::engine::general_purpose::STANDARD;
    let short = base64::Engine::encode(&engine, vec![1u8; 63]);
    assert_eq!(
        verify("hello", &short, KNOWN_PUBKEY_B58),
        Err(ApiError::InvalidSignatureLength)
    );
    assert_eq!(
        ApiError::InvalidSignatureLength.message(),
        "Signature must be exactly 64 bytes"
    );
}

#[test]
fn verify_rejects_malformed_padding() {
    // 64 bytes encode to 88 characters ending in "=="; stripping the
    // padding makes the text malformed for the padded standard engine.
    let signed = sign("hello", KNOWN_SEED_B58).unwrap();
    let unpadded = signed.signature.trim_end_matches('=').to_string();
    assert_eq!(
        verify("hello", &unpadded, &signed.public_key),
        Err(ApiError::InvalidSignatureEncoding)
    );
}

#[test]
fn verify_rejects_out_of_range_scalar() {
    let signed = sign("hello", KNOWN_SEED_B58).unwrap();
    let engine = base64::engine::general_purpose::STANDARD;
    let mut sig = base64::Engine::decode(&engine, &signed.signature).unwrap();
    // Setting a top bit of the last byte makes the scalar half fail the
    // range check of the signature primitive.
    sig[63] |= 0x80;
    let tampered = base64::Engine::encode(&engine, &sig);
    assert_eq!(
        verify("hello", &tampered, &signed.public_key),
        Err(ApiError::InvalidSignature)
    );
}

#[test]
fn verify_against_wrong_key_returns_false_not_error() {
    let signed = sign("hello", KNOWN_SEED_B58).unwrap();
    let other = generate_keypair();
    let resp = verify("hello", &signed.signature, &other.pubkey).unwrap();
    assert!(!resp.valid);
    assert_eq!(resp.message, "hello");
    assert_eq!(resp.pubkey, other.pubkey);
}
