use vstd::prelude::*;
use vstd::string::StringSliceAdditionalSpecFns;
use vstd::utf8::encode_utf8;
use crate::codec::{
    base58_of, base58_bytes, base64_of, base64_bytes, decode_base58, decode_base64, encode_base58,
    encode_base64,
};
use crate::errors::ApiError;

verus! {

/// The public key that Ed25519 key derivation produces from a 32-byte
/// seed.  A function of the seed alone; only the name is stated here.
pub uninterp spec fn ed25519_derive(seed: Seq<u8>) -> Seq<u8>;

/// The signature that Ed25519 produces for a seed and a message.
/// Ed25519 signing is deterministic, so this is a function of the two
/// arguments alone.
pub uninterp spec fn ed25519_signature(seed: Seq<u8>, message: Seq<u8>) -> Seq<u8>;

/// Whether 32 public-key bytes decompress to a valid curve point, the
/// acceptance test `ed25519_dalek::PublicKey::from_bytes` applies.
pub uninterp spec fn ed25519_point_decompresses(public: Seq<u8>) -> bool;

/// Whether 64 signature bytes pass the scalar-range check that
/// `ed25519::Signature::from_bytes` applies.
pub uninterp spec fn ed25519_sig_decodes(signature: Seq<u8>) -> bool;

/// The outcome of Ed25519 verification for a message, 64 signature
/// bytes and 32 public-key bytes: deterministic in all three.
pub uninterp spec fn ed25519_accepts(message: Seq<u8>, signature: Seq<u8>, public: Seq<u8>) -> bool;

/// Relies on `ed25519_dalek::Keypair::generate`: draws a fresh 32-byte
/// seed from the operating-system entropy source and derives the public
/// key from that seed, so the two halves of the result are related by
/// derivation whatever seed was drawn.
#[verifier::external_body]
fn keypair_generate() -> (r: (Vec<u8>, Vec<u8>))
    ensures
        r.0@.len() == 32,
        r.1@.len() == 32,
        r.1@ == ed25519_derive(r.0@),
{
    let mut csprng = rand::rngs::OsRng;
    let kp = ed25519_dalek::Keypair::generate(&mut csprng);
    (kp.secret.to_bytes().to_vec(), kp.public.to_bytes().to_vec())
}

/// Relies on `ed25519_dalek::PublicKey::from(&SecretKey)`: derives the
/// 32-byte public key from a 32-byte seed; the result always
/// decompresses, being a compressed point by construction.
#[verifier::external_body]
fn derive_public_key(seed: &Vec<u8>) -> (r: Vec<u8>)
    requires
        seed@.len() == 32,
    ensures
        r@ == ed25519_derive(seed@),
        r@.len() == 32,
        ed25519_point_decompresses(r@),
{
    let secret = ed25519_dalek::SecretKey::from_bytes(seed.as_slice()).unwrap();
    let public = ed25519_dalek::PublicKey::from(&secret);
    public.to_bytes().to_vec()
}

/// Relies on `ed25519_dalek::ExpandedSecretKey::sign`: the
/// deterministic 64-byte Ed25519 signature over the raw message bytes.
/// Per RFC 8032 the scalar half of a produced signature is reduced, so
/// it passes the decode check, and the signature verifies against the
/// message under the public key derived from the seed.
#[verifier::external_body]
fn sign_with_seed(seed: &Vec<u8>, message: &Vec<u8>) -> (r: Vec<u8>)
    requires
        seed@.len() == 32,
    ensures
        r@ == ed25519_signature(seed@, message@),
        r@.len() == 64,
        ed25519_sig_decodes(r@),
        ed25519_accepts(message@, r@, ed25519_derive(seed@)),
{
    let secret = ed25519_dalek::SecretKey::from_bytes(seed.as_slice()).unwrap();
    let public = ed25519_dalek::PublicKey::from(&secret);
    let expanded = ed25519_dalek::ExpandedSecretKey::from(&secret);
    let sig = expanded.sign(message.as_slice(), &public);
    sig.to_bytes().to_vec()
}

/// Relies on `ed25519_dalek::PublicKey::from_bytes`: with 32 bytes it
/// fails exactly when the compressed point does not decompress.
#[verifier::external_body]
fn public_key_decompresses(public: &Vec<u8>) -> (r: bool)
    requires
        public@.len() == 32,
    ensures
        r == ed25519_point_decompresses(public@),
{
    ed25519_dalek::PublicKey::from_bytes(public.as_slice()).is_ok()
}

/// Relies on `ed25519::Signature::from_bytes`: with 64 bytes it fails
/// exactly when the scalar half fails the range check.
#[verifier::external_body]
fn signature_decodes(signature: &Vec<u8>) -> (r: bool)
    requires
        signature@.len() == 64,
    ensures
        r == ed25519_sig_decodes(signature@),
{
    ed25519_dalek::Signature::from_bytes(signature.as_slice()).is_ok()
}

/// Relies on `ed25519_dalek::PublicKey::verify`: the deterministic
/// verification outcome for the message, signature and public key.  A
/// failed verification is a `false` result, not an error.
#[verifier::external_body]
fn verify_signature(message: &Vec<u8>, signature: &Vec<u8>, public: &Vec<u8>) -> (r: bool)
    requires
        public@.len() == 32,
        ed25519_point_decompresses(public@),
        signature@.len() == 64,
        ed25519_sig_decodes(signature@),
    ensures
        r == ed25519_accepts(message@, signature@, public@),
{
    let pk = ed25519_dalek::PublicKey::from_bytes(public.as_slice()).unwrap();
    let sig = ed25519_dalek::Signature::from_bytes(signature.as_slice()).unwrap();
    ed25519_dalek::Verifier::verify(&pk, message.as_slice(), &sig).is_ok()
}

/// A freshly generated keypair: the public key and the 64-byte
/// seed-then-public combined form, both base-58 encoded.  The raw
/// secret is emitted to the caller and not retained.
#[derive(Debug, PartialEq, Eq)]
pub struct KeypairResponse {
    pub pubkey: String,
    pub secret: String,
}

/// A failure of keypair validation, carrying its human-readable message.
#[derive(Debug)]
pub struct KeypairGenerationError {
    message: String,
}

impl KeypairGenerationError {
    /// The message of this failure, as a specification-level value.
    pub closed spec fn message_spec(&self) -> Seq<char> {
        self.message@
    }

    /// The human-readable message of this failure.
    pub fn message(&self) -> (r: String)
        ensures
            r@ == self.message_spec(),
    {
        self.message.clone()
    }
}

/// Generates a fresh Ed25519 keypair.  The response holds the base-58
/// public key and the base-58 encoding of the 64-byte combined form,
/// whose first half is the seed and whose second half is the public key
/// derived from that seed.  Both encodings are lossless: each field
/// decodes back to exactly the bytes it encodes, 32 for the public key
/// and 64 for the combined form.
pub fn generate_keypair() -> (r: KeypairResponse)
    ensures
        exists|seed: Seq<u8>|
            {
                &&& seed.len() == 32
                &&& (#[trigger] ed25519_derive(seed)).len() == 32
                &&& r.pubkey@ == base58_of(ed25519_derive(seed))
                &&& r.secret@ == base58_of(seed + ed25519_derive(seed))
                &&& base58_bytes(r.pubkey@) == Some(ed25519_derive(seed))
                &&& base58_bytes(r.secret@) == Some(seed + ed25519_derive(seed))
            },
{
    let (seed, public) = keypair_generate();
    let ghost seed_view = seed@;
    let pubkey = encode_base58(&public);
    let mut combined = seed;
    let mut tail = public;
    combined.append(&mut tail);
    let secret = encode_base58(&combined);
    proof {
        assert(combined@ == seed_view + ed25519_derive(seed_view));
    }
    KeypairResponse { pubkey, secret }
}

/// Law: the fields of a freshly generated keypair decode losslessly
/// and consistently: the secret to 64 bytes, the public key to 32, and
/// the second half of the decoded secret is exactly the decoded public
/// key — the key re-derived from the seed at generation time.
pub fn generated_keypair_decodes_consistently() -> (r: bool)
    ensures
        r,
{
    let resp = generate_keypair();
    let ghost seed = choose|seed: Seq<u8>|
        {
            &&& seed.len() == 32
            &&& (#[trigger] ed25519_derive(seed)).len() == 32
            &&& resp.pubkey@ == base58_of(ed25519_derive(seed))
            &&& resp.secret@ == base58_of(seed + ed25519_derive(seed))
            &&& base58_bytes(resp.pubkey@) == Some(ed25519_derive(seed))
            &&& base58_bytes(resp.secret@) == Some(seed + ed25519_derive(seed))
        };
    let secret_bytes = match decode_base58(resp.secret.as_str()) {
        Ok(v) => v,
        Err(()) => {
            proof {
                assert(false);
            }
            return false;
        },
    };
    let pubkey_bytes = match decode_base58(resp.pubkey.as_str()) {
        Ok(v) => v,
        Err(()) => {
            proof {
                assert(false);
            }
            return false;
        },
    };
    proof {
        assert(secret_bytes@ == seed + ed25519_derive(seed));
        assert(pubkey_bytes@ == ed25519_derive(seed));
        assert(secret_bytes@.subrange(32, 64) =~= pubkey_bytes@);
    }
    if secret_bytes.len() != 64 || pubkey_bytes.len() != 32 {
        proof {
            assert(false);
        }
        return false;
    }
    let mut i: usize = 0;
    while i < 32
        invariant
            i <= 32,
            secret_bytes@.len() == 64,
            pubkey_bytes@.len() == 32,
            secret_bytes@.subrange(32, 64) == pubkey_bytes@,
        decreases 32 - i,
    {
        if secret_bytes[32 + i] != pubkey_bytes[i] {
            proof {
                assert(secret_bytes@.subrange(32, 64)[i as int] == secret_bytes@[32 + i as int]);
                assert(false);
            }
            return false;
        }
        i = i + 1;
    }
    true
}

/// Generates a fresh Ed25519 keypair and returns only the base-58
/// public key, which decodes back to exactly the 32 derived bytes.
pub fn generate_pubkey_only() -> (r: String)
    ensures
        exists|seed: Seq<u8>|
            {
                &&& seed.len() == 32
                &&& (#[trigger] ed25519_derive(seed)).len() == 32
                &&& r@ == base58_of(ed25519_derive(seed))
                &&& base58_bytes(r@) == Some(ed25519_derive(seed))
            },
{
    let (seed, public) = keypair_generate();
    encode_base58(&public)
}

/// Checks that a piece of text is the base-58 encoding of a 64-byte
/// combined keypair.
pub fn validate_keypair_format(keypair_str: &str) -> (r: Result<(), KeypairGenerationError>)
    ensures
        r is Ok <==> (base58_bytes(keypair_str@) matches Some(b) && b.len() == 64),
        r matches Err(e) ==> e.message_spec() == (if base58_bytes(keypair_str@) is None {
            "Invalid base58 encoding"@
        } else {
            "Invalid keypair length. Expected 64 bytes."@
        }),
{
    match decode_base58(keypair_str) {
        Ok(bytes) => {
            if bytes.len() != 64 {
                Err(KeypairGenerationError {
                    message: "Invalid keypair length. Expected 64 bytes.".to_owned(),
                })
            } else {
                Ok(())
            }
        },
        Err(()) => Err(KeypairGenerationError { message: "Invalid base58 encoding".to_owned() }),
    }
}

/// A request to sign `message` with a base-58 32-byte secret seed.
#[derive(Debug, PartialEq, Eq)]
pub struct SignRequest {
    pub message: String,
    pub secret: String,
}

/// A produced signature: base-64 signature bytes, the base-58 public
/// key re-derived from the seed, and the message signed.
#[derive(Debug, PartialEq, Eq)]
pub struct SignResponse {
    pub signature: String,
    pub public_key: String,
    pub message: String,
}

/// Signs the message of the request with the seed decoded from its
/// `secret` field.  The public key of the response is re-derived from
/// the seed, never taken from caller input, and the signature is the
/// deterministic Ed25519 signature over the raw message bytes.
pub fn sign_message(req: &SignRequest) -> (r: Result<SignResponse, ApiError>)
    ensures
        (req.message@.len() == 0 || req.secret@.len() == 0) ==> r == Err::<
            SignResponse,
            ApiError,
        >(ApiError::MissingFields),
        (req.message@.len() > 0 && req.secret@.len() > 0) ==> match base58_bytes(req.secret@) {
            Option::None => r == Err::<SignResponse, ApiError>(ApiError::InvalidSecretEncoding),
            Option::Some(seed) => if seed.len() != 32 {
                r == Err::<SignResponse, ApiError>(ApiError::InvalidSecretKey)
            } else {
                r matches Ok(resp) && {
                    let msg = encode_utf8(req.message@);
                    let sig = ed25519_signature(seed, msg);
                    let public = ed25519_derive(seed);
                    &&& resp.message@ == req.message@
                    &&& resp.public_key@ == base58_of(public)
                    &&& resp.signature@ == base64_of(sig)
                    &&& base58_bytes(resp.public_key@) == Some(public)
                    &&& base64_bytes(resp.signature@) == Some(sig)
                    &&& resp.public_key@.len() > 0
                    &&& resp.signature@.len() > 0
                    &&& sig.len() == 64
                    &&& public.len() == 32
                    &&& ed25519_sig_decodes(sig)
                    &&& ed25519_point_decompresses(public)
                    &&& ed25519_accepts(msg, sig, public)
                }
            },
        },
{
    if req.message.as_str().is_empty() || req.secret.as_str().is_empty() {
        return Err(ApiError::MissingFields);
    }
    let seed = match decode_base58(req.secret.as_str()) {
        Ok(v) => v,
        Err(()) => {
            return Err(ApiError::InvalidSecretEncoding);
        },
    };
    if seed.len() != 32 {
        return Err(ApiError::InvalidSecretKey);
    }
    let message_bytes = vstd::slice::slice_to_vec(req.message.as_str().as_bytes());
    let public = derive_public_key(&seed);
    let signature_bytes = sign_with_seed(&seed, &message_bytes);
    let signature = encode_base64(&signature_bytes);
    let public_key = encode_base58(&public);
    Ok(SignResponse { signature, public_key, message: req.message.clone() })
}

/// A request to verify a base-64 signature over `message` against a
/// base-58 public key.
#[derive(Debug, PartialEq, Eq)]
pub struct VerifyRequest {
    pub message: String,
    pub signature: String,
    pub pubkey: String,
}

/// A verification outcome.  `valid` false means a well-formed signature
/// that does not match; malformed input never reaches this type.
#[derive(Debug, PartialEq, Eq)]
pub struct VerifyResponse {
    pub valid: bool,
    pub message: String,
    pub pubkey: String,
}

/// The validation failure a verify request runs into, or `None` where
/// every field is well-formed.  Checks run in this order: empty fields,
/// public-key base-58 decode, public-key length, point decompression,
/// signature base-64 decode, signature length, scalar range.
pub open spec fn verify_rejection(message: Seq<char>, signature: Seq<char>, pubkey: Seq<char>) -> Option<
    ApiError,
> {
    if message.len() == 0 || signature.len() == 0 || pubkey.len() == 0 {
        Some(ApiError::MissingFields)
    } else {
        match base58_bytes(pubkey) {
            Option::None => Some(ApiError::InvalidPublicKeyEncoding),
            Option::Some(pk) => if pk.len() != 32 {
                Some(ApiError::InvalidPublicKeyLength)
            } else if !ed25519_point_decompresses(pk) {
                Some(ApiError::InvalidPublicKey)
            } else {
                match base64_bytes(signature) {
                    Option::None => Some(ApiError::InvalidSignatureEncoding),
                    Option::Some(sig) => if sig.len() != 64 {
                        Some(ApiError::InvalidSignatureLength)
                    } else if !ed25519_sig_decodes(sig) {
                        Some(ApiError::InvalidSignature)
                    } else {
                        None
                    },
                }
            },
        }
    }
}

/// Verifies the signature of the request.  Malformed input is an error;
/// a mismatched signature is a successful call whose `valid` is false.
pub fn verify_message(req: &VerifyRequest) -> (r: Result<VerifyResponse, ApiError>)
    ensures
        match verify_rejection(req.message@, req.signature@, req.pubkey@) {
            Option::Some(e) => r == Err::<VerifyResponse, ApiError>(e),
            Option::None => r matches Ok(resp) && {
                let pk = base58_bytes(req.pubkey@)->Some_0;
                let sig = base64_bytes(req.signature@)->Some_0;
                &&& resp.valid == ed25519_accepts(encode_utf8(req.message@), sig, pk)
                &&& resp.message@ == req.message@
                &&& resp.pubkey@ == req.pubkey@
            },
        },
{
    if req.message.as_str().is_empty() || req.signature.as_str().is_empty()
        || req.pubkey.as_str().is_empty() {
        return Err(ApiError::MissingFields);
    }
    let public = match decode_base58(req.pubkey.as_str()) {
        Ok(v) => v,
        Err(()) => {
            return Err(ApiError::InvalidPublicKeyEncoding);
        },
    };
    if public.len() != 32 {
        return Err(ApiError::InvalidPublicKeyLength);
    }
    if !public_key_decompresses(&public) {
        return Err(ApiError::InvalidPublicKey);
    }
    let signature = match decode_base64(req.signature.as_str()) {
        Ok(v) => v,
        Err(()) => {
            return Err(ApiError::InvalidSignatureEncoding);
        },
    };
    if signature.len() != 64 {
        return Err(ApiError::InvalidSignatureLength);
    }
    if !signature_decodes(&signature) {
        return Err(ApiError::InvalidSignature);
    }
    let message_bytes = vstd::slice::slice_to_vec(req.message.as_str().as_bytes());
    let valid = verify_signature(&message_bytes, &signature, &public);
    Ok(VerifyResponse { valid, message: req.message.clone(), pubkey: req.pubkey.clone() })
}

/// Law: a signature produced by `sign_message` verifies as valid
/// against the same message and the public key the signer returned.
/// The call returns `None` exactly where signing itself rejects the
/// input, and never `Some(false)`.
pub fn sign_then_verify(message: &String, secret: &String) -> (r: Option<bool>)
    ensures
        r matches Some(v) ==> v,
        r is None <==> (message@.len() == 0 || secret@.len() == 0 || match base58_bytes(
            secret@,
        ) {
            Option::None => true,
            Option::Some(seed) => seed.len() != 32,
        }),
{
    let sign_req = SignRequest { message: message.clone(), secret: secret.clone() };
    let signed = match sign_message(&sign_req) {
        Ok(resp) => resp,
        Err(_) => {
            return None;
        },
    };
    let verify_req = VerifyRequest {
        message: message.clone(),
        signature: signed.signature,
        pubkey: signed.public_key,
    };
    match verify_message(&verify_req) {
        Ok(resp) => Some(resp.valid),
        Err(_) => {
            proof {
                assert(false);
            }
            None
        },
    }
}

} // verus!
