use vstd::prelude::*;

verus! {

/// Which address field of a request failed to parse.
#[derive(Clone, Copy, Debug, PartialEq, Eq, Structural)]
pub enum AddressField {
    Mint,
    MintAuthority,
    Destination,
    Authority,
    From,
    To,
    Owner,
}

/// A validation or construction failure of one of the request handlers.
///
/// Every variant except `InstructionConstructionFailed` is a caller-input
/// validation failure and maps to HTTP status 400; construction failures
/// map to HTTP status 500.
#[derive(Clone, Copy, Debug, PartialEq, Eq, Structural)]
pub enum ApiError {
    /// A required string field of a sign or verify request is empty.
    MissingFields,
    /// The `from` or `to` field of a native transfer request is empty.
    MissingSolTransferFields,
    /// The `destination`, `mint` or `owner` field of a token transfer
    /// request is empty.
    MissingTokenTransferFields,
    /// The secret key is not valid base-58 text.
    InvalidSecretEncoding,
    /// The secret key does not decode to exactly 32 bytes.
    InvalidSecretKey,
    /// The public key is not valid base-58 text.
    InvalidPublicKeyEncoding,
    /// The public key does not decode to exactly 32 bytes.
    InvalidPublicKeyLength,
    /// The public key bytes do not form a valid curve point.
    InvalidPublicKey,
    /// The signature is not valid base-64 text.
    InvalidSignatureEncoding,
    /// The signature does not decode to exactly 64 bytes.
    InvalidSignatureLength,
    /// The signature bytes are rejected by the signature primitive.
    InvalidSignature,
    /// A byte buffer does not have the length its role requires.
    InvalidLength,
    /// An address field is not base-58 text that decodes to 32 bytes.
    InvalidAddress(AddressField),
    /// A transfer amount is zero where a positive quantity is required.
    InvalidAmount,
    /// The underlying protocol library rejected the instruction inputs.
    InstructionConstructionFailed,
}

impl ApiError {
    /// The human-readable message reported to the caller for this failure.
    pub fn message(&self) -> (r: String)
        ensures
            r@ == self.message_spec(),
    {
        match self {
            ApiError::MissingFields => "Missing required fields".to_owned(),
            ApiError::MissingSolTransferFields => "Missing required fields: from and to addresses are required".to_owned(),
            ApiError::MissingTokenTransferFields => "Missing required fields: destination, mint, and owner addresses are required".to_owned(),
            ApiError::InvalidSecretEncoding => "Invalid base58 encoding for secret key".to_owned(),
            ApiError::InvalidSecretKey => "Secret key must be exactly 32 bytes".to_owned(),
            ApiError::InvalidPublicKeyEncoding => "Invalid base58 encoding for public key".to_owned(),
            ApiError::InvalidPublicKeyLength => "Public key must be exactly 32 bytes".to_owned(),
            ApiError::InvalidPublicKey => "Invalid public key".to_owned(),
            ApiError::InvalidSignatureEncoding => "Invalid base64 encoding for signature".to_owned(),
            ApiError::InvalidSignatureLength => "Signature must be exactly 64 bytes".to_owned(),
            ApiError::InvalidSignature => "Invalid signature".to_owned(),
            ApiError::InvalidLength => "Invalid length".to_owned(),
            ApiError::InvalidAddress(AddressField::Mint) => "Invalid `mint` address".to_owned(),
            ApiError::InvalidAddress(AddressField::MintAuthority) => "Invalid `mintAuthority` address".to_owned(),
            ApiError::InvalidAddress(AddressField::Destination) => "Invalid `destination` address".to_owned(),
            ApiError::InvalidAddress(AddressField::Authority) => "Invalid `authority` address".to_owned(),
            ApiError::InvalidAddress(AddressField::From) => "Invalid `from` address".to_owned(),
            ApiError::InvalidAddress(AddressField::To) => "Invalid `to` address".to_owned(),
            ApiError::InvalidAddress(AddressField::Owner) => "Invalid `owner` address".to_owned(),
            ApiError::InvalidAmount => "Amount must be greater than 0".to_owned(),
            ApiError::InstructionConstructionFailed => "Failed to construct instruction".to_owned(),
        }
    }

    /// The message of each failure, as a specification-level value.
    pub open spec fn message_spec(&self) -> Seq<char> {
        match self {
            ApiError::MissingFields => "Missing required fields"@,
            ApiError::MissingSolTransferFields => "Missing required fields: from and to addresses are required"@,
            ApiError::MissingTokenTransferFields => "Missing required fields: destination, mint, and owner addresses are required"@,
            ApiError::InvalidSecretEncoding => "Invalid base58 encoding for secret key"@,
            ApiError::InvalidSecretKey => "Secret key must be exactly 32 bytes"@,
            ApiError::InvalidPublicKeyEncoding => "Invalid base58 encoding for public key"@,
            ApiError::InvalidPublicKeyLength => "Public key must be exactly 32 bytes"@,
            ApiError::InvalidPublicKey => "Invalid public key"@,
            ApiError::InvalidSignatureEncoding => "Invalid base64 encoding for signature"@,
            ApiError::InvalidSignatureLength => "Signature must be exactly 64 bytes"@,
            ApiError::InvalidSignature => "Invalid signature"@,
            ApiError::InvalidLength => "Invalid length"@,
            ApiError::InvalidAddress(AddressField::Mint) => "Invalid `mint` address"@,
            ApiError::InvalidAddress(AddressField::MintAuthority) => "Invalid `mintAuthority` address"@,
            ApiError::InvalidAddress(AddressField::Destination) => "Invalid `destination` address"@,
            ApiError::InvalidAddress(AddressField::Authority) => "Invalid `authority` address"@,
            ApiError::InvalidAddress(AddressField::From) => "Invalid `from` address"@,
            ApiError::InvalidAddress(AddressField::To) => "Invalid `to` address"@,
            ApiError::InvalidAddress(AddressField::Owner) => "Invalid `owner` address"@,
            ApiError::InvalidAmount => "Amount must be greater than 0"@,
            ApiError::InstructionConstructionFailed => "Failed to construct instruction"@,
        }
    }

    /// The HTTP status that reports this failure: 500 for construction
    /// failures, 400 for every caller-input validation failure.
    pub fn status_code(&self) -> (r: u16)
        ensures
            r == (if self is InstructionConstructionFailed { 500u16 } else { 400u16 }),
    {
        match self {
            ApiError::InstructionConstructionFailed => 500,
            _ => 400,
        }
    }
}

/// The success envelope every handler wraps its payload in.
pub struct SuccessResponse<T> {
    pub success: bool,
    pub data: T,
}

/// The failure envelope: `success` false and a human-readable message.
pub struct ErrorResponse {
    pub success: bool,
    pub error: String,
}

/// Wraps a handler payload in the success envelope.
pub fn success_response<T>(data: T) -> (r: SuccessResponse<T>)
    ensures
        r.success == true,
        r.data == data,
{
    SuccessResponse { success: true, data }
}

/// Wraps a failure in the error envelope, with its message.
pub fn error_response(err: &ApiError) -> (r: ErrorResponse)
    ensures
        r.success == false,
        r.error@ == err.message_spec(),
{
    ErrorResponse { success: false, error: err.message() }
}

} // verus!
