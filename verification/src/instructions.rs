use vstd::prelude::*;
use crate::codec::{base58_of, base58_bytes, base64_of, decode_base58, encode_base58, encode_base64};
use crate::errors::{AddressField, ApiError};
use solana_program::pubkey::Pubkey;

verus! {

/// The eight bytes of a 64-bit value in little-endian order, the order
/// the instruction payloads below use.
pub open spec fn u64_le_bytes(x: u64) -> Seq<u8> {
    seq![
        (x & 0xff) as u8,
        ((x >> 8) & 0xff) as u8,
        ((x >> 16) & 0xff) as u8,
        ((x >> 24) & 0xff) as u8,
        ((x >> 32) & 0xff) as u8,
        ((x >> 40) & 0xff) as u8,
        ((x >> 48) & 0xff) as u8,
        ((x >> 56) & 0xff) as u8,
    ]
}

/// The 32 bytes of the spl-token program id, the address the textual
/// form `TokenkegQfeZyiNwAJbNbGKPFXCWuBvf9Ss623VQ5DA` decodes to.
pub open spec fn token_program_id_bytes() -> Seq<u8> {
    seq![
        6u8, 221, 246, 225, 215, 101, 161, 147, 217, 203, 225, 70, 206, 235, 121, 172, 28, 180,
        133, 237, 95, 91, 55, 145, 58, 140, 245, 133, 126, 255, 0, 169,
    ]
}

/// The 32 bytes of the rent sysvar address, the address the textual
/// form `SysvarRent111111111111111111111111111111111` decodes to.
pub open spec fn rent_sysvar_id_bytes() -> Seq<u8> {
    seq![
        6u8, 167, 213, 23, 25, 44, 92, 81, 33, 140, 201, 76, 61, 74, 241, 127, 88, 218, 238, 8,
        155, 161, 253, 68, 227, 219, 217, 138, 0, 0, 0, 0,
    ]
}

/// The 32 bytes of the system program id: all zero, the address whose
/// textual form is `11111111111111111111111111111111`.
pub open spec fn system_program_id_bytes() -> Seq<u8> {
    Seq::new(32, |i: int| 0u8)
}

/// The packed payload of an initialize-mint instruction: the tag, the
/// decimals, the 32 authority bytes, and an empty freeze-authority
/// option.
pub open spec fn initialize_mint_data(decimals: u8, authority: Seq<u8>) -> Seq<u8> {
    seq![0u8, decimals] + authority + seq![0u8]
}

/// The packed payload of a mint-to instruction: the tag and the amount
/// in little-endian order.
pub open spec fn mint_to_data(amount: u64) -> Seq<u8> {
    seq![7u8] + u64_le_bytes(amount)
}

/// The packed payload of a token transfer instruction: the tag and the
/// amount in little-endian order.
pub open spec fn token_transfer_data(amount: u64) -> Seq<u8> {
    seq![3u8] + u64_le_bytes(amount)
}

/// The payload of a native transfer instruction: the transfer variant
/// index as four little-endian bytes, then the lamports in
/// little-endian order.
pub open spec fn system_transfer_data(lamports: u64) -> Seq<u8> {
    seq![2u8, 0u8, 0u8, 0u8] + u64_le_bytes(lamports)
}

/// One account of a constructed instruction: its 32 address bytes and
/// its role flags.
pub struct BuiltAccount {
    pub pubkey: Vec<u8>,
    pub is_signer: bool,
    pub is_writable: bool,
}

/// A constructed instruction as plain bytes: the target program, the
/// ordered account list, and the opaque payload.
pub struct BuiltInstruction {
    pub program_id: Vec<u8>,
    pub accounts: Vec<BuiltAccount>,
    pub data: Vec<u8>,
}

/// An address field parsed as base-58 text that decodes to exactly 32
/// bytes; anything else is rejected, never truncated or padded.
pub open spec fn parsed_address(text: Seq<char>) -> Option<Seq<u8>> {
    match base58_bytes(text) {
        Option::Some(b) => if b.len() == 32 {
            Option::Some(b)
        } else {
            Option::None
        },
        Option::None => Option::None,
    }
}

/// Parses one address string: base-58 decode, then the exact-length
/// check.
fn parse_address(text: &str) -> (r: Result<Vec<u8>, ()>)
    ensures
        match r {
            Ok(v) => parsed_address(text@) == Some(v@) && v@.len() == 32,
            Err(()) => parsed_address(text@) is None,
        },
{
    match decode_base58(text) {
        Ok(v) => if v.len() == 32 {
            Ok(v)
        } else {
            Err(())
        },
        Err(()) => Err(()),
    }
}

/// Relies on `spl_token::instruction::initialize_mint`, called with the
/// spl-token program id, no freeze authority and empty multisig
/// signers: per its source it accepts its own program id and returns
/// the instruction whose data is the packed tag, decimals, authority
/// and empty freeze option, and whose accounts are the writable mint
/// and the read-only rent sysvar.
#[verifier::external_body]
fn spl_initialize_mint(mint: &Vec<u8>, authority: &Vec<u8>, decimals: u8) -> (r: Result<
    BuiltInstruction,
    (),
>)
    requires
        mint@.len() == 32,
        authority@.len() == 32,
    ensures
        r is Ok,
        r matches Ok(ix) ==> {
            &&& ix.program_id@ == token_program_id_bytes()
            &&& ix.data@ == initialize_mint_data(decimals, authority@)
            &&& ix.accounts@.len() == 2
            &&& ix.accounts@[0].pubkey@ == mint@
            &&& ix.accounts@[0].is_signer == false
            &&& ix.accounts@[0].is_writable == true
            &&& ix.accounts@[1].pubkey@ == rent_sysvar_id_bytes()
            &&& ix.accounts@[1].is_signer == false
            &&& ix.accounts@[1].is_writable == false
        },
{
    let m = Pubkey::try_from(mint.as_slice()).unwrap();
    let a = Pubkey::try_from(authority.as_slice()).unwrap();
    match spl_token::instruction::initialize_mint(&spl_token::id(), &m, &a, None, decimals) {
        Ok(ix) => Ok(BuiltInstruction {
            program_id: ix.program_id.to_bytes().to_vec(),
            accounts: ix.accounts.iter().map(|acct| BuiltAccount {
                pubkey: acct.pubkey.to_bytes().to_vec(),
                is_signer: acct.is_signer,
                is_writable: acct.is_writable,
            }).collect(),
            data: ix.data,
        }),
        Err(_) => Err(()),
    }
}

/// Relies on `spl_token::instruction::mint_to`, called with the
/// spl-token program id and empty multisig signers: per its source it
/// accepts its own program id and returns the instruction whose data is
/// the packed tag and little-endian amount, and whose accounts are the
/// writable mint, the writable destination, and the read-only signing
/// authority.
#[verifier::external_body]
fn spl_mint_to(mint: &Vec<u8>, destination: &Vec<u8>, authority: &Vec<u8>, amount: u64) -> (r:
    Result<BuiltInstruction, ()>)
    requires
        mint@.len() == 32,
        destination@.len() == 32,
        authority@.len() == 32,
    ensures
        r is Ok,
        r matches Ok(ix) ==> {
            &&& ix.program_id@ == token_program_id_bytes()
            &&& ix.data@ == mint_to_data(amount)
            &&& ix.accounts@.len() == 3
            &&& ix.accounts@[0].pubkey@ == mint@
            &&& ix.accounts@[0].is_signer == false
            &&& ix.accounts@[0].is_writable == true
            &&& ix.accounts@[1].pubkey@ == destination@
            &&& ix.accounts@[1].is_signer == false
            &&& ix.accounts@[1].is_writable == true
            &&& ix.accounts@[2].pubkey@ == authority@
            &&& ix.accounts@[2].is_signer == true
            &&& ix.accounts@[2].is_writable == false
        },
{
    let m = Pubkey::try_from(mint.as_slice()).unwrap();
    let d = Pubkey::try_from(destination.as_slice()).unwrap();
    let a = Pubkey::try_from(authority.as_slice()).unwrap();
    match spl_token::instruction::mint_to(&spl_token::id(), &m, &d, &a, &[], amount) {
        Ok(ix) => Ok(BuiltInstruction {
            program_id: ix.program_id.to_bytes().to_vec(),
            accounts: ix.accounts.iter().map(|acct| BuiltAccount {
                pubkey: acct.pubkey.to_bytes().to_vec(),
                is_signer: acct.is_signer,
                is_writable: acct.is_writable,
            }).collect(),
            data: ix.data,
        }),
        Err(_) => Err(()),
    }
}

/// Relies on `spl_token::instruction::transfer`, called with the
/// spl-token program id and empty multisig signers: per its source it
/// accepts its own program id and returns the instruction whose data is
/// the packed tag and little-endian amount, and whose accounts are the
/// writable source, the writable destination, and the read-only signing
/// owner.
#[verifier::external_body]
fn spl_token_transfer(source: &Vec<u8>, destination: &Vec<u8>, owner: &Vec<u8>, amount: u64) -> (r:
    Result<BuiltInstruction, ()>)
    requires
        source@.len() == 32,
        destination@.len() == 32,
        owner@.len() == 32,
    ensures
        r is Ok,
        r matches Ok(ix) ==> {
            &&& ix.program_id@ == token_program_id_bytes()
            &&& ix.data@ == token_transfer_data(amount)
            &&& ix.accounts@.len() == 3
            &&& ix.accounts@[0].pubkey@ == source@
            &&& ix.accounts@[0].is_signer == false
            &&& ix.accounts@[0].is_writable == true
            &&& ix.accounts@[1].pubkey@ == destination@
            &&& ix.accounts@[1].is_signer == false
            &&& ix.accounts@[1].is_writable == true
            &&& ix.accounts@[2].pubkey@ == owner@
            &&& ix.accounts@[2].is_signer == true
            &&& ix.accounts@[2].is_writable == false
        },
{
    let s = Pubkey::try_from(source.as_slice()).unwrap();
    let d = Pubkey::try_from(destination.as_slice()).unwrap();
    let o = Pubkey::try_from(owner.as_slice()).unwrap();
    match spl_token::instruction::transfer(&spl_token::id(), &s, &d, &o, &[], amount) {
        Ok(ix) => Ok(BuiltInstruction {
            program_id: ix.program_id.to_bytes().to_vec(),
            accounts: ix.accounts.iter().map(|acct| BuiltAccount {
                pubkey: acct.pubkey.to_bytes().to_vec(),
                is_signer: acct.is_signer,
                is_writable: acct.is_writable,
            }).collect(),
            data: ix.data,
        }),
        Err(_) => Err(()),
    }
}

/// Relies on `solana_program::system_instruction::transfer`: an
/// infallible constructor whose result targets the system program,
/// carries the bincode-packed transfer variant and little-endian
/// lamports, and lists the writable signing source before the writable
/// destination.
#[verifier::external_body]
fn system_transfer(from: &Vec<u8>, to: &Vec<u8>, lamports: u64) -> (r: BuiltInstruction)
    requires
        from@.len() == 32,
        to@.len() == 32,
    ensures
        r.program_id@ == system_program_id_bytes(),
        r.data@ == system_transfer_data(lamports),
        r.accounts@.len() == 2,
        r.accounts@[0].pubkey@ == from@,
        r.accounts@[0].is_signer == true,
        r.accounts@[0].is_writable == true,
        r.accounts@[1].pubkey@ == to@,
        r.accounts@[1].is_signer == false,
        r.accounts@[1].is_writable == true,
{
    let f = Pubkey::try_from(from.as_slice()).unwrap();
    let t = Pubkey::try_from(to.as_slice()).unwrap();
    let ix = solana_program::system_instruction::transfer(&f, &t, lamports);
    BuiltInstruction {
        program_id: ix.program_id.to_bytes().to_vec(),
        accounts: ix.accounts.iter().map(|acct| BuiltAccount {
            pubkey: acct.pubkey.to_bytes().to_vec(),
            is_signer: acct.is_signer,
            is_writable: acct.is_writable,
        }).collect(),
        data: ix.data,
    }
}

/// One account of a serialized instruction response: the base-58
/// address and the role flags, in the order the instruction fixed.
#[derive(Debug, PartialEq, Eq)]
pub struct InstructionAccount {
    pub pubkey: String,
    pub is_signer: bool,
    pub is_writable: bool,
}

/// A serialized instruction: base-58 program id, ordered accounts with
/// flags, and the payload in base-64 for transport.
#[derive(Debug, PartialEq, Eq)]
pub struct TokenResponse {
    pub program_id: String,
    pub accounts: Vec<InstructionAccount>,
    pub instruction_data: String,
}

/// A serialized native transfer instruction: base-58 program id, the
/// ordered account addresses, and the payload in base-64 for transport.
#[derive(Debug, PartialEq, Eq)]
pub struct TransferResponse {
    pub program_id: String,
    pub accounts: Vec<String>,
    pub instruction_data: String,
}

/// Serializes a constructed instruction for transport: the payload in
/// base-64, every address in base-58, the account order and flags kept
/// exactly as the construction fixed them, never re-sorted.
pub fn instruction_to_token_response(ix: &BuiltInstruction) -> (r: TokenResponse)
    ensures
        r.program_id@ == base58_of(ix.program_id@),
        r.instruction_data@ == base64_of(ix.data@),
        r.accounts@.len() == ix.accounts@.len(),
        forall|i: int|
            0 <= i < ix.accounts@.len() ==> {
                &&& (#[trigger] r.accounts@[i]).pubkey@ == base58_of(ix.accounts@[i].pubkey@)
                &&& r.accounts@[i].is_signer == ix.accounts@[i].is_signer
                &&& r.accounts@[i].is_writable == ix.accounts@[i].is_writable
            },
{
    let mut accounts: Vec<InstructionAccount> = Vec::new();
    let mut idx: usize = 0;
    while idx < ix.accounts.len()
        invariant
            idx <= ix.accounts@.len(),
            accounts@.len() == idx,
            forall|i: int|
                0 <= i < idx ==> {
                    &&& (#[trigger] accounts@[i]).pubkey@ == base58_of(ix.accounts@[i].pubkey@)
                    &&& accounts@[i].is_signer == ix.accounts@[i].is_signer
                    &&& accounts@[i].is_writable == ix.accounts@[i].is_writable
                },
        decreases ix.accounts@.len() - idx,
    {
        let entry = &ix.accounts[idx];
        let pubkey = encode_base58(&entry.pubkey);
        accounts.push(
            InstructionAccount { pubkey, is_signer: entry.is_signer, is_writable: entry.is_writable },
        );
        idx = idx + 1;
    }
    TokenResponse {
        program_id: encode_base58(&ix.program_id),
        accounts,
        instruction_data: encode_base64(&ix.data),
    }
}

/// A request to construct an initialize-mint instruction.
#[allow(non_snake_case)]
#[derive(Debug, PartialEq, Eq)]
pub struct CreateTokenRequest {
    pub mintAuthority: String,
    pub mint: String,
    pub decimals: u8,
}

/// Constructs an unsigned initialize-mint instruction: the writable
/// mint account, then the read-only rent sysvar, with the packed
/// decimals and authority as payload.  Each address must be base-58
/// text of exactly 32 bytes; the mint is checked first.
pub fn create_token(req: &CreateTokenRequest) -> (r: Result<TokenResponse, ApiError>)
    ensures
        match parsed_address(req.mint@) {
            Option::None => r == Err::<TokenResponse, ApiError>(
                ApiError::InvalidAddress(AddressField::Mint),
            ),
            Option::Some(mint) => match parsed_address(req.mintAuthority@) {
                Option::None => r == Err::<TokenResponse, ApiError>(
                    ApiError::InvalidAddress(AddressField::MintAuthority),
                ),
                Option::Some(authority) => r matches Ok(resp) && {
                    &&& resp.program_id@ == base58_of(token_program_id_bytes())
                    &&& resp.instruction_data@ == base64_of(
                        initialize_mint_data(req.decimals, authority),
                    )
                    &&& resp.accounts@.len() == 2
                    &&& resp.accounts@[0].pubkey@ == base58_of(mint)
                    &&& resp.accounts@[0].is_signer == false
                    &&& resp.accounts@[0].is_writable == true
                    &&& resp.accounts@[1].pubkey@ == base58_of(rent_sysvar_id_bytes())
                    &&& resp.accounts@[1].is_signer == false
                    &&& resp.accounts@[1].is_writable == false
                },
            },
        },
{
    let mint = match parse_address(req.mint.as_str()) {
        Ok(v) => v,
        Err(()) => {
            return Err(ApiError::InvalidAddress(AddressField::Mint));
        },
    };
    let authority = match parse_address(req.mintAuthority.as_str()) {
        Ok(v) => v,
        Err(()) => {
            return Err(ApiError::InvalidAddress(AddressField::MintAuthority));
        },
    };
    let ix = match spl_initialize_mint(&mint, &authority, req.decimals) {
        Ok(ix) => ix,
        Err(()) => {
            return Err(ApiError::InstructionConstructionFailed);
        },
    };
    Ok(instruction_to_token_response(&ix))
}

/// A request to construct a mint-to instruction.
#[derive(Debug, PartialEq, Eq)]
pub struct MintTokenRequest {
    pub mint: String,
    pub destination: String,
    pub authority: String,
    pub amount: u64,
}

/// Constructs an unsigned mint-to instruction: the writable mint, the
/// writable destination, then the signing authority, with the packed
/// amount as payload.  Addresses are checked in that order.
pub fn mint_token(req: &MintTokenRequest) -> (r: Result<TokenResponse, ApiError>)
    ensures
        match parsed_address(req.mint@) {
            Option::None => r == Err::<TokenResponse, ApiError>(
                ApiError::InvalidAddress(AddressField::Mint),
            ),
            Option::Some(mint) => match parsed_address(req.destination@) {
                Option::None => r == Err::<TokenResponse, ApiError>(
                    ApiError::InvalidAddress(AddressField::Destination),
                ),
                Option::Some(destination) => match parsed_address(req.authority@) {
                    Option::None => r == Err::<TokenResponse, ApiError>(
                        ApiError::InvalidAddress(AddressField::Authority),
                    ),
                    Option::Some(authority) => r matches Ok(resp) && {
                        &&& resp.program_id@ == base58_of(token_program_id_bytes())
                        &&& resp.instruction_data@ == base64_of(mint_to_data(req.amount))
                        &&& resp.accounts@.len() == 3
                        &&& resp.accounts@[0].pubkey@ == base58_of(mint)
                        &&& resp.accounts@[0].is_signer == false
                        &&& resp.accounts@[0].is_writable == true
                        &&& resp.accounts@[1].pubkey@ == base58_of(destination)
                        &&& resp.accounts@[1].is_signer == false
                        &&& resp.accounts@[1].is_writable == true
                        &&& resp.accounts@[2].pubkey@ == base58_of(authority)
                        &&& resp.accounts@[2].is_signer == true
                        &&& resp.accounts@[2].is_writable == false
                    },
                },
            },
        },
{
    let mint = match parse_address(req.mint.as_str()) {
        Ok(v) => v,
        Err(()) => {
            return Err(ApiError::InvalidAddress(AddressField::Mint));
        },
    };
    let destination = match parse_address(req.destination.as_str()) {
        Ok(v) => v,
        Err(()) => {
            return Err(ApiError::InvalidAddress(AddressField::Destination));
        },
    };
    let authority = match parse_address(req.authority.as_str()) {
        Ok(v) => v,
        Err(()) => {
            return Err(ApiError::InvalidAddress(AddressField::Authority));
        },
    };
    let ix = match spl_mint_to(&mint, &destination, &authority, req.amount) {
        Ok(ix) => ix,
        Err(()) => {
            return Err(ApiError::InstructionConstructionFailed);
        },
    };
    Ok(instruction_to_token_response(&ix))
}

/// A request to construct a native transfer instruction.
#[derive(Debug, PartialEq, Eq)]
pub struct SendSolRequest {
    pub from: String,
    pub to: String,
    pub lamports: u64,
}

/// Constructs an unsigned native transfer instruction: the signing
/// writable source, then the writable destination.  Empty fields are
/// rejected first, then a zero amount, then the addresses in order.
pub fn send_sol(req: &SendSolRequest) -> (r: Result<TransferResponse, ApiError>)
    ensures
        (req.from@.len() == 0 || req.to@.len() == 0) ==> r == Err::<TransferResponse, ApiError>(
            ApiError::MissingSolTransferFields,
        ),
        (req.from@.len() > 0 && req.to@.len() > 0) ==> if req.lamports == 0 {
            r == Err::<TransferResponse, ApiError>(ApiError::InvalidAmount)
        } else {
            match parsed_address(req.from@) {
                Option::None => r == Err::<TransferResponse, ApiError>(
                    ApiError::InvalidAddress(AddressField::From),
                ),
                Option::Some(from) => match parsed_address(req.to@) {
                    Option::None => r == Err::<TransferResponse, ApiError>(
                        ApiError::InvalidAddress(AddressField::To),
                    ),
                    Option::Some(to) => r matches Ok(resp) && {
                        &&& resp.program_id@ == base58_of(system_program_id_bytes())
                        &&& resp.instruction_data@ == base64_of(system_transfer_data(req.lamports))
                        &&& resp.accounts@.len() == 2
                        &&& resp.accounts@[0]@ == base58_of(from)
                        &&& resp.accounts@[1]@ == base58_of(to)
                    },
                },
            }
        },
{
    if req.from.as_str().is_empty() || req.to.as_str().is_empty() {
        return Err(ApiError::MissingSolTransferFields);
    }
    if req.lamports == 0 {
        return Err(ApiError::InvalidAmount);
    }
    let from = match parse_address(req.from.as_str()) {
        Ok(v) => v,
        Err(()) => {
            return Err(ApiError::InvalidAddress(AddressField::From));
        },
    };
    let to = match parse_address(req.to.as_str()) {
        Ok(v) => v,
        Err(()) => {
            return Err(ApiError::InvalidAddress(AddressField::To));
        },
    };
    let ix = system_transfer(&from, &to, req.lamports);
    let mut accounts: Vec<String> = Vec::new();
    accounts.push(encode_base58(&ix.accounts[0].pubkey));
    accounts.push(encode_base58(&ix.accounts[1].pubkey));
    Ok(
        TransferResponse {
            program_id: encode_base58(&ix.program_id),
            accounts,
            instruction_data: encode_base64(&ix.data),
        },
    )
}

/// A request to construct a token transfer instruction.
#[derive(Debug, PartialEq, Eq)]
pub struct SendTokenRequest {
    pub destination: String,
    pub mint: String,
    pub owner: String,
    pub amount: u64,
}

/// Constructs an unsigned token transfer instruction: the writable
/// source, the writable destination, then the signing owner.  Empty
/// fields are rejected first, then a zero amount, then the addresses in
/// the order destination, mint, owner.
pub fn send_token(req: &SendTokenRequest) -> (r: Result<TokenResponse, ApiError>)
    ensures
        (req.destination@.len() == 0 || req.mint@.len() == 0 || req.owner@.len() == 0) ==> r
            == Err::<TokenResponse, ApiError>(ApiError::MissingTokenTransferFields),
        (req.destination@.len() > 0 && req.mint@.len() > 0 && req.owner@.len() > 0) ==> if req.amount
            == 0 {
            r == Err::<TokenResponse, ApiError>(ApiError::InvalidAmount)
        } else {
            match parsed_address(req.destination@) {
                Option::None => r == Err::<TokenResponse, ApiError>(
                    ApiError::InvalidAddress(AddressField::Destination),
                ),
                Option::Some(destination) => match parsed_address(req.mint@) {
                    Option::None => r == Err::<TokenResponse, ApiError>(
                        ApiError::InvalidAddress(AddressField::Mint),
                    ),
                    Option::Some(mint) => match parsed_address(req.owner@) {
                        Option::None => r == Err::<TokenResponse, ApiError>(
                            ApiError::InvalidAddress(AddressField::Owner),
                        ),
                        Option::Some(owner) => r matches Ok(resp) && {
                            &&& resp.program_id@ == base58_of(token_program_id_bytes())
                            &&& resp.instruction_data@ == base64_of(token_transfer_data(req.amount))
                            &&& resp.accounts@.len() == 3
                            &&& resp.accounts@[0].pubkey@ == base58_of(mint)
                            &&& resp.accounts@[0].is_signer == false
                            &&& resp.accounts@[0].is_writable == true
                            &&& resp.accounts@[1].pubkey@ == base58_of(destination)
                            &&& resp.accounts@[1].is_signer == false
                            &&& resp.accounts@[1].is_writable == true
                            &&& resp.accounts@[2].pubkey@ == base58_of(owner)
                            &&& resp.accounts@[2].is_signer == true
                            &&& resp.accounts@[2].is_writable == false
                        },
                    },
                },
            }
        },
{
    if req.destination.as_str().is_empty() || req.mint.as_str().is_empty()
        || req.owner.as_str().is_empty() {
        return Err(ApiError::MissingTokenTransferFields);
    }
    if req.amount == 0 {
        return Err(ApiError::InvalidAmount);
    }
    let destination = match parse_address(req.destination.as_str()) {
        Ok(v) => v,
        Err(()) => {
            return Err(ApiError::InvalidAddress(AddressField::Destination));
        },
    };
    let mint = match parse_address(req.mint.as_str()) {
        Ok(v) => v,
        Err(()) => {
            return Err(ApiError::InvalidAddress(AddressField::Mint));
        },
    };
    let owner = match parse_address(req.owner.as_str()) {
        Ok(v) => v,
        Err(()) => {
            return Err(ApiError::InvalidAddress(AddressField::Owner));
        },
    };
    let ix = match spl_token_transfer(&mint, &destination, &owner, req.amount) {
        Ok(ix) => ix,
        Err(()) => {
            return Err(ApiError::InstructionConstructionFailed);
        },
    };
    Ok(instruction_to_token_response(&ix))
}

} // verus!

