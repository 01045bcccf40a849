use vstd::prelude::*;
use crate::bytes::arrays_equal;
use crate::error::ProgramError;
use crate::pubkey::Pubkey;
use spl_token::instruction::AuthorityType as Kind;

verus! {

/// Bytes of the identity of the token program,
/// `TokenkegQfeZyiNwAJbNbGKPFXCWuBvf9Ss623VQ5DA`.
pub const TOKEN_PROGRAM_ID: [u8; 32] = [
    6, 221, 246, 225, 215, 101, 161, 147, 217, 203, 225, 70, 206, 235, 121, 172, 28, 180, 133, 237,
    95, 91, 55, 145, 58, 140, 245, 133, 126, 255, 0, 169,
];

/// Tag byte of the token program's instruction that changes an authority.
pub const SET_AUTHORITY_TAG: u8 = 6;

/// The kinds of authority that the token program keeps for a mint or an account.
#[derive(Debug, Copy, Clone, PartialEq, Eq, Structural)]
pub enum AuthorityType {
    /// May mint new tokens.
    MintTokens,
    /// May freeze the accounts of a mint.
    FreezeAccount,
    /// Owns a token account.
    AccountOwner,
    /// May close a token account.
    CloseAccount,
}

impl AuthorityType {
    /// The byte that stands for the kind in an instruction.
    pub open spec fn code(self) -> u8 {
        match self {
            AuthorityType::MintTokens => 0,
            AuthorityType::FreezeAccount => 1,
            AuthorityType::AccountOwner => 2,
            AuthorityType::CloseAccount => 3,
        }
    }
}

/// An account as an instruction refers to it.
#[derive(Debug, Copy, Clone, PartialEq, Eq)]
pub struct AccountMeta {
    /// Identity of the account.
    pub pubkey: Pubkey,
    /// Whether the instruction needs the account's signature.
    pub is_signer: bool,
    /// Whether the instruction may change the account.
    pub is_writable: bool,
}

/// A request to another program.
#[derive(Debug, Clone, PartialEq, Eq)]
pub struct Instruction {
    /// The program that is to carry the request out.
    pub program_id: Pubkey,
    /// The accounts that the request refers to.
    pub accounts: Vec<AccountMeta>,
    /// The payload, in the format of that program.
    pub data: Vec<u8>,
}

/// A request to another program, as a mathematical value.
pub struct InstructionView {
    pub program_id: Pubkey,
    pub accounts: Seq<AccountMeta>,
    pub data: Seq<u8>,
}

impl View for Instruction {
    type V = InstructionView;

    open spec fn view(&self) -> InstructionView {
        InstructionView {
            program_id: self.program_id,
            accounts: self.accounts@,
            data: self.data@,
        }
    }
}

/// The identity of the token program.
pub open spec fn spec_id() -> Pubkey {
    Pubkey { bytes: TOKEN_PROGRAM_ID }
}

/// The request that hands an authority over `owned` from `owner` to
/// `new_authority`, with `signer` signing in the owner's place: `owned` comes
/// first and is writable, `owner` follows and does not sign, `signer` comes
/// last and signs. No such request is made for a program other than the
/// token program.
pub open spec fn spec_set_authority(
    token_program: Pubkey,
    owned: Pubkey,
    new_authority: Pubkey,
    authority_type: AuthorityType,
    owner: Pubkey,
    signer: Pubkey,
) -> Result<InstructionView, ProgramError> {
    if token_program != spec_id() {
        Err(ProgramError::IncorrectProgramId)
    } else {
        Ok(
            InstructionView {
                program_id: token_program,
                accounts: seq![
                    AccountMeta { pubkey: owned, is_signer: false, is_writable: true },
                    AccountMeta { pubkey: owner, is_signer: false, is_writable: false },
                    AccountMeta { pubkey: signer, is_signer: true, is_writable: false },
                ],
                data: seq![SET_AUTHORITY_TAG, authority_type.code(), 1u8] + new_authority@,
            },
        )
    }
}

/// The identity of the token program, from `spl_token::id`. Its bytes are
/// claimed to be those of `TOKEN_PROGRAM_ID`.
#[verifier::external_body]
fn token_program_id() -> (id: Pubkey)
    ensures
        id == spec_id(),
{
    Pubkey { bytes: spl_token::id().to_bytes() }
}

/// Has `spl_token::instruction::set_authority` build the request, with a new
/// authority and one signer, and copies what it built. The builder is claimed
/// to refuse exactly the requests that are not addressed to the token
/// program, and otherwise to build what `spec_set_authority` describes.
#[verifier::external_body]
#[allow(deprecated)]
fn build_set_authority(
    token_program: &Pubkey,
    owned: &Pubkey,
    new_authority: &Pubkey,
    authority_type: AuthorityType,
    owner: &Pubkey,
    signer: &Pubkey,
) -> (built: Option<Instruction>)
    ensures
        match built {
            Some(instruction) => Ok::<InstructionView, ProgramError>(instruction@)
                == spec_set_authority(
                *token_program,
                *owned,
                *new_authority,
                authority_type,
                *owner,
                *signer,
            ),
            None => *token_program != spec_id(),
        },
{
    let kind = match authority_type {
        AuthorityType::MintTokens => Kind::MintTokens,
        AuthorityType::FreezeAccount => Kind::FreezeAccount,
        AuthorityType::AccountOwner => Kind::AccountOwner,
        AuthorityType::CloseAccount => Kind::CloseAccount,
    };
    let built = spl_token::instruction::set_authority(&token_program.bytes.into(), &owned.bytes.into(),
        Some(&new_authority.bytes.into()), kind, &owner.bytes.into(), &[&signer.bytes.into()]).ok()?;
    let accounts = built.accounts.iter().map(|m| AccountMeta {
        pubkey: Pubkey { bytes: m.pubkey.to_bytes() }, is_signer: m.is_signer, is_writable: m.is_writable,
    }).collect();
    Some(Instruction { program_id: Pubkey { bytes: built.program_id.to_bytes() }, accounts, data: built.data })
}

/// The identity of the token program.
pub fn id() -> (id: Pubkey)
    ensures
        id == spec_id(),
{
    token_program_id()
}

/// Whether `key` is the identity of the token program.
pub fn check_id(key: &Pubkey) -> (same: bool)
    ensures
        same == (*key == spec_id()),
{
    let id = token_program_id();
    arrays_equal(&key.bytes, &id.bytes)
}

/// Builds the request that hands an authority over `owned` from `owner` to
/// `new_authority`, with `signer` signing in the owner's place.
pub fn set_authority(
    token_program: &Pubkey,
    owned: &Pubkey,
    new_authority: &Pubkey,
    authority_type: AuthorityType,
    owner: &Pubkey,
    signer: &Pubkey,
) -> (r: Result<Instruction, ProgramError>)
    ensures
        match r {
            Ok(instruction) => Ok::<InstructionView, ProgramError>(instruction@),
            Err(e) => Err::<InstructionView, ProgramError>(e),
        } == spec_set_authority(
            *token_program,
            *owned,
            *new_authority,
            authority_type,
            *owner,
            *signer,
        ),
{
    match build_set_authority(token_program, owned, new_authority, authority_type, owner, signer) {
        Some(instruction) => Ok(instruction),
        None => Err(ProgramError::IncorrectProgramId),
    }
}

} // verus!
