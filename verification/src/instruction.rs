use vstd::prelude::*;
use vstd::slice::slice_subrange;
use crate::error::{EscrowError, ProgramError};
use crate::le::{read_u64_le, u64_from_le};

verus! {

/// An instruction of the escrow program, as decoded from its payload.
#[derive(Debug, Copy, Clone, PartialEq, Eq, Structural)]
pub enum EscrowInstruction {
    /// Starts a trade: populates the escrow record and hands the temporary
    /// token account over to the program.
    ///
    /// Accounts expected, in this order:
    ///
    /// 0. the initializer, who signs the request
    /// 1. the temporary token account that holds the offered tokens
    /// 2. the initializer's token account for the tokens to be received
    /// 3. the escrow record account
    /// 4. the rent sysvar
    /// 5. the token program
    InitEscrow {
        /// The amount the initializer expects to receive.
        amount: u64,
    },
}

/// The error with which a malformed payload is rejected.
pub open spec fn invalid_instruction() -> ProgramError {
    ProgramError::Custom(EscrowError::InvalidInstruction.spec_code())
}

impl EscrowInstruction {
    /// Tag byte of `InitEscrow`.
    pub const INIT_ESCROW_TAG: u8 = 0;

    /// The amount at the head of `input`: its first eight bytes, little-endian.
    pub open spec fn spec_unpack_amount(input: Seq<u8>) -> Result<u64, ProgramError> {
        if input.len() >= 8 {
            Ok(u64_from_le(input.subrange(0, 8)) as u64)
        } else {
            Err(invalid_instruction())
        }
    }

    /// The instruction that a payload stands for: a tag byte, then the fields
    /// of the variant. Bytes after the last field are ignored.
    pub open spec fn spec_unpack(input: Seq<u8>) -> Result<EscrowInstruction, ProgramError> {
        if input.len() == 0 {
            Err(invalid_instruction())
        } else if input[0] == Self::INIT_ESCROW_TAG {
            match Self::spec_unpack_amount(input.subrange(1, input.len() as int)) {
                Ok(amount) => Ok(EscrowInstruction::InitEscrow { amount }),
                Err(e) => Err(e),
            }
        } else {
            Err(invalid_instruction())
        }
    }

    /// Decodes an instruction payload.
    pub fn unpack(input: &[u8]) -> (r: Result<EscrowInstruction, ProgramError>)
        ensures
            r == Self::spec_unpack(input@),
    {
        if input.len() == 0 {
            return Err(ProgramError::from(EscrowError::InvalidInstruction));
        }
        let tag = input[0];
        let rest = slice_subrange(input, 1, input.len());
        if tag == Self::INIT_ESCROW_TAG {
            match Self::unpack_amount(rest) {
                Ok(amount) => Ok(EscrowInstruction::InitEscrow { amount }),
                Err(e) => Err(e),
            }
        } else {
            Err(ProgramError::from(EscrowError::InvalidInstruction))
        }
    }

    /// Decodes the amount at the head of `input`.
    pub fn unpack_amount(input: &[u8]) -> (r: Result<u64, ProgramError>)
        ensures
            r == Self::spec_unpack_amount(input@),
    {
        if input.len() < 8 {
            return Err(ProgramError::from(EscrowError::InvalidInstruction));
        }
        Ok(read_u64_le(slice_subrange(input, 0, 8)))
    }

    /// A payload is rejected as an invalid instruction when it is empty, when
    /// its tag is unknown, and when it is too short to hold the amount.
    pub proof fn lemma_unpack_rejects(input: Seq<u8>)
        requires
            input.len() < 9 || input[0] != Self::INIT_ESCROW_TAG,
        ensures
            Self::spec_unpack(input) == Err::<EscrowInstruction, ProgramError>(
                ProgramError::Custom(0),
            ),
    {
    }

    /// A payload of at least nine bytes whose tag is that of `InitEscrow`
    /// decodes to that instruction, with the amount read from bytes 1 to 8.
    pub proof fn lemma_unpack_accepts(input: Seq<u8>)
        requires
            input.len() >= 9,
            input[0] == Self::INIT_ESCROW_TAG,
        ensures
            Self::spec_unpack(input) == Ok::<EscrowInstruction, ProgramError>(
                EscrowInstruction::InitEscrow {
                    amount: u64_from_le(input.subrange(1, 9)) as u64,
                },
            ),
    {
        assert(input.subrange(1, input.len() as int).subrange(0, 8) =~= input.subrange(1, 9));
    }
}

} // verus!
