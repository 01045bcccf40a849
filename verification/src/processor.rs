use vstd::prelude::*;
use crate::account::{AccountInfo, AccountView};
use crate::error::{EscrowError, ProgramError};
use crate::instruction::EscrowInstruction;
use crate::pubkey::{program_address, try_find_program_address, Pubkey};
use crate::rent::Rent;
use crate::state::Escrow;
use crate::token::{
    check_id, set_authority, spec_id, spec_set_authority, AccountMeta, AuthorityType, Instruction,
    InstructionView,
};

verus! {

/// The seed from which the program's authority over held tokens is derived:
/// the letters of "escrow".
pub const AUTHORITY_SEED: [u8; 6] = [101, 115, 99, 114, 111, 119];

/// Position of the initializer in the list of accounts.
pub const INITIALIZER: usize = 0;

/// Position of the temporary token account in the list of accounts.
pub const TEMP_TOKEN_ACCOUNT: usize = 1;

/// Position of the initializer's receiving token account in the list of accounts.
pub const TOKEN_TO_RECEIVE_ACCOUNT: usize = 2;

/// Position of the escrow record account in the list of accounts.
pub const ESCROW_ACCOUNT: usize = 3;

/// Position of the rent sysvar in the list of accounts.
pub const RENT_SYSVAR: usize = 4;

/// Position of the token program in the list of accounts.
pub const TOKEN_PROGRAM: usize = 5;

/// A request that the caller has to hand to another program on the
/// program's behalf.
#[derive(Debug, Clone, PartialEq, Eq)]
pub struct Invocation {
    /// The request.
    pub instruction: Instruction,
    /// Positions, in the list of accounts, of the accounts to hand along
    /// with the request.
    pub accounts: Vec<usize>,
}

/// What a successful initialization brings about.
pub struct InitEscrow {
    /// The record that the escrow record account holds afterwards.
    pub escrow: Escrow,
    /// The request to the token program.
    pub instruction: InstructionView,
}

/// Entry points of the escrow program.
pub struct Processor;

impl Processor {
    /// The authority under which the program holds tokens, with its bump seed.
    pub open spec fn spec_authority(program_id: Pubkey) -> Option<(Pubkey, u8)> {
        program_address(AUTHORITY_SEED@, program_id@)
    }

    /// The record that an initialization writes.
    pub open spec fn spec_new_escrow(accounts: Seq<AccountView>, amount: u64) -> Escrow
        recommends
            accounts.len() > TOKEN_TO_RECEIVE_ACCOUNT,
    {
        Escrow {
            is_initialized: true,
            initializer_pubkey: accounts[INITIALIZER as int].key,
            temp_token_account_pubkey: accounts[TEMP_TOKEN_ACCOUNT as int].key,
            initializer_token_to_receive_account_pubkey: accounts[TOKEN_TO_RECEIVE_ACCOUNT as int].key,
            expected_amount: amount,
        }
    }

    /// The outcome of an initialization: the error of the first check that
    /// fails, in the order in which the checks are made, or else the record
    /// to write and the request to make.
    pub open spec fn spec_init_escrow(
        accounts: Seq<AccountView>,
        amount: u64,
        program_id: Pubkey,
    ) -> Result<InitEscrow, ProgramError> {
        if accounts.len() <= INITIALIZER {
            Err(ProgramError::NotEnoughAccountKeys)
        } else if !accounts[INITIALIZER as int].is_signer {
            Err(ProgramError::MissingRequiredSignature)
        } else if accounts.len() <= TOKEN_TO_RECEIVE_ACCOUNT {
            Err(ProgramError::NotEnoughAccountKeys)
        } else if accounts[TOKEN_TO_RECEIVE_ACCOUNT as int].owner != spec_id() {
            Err(ProgramError::IncorrectProgramId)
        } else if accounts.len() <= RENT_SYSVAR {
            Err(ProgramError::NotEnoughAccountKeys)
        } else {
            let escrow_account = accounts[ESCROW_ACCOUNT as int];
            match Rent::spec_from_account_info(accounts[RENT_SYSVAR as int]) {
                Err(e) => Err(e),
                Ok(rent) => if !rent.spec_is_exempt(
                    escrow_account.lamports,
                    escrow_account.data.len() as usize,
                ) {
                    Err(ProgramError::Custom(EscrowError::NotRentExempt.spec_code()))
                } else {
                    match Escrow::spec_unpack_unchecked(escrow_account.data) {
                        Err(e) => Err(e),
                        Ok(escrow) => if escrow.is_initialized {
                            Err(ProgramError::AccountAlreadyInitialized)
                        } else {
                            match Self::spec_authority(program_id) {
                                None => Err(ProgramError::InvalidSeeds),
                                Some((authority, _)) => if accounts.len() <= TOKEN_PROGRAM {
                                    Err(ProgramError::NotEnoughAccountKeys)
                                } else {
                                    match spec_set_authority(
                                        accounts[TOKEN_PROGRAM as int].key,
                                        accounts[TEMP_TOKEN_ACCOUNT as int].key,
                                        authority,
                                        AuthorityType::AccountOwner,
                                        accounts[INITIALIZER as int].key,
                                        accounts[INITIALIZER as int].key,
                                    ) {
                                        Err(e) => Err(e),
                                        Ok(instruction) => Ok(
                                            InitEscrow {
                                                escrow: Self::spec_new_escrow(accounts, amount),
                                                instruction,
                                            },
                                        ),
                                    }
                                },
                            }
                        },
                    }
                },
            }
        }
    }

    /// The outcome of an instruction: that of decoding its payload, then that
    /// of the transition it asks for.
    pub open spec fn spec_process(
        program_id: Pubkey,
        accounts: Seq<AccountView>,
        instruction_data: Seq<u8>,
    ) -> Result<InitEscrow, ProgramError> {
        match EscrowInstruction::spec_unpack(instruction_data) {
            Err(e) => Err(e),
            Ok(EscrowInstruction::InitEscrow { amount }) => Self::spec_init_escrow(
                accounts,
                amount,
                program_id,
            ),
        }
    }

    /// The accounts after a transition with the given outcome: on success the
    /// escrow record account holds the packed record and nothing else has
    /// changed, on failure nothing has changed.
    pub open spec fn spec_accounts_after(
        accounts: Seq<AccountView>,
        outcome: Result<InitEscrow, ProgramError>,
    ) -> Seq<AccountView> {
        match outcome {
            Err(_) => accounts,
            Ok(init) => accounts.update(
                ESCROW_ACCOUNT as int,
                AccountView { data: init.escrow.spec_pack(), ..accounts[ESCROW_ACCOUNT as int] },
            ),
        }
    }

    /// Whether what came back from a transition, and what it left in the
    /// accounts, is what `outcome` says.
    pub open spec fn spec_carried_out(
        outcome: Result<InitEscrow, ProgramError>,
        result: Result<Invocation, ProgramError>,
        before: Seq<AccountView>,
        after: Seq<AccountView>,
    ) -> bool {
        &&& after == Self::spec_accounts_after(before, outcome)
        &&& match outcome {
            Err(e) => result == Err::<Invocation, ProgramError>(e),
            Ok(init) => {
                &&& result matches Ok(invocation)
                &&& invocation.instruction@ == init.instruction
                &&& invocation.accounts@ == seq![TEMP_TOKEN_ACCOUNT, INITIALIZER, TOKEN_PROGRAM]
            },
        }
    }

    /// Derives the authority under which the program holds tokens.
    pub fn authority(program_id: &Pubkey) -> (found: Option<(Pubkey, u8)>)
        ensures
            found == Self::spec_authority(*program_id),
    {
        try_find_program_address(AUTHORITY_SEED.as_slice(), program_id)
    }

    /// Carries out one instruction of the program on the accounts of the
    /// request. On success the caller has to make the returned invocation.
    pub fn process(
        program_id: &Pubkey,
        accounts: &mut Vec<AccountInfo>,
        instruction_data: &[u8],
    ) -> (r: Result<Invocation, ProgramError>)
        ensures
            Self::spec_carried_out(
                Self::spec_process(*program_id, old(accounts).deep_view(), instruction_data@),
                r,
                old(accounts).deep_view(),
                final(accounts).deep_view(),
            ),
    {
        match EscrowInstruction::unpack(instruction_data) {
            Err(e) => Err(e),
            Ok(EscrowInstruction::InitEscrow { amount }) => Self::process_init_escrow(
                accounts,
                amount,
                program_id,
            ),
        }
    }

    /// Opens a trade: checks the request, writes the escrow record, and asks
    /// for the temporary token account to be handed to the program's authority.
    pub fn process_init_escrow(
        accounts: &mut Vec<AccountInfo>,
        amount: u64,
        program_id: &Pubkey,
    ) -> (r: Result<Invocation, ProgramError>)
        ensures
            Self::spec_carried_out(
                Self::spec_init_escrow(old(accounts).deep_view(), amount, *program_id),
                r,
                old(accounts).deep_view(),
                final(accounts).deep_view(),
            ),
    {
        let ghost before = accounts.deep_view();
        if accounts.len() <= INITIALIZER {
            return Err(ProgramError::NotEnoughAccountKeys);
        }
        if !accounts[INITIALIZER].is_signer {
            return Err(ProgramError::MissingRequiredSignature);
        }
        if accounts.len() <= TOKEN_TO_RECEIVE_ACCOUNT {
            return Err(ProgramError::NotEnoughAccountKeys);
        }
        if !check_id(&accounts[TOKEN_TO_RECEIVE_ACCOUNT].owner) {
            return Err(ProgramError::IncorrectProgramId);
        }
        if accounts.len() <= RENT_SYSVAR {
            return Err(ProgramError::NotEnoughAccountKeys);
        }
        let rent = match Rent::from_account_info(&accounts[RENT_SYSVAR]) {
            Ok(rent) => rent,
            Err(e) => {
                return Err(e);
            },
        };
        if !rent.is_exempt(accounts[ESCROW_ACCOUNT].lamports(), accounts[ESCROW_ACCOUNT].data_len()) {
            return Err(ProgramError::from(EscrowError::NotRentExempt));
        }
        let mut escrow_info = match Escrow::unpack_unchecked(
            accounts[ESCROW_ACCOUNT].data.as_slice(),
        ) {
            Ok(escrow) => escrow,
            Err(e) => {
                return Err(e);
            },
        };
        if escrow_info.is_initialized() {
            return Err(ProgramError::AccountAlreadyInitialized);
        }
        escrow_info.is_initialized = true;
        escrow_info.initializer_pubkey = accounts[INITIALIZER].key;
        escrow_info.temp_token_account_pubkey = accounts[TEMP_TOKEN_ACCOUNT].key;
        escrow_info.initializer_token_to_receive_account_pubkey =
            accounts[TOKEN_TO_RECEIVE_ACCOUNT].key;
        escrow_info.expected_amount = amount;

        let pda = match Self::authority(program_id) {
            Some((pda, _)) => pda,
            None => {
                return Err(ProgramError::InvalidSeeds);
            },
        };
        if accounts.len() <= TOKEN_PROGRAM {
            return Err(ProgramError::NotEnoughAccountKeys);
        }
        let owner_change_ix = match set_authority(
            &accounts[TOKEN_PROGRAM].key,
            &accounts[TEMP_TOKEN_ACCOUNT].key,
            &pda,
            AuthorityType::AccountOwner,
            &accounts[INITIALIZER].key,
            &accounts[INITIALIZER].key,
        ) {
            Ok(instruction) => instruction,
            Err(e) => {
                return Err(e);
            },
        };
        let packed = Escrow::pack(escrow_info, accounts[ESCROW_ACCOUNT].data.as_mut_slice());
        assert(packed is Ok);
        assert(accounts.deep_view() =~= Self::spec_accounts_after(
            before,
            Self::spec_init_escrow(before, amount, *program_id),
        ));
        let mut handed: Vec<usize> = Vec::new();
        handed.push(TEMP_TOKEN_ACCOUNT);
        handed.push(INITIALIZER);
        handed.push(TOKEN_PROGRAM);
        assert(handed@ =~= seq![TEMP_TOKEN_ACCOUNT, INITIALIZER, TOKEN_PROGRAM]);
        Ok(Invocation { instruction: owner_change_ix, accounts: handed })
    }

    /// An initialization whose initializer has not signed fails for want of
    /// the signature, whatever else the request holds.
    pub proof fn lemma_init_needs_signature(
        accounts: Seq<AccountView>,
        amount: u64,
        program_id: Pubkey,
    )
        requires
            accounts.len() > INITIALIZER,
            !accounts[INITIALIZER as int].is_signer,
        ensures
            Self::spec_init_escrow(accounts, amount, program_id) == Err::<InitEscrow, ProgramError>(
                ProgramError::MissingRequiredSignature,
            ),
    {
    }

    /// A signed initialization whose receiving account is not owned by the
    /// token program fails on that account's owner.
    pub proof fn lemma_init_needs_token_account(
        accounts: Seq<AccountView>,
        amount: u64,
        program_id: Pubkey,
    )
        requires
            accounts.len() > TOKEN_TO_RECEIVE_ACCOUNT,
            accounts[INITIALIZER as int].is_signer,
            accounts[TOKEN_TO_RECEIVE_ACCOUNT as int].owner != spec_id(),
        ensures
            Self::spec_init_escrow(accounts, amount, program_id) == Err::<InitEscrow, ProgramError>(
                ProgramError::IncorrectProgramId,
            ),
    {
    }

    /// An initialization that has passed the checks on the initializer and on
    /// the receiving account fails as not rent exempt when the balance and
    /// size of the escrow record account do not qualify under the published
    /// policy.
    pub proof fn lemma_init_needs_rent_exemption(
        accounts: Seq<AccountView>,
        amount: u64,
        program_id: Pubkey,
        rent: Rent,
    )
        requires
            accounts.len() > RENT_SYSVAR,
            accounts[INITIALIZER as int].is_signer,
            accounts[TOKEN_TO_RECEIVE_ACCOUNT as int].owner == spec_id(),
            Rent::spec_from_account_info(accounts[RENT_SYSVAR as int]) == Ok::<Rent, ProgramError>(
                rent,
            ),
            !rent.spec_is_exempt(
                accounts[ESCROW_ACCOUNT as int].lamports,
                accounts[ESCROW_ACCOUNT as int].data.len() as usize,
            ),
        ensures
            Self::spec_init_escrow(accounts, amount, program_id) == Err::<InitEscrow, ProgramError>(
                ProgramError::Custom(1),
            ),
    {
    }

    /// A record is initialized once: after a successful initialization, any
    /// further one on the same accounts fails because the record is in use.
    pub proof fn lemma_init_only_once(
        accounts: Seq<AccountView>,
        amount: u64,
        program_id: Pubkey,
        next_amount: u64,
        next_program_id: Pubkey,
    )
        requires
            Self::spec_init_escrow(accounts, amount, program_id) is Ok,
        ensures
            Self::spec_init_escrow(
                Self::spec_accounts_after(
                    accounts,
                    Self::spec_init_escrow(accounts, amount, program_id),
                ),
                next_amount,
                next_program_id,
            ) == Err::<InitEscrow, ProgramError>(ProgramError::AccountAlreadyInitialized),
    {
        let escrow = Self::spec_new_escrow(accounts, amount);
        escrow.lemma_pack_len();
        escrow.lemma_unpack_pack();
    }

    /// A successful initialization leaves in the escrow record account the
    /// record of the initializer, the temporary token account, the receiving
    /// account and the amount, marked as in use, and asks the token program to
    /// make the authority derived for the program the owner of the temporary
    /// token account, on the initializer's signature.
    pub proof fn lemma_init_success(accounts: Seq<AccountView>, amount: u64, program_id: Pubkey)
        requires
            Self::spec_init_escrow(accounts, amount, program_id) is Ok,
        ensures
            ({
                let outcome = Self::spec_init_escrow(accounts, amount, program_id);
                let init = outcome->Ok_0;
                let after = Self::spec_accounts_after(accounts, outcome);
                &&& accounts.len() > TOKEN_PROGRAM
                &&& init.escrow.is_initialized
                &&& init.escrow.initializer_pubkey == accounts[INITIALIZER as int].key
                &&& init.escrow.temp_token_account_pubkey == accounts[TEMP_TOKEN_ACCOUNT as int].key
                &&& init.escrow.initializer_token_to_receive_account_pubkey
                    == accounts[TOKEN_TO_RECEIVE_ACCOUNT as int].key
                &&& init.escrow.expected_amount == amount
                &&& Escrow::spec_unpack_unchecked(after[ESCROW_ACCOUNT as int].data) == Ok::<
                    Escrow,
                    ProgramError,
                >(init.escrow)
                &&& Self::spec_authority(program_id) matches Some((authority, _))
                &&& init.instruction.program_id == spec_id()
                &&& init.instruction.data == seq![6u8, 2u8, 1u8] + authority@
                &&& init.instruction.accounts == seq![
                    AccountMeta {
                        pubkey: accounts[TEMP_TOKEN_ACCOUNT as int].key,
                        is_signer: false,
                        is_writable: true,
                    },
                    AccountMeta {
                        pubkey: accounts[INITIALIZER as int].key,
                        is_signer: false,
                        is_writable: false,
                    },
                    AccountMeta {
                        pubkey: accounts[INITIALIZER as int].key,
                        is_signer: true,
                        is_writable: false,
                    },
                ]
            }),
    {
        let escrow = Self::spec_new_escrow(accounts, amount);
        escrow.lemma_unpack_pack();
    }
}

} // verus!
