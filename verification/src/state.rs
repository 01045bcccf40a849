use vstd::prelude::*;
use vstd::slice::slice_subrange;
use crate::bytes::write_bytes;
use crate::error::ProgramError;
use crate::le::{
    lemma_u64_le_bytes_round_trip, lemma_u64_le_round_trip, read_u64_le, u64_from_le, u64_to_le,
    write_u64_le,
};
use crate::pubkey::Pubkey;

verus! {

/// The terms of one trade in progress, as kept in the escrow record account.
#[derive(Debug, Copy, Clone, PartialEq, Eq)]
pub struct Escrow {
    /// Whether the record is in use.
    pub is_initialized: bool,
    /// The party that opened the trade.
    pub initializer_pubkey: Pubkey,
    /// The token account that holds the offered tokens, now under the
    /// program's authority.
    pub temp_token_account_pubkey: Pubkey,
    /// The initializer's token account for the tokens to be received.
    pub initializer_token_to_receive_account_pubkey: Pubkey,
    /// The amount the initializer expects to receive.
    pub expected_amount: u64,
}

impl Escrow {
    /// Size of the packed record, in bytes.
    pub const LEN: usize = 105;

    /// Whether the record is in use.
    pub fn is_initialized(&self) -> (b: bool)
        ensures
            b == self.is_initialized,
    {
        self.is_initialized
    }

    /// The packed record: the flag as one byte, the three identities, and the
    /// amount in little-endian order, with nothing in between.
    pub open spec fn spec_pack(self) -> Seq<u8> {
        seq![if self.is_initialized { 1u8 } else { 0u8 }] + self.initializer_pubkey@
            + self.temp_token_account_pubkey@
            + self.initializer_token_to_receive_account_pubkey@ + u64_to_le(self.expected_amount)
    }

    /// The record held in the first `LEN` bytes of `src`. A flag byte other
    /// than 0 and 1 does not decode.
    pub open spec fn spec_unpack(src: Seq<u8>) -> Result<Escrow, ProgramError>
        recommends
            src.len() >= Escrow::LEN,
    {
        if src[0] > 1 {
            Err(ProgramError::InvalidAccountData)
        } else {
            Ok(
                Escrow {
                    is_initialized: src[0] == 1,
                    initializer_pubkey: Pubkey::from_seq(src.subrange(1, 33)),
                    temp_token_account_pubkey: Pubkey::from_seq(src.subrange(33, 65)),
                    initializer_token_to_receive_account_pubkey: Pubkey::from_seq(
                        src.subrange(65, 97),
                    ),
                    expected_amount: u64_from_le(src.subrange(97, 105)) as u64,
                },
            )
        }
    }

    /// The record held in `input`, which has to be exactly `LEN` bytes long.
    pub open spec fn spec_unpack_unchecked(input: Seq<u8>) -> Result<Escrow, ProgramError> {
        if input.len() != Escrow::LEN {
            Err(ProgramError::InvalidAccountData)
        } else {
            Escrow::spec_unpack(input)
        }
    }

    /// A packed record is `LEN` bytes long and starts with the flag.
    pub proof fn lemma_pack_len(self)
        ensures
            self.spec_pack().len() == Escrow::LEN,
            self.spec_pack()[0] == (if self.is_initialized { 1u8 } else { 0u8 }),
    {
    }

    /// Unpacking a packed record gives the record back.
    pub proof fn lemma_unpack_pack(self)
        ensures
            Escrow::spec_unpack(self.spec_pack()) == Ok::<Escrow, ProgramError>(self),
            Escrow::spec_unpack_unchecked(self.spec_pack()) == Ok::<Escrow, ProgramError>(self),
    {
        let p = self.spec_pack();
        assert(p.subrange(1, 33) =~= self.initializer_pubkey@);
        assert(p.subrange(33, 65) =~= self.temp_token_account_pubkey@);
        assert(p.subrange(65, 97) =~= self.initializer_token_to_receive_account_pubkey@);
        assert(p.subrange(97, 105) =~= u64_to_le(self.expected_amount));
        Pubkey::lemma_from_seq_of_view(self.initializer_pubkey);
        Pubkey::lemma_from_seq_of_view(self.temp_token_account_pubkey);
        Pubkey::lemma_from_seq_of_view(self.initializer_token_to_receive_account_pubkey);
        lemma_u64_le_round_trip(self.expected_amount);
    }

    /// Two records with the same packed form are the same record.
    pub proof fn lemma_pack_injective(a: Escrow, b: Escrow)
        requires
            a.spec_pack() == b.spec_pack(),
        ensures
            a == b,
    {
        a.lemma_unpack_pack();
        b.lemma_unpack_pack();
    }

    /// Reads the record from the first `LEN` bytes of `src`.
    pub fn unpack_from_slice(src: &[u8]) -> (r: Result<Escrow, ProgramError>)
        requires
            src@.len() >= Escrow::LEN,
        ensures
            r == Escrow::spec_unpack(src@),
            r matches Ok(escrow) ==> escrow.spec_pack() == src@.subrange(0, Escrow::LEN as int),
    {
        let flag = src[0];
        if flag > 1 {
            return Err(ProgramError::InvalidAccountData);
        }
        let amount = read_u64_le(slice_subrange(src, 97, 105));
        let escrow = Escrow {
            is_initialized: flag == 1,
            initializer_pubkey: Pubkey::from_slice(slice_subrange(src, 1, 33)),
            temp_token_account_pubkey: Pubkey::from_slice(slice_subrange(src, 33, 65)),
            initializer_token_to_receive_account_pubkey: Pubkey::from_slice(
                slice_subrange(src, 65, 97),
            ),
            expected_amount: amount,
        };
        proof {
            lemma_u64_le_bytes_round_trip(src@.subrange(97, 105));
            assert(escrow.spec_pack() =~= src@.subrange(0, Escrow::LEN as int));
        }
        Ok(escrow)
    }

    /// Writes the packed record over the first `LEN` bytes of `dst`.
    pub fn pack_into_slice(&self, dst: &mut [u8])
        requires
            old(dst)@.len() >= Escrow::LEN,
        ensures
            final(dst)@ == self.spec_pack() + old(dst)@.subrange(
                Escrow::LEN as int,
                old(dst)@.len() as int,
            ),
    {
        dst[0] = if self.is_initialized { 1 } else { 0 };
        write_bytes(dst, 1, &self.initializer_pubkey.bytes);
        write_bytes(dst, 33, &self.temp_token_account_pubkey.bytes);
        write_bytes(dst, 65, &self.initializer_token_to_receive_account_pubkey.bytes);
        let amount = write_u64_le(self.expected_amount);
        write_bytes(dst, 97, &amount);
        assert(dst@ =~= self.spec_pack() + old(dst)@.subrange(
            Escrow::LEN as int,
            old(dst)@.len() as int,
        ));
    }

    /// Reads a record from a buffer of exactly `LEN` bytes.
    pub fn unpack_unchecked(input: &[u8]) -> (r: Result<Escrow, ProgramError>)
        ensures
            r == Escrow::spec_unpack_unchecked(input@),
    {
        if input.len() != Escrow::LEN {
            return Err(ProgramError::InvalidAccountData);
        }
        Escrow::unpack_from_slice(input)
    }

    /// Writes a record into a buffer of exactly `LEN` bytes. A buffer of
    /// another length is left as it is.
    pub fn pack(src: Escrow, dst: &mut [u8]) -> (r: Result<(), ProgramError>)
        ensures
            old(dst)@.len() == Escrow::LEN ==> r is Ok && final(dst)@ == src.spec_pack(),
            old(dst)@.len() != Escrow::LEN ==> r == Err::<(), ProgramError>(
                ProgramError::InvalidAccountData,
            ) && final(dst)@ == old(dst)@,
    {
        if dst.len() != Escrow::LEN {
            return Err(ProgramError::InvalidAccountData);
        }
        src.pack_into_slice(dst);
        assert(dst@ =~= src.spec_pack());
        Ok(())
    }
}

} // verus!
