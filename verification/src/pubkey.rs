use vstd::prelude::*;
use crate::bytes::{array_from_seq, array_from_slice, arrays_equal, lemma_array_from_seq_of_view};

verus! {

/// Number of bytes in an account identity.
pub const PUBKEY_BYTES: usize = 32;

/// The public identity of an account or of a program.
#[derive(Debug, Copy, Clone, PartialEq, Eq)]
pub struct Pubkey {
    pub bytes: [u8; 32],
}

/// The program address and bump seed that
/// `Pubkey::try_find_program_address` of `solana_program` derives from one
/// seed and the identity of a program, or `None` where it derives none.
pub uninterp spec fn program_address(seed: Seq<u8>, program_id: Seq<u8>) -> Option<(Pubkey, u8)>;

/// Has `solana_program::pubkey::Pubkey::try_find_program_address` derive a
/// program address from one seed. What it derives depends on the seed and the
/// program alone.
#[verifier::external_body]
pub(crate) fn try_find_program_address(seed: &[u8], program_id: &Pubkey) -> (found: Option<
    (Pubkey, u8),
>)
    ensures
        found == program_address(seed@, program_id@),
{
    let program_id = solana_program::pubkey::Pubkey::new_from_array(program_id.bytes);
    solana_program::pubkey::Pubkey::try_find_program_address(&[seed], &program_id).map(
        |(address, bump)| (Pubkey { bytes: address.to_bytes() }, bump),
    )
}

impl View for Pubkey {
    type V = Seq<u8>;

    open spec fn view(&self) -> Seq<u8> {
        self.bytes@
    }
}

impl Pubkey {
    /// The identity made of the given bytes.
    pub fn new_from_array(bytes: [u8; 32]) -> (key: Pubkey)
        ensures
            key.bytes == bytes,
    {
        Pubkey { bytes }
    }

    /// The identity whose bytes are `s`, a sequence of thirty-two bytes.
    pub open spec fn from_seq(s: Seq<u8>) -> Pubkey
        recommends
            s.len() == PUBKEY_BYTES,
    {
        Pubkey { bytes: array_from_seq::<32>(s) }
    }

    /// Every identity is the one that its own bytes stand for.
    pub proof fn lemma_from_seq_of_view(key: Pubkey)
        ensures
            Pubkey::from_seq(key@) == key,
    {
        lemma_array_from_seq_of_view(key.bytes);
    }

    /// The identity held in a slice of thirty-two bytes.
    pub fn from_slice(src: &[u8]) -> (key: Pubkey)
        requires
            src@.len() == PUBKEY_BYTES,
        ensures
            key@ == src@,
            key == Pubkey::from_seq(src@),
    {
        Pubkey { bytes: array_from_slice::<32>(src) }
    }

    /// The bytes of the identity.
    pub fn to_bytes(&self) -> (bytes: [u8; 32])
        ensures
            bytes == self.bytes,
    {
        self.bytes
    }

    /// Two identities are the same exactly when their bytes agree.
    pub proof fn lemma_view_injective(a: Pubkey, b: Pubkey)
        ensures
            (a@ == b@) <==> (a == b),
    {
        if a@ == b@ {
            assert(a.bytes =~= b.bytes);
        }
    }

    /// Whether both identities are the same.
    pub fn equals(&self, other: &Pubkey) -> (same: bool)
        ensures
            same == (*self == *other),
    {
        arrays_equal(&self.bytes, &other.bytes)
    }
}

} // verus!
