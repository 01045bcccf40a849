use vstd::prelude::*;
use crate::pubkey::Pubkey;

verus! {

/// What the program sees of one account of the request.
#[derive(Debug, Clone, PartialEq, Eq)]
pub struct AccountInfo {
    /// Identity of the account.
    pub key: Pubkey,
    /// Whether the account signed the request.
    pub is_signer: bool,
    /// Balance of the account, in lamports.
    pub lamports: u64,
    /// Contents of the account.
    pub data: Vec<u8>,
    /// The program that owns the account.
    pub owner: Pubkey,
}

/// An account as a mathematical value.
pub struct AccountView {
    pub key: Pubkey,
    pub is_signer: bool,
    pub lamports: u64,
    pub data: Seq<u8>,
    pub owner: Pubkey,
}

impl View for AccountInfo {
    type V = AccountView;

    open spec fn view(&self) -> AccountView {
        AccountView {
            key: self.key,
            is_signer: self.is_signer,
            lamports: self.lamports,
            data: self.data@,
            owner: self.owner,
        }
    }
}

impl DeepView for AccountInfo {
    type V = AccountView;

    open spec fn deep_view(&self) -> AccountView {
        self@
    }
}

impl AccountInfo {
    /// An account with the given properties.
    pub fn new(key: Pubkey, is_signer: bool, lamports: u64, data: Vec<u8>, owner: Pubkey) -> (account:
        AccountInfo)
        ensures
            account.key == key,
            account.is_signer == is_signer,
            account.lamports == lamports,
            account.data == data,
            account.owner == owner,
    {
        AccountInfo { key, is_signer, lamports, data, owner }
    }

    /// Balance of the account, in lamports.
    pub fn lamports(&self) -> (lamports: u64)
        ensures
            lamports == self.lamports,
    {
        self.lamports
    }

    /// Size of the account's contents, in bytes.
    pub fn data_len(&self) -> (len: usize)
        ensures
            len == self.data@.len(),
    {
        self.data.len()
    }
}

} // verus!
