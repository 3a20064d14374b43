//! What the records and rules read of an account handle.

use pinocchio::pubkey::Pubkey;
use vstd::prelude::*;

verus! {

/// One account as the host hands it to an instruction: its address, the
/// program that owns it, whether it signed the transaction, and its data.
#[derive(Debug, PartialEq, Eq)]
pub struct AccountInfo {
    /// Address of the account.
    pub key: Pubkey,
    /// Address of the program that owns the account.
    pub owner: Pubkey,
    /// Whether the transaction carries this account's signature.
    pub is_signer: bool,
    /// The bytes stored in the account.
    pub data: Vec<u8>,
}

} // verus!
