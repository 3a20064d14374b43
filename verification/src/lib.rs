//! Bookkeeping for a time-bounded fundraising campaign held in fixed-layout
//! account records: the byte codec of the records, the campaign and
//! contributor records, and the rules that decide and apply a contribution.

use pinocchio::pubkey::Pubkey;
use vstd::prelude::*;

pub mod account;
pub mod codec;
pub mod constants;
pub mod error;
pub mod instructions;
pub mod state;

verus! {

/// Address of this program. A campaign record counts as genuine only in an
/// account that this program owns.
pub const ID: Pubkey = [
    0x46, 0x75, 0x6e, 0x64, 0x72, 0x61, 0x69, 0x73, 0x65, 0x72, 0x50, 0x72, 0x6f, 0x67, 0x72, 0x61,
    0x6d, 0x31, 0x31, 0x31, 0x31, 0x31, 0x31, 0x31, 0x31, 0x31, 0x31, 0x31, 0x31, 0x31, 0x31, 0x31,
];

} // verus!
