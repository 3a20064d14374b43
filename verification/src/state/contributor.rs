//! The record of what one contributor has pledged to one campaign.

use crate::account::AccountInfo;
use crate::codec::{
    lemma_u64_bytes_round_trip, lemma_u64_value_round_trip, read_u64, u64_from_le, u64_to_le,
    write_u64,
};
use crate::error::FundraiserError;
use vstd::prelude::*;

verus! {

/// Offset of the pledged total.
pub const AMOUNT_OFFSET: usize = 0;

/// The fields of a contributor record as values.
pub struct ContributorView {
    /// The sum of what this contributor has given to the campaign.
    pub amount: u64,
}

impl ContributorView {
    /// The fields that the eight bytes of a record hold.
    pub open spec fn decode(bytes: Seq<u8>) -> ContributorView
        recommends
            bytes.len() == 8,
    {
        ContributorView {
            amount: u64_from_le(bytes.subrange(AMOUNT_OFFSET as int, AMOUNT_OFFSET + 8)),
        }
    }

    /// The eight bytes of the record that holds these fields.
    pub open spec fn encode(self) -> Seq<u8> {
        u64_to_le(self.amount)
    }
}

/// A contributor record: the eight bytes of a contributor account.
#[derive(Debug, PartialEq, Eq)]
pub struct Contributor {
    data: [u8; 8],
}

impl View for Contributor {
    type V = ContributorView;

    closed spec fn view(&self) -> ContributorView {
        ContributorView::decode(self.data@)
    }
}

impl Contributor {
    /// Length of a contributor record in bytes.
    pub const LEN: usize = 8;

    /// Whether `account_info` can hold a contributor record: its data has
    /// the length of a record.
    pub open spec fn holds_record(account_info: AccountInfo) -> bool {
        account_info.data@.len() == Contributor::LEN
    }

    /// Records with the same fields are the same record, byte for byte.
    pub proof fn lemma_view_injective(self, other: Contributor)
        requires
            self@ == other@,
        ensures
            self == other,
    {
        lemma_u64_bytes_round_trip(self.data@);
        lemma_u64_bytes_round_trip(other.data@);
        assert(self.data =~= other.data);
    }

    /// Takes the record out of an account that is known to hold one.
    pub fn from_account_info_unchecked(account_info: &AccountInfo) -> (record: Contributor)
        requires
            Contributor::holds_record(*account_info),
        ensures
            record@ == ContributorView::decode(account_info.data@),
    {
        let mut data: [u8; 8] = [0u8; 8];
        let mut i: usize = 0;
        while i < 8
            invariant
                i <= 8,
                account_info.data@.len() == 8,
                forall|j: int| 0 <= j < i ==> data@[j] == account_info.data@[j],
            decreases 8 - i,
        {
            data[i] = account_info.data[i];
            i += 1;
        }
        Contributor { data }
    }

    /// Takes the record out of an account after checking that the account
    /// can hold one.
    pub fn from_account_info(account_info: &AccountInfo) -> (result: Result<
        Contributor,
        FundraiserError,
    >)
        ensures
            Contributor::holds_record(*account_info) ==> result is Ok && result->Ok_0@
                == ContributorView::decode(account_info.data@),
            !Contributor::holds_record(*account_info) ==> result == Err::<
                Contributor,
                FundraiserError,
            >(FundraiserError::RecordIntegrityError),
    {
        if account_info.data.len() != Contributor::LEN {
            return Err(FundraiserError::RecordIntegrityError);
        }
        Ok(Contributor::from_account_info_unchecked(account_info))
    }

    /// Builds the record of a contributor who has pledged `amount` so far.
    pub fn new(amount: u64) -> (record: Contributor)
        ensures
            record@ == (ContributorView { amount }),
    {
        let mut data: [u8; 8] = [0u8; 8];
        write_u64(&mut data, AMOUNT_OFFSET, amount);
        proof {
            lemma_u64_value_round_trip(amount);
        }
        Contributor { data }
    }

    /// The eight bytes of the record, as they are stored in its account.
    pub fn as_bytes(&self) -> (bytes: &[u8; 8])
        ensures
            bytes@ == self@.encode(),
    {
        proof {
            lemma_u64_bytes_round_trip(self.data@);
        }
        &self.data
    }

    /// The sum of what this contributor has given to the campaign.
    pub fn amount(&self) -> (amount: u64)
        ensures
            amount == self@.amount,
    {
        read_u64(&self.data, AMOUNT_OFFSET)
    }

    /// Replaces the pledged total.
    pub fn set_amount(&mut self, amount: u64)
        ensures
            final(self)@ == (ContributorView { amount }),
    {
        write_u64(&mut self.data, AMOUNT_OFFSET, amount);
        proof {
            lemma_u64_value_round_trip(amount);
        }
    }
}

} // verus!
