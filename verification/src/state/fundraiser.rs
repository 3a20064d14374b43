//! The campaign record.

use crate::account::AccountInfo;
use crate::codec::{
    i64_from_le, i64_to_le, lemma_i64_bytes_round_trip, lemma_i64_value_round_trip,
    lemma_u64_bytes_round_trip, lemma_u64_value_round_trip, read_i64, read_key, read_u64, read_u8,
    same_key, u64_from_le, u64_to_le, write_i64, write_key, write_u64, write_u8,
};
use crate::error::FundraiserError;
use crate::ID;
use pinocchio::pubkey::Pubkey;
use pinocchio::ProgramResult;
use vstd::prelude::*;

verus! {

/// Offset of the campaign owner's address.
pub const MAKER_OFFSET: usize = 0;

/// Offset of the address of the asset that the campaign raises.
pub const MINT_TO_RAISE_OFFSET: usize = 32;

/// Offset of the funding goal.
pub const AMOUNT_TO_RAISE_OFFSET: usize = 64;

/// Offset of the running total.
pub const CURRENT_AMOUNT_OFFSET: usize = 72;

/// Offset of the start time.
pub const TIME_STARTED_OFFSET: usize = 80;

/// Offset of the duration in days.
pub const DURATION_OFFSET: usize = 88;

/// Offset of the nonce of the campaign's derived authority.
pub const BUMP_OFFSET: usize = 89;

/// The fields of a campaign record as values.
pub struct FundraiserView {
    /// Address of the campaign's owner, 32 bytes.
    pub maker: Seq<u8>,
    /// Address of the asset that the campaign accepts, 32 bytes.
    pub mint_to_raise: Seq<u8>,
    /// The funding goal.
    pub amount_to_raise: u64,
    /// The sum of the contributions accepted so far.
    pub current_amount: u64,
    /// When the campaign started, in seconds since the epoch; not started
    /// while this is zero.
    pub time_started: i64,
    /// How long the campaign runs, in days.
    pub duration: u8,
    /// Nonce from which the campaign's authority is derived.
    pub bump: u8,
}

impl FundraiserView {
    /// Both addresses have the width of an address.
    pub open spec fn wf(self) -> bool {
        self.maker.len() == 32 && self.mint_to_raise.len() == 32
    }

    /// The fields that the 90 bytes of a record hold.
    pub open spec fn decode(bytes: Seq<u8>) -> FundraiserView
        recommends
            bytes.len() == 90,
    {
        FundraiserView {
            maker: bytes.subrange(MAKER_OFFSET as int, MAKER_OFFSET + 32),
            mint_to_raise: bytes.subrange(MINT_TO_RAISE_OFFSET as int, MINT_TO_RAISE_OFFSET + 32),
            amount_to_raise: u64_from_le(
                bytes.subrange(AMOUNT_TO_RAISE_OFFSET as int, AMOUNT_TO_RAISE_OFFSET + 8),
            ),
            current_amount: u64_from_le(
                bytes.subrange(CURRENT_AMOUNT_OFFSET as int, CURRENT_AMOUNT_OFFSET + 8),
            ),
            time_started: i64_from_le(
                bytes.subrange(TIME_STARTED_OFFSET as int, TIME_STARTED_OFFSET + 8),
            ),
            duration: bytes[DURATION_OFFSET as int],
            bump: bytes[BUMP_OFFSET as int],
        }
    }

    /// The 90 bytes of the record that holds these fields: the fields one
    /// after the other in layout order, nothing between them.
    pub open spec fn encode(self) -> Seq<u8>
        recommends
            self.wf(),
    {
        self.maker + self.mint_to_raise + u64_to_le(self.amount_to_raise) + u64_to_le(
            self.current_amount,
        ) + i64_to_le(self.time_started) + seq![self.duration, self.bump]
    }
}

/// Fields written into a record are read back as they were, whatever their
/// values: zero, the largest unsigned number, a negative time.
pub proof fn lemma_fields_round_trip(fields: FundraiserView)
    requires
        fields.wf(),
    ensures
        fields.encode().len() == 90,
        FundraiserView::decode(fields.encode()) == fields,
{
    lemma_u64_value_round_trip(fields.amount_to_raise);
    lemma_u64_value_round_trip(fields.current_amount);
    lemma_i64_value_round_trip(fields.time_started);
    let bytes = fields.encode();
    let back = FundraiserView::decode(bytes);
    assert(back.maker == fields.maker);
    assert(back.mint_to_raise == fields.mint_to_raise);
}

/// The bytes of a record are the encoding of the fields they hold, so the
/// fields of a record determine every one of its bytes.
pub proof fn lemma_bytes_round_trip(bytes: Seq<u8>)
    requires
        bytes.len() == 90,
    ensures
        FundraiserView::decode(bytes).wf(),
        FundraiserView::decode(bytes).encode() == bytes,
{
    lemma_u64_bytes_round_trip(bytes.subrange(64, 72));
    lemma_u64_bytes_round_trip(bytes.subrange(72, 80));
    lemma_i64_bytes_round_trip(bytes.subrange(80, 88));
}

/// A campaign record: the 90 bytes of a campaign account, read and written
/// field by field.
#[derive(Debug, PartialEq, Eq)]
pub struct Fundraiser {
    data: [u8; 90],
}

impl View for Fundraiser {
    type V = FundraiserView;

    closed spec fn view(&self) -> FundraiserView {
        FundraiserView::decode(self.data@)
    }
}

impl Fundraiser {
    /// Length of a campaign record in bytes.
    pub const LEN: usize = 90;

    /// Whether `account_info` can hold a campaign record: this program owns
    /// it and its data has the length of a record.
    pub open spec fn holds_record(account_info: AccountInfo) -> bool {
        account_info.owner@ == ID@ && account_info.data@.len() == Fundraiser::LEN
    }

    /// The addresses of every record have the width of an address.
    pub proof fn lemma_view_wf(self)
        ensures
            self@.wf(),
    {
    }

    /// Records with the same fields are the same record, byte for byte.
    pub proof fn lemma_view_injective(self, other: Fundraiser)
        requires
            self@ == other@,
        ensures
            self == other,
    {
        lemma_bytes_round_trip(self.data@);
        lemma_bytes_round_trip(other.data@);
        assert(self.data =~= other.data);
    }

    /// Overwrites the whole record with the 90 bytes of `data`.
    pub fn init(&mut self, data: &[u8; 90]) -> (result: ProgramResult)
        ensures
            result is Ok,
            final(self)@ == FundraiserView::decode(data@),
    {
        self.data = *data;
        Ok(())
    }

    /// Takes the record out of an account that is known to hold one.
    pub fn from_account_info_unchecked(account_info: &AccountInfo) -> (record: Fundraiser)
        requires
            Fundraiser::holds_record(*account_info),
        ensures
            record@ == FundraiserView::decode(account_info.data@),
    {
        let mut data: [u8; 90] = [0u8; 90];
        let mut i: usize = 0;
        while i < 90
            invariant
                i <= 90,
                account_info.data@.len() == 90,
                forall|j: int| 0 <= j < i ==> data@[j] == account_info.data@[j],
            decreases 90 - i,
        {
            data[i] = account_info.data[i];
            i += 1;
        }
        assert(data@ =~= account_info.data@);
        Fundraiser { data }
    }

    /// Takes the record out of an account after checking that the account
    /// can hold one.
    pub fn from_account_info(account_info: &AccountInfo) -> (result: Result<
        Fundraiser,
        FundraiserError,
    >)
        ensures
            Fundraiser::holds_record(*account_info) ==> result is Ok && result->Ok_0@
                == FundraiserView::decode(account_info.data@),
            !Fundraiser::holds_record(*account_info) ==> result == Err::<
                Fundraiser,
                FundraiserError,
            >(FundraiserError::RecordIntegrityError),
    {
        if !same_key(&account_info.owner, &ID) {
            return Err(FundraiserError::RecordIntegrityError);
        }
        if account_info.data.len() != Fundraiser::LEN {
            return Err(FundraiserError::RecordIntegrityError);
        }
        Ok(Fundraiser::from_account_info_unchecked(account_info))
    }

    /// Builds the record that holds the given fields.
    pub fn new(
        maker: &Pubkey,
        mint_to_raise: &Pubkey,
        amount_to_raise: u64,
        current_amount: u64,
        time_started: i64,
        duration: u8,
        bump: u8,
    ) -> (record: Fundraiser)
        ensures
            record@ == (FundraiserView {
                maker: maker@,
                mint_to_raise: mint_to_raise@,
                amount_to_raise,
                current_amount,
                time_started,
                duration,
                bump,
            }),
    {
        let mut data: [u8; 90] = [0u8; 90];
        write_key(&mut data, MAKER_OFFSET, maker);
        write_key(&mut data, MINT_TO_RAISE_OFFSET, mint_to_raise);
        write_u64(&mut data, AMOUNT_TO_RAISE_OFFSET, amount_to_raise);
        write_u64(&mut data, CURRENT_AMOUNT_OFFSET, current_amount);
        write_i64(&mut data, TIME_STARTED_OFFSET, time_started);
        write_u8(&mut data, DURATION_OFFSET, duration);
        write_u8(&mut data, BUMP_OFFSET, bump);
        proof {
            let fields = FundraiserView {
                maker: maker@,
                mint_to_raise: mint_to_raise@,
                amount_to_raise,
                current_amount,
                time_started,
                duration,
                bump,
            };
            assert(data@ =~= fields.encode());
            lemma_fields_round_trip(fields);
        }
        Fundraiser { data }
    }

    /// The 90 bytes of the record, as they are stored in its account.
    pub fn as_bytes(&self) -> (bytes: &[u8; 90])
        ensures
            bytes@ == self@.encode(),
    {
        proof {
            lemma_bytes_round_trip(self.data@);
        }
        &self.data
    }

    /// Address of the campaign's owner.
    pub fn maker(&self) -> (key: Pubkey)
        ensures
            key@ == self@.maker,
    {
        read_key(&self.data, MAKER_OFFSET)
    }

    /// Address of the asset that the campaign accepts.
    pub fn mint_to_raise(&self) -> (key: Pubkey)
        ensures
            key@ == self@.mint_to_raise,
    {
        read_key(&self.data, MINT_TO_RAISE_OFFSET)
    }

    /// The funding goal.
    pub fn amount_to_raise(&self) -> (amount: u64)
        ensures
            amount == self@.amount_to_raise,
    {
        read_u64(&self.data, AMOUNT_TO_RAISE_OFFSET)
    }

    /// The running total of accepted contributions.
    pub fn current_amount(&self) -> (amount: u64)
        ensures
            amount == self@.current_amount,
    {
        read_u64(&self.data, CURRENT_AMOUNT_OFFSET)
    }

    /// When the campaign started, in seconds since the epoch.
    pub fn time_started(&self) -> (time: i64)
        ensures
            time == self@.time_started,
    {
        read_i64(&self.data, TIME_STARTED_OFFSET)
    }

    /// How long the campaign runs, in days.
    pub fn duration(&self) -> (days: u8)
        ensures
            days == self@.duration,
    {
        read_u8(&self.data, DURATION_OFFSET)
    }

    /// Nonce from which the campaign's authority is derived.
    pub fn bump(&self) -> (bump: u8)
        ensures
            bump == self@.bump,
    {
        read_u8(&self.data, BUMP_OFFSET)
    }

    /// Replaces the running total and leaves every other field as it is.
    pub fn set_current_amount(&mut self, amount: u64)
        ensures
            final(self)@ == (FundraiserView { current_amount: amount, ..old(self)@ }),
    {
        write_u64(&mut self.data, CURRENT_AMOUNT_OFFSET, amount);
        proof {
            lemma_u64_value_round_trip(amount);
            let before = old(self).data@;
            let after = self.data@;
            assert(after.subrange(0, 32) =~= before.subrange(0, 32));
            assert(after.subrange(32, 64) =~= before.subrange(32, 64));
        }
    }
}

} // verus!
