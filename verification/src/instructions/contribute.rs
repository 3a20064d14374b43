//! One contribution to a campaign.
//!
//! A contribution runs in two steps around the transfer of the asset, which
//! the host performs. `process_contribute_instruction` reads the request and
//! decides whether it is accepted; if it is, it hands back the records and
//! names the transfer to make. Settling, by `PendingContribution::settle` or
//! by `settle_contribution` on the records themselves, takes what the
//! transfer came to and, if it went through, adds the amount to the
//! campaign's total and to the contributor's pledge. Neither record changes
//! before the transfer has succeeded.

use crate::account::AccountInfo;
use crate::codec::{read_u64, same_key, u64_from_le};
use crate::constants::{
    MAX_CONTRIBUTION_PERCENTAGE, MIN_AMOUNT_TO_RAISE, PERCENTAGE_SCALER, SECONDS_TO_DAYS,
};
use crate::error::FundraiserError;
use crate::state::contributor::{Contributor, ContributorView};
use crate::state::fundraiser::{Fundraiser, FundraiserView};
use pinocchio::program_error::ProgramError;
use pinocchio::pubkey::Pubkey;
use vstd::prelude::*;

verus! {

/// Place of the contributor, who signs, in the list of accounts.
pub const SIGNER_INDEX: usize = 0;

/// Place of the contributor's holding of the asset.
pub const SIGNER_TOKEN_ACCOUNT_INDEX: usize = 1;

/// Place of the campaign record.
pub const FUNDRAISER_INDEX: usize = 2;

/// Place of the campaign's vault.
pub const VAULT_INDEX: usize = 3;

/// Place of the contributor record.
pub const CONTRIBUTOR_INDEX: usize = 4;

/// Place of the asset that is offered.
pub const MINT_INDEX: usize = 5;

/// Place of the transfer service.
pub const TOKEN_PROGRAM_INDEX: usize = 6;

/// Number of accounts that a contribution names.
pub const ACCOUNTS_LEN: usize = 7;

/// Length of the payload of a contribution: the amount, 64 bits little-endian.
pub const AMOUNT_LEN: usize = 8;

/// The most that a single contribution to a campaign with the given goal may
/// carry: the allowed share of the goal, rounded down.
pub open spec fn max_contribution(amount_to_raise: u64) -> int {
    (amount_to_raise * MAX_CONTRIBUTION_PERCENTAGE) / (PERCENTAGE_SCALER as int)
}

/// The last second at which a campaign accepts contributions.
pub open spec fn deadline(time_started: i64, duration: u8) -> int {
    time_started + duration * SECONDS_TO_DAYS
}

/// Why the campaign refuses the contribution, if it does: the first of the
/// five conditions, in their order, that does not hold.
pub open spec fn refusal(
    campaign: FundraiserView,
    signer_authenticated: bool,
    asset: Seq<u8>,
    amount: u64,
    current_time: i64,
) -> Option<FundraiserError> {
    if !signer_authenticated {
        Some(FundraiserError::Unauthorized)
    } else if campaign.mint_to_raise != asset {
        Some(FundraiserError::AssetMismatch)
    } else if amount < MIN_AMOUNT_TO_RAISE {
        Some(FundraiserError::ContributionTooSmall)
    } else if amount > max_contribution(campaign.amount_to_raise) {
        Some(FundraiserError::ContributionTooBig)
    } else if campaign.time_started <= 0 {
        Some(FundraiserError::CampaignNotStarted)
    } else if current_time > deadline(campaign.time_started, campaign.duration) {
        Some(FundraiserError::CampaignEnded)
    } else {
        None
    }
}

/// Decides whether the campaign accepts a contribution of `amount` of
/// `asset` at `current_time`. Nothing is changed.
pub fn validate_contribution(
    fundraiser: &Fundraiser,
    signer_authenticated: bool,
    asset: &Pubkey,
    amount: u64,
    current_time: i64,
) -> (result: Result<(), FundraiserError>)
    ensures
        result == match refusal(fundraiser@, signer_authenticated, asset@, amount, current_time) {
            Some(error) => Err::<(), FundraiserError>(error),
            None => Ok::<(), FundraiserError>(()),
        },
{
    if !signer_authenticated {
        return Err(FundraiserError::Unauthorized);
    }
    let mint: Pubkey = fundraiser.mint_to_raise();
    if !same_key(&mint, asset) {
        return Err(FundraiserError::AssetMismatch);
    }
    if amount < MIN_AMOUNT_TO_RAISE {
        return Err(FundraiserError::ContributionTooSmall);
    }
    let goal: u128 = fundraiser.amount_to_raise() as u128;
    let cap: u128 = goal * (MAX_CONTRIBUTION_PERCENTAGE as u128) / (PERCENTAGE_SCALER as u128);
    if amount as u128 > cap {
        return Err(FundraiserError::ContributionTooBig);
    }
    let time_started: i64 = fundraiser.time_started();
    if time_started <= 0 {
        return Err(FundraiserError::CampaignNotStarted);
    }
    let length: i128 = (fundraiser.duration() as i128) * (SECONDS_TO_DAYS as i128);
    let end: i128 = time_started as i128 + length;
    if current_time as i128 > end {
        return Err(FundraiserError::CampaignEnded);
    }
    Ok(())
}

/// The transfer that an accepted contribution asks of the transfer service.
#[derive(Debug, PartialEq, Eq)]
pub struct TransferRequest {
    /// Address of the holding that gives: the contributor's.
    pub from: Pubkey,
    /// Address of the holding that receives: the campaign's vault.
    pub to: Pubkey,
    /// Address of the account whose signature allows the transfer: the
    /// contributor.
    pub authority: Pubkey,
    /// How much of the asset moves.
    pub amount: u64,
}

/// A contribution that has been accepted and waits for its transfer: the two
/// records as they were read, and the transfer to make.
#[derive(Debug, PartialEq, Eq)]
pub struct PendingContribution {
    /// The campaign record.
    pub fundraiser: Fundraiser,
    /// The record of the contributor for this campaign.
    pub contributor: Contributor,
    /// The transfer that has to succeed before the records change.
    pub transfer: TransferRequest,
}

/// The amount that a payload asks to contribute.
pub open spec fn requested_amount(data: Seq<u8>) -> u64
    recommends
        data.len() >= AMOUNT_LEN,
{
    u64_from_le(data.subrange(0, AMOUNT_LEN as int))
}

/// Why the instruction is refused, if it is: the first failure in the order
/// payload, number of accounts, signature, records, then the conditions of
/// the campaign.
pub open spec fn instruction_refusal(
    accounts: Seq<AccountInfo>,
    data: Seq<u8>,
    current_time: i64,
) -> Option<FundraiserError> {
    if data.len() < AMOUNT_LEN {
        Some(FundraiserError::MalformedInput)
    } else if accounts.len() < ACCOUNTS_LEN {
        Some(FundraiserError::InsufficientResources)
    } else if !accounts[SIGNER_INDEX as int].is_signer {
        Some(FundraiserError::Unauthorized)
    } else if !Fundraiser::holds_record(accounts[FUNDRAISER_INDEX as int])
        || !Contributor::holds_record(accounts[CONTRIBUTOR_INDEX as int]) {
        Some(FundraiserError::RecordIntegrityError)
    } else {
        refusal(
            FundraiserView::decode(accounts[FUNDRAISER_INDEX as int].data@),
            true,
            accounts[MINT_INDEX as int].key@,
            requested_amount(data),
            current_time,
        )
    }
}

/// Whether `pending` is what an accepted instruction leaves to be done: the
/// records as the accounts hold them, and a transfer of the requested amount
/// from the contributor's holding to the vault on the contributor's authority.
pub open spec fn awaits_transfer(
    pending: PendingContribution,
    accounts: Seq<AccountInfo>,
    data: Seq<u8>,
) -> bool {
    &&& pending.fundraiser@ == FundraiserView::decode(accounts[FUNDRAISER_INDEX as int].data@)
    &&& pending.contributor@ == ContributorView::decode(accounts[CONTRIBUTOR_INDEX as int].data@)
    &&& pending.transfer.from == accounts[SIGNER_TOKEN_ACCOUNT_INDEX as int].key
    &&& pending.transfer.to == accounts[VAULT_INDEX as int].key
    &&& pending.transfer.authority == accounts[SIGNER_INDEX as int].key
    &&& pending.transfer.amount == requested_amount(data)
}

/// First step of a contribution: reads the amount from `data` and the
/// records from `accounts`, checks everything that can be checked before the
/// transfer, and names the transfer to make. No account is changed, and on
/// refusal no transfer is asked for.
pub fn process_contribute_instruction(
    accounts: &[AccountInfo],
    data: &[u8],
    current_time: i64,
) -> (result: Result<PendingContribution, FundraiserError>)
    ensures
        data@.len() < AMOUNT_LEN ==> result == Err::<PendingContribution, FundraiserError>(
            FundraiserError::MalformedInput,
        ),
        match instruction_refusal(accounts@, data@, current_time) {
            Some(error) => result == Err::<PendingContribution, FundraiserError>(error),
            None => result is Ok && awaits_transfer(result->Ok_0, accounts@, data@),
        },
{
    if data.len() < AMOUNT_LEN {
        return Err(FundraiserError::MalformedInput);
    }
    let amount: u64 = read_u64(data, 0);
    if accounts.len() < ACCOUNTS_LEN {
        return Err(FundraiserError::InsufficientResources);
    }
    let signer: &AccountInfo = &accounts[SIGNER_INDEX];
    if !signer.is_signer {
        return Err(FundraiserError::Unauthorized);
    }
    let fundraiser: Fundraiser = match Fundraiser::from_account_info(&accounts[FUNDRAISER_INDEX]) {
        Ok(record) => record,
        Err(error) => {
            return Err(error);
        },
    };
    let contributor: Contributor = match Contributor::from_account_info(
        &accounts[CONTRIBUTOR_INDEX],
    ) {
        Ok(record) => record,
        Err(error) => {
            return Err(error);
        },
    };
    match validate_contribution(
        &fundraiser,
        signer.is_signer,
        &accounts[MINT_INDEX].key,
        amount,
        current_time,
    ) {
        Ok(()) => {},
        Err(error) => {
            return Err(error);
        },
    }
    let transfer = TransferRequest {
        from: accounts[SIGNER_TOKEN_ACCOUNT_INDEX].key,
        to: accounts[VAULT_INDEX].key,
        authority: signer.key,
        amount,
    };
    Ok(PendingContribution { fundraiser, contributor, transfer })
}

/// Whether both totals still fit in 64 bits once `amount` is added.
pub open spec fn totals_fit(campaign: FundraiserView, pledge: ContributorView, amount: u64) -> bool {
    campaign.current_amount + amount <= u64::MAX && pledge.amount + amount <= u64::MAX
}

/// What settling comes to: the failure of the transfer with its cause, an
/// overflow of a total, or success.
pub open spec fn settle_result(
    campaign: FundraiserView,
    pledge: ContributorView,
    amount: u64,
    transfer: Result<(), ProgramError>,
) -> Result<(), FundraiserError> {
    match transfer {
        Err(cause) => Err(FundraiserError::TransferFailed(cause)),
        Ok(_) => if totals_fit(campaign, pledge, amount) {
            Ok(())
        } else {
            Err(FundraiserError::ArithmeticOverflow)
        },
    }
}

/// The campaign after settling: its total grown by `amount` if settling
/// succeeded, the campaign as it was if not.
pub open spec fn settled_campaign(
    campaign: FundraiserView,
    pledge: ContributorView,
    amount: u64,
    transfer: Result<(), ProgramError>,
) -> FundraiserView {
    if settle_result(campaign, pledge, amount, transfer) is Ok {
        FundraiserView { current_amount: (campaign.current_amount + amount) as u64, ..campaign }
    } else {
        campaign
    }
}

/// The pledge after settling: grown by `amount` if settling succeeded, as it
/// was if not.
pub open spec fn settled_pledge(
    campaign: FundraiserView,
    pledge: ContributorView,
    amount: u64,
    transfer: Result<(), ProgramError>,
) -> ContributorView {
    if settle_result(campaign, pledge, amount, transfer) is Ok {
        ContributorView { amount: (pledge.amount + amount) as u64 }
    } else {
        pledge
    }
}

/// Second step of a contribution: takes what the transfer of `amount` came
/// to. After a transfer that went through, both totals grow by `amount`,
/// together or not at all; after one that failed, both records stay as they
/// were, byte for byte.
pub fn settle_contribution(
    fundraiser: &mut Fundraiser,
    contributor: &mut Contributor,
    amount: u64,
    transfer: Result<(), ProgramError>,
) -> (result: Result<(), FundraiserError>)
    ensures
        result == settle_result(old(fundraiser)@, old(contributor)@, amount, transfer),
        final(fundraiser)@ == settled_campaign(
            old(fundraiser)@,
            old(contributor)@,
            amount,
            transfer,
        ),
        final(contributor)@ == settled_pledge(
            old(fundraiser)@,
            old(contributor)@,
            amount,
            transfer,
        ),
        result is Err ==> *final(fundraiser) == *old(fundraiser) && *final(contributor) == *old(
            contributor,
        ),
{
    match transfer {
        Err(cause) => Err(FundraiserError::TransferFailed(cause)),
        Ok(_) => {
            let total: Option<u64> = fundraiser.current_amount().checked_add(amount);
            let pledged: Option<u64> = contributor.amount().checked_add(amount);
            match (total, pledged) {
                (Some(total), Some(pledged)) => {
                    fundraiser.set_current_amount(total);
                    contributor.set_amount(pledged);
                    Ok(())
                },
                _ => Err(FundraiserError::ArithmeticOverflow),
            }
        },
    }
}

impl PendingContribution {
    /// Settles this contribution with what its transfer came to, and hands
    /// the two records back with the result. An accepted contribution can be
    /// settled once: settling uses it up.
    pub fn settle(self, transfer: Result<(), ProgramError>) -> (settled: (
        Fundraiser,
        Contributor,
        Result<(), FundraiserError>,
    ))
        ensures
            settled.2 == settle_result(
                self.fundraiser@,
                self.contributor@,
                self.transfer.amount,
                transfer,
            ),
            settled.0@ == settled_campaign(
                self.fundraiser@,
                self.contributor@,
                self.transfer.amount,
                transfer,
            ),
            settled.1@ == settled_pledge(
                self.fundraiser@,
                self.contributor@,
                self.transfer.amount,
                transfer,
            ),
            settled.2 is Err ==> settled.0 == self.fundraiser && settled.1 == self.contributor,
    {
        let mut fundraiser: Fundraiser = self.fundraiser;
        let mut contributor: Contributor = self.contributor;
        let result = settle_contribution(
            &mut fundraiser,
            &mut contributor,
            self.transfer.amount,
            transfer,
        );
        (fundraiser, contributor, result)
    }
}

/// A contribution counts exactly once, and only after its transfer: settling
/// succeeds just when the transfer went through and both totals fit; then the
/// campaign's total and the pledge have each grown by the amount and nothing
/// else has changed; otherwise both are as they were.
pub proof fn lemma_contribution_counts_once(
    campaign: FundraiserView,
    pledge: ContributorView,
    amount: u64,
    transfer: Result<(), ProgramError>,
)
    ensures
        settle_result(campaign, pledge, amount, transfer) is Ok <==> transfer is Ok && totals_fit(
            campaign,
            pledge,
            amount,
        ),
        settle_result(campaign, pledge, amount, transfer) is Ok ==> {
            &&& settled_campaign(campaign, pledge, amount, transfer).current_amount
                == campaign.current_amount + amount
            &&& settled_pledge(campaign, pledge, amount, transfer).amount == pledge.amount + amount
            &&& settled_campaign(campaign, pledge, amount, transfer) == (FundraiserView {
                current_amount: settled_campaign(campaign, pledge, amount, transfer).current_amount,
                ..campaign
            })
        },
        settle_result(campaign, pledge, amount, transfer) is Err ==> {
            &&& settled_campaign(campaign, pledge, amount, transfer) == campaign
            &&& settled_pledge(campaign, pledge, amount, transfer) == pledge
        },
{
}

/// After a transfer that failed, settling reports the failure with its cause
/// and both records hold what they held before.
pub proof fn lemma_failed_transfer_changes_nothing(
    campaign: FundraiserView,
    pledge: ContributorView,
    amount: u64,
    cause: ProgramError,
)
    ensures
        settle_result(campaign, pledge, amount, Err(cause)) == Err::<(), FundraiserError>(
            FundraiserError::TransferFailed(cause),
        ),
        settled_campaign(campaign, pledge, amount, Err(cause)) == campaign,
        settled_pledge(campaign, pledge, amount, Err(cause)) == pledge,
{
}

/// A campaign that has not started accepts nothing, whatever the amount and
/// the time.
pub proof fn lemma_unstarted_campaign_accepts_nothing(
    campaign: FundraiserView,
    signer_authenticated: bool,
    asset: Seq<u8>,
    amount: u64,
    current_time: i64,
)
    requires
        campaign.time_started <= 0,
    ensures
        refusal(campaign, signer_authenticated, asset, amount, current_time) is Some,
{
}

/// A signed contribution of the right asset and of an allowed amount to a
/// campaign whose start time is zero is refused as not started, at any time.
pub proof fn lemma_unstarted_campaign_is_not_started(
    campaign: FundraiserView,
    asset: Seq<u8>,
    amount: u64,
    current_time: i64,
)
    requires
        campaign.time_started == 0,
        campaign.mint_to_raise == asset,
        MIN_AMOUNT_TO_RAISE <= amount <= max_contribution(campaign.amount_to_raise),
    ensures
        refusal(campaign, true, asset, amount, current_time) == Some(
            FundraiserError::CampaignNotStarted,
        ),
{
}

/// The asset is checked before the amount and the time: a signed
/// contribution of another asset is refused for the asset, whatever else
/// holds of it.
pub proof fn lemma_asset_is_checked_before_amount(
    campaign: FundraiserView,
    asset: Seq<u8>,
    amount: u64,
    current_time: i64,
)
    requires
        campaign.mint_to_raise != asset,
    ensures
        refusal(campaign, true, asset, amount, current_time) == Some(
            FundraiserError::AssetMismatch,
        ),
{
}

/// A signed contribution of the right asset is refused as too small below
/// the minimum and as too big above the cap, and for neither reason between
/// them, both bounds included.
pub proof fn lemma_amount_bounds_are_inclusive(
    campaign: FundraiserView,
    asset: Seq<u8>,
    amount: u64,
    current_time: i64,
)
    requires
        campaign.mint_to_raise == asset,
    ensures
        amount < MIN_AMOUNT_TO_RAISE <==> refusal(campaign, true, asset, amount, current_time)
            == Some(FundraiserError::ContributionTooSmall),
        amount >= MIN_AMOUNT_TO_RAISE && amount > max_contribution(campaign.amount_to_raise)
            <==> refusal(campaign, true, asset, amount, current_time) == Some(
            FundraiserError::ContributionTooBig,
        ),
{
}

/// A contribution that meets every other condition is accepted up to and at
/// the deadline, and refused as too late from the next second on.
pub proof fn lemma_deadline_is_inclusive(
    campaign: FundraiserView,
    asset: Seq<u8>,
    amount: u64,
    current_time: i64,
)
    requires
        campaign.mint_to_raise == asset,
        MIN_AMOUNT_TO_RAISE <= amount <= max_contribution(campaign.amount_to_raise),
        campaign.time_started > 0,
    ensures
        current_time <= deadline(campaign.time_started, campaign.duration) ==> refusal(
            campaign,
            true,
            asset,
            amount,
            current_time,
        ) is None,
        current_time > deadline(campaign.time_started, campaign.duration) ==> refusal(
            campaign,
            true,
            asset,
            amount,
            current_time,
        ) == Some(FundraiserError::CampaignEnded),
{
}

/// A payload too short to hold an amount is refused as malformed before
/// anything else is looked at.
pub proof fn lemma_short_payload_is_malformed(
    accounts: Seq<AccountInfo>,
    data: Seq<u8>,
    current_time: i64,
)
    requires
        data.len() < AMOUNT_LEN,
    ensures
        instruction_refusal(accounts, data, current_time) == Some(FundraiserError::MalformedInput),
{
}

} // verus!
