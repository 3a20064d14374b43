use fundraiser::account::AccountInfo;
use fundraiser::constants::{
    MAX_CONTRIBUTION_PERCENTAGE, MIN_AMOUNT_TO_RAISE, PERCENTAGE_SCALER, SECONDS_TO_DAYS,
};
use fundraiser::error::FundraiserError;
use fundraiser::instructions::contribute::{
    process_contribute_instruction, settle_contribution, validate_contribution,
    PendingContribution, TransferRequest, ACCOUNTS_LEN, AMOUNT_LEN, CONTRIBUTOR_INDEX,
    FUNDRAISER_INDEX, MINT_INDEX, SIGNER_INDEX, SIGNER_TOKEN_ACCOUNT_INDEX, TOKEN_PROGRAM_INDEX,
    VAULT_INDEX,
};
use fundraiser::state::{Contributor, Fundraiser};
use fundraiser::ID;
use pinocchio::program_error::ProgramError;

const MAKER: [u8; 32] = [0x11; 32];
const MINT: [u8; 32] = [0x22; 32];
const OTHER_MINT: [u8; 32] = [0x23; 32];
const SIGNER: [u8; 32] = [0x33; 32];
const SIGNER_TOKENS: [u8; 32] = [0x44; 32];
const VAULT: [u8; 32] = [0x55; 32];
const STARTED: i64 = 1_700_000_000;

fn campaign(goal: u64, total: u64, started: i64, days: u8) -> Fundraiser {
    Fundraiser::new(&MAKER, &MINT, goal, total, started, days, 7)
}

fn plain(key: [u8; 32]) -> AccountInfo {
    AccountInfo { key, owner: [0u8; 32], is_signer: false, data: Vec::new() }
}

fn accounts_for(campaign: &Fundraiser, pledge: &Contributor) -> Vec<AccountInfo> {
    vec![
        AccountInfo { key: SIGNER, owner: [0u8; 32], is_signer: true, data: Vec::new() },
        plain(SIGNER_TOKENS),
        AccountInfo {
            key: [0x66; 32],
            owner: ID,
            is_signer: false,
            data: campaign.as_bytes().to_vec(),
        },
        plain(VAULT),
        AccountInfo {
            key: [0x77; 32],
            owner: ID,
            is_signer: false,
            data: pledge.as_bytes().to_vec(),
        },
        plain(MINT),
        plain([0x88; 32]),
    ]
}

fn usual_accounts() -> Vec<AccountInfo> {
    accounts_for(&campaign(1_000_000, 500, STARTED, 5), &Contributor::new(20))
}

#[test]
fn constants_of_the_rules() {
    assert_eq!(MIN_AMOUNT_TO_RAISE, 1);
    assert_eq!(MAX_CONTRIBUTION_PERCENTAGE, 10);
    assert_eq!(PERCENTAGE_SCALER, 100);
    assert_eq!(SECONDS_TO_DAYS, 86_400);
    assert_eq!(AMOUNT_LEN, 8);
    assert_eq!(ACCOUNTS_LEN, 7);
    assert_eq!(
        [
            SIGNER_INDEX,
            SIGNER_TOKEN_ACCOUNT_INDEX,
            FUNDRAISER_INDEX,
            VAULT_INDEX,
            CONTRIBUTOR_INDEX,
            MINT_INDEX,
            TOKEN_PROGRAM_INDEX
        ],
        [0, 1, 2, 3, 4, 5, 6]
    );
}

#[test]
fn contribution_below_the_minimum_is_too_small() {
    let record = campaign(1_000_000, 0, STARTED, 5);
    assert_eq!(
        validate_contribution(&record, true, &MINT, 0, STARTED),
        Err(FundraiserError::ContributionTooSmall)
    );
    assert_eq!(validate_contribution(&record, true, &MINT, 1, STARTED), Ok(()));
}

#[test]
fn contribution_above_the_cap_is_too_big() {
    let record = campaign(1_000_000, 0, STARTED, 5);
    assert_eq!(
        validate_contribution(&record, true, &MINT, 100_001, STARTED),
        Err(FundraiserError::ContributionTooBig)
    );
    assert_eq!(validate_contribution(&record, true, &MINT, 100_000, STARTED), Ok(()));
}

#[test]
fn cap_is_a_share_of_the_goal_rounded_down() {
    let record = campaign(99, 0, STARTED, 5);
    assert_eq!(validate_contribution(&record, true, &MINT, 9, STARTED), Ok(()));
    assert_eq!(
        validate_contribution(&record, true, &MINT, 10, STARTED),
        Err(FundraiserError::ContributionTooBig)
    );
    let tiny = campaign(9, 0, STARTED, 5);
    assert_eq!(
        validate_contribution(&tiny, true, &MINT, 1, STARTED),
        Err(FundraiserError::ContributionTooBig)
    );
    let ten = campaign(10, 0, STARTED, 5);
    assert_eq!(validate_contribution(&ten, true, &MINT, 1, STARTED), Ok(()));
    assert_eq!(
        validate_contribution(&ten, true, &MINT, 2, STARTED),
        Err(FundraiserError::ContributionTooBig)
    );
}

#[test]
fn cap_of_the_largest_goal_does_not_wrap() {
    let record = campaign(u64::MAX, 0, STARTED, 5);
    let cap = 1_844_674_407_370_955_161u64;
    assert_eq!(validate_contribution(&record, true, &MINT, cap, STARTED), Ok(()));
    assert_eq!(
        validate_contribution(&record, true, &MINT, cap + 1, STARTED),
        Err(FundraiserError::ContributionTooBig)
    );
    assert_eq!(
        validate_contribution(&record, true, &MINT, u64::MAX, STARTED),
        Err(FundraiserError::ContributionTooBig)
    );
}

#[test]
fn cap_does_not_look_at_what_was_given_before() {
    let record = campaign(1_000_000, 999_999_999, STARTED, 5);
    assert_eq!(validate_contribution(&record, true, &MINT, 100_000, STARTED), Ok(()));
}

#[test]
fn deadline_is_inclusive() {
    let record = campaign(1_000_000, 0, STARTED, 5);
    let end = STARTED + 5 * 86_400;
    assert_eq!(validate_contribution(&record, true, &MINT, 10, end), Ok(()));
    assert_eq!(
        validate_contribution(&record, true, &MINT, 10, end + 1),
        Err(FundraiserError::CampaignEnded)
    );
    assert_eq!(validate_contribution(&record, true, &MINT, 10, end - 1), Ok(()));
    assert_eq!(validate_contribution(&record, true, &MINT, 10, i64::MIN), Ok(()));
    assert_eq!(
        validate_contribution(&record, true, &MINT, 10, i64::MAX),
        Err(FundraiserError::CampaignEnded)
    );
}

#[test]
fn campaign_of_no_days_ends_when_it_starts() {
    let record = campaign(1_000_000, 0, STARTED, 0);
    assert_eq!(validate_contribution(&record, true, &MINT, 10, STARTED), Ok(()));
    assert_eq!(
        validate_contribution(&record, true, &MINT, 10, STARTED + 1),
        Err(FundraiserError::CampaignEnded)
    );
}

#[test]
fn longest_campaign_lasts_255_days() {
    let record = campaign(1_000_000, 0, 1, 255);
    assert_eq!(validate_contribution(&record, true, &MINT, 10, 1 + 22_032_000), Ok(()));
    assert_eq!(
        validate_contribution(&record, true, &MINT, 10, 2 + 22_032_000),
        Err(FundraiserError::CampaignEnded)
    );
}

#[test]
fn deadline_beyond_the_last_second_never_passes() {
    let record = campaign(1_000_000, 0, i64::MAX, 255);
    assert_eq!(validate_contribution(&record, true, &MINT, 10, i64::MAX), Ok(()));
    let record = campaign(1_000_000, 0, i64::MAX - 86_400, 1);
    assert_eq!(validate_contribution(&record, true, &MINT, 10, i64::MAX), Ok(()));
    let record = campaign(1_000_000, 0, i64::MAX - 86_401, 1);
    assert_eq!(
        validate_contribution(&record, true, &MINT, 10, i64::MAX),
        Err(FundraiserError::CampaignEnded)
    );
}

#[test]
fn unstarted_campaign_refuses_at_any_time() {
    let record = campaign(1_000_000, 0, 0, 5);
    for now in [i64::MIN, -1, 0, 1, STARTED, i64::MAX] {
        for amount in [1u64, 50, 100_000] {
            assert_eq!(
                validate_contribution(&record, true, &MINT, amount, now),
                Err(FundraiserError::CampaignNotStarted)
            );
        }
    }
}

#[test]
fn negative_start_time_is_not_started() {
    let record = campaign(1_000_000, 0, -5, 255);
    assert_eq!(
        validate_contribution(&record, true, &MINT, 10, -5),
        Err(FundraiserError::CampaignNotStarted)
    );
    let record = campaign(1_000_000, 0, i64::MIN, 255);
    assert_eq!(
        validate_contribution(&record, true, &MINT, 10, i64::MIN),
        Err(FundraiserError::CampaignNotStarted)
    );
}

#[test]
fn unstarted_campaign_still_checks_the_amount_first() {
    let record = campaign(1_000_000, 0, 0, 5);
    assert_eq!(
        validate_contribution(&record, true, &MINT, 0, STARTED),
        Err(FundraiserError::ContributionTooSmall)
    );
    assert_eq!(
        validate_contribution(&record, true, &MINT, 100_001, STARTED),
        Err(FundraiserError::ContributionTooBig)
    );
}

#[test]
fn asset_mismatch_comes_before_the_amount() {
    let record = campaign(1_000_000, 0, STARTED, 5);
    assert_eq!(
        validate_contribution(&record, true, &OTHER_MINT, 0, STARTED),
        Err(FundraiserError::AssetMismatch)
    );
    assert_eq!(
        validate_contribution(&record, true, &OTHER_MINT, u64::MAX, STARTED),
        Err(FundraiserError::AssetMismatch)
    );
    assert_eq!(
        validate_contribution(&record, true, &OTHER_MINT, 10, i64::MAX),
        Err(FundraiserError::AssetMismatch)
    );
    let mut nearly = MINT;
    nearly[31] = 0;
    assert_eq!(
        validate_contribution(&record, true, &nearly, 10, STARTED),
        Err(FundraiserError::AssetMismatch)
    );
}

#[test]
fn missing_signature_comes_first() {
    let record = campaign(1_000_000, 0, 0, 5);
    assert_eq!(
        validate_contribution(&record, false, &OTHER_MINT, 0, i64::MAX),
        Err(FundraiserError::Unauthorized)
    );
    let record = campaign(1_000_000, 0, STARTED, 5);
    assert_eq!(
        validate_contribution(&record, false, &MINT, 10, STARTED),
        Err(FundraiserError::Unauthorized)
    );
}

#[test]
fn validation_leaves_the_record_alone() {
    let record = campaign(1_000_000, 500, STARTED, 5);
    let before = record.as_bytes().to_vec();
    let _ = validate_contribution(&record, true, &MINT, 10, STARTED);
    let _ = validate_contribution(&record, true, &MINT, 0, STARTED);
    assert_eq!(record.as_bytes().to_vec(), before);
}

#[test]
fn short_payload_is_malformed() {
    let accounts = usual_accounts();
    for len in 0..8usize {
        assert_eq!(
            process_contribute_instruction(&accounts, &vec![1u8; len], STARTED),
            Err(FundraiserError::MalformedInput)
        );
    }
    assert_eq!(
        process_contribute_instruction(&[], &[], STARTED),
        Err(FundraiserError::MalformedInput)
    );
}

#[test]
fn malformed_payload_touches_nothing() {
    let accounts = usual_accounts();
    let before = usual_accounts();
    let result = process_contribute_instruction(&accounts, &[1, 0, 0, 0, 0, 0, 0], STARTED);
    assert_eq!(result, Err(FundraiserError::MalformedInput));
    assert_eq!(accounts, before);
}

#[test]
fn too_few_accounts_are_insufficient() {
    let mut accounts = usual_accounts();
    accounts.pop();
    assert_eq!(
        process_contribute_instruction(&accounts, &10u64.to_le_bytes(), STARTED),
        Err(FundraiserError::InsufficientResources)
    );
    assert_eq!(
        process_contribute_instruction(&[], &10u64.to_le_bytes(), STARTED),
        Err(FundraiserError::InsufficientResources)
    );
}

#[test]
fn unsigned_request_is_unauthorized() {
    let mut accounts = usual_accounts();
    accounts[SIGNER_INDEX].is_signer = false;
    assert_eq!(
        process_contribute_instruction(&accounts, &10u64.to_le_bytes(), STARTED),
        Err(FundraiserError::Unauthorized)
    );
    accounts[FUNDRAISER_INDEX].data.clear();
    assert_eq!(
        process_contribute_instruction(&accounts, &10u64.to_le_bytes(), STARTED),
        Err(FundraiserError::Unauthorized)
    );
}

#[test]
fn broken_campaign_record_is_an_integrity_error() {
    let mut accounts = usual_accounts();
    accounts[FUNDRAISER_INDEX].data.push(0);
    assert_eq!(
        process_contribute_instruction(&accounts, &10u64.to_le_bytes(), STARTED),
        Err(FundraiserError::RecordIntegrityError)
    );
    let mut accounts = usual_accounts();
    accounts[FUNDRAISER_INDEX].owner = [0u8; 32];
    assert_eq!(
        process_contribute_instruction(&accounts, &10u64.to_le_bytes(), STARTED),
        Err(FundraiserError::RecordIntegrityError)
    );
}

#[test]
fn broken_contributor_record_is_an_integrity_error() {
    let mut accounts = usual_accounts();
    accounts[CONTRIBUTOR_INDEX].data.pop();
    assert_eq!(
        process_contribute_instruction(&accounts, &10u64.to_le_bytes(), STARTED),
        Err(FundraiserError::RecordIntegrityError)
    );
}

#[test]
fn integrity_comes_before_the_asset() {
    let mut accounts = usual_accounts();
    accounts[MINT_INDEX].key = OTHER_MINT;
    accounts[CONTRIBUTOR_INDEX].data.clear();
    assert_eq!(
        process_contribute_instruction(&accounts, &10u64.to_le_bytes(), STARTED),
        Err(FundraiserError::RecordIntegrityError)
    );
}

#[test]
fn instruction_checks_asset_amount_and_time() {
    let mut accounts = usual_accounts();
    assert_eq!(
        process_contribute_instruction(&accounts, &0u64.to_le_bytes(), STARTED),
        Err(FundraiserError::ContributionTooSmall)
    );
    assert_eq!(
        process_contribute_instruction(&accounts, &100_001u64.to_le_bytes(), STARTED),
        Err(FundraiserError::ContributionTooBig)
    );
    assert_eq!(
        process_contribute_instruction(&accounts, &10u64.to_le_bytes(), STARTED + 5 * 86_400 + 1),
        Err(FundraiserError::CampaignEnded)
    );
    accounts[MINT_INDEX].key = OTHER_MINT;
    assert_eq!(
        process_contribute_instruction(&accounts, &0u64.to_le_bytes(), STARTED),
        Err(FundraiserError::AssetMismatch)
    );
    let unstarted = accounts_for(&campaign(1_000_000, 0, 0, 5), &Contributor::new(0));
    assert_eq!(
        process_contribute_instruction(&unstarted, &10u64.to_le_bytes(), STARTED),
        Err(FundraiserError::CampaignNotStarted)
    );
}

#[test]
fn accepted_instruction_names_the_transfer() {
    let accounts = usual_accounts();
    let pending =
        process_contribute_instruction(&accounts, &100_000u64.to_le_bytes(), STARTED + 5 * 86_400)
            .unwrap();
    assert_eq!(
        pending,
        PendingContribution {
            fundraiser: campaign(1_000_000, 500, STARTED, 5),
            contributor: Contributor::new(20),
            transfer: TransferRequest {
                from: SIGNER_TOKENS,
                to: VAULT,
                authority: SIGNER,
                amount: 100_000
            },
        }
    );
    assert_eq!(accounts, usual_accounts());
}

#[test]
fn amount_is_the_first_eight_bytes_of_the_payload() {
    let accounts = usual_accounts();
    let mut data = 0x0102u64.to_le_bytes().to_vec();
    data.extend_from_slice(&[0xff, 0xff, 0xff]);
    let pending = process_contribute_instruction(&accounts, &data, STARTED).unwrap();
    assert_eq!(pending.transfer.amount, 0x0102);
}

#[test]
fn further_accounts_are_ignored() {
    let mut accounts = usual_accounts();
    accounts.push(plain([0x99; 32]));
    let pending =
        process_contribute_instruction(&accounts, &10u64.to_le_bytes(), STARTED).unwrap();
    assert_eq!(pending.transfer.amount, 10);
}

#[test]
fn settled_contribution_counts_once() {
    let mut record = campaign(1_000_000, 500, STARTED, 5);
    let mut pledge = Contributor::new(20);
    assert_eq!(settle_contribution(&mut record, &mut pledge, 100_000, Ok(())), Ok(()));
    assert_eq!(record, campaign(1_000_000, 100_500, STARTED, 5));
    assert_eq!(record.current_amount(), 100_500);
    assert_eq!(pledge.amount(), 100_020);
    assert_eq!(settle_contribution(&mut record, &mut pledge, 1, Ok(())), Ok(()));
    assert_eq!(record.current_amount(), 100_501);
    assert_eq!(pledge.amount(), 100_021);
}

#[test]
fn failed_transfer_leaves_both_records_as_they_were() {
    let mut record = campaign(1_000_000, 500, STARTED, 5);
    let mut pledge = Contributor::new(20);
    let result =
        settle_contribution(&mut record, &mut pledge, 100_000, Err(ProgramError::Custom(1)));
    assert_eq!(result, Err(FundraiserError::TransferFailed(ProgramError::Custom(1))));
    assert_eq!(record.as_bytes(), campaign(1_000_000, 500, STARTED, 5).as_bytes());
    assert_eq!(pledge.as_bytes(), Contributor::new(20).as_bytes());
    let result =
        settle_contribution(&mut record, &mut pledge, 1, Err(ProgramError::InsufficientFunds));
    assert_eq!(result, Err(FundraiserError::TransferFailed(ProgramError::InsufficientFunds)));
    assert_eq!(record, campaign(1_000_000, 500, STARTED, 5));
    assert_eq!(pledge, Contributor::new(20));
}

#[test]
fn overflow_of_the_total_changes_nothing() {
    let mut record = campaign(1_000_000, u64::MAX - 4, STARTED, 5);
    let mut pledge = Contributor::new(20);
    assert_eq!(
        settle_contribution(&mut record, &mut pledge, 5, Ok(())),
        Err(FundraiserError::ArithmeticOverflow)
    );
    assert_eq!(record, campaign(1_000_000, u64::MAX - 4, STARTED, 5));
    assert_eq!(pledge, Contributor::new(20));
    assert_eq!(settle_contribution(&mut record, &mut pledge, 4, Ok(())), Ok(()));
    assert_eq!(record.current_amount(), u64::MAX);
    assert_eq!(pledge.amount(), 24);
}

#[test]
fn overflow_of_the_pledge_changes_nothing() {
    let mut record = campaign(1_000_000, 500, STARTED, 5);
    let mut pledge = Contributor::new(u64::MAX);
    assert_eq!(
        settle_contribution(&mut record, &mut pledge, 1, Ok(())),
        Err(FundraiserError::ArithmeticOverflow)
    );
    assert_eq!(record, campaign(1_000_000, 500, STARTED, 5));
    assert_eq!(pledge, Contributor::new(u64::MAX));
}

#[test]
fn failed_transfer_is_reported_before_overflow() {
    let mut record = campaign(1_000_000, u64::MAX, STARTED, 5);
    let mut pledge = Contributor::new(u64::MAX);
    assert_eq!(
        settle_contribution(&mut record, &mut pledge, 1, Err(ProgramError::InvalidArgument)),
        Err(FundraiserError::TransferFailed(ProgramError::InvalidArgument))
    );
}

#[test]
fn whole_contribution_from_request_to_records() {
    let accounts = usual_accounts();
    let pending =
        process_contribute_instruction(&accounts, &250u64.to_le_bytes(), STARTED + 1).unwrap();
    let (record, pledge, result) = pending.settle(Ok(()));
    assert_eq!(result, Ok(()));
    assert_eq!(record.current_amount(), 750);
    assert_eq!(pledge.amount(), 270);
    let mut expected = accounts[FUNDRAISER_INDEX].data.clone();
    expected[72..80].copy_from_slice(&750u64.to_le_bytes());
    assert_eq!(record.as_bytes().to_vec(), expected);
    assert_eq!(pledge.as_bytes(), &270u64.to_le_bytes());
}

#[test]
fn whole_contribution_with_a_failed_transfer() {
    let accounts = usual_accounts();
    let pending =
        process_contribute_instruction(&accounts, &250u64.to_le_bytes(), STARTED + 1).unwrap();
    let (record, pledge, result) = pending.settle(Err(ProgramError::InsufficientFunds));
    assert_eq!(result, Err(FundraiserError::TransferFailed(ProgramError::InsufficientFunds)));
    assert_eq!(record.as_bytes().to_vec(), accounts[FUNDRAISER_INDEX].data);
    assert_eq!(pledge.as_bytes().to_vec(), accounts[CONTRIBUTOR_INDEX].data);
}

#[test]
fn whole_contribution_that_overflows_the_total() {
    let accounts =
        accounts_for(&campaign(u64::MAX, u64::MAX - 9, STARTED, 5), &Contributor::new(0));
    let pending =
        process_contribute_instruction(&accounts, &10u64.to_le_bytes(), STARTED + 1).unwrap();
    let (record, pledge, result) = pending.settle(Ok(()));
    assert_eq!(result, Err(FundraiserError::ArithmeticOverflow));
    assert_eq!(record.as_bytes().to_vec(), accounts[FUNDRAISER_INDEX].data);
    assert_eq!(pledge.as_bytes().to_vec(), accounts[CONTRIBUTOR_INDEX].data);
}
