//! The ways in which a contribution can fail.

use pinocchio::program_error::ProgramError;
use vstd::prelude::*;

verus! {

/// Makes `pinocchio::program_error::ProgramError` known as an opaque type: a
/// value of it can be carried and compared, nothing is said of what it holds.
#[verifier::external_type_specification]
#[verifier::external_body]
pub struct ExProgramError(ProgramError);

/// Why a contribution was refused or could not be completed.
#[derive(Debug, PartialEq, Eq)]
pub enum FundraiserError {
    /// The instruction payload is shorter than the eight bytes of an amount.
    MalformedInput,
    /// Fewer account handles were supplied than the instruction names.
    InsufficientResources,
    /// The contributor did not sign the request.
    Unauthorized,
    /// A record has the wrong length, or is not owned by this program.
    RecordIntegrityError,
    /// The asset offered is not the one the campaign raises.
    AssetMismatch,
    /// The amount is below the minimum contribution.
    ContributionTooSmall,
    /// The amount is above the share of the goal that one contribution may hold.
    ContributionTooBig,
    /// The campaign has no start time yet.
    CampaignNotStarted,
    /// The campaign's deadline has passed.
    CampaignEnded,
    /// The transfer service refused the transfer; its own error is kept.
    TransferFailed(ProgramError),
    /// A total would no longer fit in 64 bits. The transfer has already
    /// happened when this is reported, so the records lag behind the assets.
    ArithmeticOverflow,
}

} // verus!
