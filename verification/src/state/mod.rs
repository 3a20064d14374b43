//! The persistent records: one per campaign, one per contributor of a campaign.

pub mod contributor;
pub mod fundraiser;

pub use contributor::Contributor;
pub use contributor::ContributorView;
pub use fundraiser::Fundraiser;
pub use fundraiser::FundraiserView;
