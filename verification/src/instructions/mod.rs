//! The instructions that change the records.

pub mod contribute;

pub use contribute::process_contribute_instruction;
pub use contribute::settle_contribution;
pub use contribute::validate_contribution;
pub use contribute::PendingContribution;
pub use contribute::TransferRequest;
