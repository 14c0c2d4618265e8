//! A minimal crowdfunding proposal contract.
//!
//! A `Proposal` is a single stateful entity: it is initialized once (the
//! initializing caller becomes the factory), configured once by the factory
//! with a title, a description, a funding goal and a minimum deposit, and then
//! accepts contributions from supporters. The funding total always equals the
//! sum of the ledger entries, and every entry is at least the minimum deposit.

pub mod ledger;
pub mod numeral;
pub mod proposal;

pub use ledger::Supporter;
pub use proposal::Proposal;
pub use proposal::ProposalError;
