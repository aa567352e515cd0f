//! A fungible-token ledger with delegated spending.
//!
//! The ledger is a state machine: every operation names the acting account,
//! checks its preconditions in a fixed order, and either changes the balances
//! or allowances and reports the events to publish, or fails and changes
//! nothing.

pub mod account;
pub mod error;
pub mod events;
pub mod laws;
pub mod ledger;
pub mod psp22;
pub mod store;
pub mod supply;
pub mod token;

pub use account::AccountId;
pub use account::Balance;
pub use error::PSP22Error;
pub use events::Approval;
pub use events::Transfer;
pub use ledger::AllowanceKey;
pub use psp22::PSP22Metadata;
pub use psp22::PSP22;
pub use token::RedToken;
pub use token::Snapshot;
