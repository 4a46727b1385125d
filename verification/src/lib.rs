//! Governance polling: time-bounded polls with a fixed number of options,
//! weighted votes that accumulate per voter and poll, and a one-time release
//! of the voting weight once a poll has closed.
//!
//! - `types`: the stored records, the voter's identifier and the errors.
//! - `events`: the notifications that successful requests hand back.
//! - `rules`: what each request decides, on the records it touches.
//! - `registry`, `ledger`: the two keyed stores.
//! - `state`: the stores as mathematical maps, and each request as a step.
//! - `governance`: the service that carries the requests out.
//! - `laws`: what holds of the service over one request and over several.
//!
//! Tallying, delegation and the custody of funds are not part of it: a
//! release only marks the record and says so in its notification.

pub mod events;
pub mod governance;
pub mod laws;
pub mod ledger;
pub mod registry;
pub mod rules;
pub mod state;
pub mod types;

pub use events::{FundsWithdrawn, PollCreated, Voted};
pub use governance::CeresGovernance;
pub use ledger::VoteLedger;
pub use registry::PollRegistry;
pub use state::GovernanceState;
pub use types::{AccountId, Balance, Error, PollInfo, Timestamp, VotingInfo};
