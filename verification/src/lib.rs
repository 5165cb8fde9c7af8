//! A dollar-cost-averaging strategy: a deposit of one asset is traded, slice
//! by slice and at fixed intervals, for one or more other assets through a
//! swap router, and what the swaps bring goes to a recipient.
//!
//! The strategy is two records, the fixed [`types::DcaConfig`] and the
//! moving [`types::State`], and the operations on them:
//!
//! - [`contract::instantiate`] checks the parameters and the deposit and
//!   creates both records;
//! - [`execute::try_perform_dca`] starts the cycle that is due, one swap for
//!   each destination;
//! - [`contract::reply`] takes in the outcome of each swap, in whatever
//!   order they arrive, and settles the cycle with the last of them, which
//!   moves the next swap on by one interval;
//! - [`execute::pause_dca`], [`execute::resume_dca`] and
//!   [`execute::try_cancel_dca`] are the owner's.
//!
//! No operation touches the chain: each takes what the host knows as plain
//! values and hands back the messages for the host to send. Every operation
//! is specified over the models of the records, and [`laws`] states what
//! holds across operations. An operation that counts on numbers that the
//! machine may not hold says so in its `requires`; beside it stands one
//! that tests them first: [`contract::checked_instantiate`],
//! [`contract::checked_execute`], [`contract::checked_reply`].

pub mod contract;
pub mod croncat_helpers;
pub mod error;
pub mod execute;
pub mod helpers;
pub mod host;
pub mod laws;
pub mod msg;
pub mod query;
pub mod response;
pub mod swaprouter;
pub mod text;
pub mod types;
