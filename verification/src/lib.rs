//! A quorum-gated execution lock.
//!
//! A lock collects the approvals of distinct identities for one proposal. It
//! becomes approved when as many identities as its quorum asks for have
//! approved, and rejected when anyone vetoes it.
//!
//! - [`lock`] holds the lock and the three calls on it: [`initialize`],
//!   [`approve`] and [`reject`].
//! - [`state`] is the model that these calls are stated over.
//! - [`laws`] proves what holds of every sequence of calls.
//! - [`identity`] and [`error`] hold the two small types that the calls take
//!   and give.

pub mod error;
pub mod identity;
pub mod laws;
pub mod lock;
pub mod state;

pub use crate::error::ErrorCode;
pub use crate::identity::{Identity, IDENTITY_LEN};
pub use crate::lock::{approve, initialize, reject, ExecutionLock};
pub use crate::state::{LockState, MAX_APPROVALS, MAX_PROPOSAL_ID_LEN};
