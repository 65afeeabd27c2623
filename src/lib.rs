//! Membership-governed publication engine.
//!
//! Members propose actions (publishing a work, admitting or removing a
//! member, changing the governance parameters), vote on them within a
//! time-boxed window, and the outcome is settled by a threshold rule that
//! stays correct while the membership changes under an open vote.
use vstd::prelude::*;

pub mod contract;
pub mod error;
pub mod helpers;
pub mod laws;
pub mod ledger;
pub mod msg;
pub mod query;
pub mod registry;
pub mod tally;
pub mod text;

verus! {

} // verus!
