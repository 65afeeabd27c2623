//! Checks on a single proposal, the proposal lifecycle, and validation of
//! governance parameters.
use vstd::prelude::*;

use crate::error::ContractError;
use crate::msg::{DaoConfig, Proposal, ProposalStatus};

verus! {

/// Shortest accepted voting window: one hour.
pub const MIN_VOTING_PERIOD: u64 = 3600;

/// Longest accepted voting window: thirty days.
pub const MAX_VOTING_PERIOD: u64 = 2592000;

/// One step of the lifecycle graph: an active proposal passes, is rejected
/// or expires; a passed proposal is executed. (A passed publication whose
/// execution fails is marked rejected by `execute_proposal`; that revert
/// is the one move outside this graph.)
pub open spec fn valid_transition(from: ProposalStatus, to: ProposalStatus) -> bool {
    match from {
        ProposalStatus::Active => to == ProposalStatus::Passed || to == ProposalStatus::Rejected
            || to == ProposalStatus::Expired,
        ProposalStatus::Passed => to == ProposalStatus::Executed,
        _ => false,
    }
}

/// What one call can do to a proposal's status: nothing, one step of the
/// lifecycle, or two steps through `Passed` (a vote that passes a
/// publication proposal and executes it at once).
pub open spec fn status_step(from: ProposalStatus, to: ProposalStatus) -> bool {
    from == to || valid_transition(from, to) || (valid_transition(from, ProposalStatus::Passed)
        && valid_transition(ProposalStatus::Passed, to))
}

/// The voting window of the proposal has closed.
pub open spec fn expired_at(now: u64, p: Proposal) -> bool {
    now > p.voting_end
}

/// A configuration that every evaluation can rely on.
pub open spec fn config_valid(c: DaoConfig) -> bool {
    &&& MIN_VOTING_PERIOD <= c.voting_period <= MAX_VOTING_PERIOD
    &&& 1 <= c.approval_threshold <= 100
    &&& c.min_members >= 1
}

/// The error that `ensure_can_vote_on_proposal` reports, if any.
pub open spec fn vote_gate_error(now: u64, p: Proposal) -> Option<ContractError> {
    if p.status != ProposalStatus::Active {
        Some(ContractError::ProposalNotActive {})
    } else if expired_at(now, p) {
        Some(ContractError::ProposalExpired {})
    } else {
        None
    }
}

/// The error that `ensure_can_execute_proposal` reports, if any.
pub open spec fn execute_gate_error(now: u64, p: Proposal) -> Option<ContractError> {
    if p.status != ProposalStatus::Passed {
        Some(ContractError::ProposalDidNotPass {})
    } else if expired_at(now, p) {
        Some(ContractError::ProposalExpired {})
    } else {
        None
    }
}

/// Turns an optional error into a result.
pub open spec fn gate(e: Option<ContractError>) -> Result<(), ContractError> {
    match e {
        Some(e) => Err(e),
        None => Ok(()),
    }
}

/// Whether the voting window of the proposal has closed at `now`.
pub fn is_proposal_expired(now: u64, proposal: &Proposal) -> (r: bool)
    ensures
        r == expired_at(now, *proposal),
{
    now > proposal.voting_end
}

/// Whether the proposal still accepts votes by status.
pub fn is_proposal_active(proposal: &Proposal) -> (r: bool)
    ensures
        r == (proposal.status == ProposalStatus::Active),
{
    proposal.status == ProposalStatus::Active
}

/// Whether a vote on the proposal would be accepted at `now`.
pub fn can_vote_on_proposal(now: u64, proposal: &Proposal) -> (r: bool)
    ensures
        r == (vote_gate_error(now, *proposal) is None),
{
    is_proposal_active(proposal) && !is_proposal_expired(now, proposal)
}

/// Fails with `ProposalNotActive` unless the proposal is active, then with
/// `ProposalExpired` if its window has closed.
pub fn ensure_can_vote_on_proposal(now: u64, proposal: &Proposal) -> (r: Result<(), ContractError>)
    ensures
        r == gate(vote_gate_error(now, *proposal)),
{
    if !is_proposal_active(proposal) {
        return Err(ContractError::ProposalNotActive {});
    }
    if is_proposal_expired(now, proposal) {
        return Err(ContractError::ProposalExpired {});
    }
    Ok(())
}

/// Marks an active proposal whose window has closed as expired.
pub fn update_proposal_status(proposal: &mut Proposal, now: u64)
    ensures
        *final(proposal) == (if old(proposal).status == ProposalStatus::Active && expired_at(now, *old(proposal)) {
            Proposal { status: ProposalStatus::Expired, ..*old(proposal) }
        } else {
            *old(proposal)
        }),
{
    if proposal.status == ProposalStatus::Active && now > proposal.voting_end {
        proposal.status = ProposalStatus::Expired;
    }
}

/// Whether the proposal has been executed.
pub fn is_proposal_executed(proposal: &Proposal) -> (r: bool)
    ensures
        r == (proposal.status == ProposalStatus::Executed),
{
    proposal.status == ProposalStatus::Executed
}

/// Whether the proposal has passed and awaits execution.
pub fn is_proposal_passed(proposal: &Proposal) -> (r: bool)
    ensures
        r == (proposal.status == ProposalStatus::Passed),
{
    proposal.status == ProposalStatus::Passed
}

/// Fails with `ProposalDidNotPass` unless the proposal has passed, then with
/// `ProposalExpired` if its window has closed: nothing executes after the
/// original deadline.
pub fn ensure_can_execute_proposal(now: u64, proposal: &Proposal) -> (r: Result<(), ContractError>)
    ensures
        r == gate(execute_gate_error(now, *proposal)),
{
    if !is_proposal_passed(proposal) {
        return Err(ContractError::ProposalDidNotPass {});
    }
    if is_proposal_executed(proposal) {
        return Err(ContractError::ProposalAlreadyExecuted {});
    }
    if is_proposal_expired(now, proposal) {
        return Err(ContractError::ProposalExpired {});
    }
    Ok(())
}

/// Accepts exactly the steps of the lifecycle graph.
pub fn validate_proposal_status_transition(
    current_status: &ProposalStatus,
    new_status: &ProposalStatus,
) -> (r: Result<(), ContractError>)
    ensures
        r is Ok <==> valid_transition(*current_status, *new_status),
{
    let allowed = match current_status {
        ProposalStatus::Active => match new_status {
            ProposalStatus::Passed | ProposalStatus::Rejected | ProposalStatus::Expired => true,
            _ => false,
        },
        ProposalStatus::Passed => match new_status {
            ProposalStatus::Executed => true,
            _ => false,
        },
        _ => false,
    };
    if allowed {
        Ok(())
    } else {
        Err(ContractError::Std("Invalid proposal status transition".to_string()))
    }
}

/// Checks the values that a configuration update supplies: a threshold in
/// `1..=100`, a positive voting period, a positive minimum membership.
pub fn validate_dao_config(
    voting_period: Option<u64>,
    approval_threshold: Option<u64>,
    min_members: Option<u64>,
) -> (r: Result<(), ContractError>)
    ensures
        r is Ok <==> (approval_threshold matches Some(t) ==> 1 <= t <= 100) && voting_period
            != Some(0u64) && min_members != Some(0u64),
        approval_threshold matches Some(t) && (t == 0 || t > 100) ==> r == Err::<(), ContractError>(
            ContractError::InvalidVotingThreshold {},
        ),
{
    if let Some(threshold) = approval_threshold {
        if threshold == 0 || threshold > 100 {
            return Err(ContractError::InvalidVotingThreshold {});
        }
    }
    if let Some(period) = voting_period {
        if period == 0 {
            return Err(ContractError::Std("Voting period must be greater than 0".to_string()));
        }
    }
    if let Some(min) = min_members {
        if min == 0 {
            return Err(ContractError::Std("Minimum members must be greater than 0".to_string()));
        }
    }
    Ok(())
}

/// Expires an active proposal whose window has closed, and says whether it
/// did.
pub fn check_and_expire_proposal(now: u64, proposal: &mut Proposal) -> (r: bool)
    ensures
        r == (old(proposal).status == ProposalStatus::Active && expired_at(now, *old(proposal))),
        *final(proposal) == (if r {
            Proposal { status: ProposalStatus::Expired, ..*old(proposal) }
        } else {
            *old(proposal)
        }),
{
    if is_proposal_expired(now, proposal) && proposal.status == ProposalStatus::Active {
        proposal.status = ProposalStatus::Expired;
        return true;
    }
    false
}

/// Accepts a voting window of one hour up to thirty days.
pub fn validate_voting_period(voting_period: u64) -> (r: Result<(), ContractError>)
    ensures
        r is Ok <==> MIN_VOTING_PERIOD <= voting_period <= MAX_VOTING_PERIOD,
{
    if voting_period == 0 {
        return Err(ContractError::Std("Voting period must be greater than 0".to_string()));
    }
    if voting_period < MIN_VOTING_PERIOD {
        return Err(ContractError::Std("Voting period must be at least 1 hour".to_string()));
    }
    if voting_period > MAX_VOTING_PERIOD {
        return Err(ContractError::Std("Voting period cannot exceed 30 days".to_string()));
    }
    Ok(())
}

/// Whether `now` lies between the proposal's creation and its deadline.
pub fn is_within_voting_window(now: u64, proposal: &Proposal) -> (r: bool)
    ensures
        r == (proposal.created_at <= now <= proposal.voting_end),
{
    now >= proposal.created_at && now <= proposal.voting_end
}

/// Seconds from `now` to the deadline, negative once it has passed, held to
/// the range of `i64`.
pub fn get_remaining_voting_time(now: u64, proposal: &Proposal) -> (r: i64)
    ensures
        r == (if proposal.voting_end - now > i64::MAX {
            i64::MAX as int
        } else if proposal.voting_end - now < i64::MIN {
            i64::MIN as int
        } else {
            proposal.voting_end - now
        }),
{
    let d: i128 = proposal.voting_end as i128 - now as i128;
    if d > i64::MAX as i128 {
        i64::MAX
    } else if d < i64::MIN as i128 {
        i64::MIN
    } else {
        d as i64
    }
}

/// Whether the deadline is still ahead but at most `warning_seconds` away.
pub fn is_proposal_expiring_soon(now: u64, proposal: &Proposal, warning_seconds: u64) -> (r: bool)
    ensures
        r == (now < proposal.voting_end && proposal.voting_end - now <= warning_seconds),
{
    now < proposal.voting_end && proposal.voting_end - now <= warning_seconds
}

/// Checks the timing of a requested status change: execution only up to the
/// deadline, expiry only after it.
pub fn validate_status_transition_timing(
    now: u64,
    proposal: &Proposal,
    new_status: &ProposalStatus,
) -> (r: Result<(), ContractError>)
    ensures
        r is Ok <==> (*new_status == ProposalStatus::Executed ==> !expired_at(now, *proposal)) && (
        *new_status == ProposalStatus::Expired ==> expired_at(now, *proposal)),
        *new_status == ProposalStatus::Executed && expired_at(now, *proposal) ==> r == Err::<
            (),
            ContractError,
        >(ContractError::ProposalExpired {}),
{
    match new_status {
        ProposalStatus::Executed => {
            if is_proposal_expired(now, proposal) {
                return Err(ContractError::ProposalExpired {});
            }
        },
        ProposalStatus::Expired => {
            if !is_proposal_expired(now, proposal) {
                return Err(
                    ContractError::Std(
                        "Cannot mark proposal as expired before voting period ends".to_string(),
                    ),
                );
            }
        },
        _ => {},
    }
    Ok(())
}

} // verus!
