use vstd::prelude::*;

verus! {

/// Every way in which an operation of the engine or of the record registry
/// can fail. A failing operation leaves the state as it was, with the one
/// exception documented on `execute_proposal`.
#[derive(Debug, PartialEq, Eq)]
pub enum ContractError {
    /// A validation failure that carries its own message.
    Std(String),
    Unauthorized {},
    TokenNotFound {},
    DataFrozen {},
    InsufficientPayment {},
    PaymentFailed {},
    TokenExists {},
    NotAuthorized {},
    NotDaoMember {},
    ProposalNotFound {},
    ProposalNotActive {},
    ProposalExpired {},
    ProposalAlreadyExecuted {},
    VotingPeriodActive {},
    ProposalDidNotPass {},
    CannotRemoveLastMember {},
    MemberAlreadyExists {},
    MemberDoesNotExist {},
    InvalidVotingThreshold {},
    NotImplemented {},
}

impl ContractError {
    /// The human-readable message of this error.
    pub fn message(&self) -> (r: String) {
        match self {
            ContractError::Std(m) => m.clone(),
            ContractError::Unauthorized {} => "Unauthorized".to_string(),
            ContractError::TokenNotFound {} => "Token does not exist".to_string(),
            ContractError::DataFrozen {} => "Data is frozen".to_string(),
            ContractError::InsufficientPayment {} => "Insufficient payment".to_string(),
            ContractError::PaymentFailed {} => "Payment failed".to_string(),
            ContractError::TokenExists {} => "Token already exists".to_string(),
            ContractError::NotAuthorized {} => "Not authorized".to_string(),
            ContractError::NotDaoMember {} => "Not a DAO member".to_string(),
            ContractError::ProposalNotFound {} => "Proposal not found".to_string(),
            ContractError::ProposalNotActive {} => "Proposal is not active".to_string(),
            ContractError::ProposalExpired {} => "Proposal has expired".to_string(),
            ContractError::ProposalAlreadyExecuted {} => "Proposal already executed".to_string(),
            ContractError::VotingPeriodActive {} => "Voting period has not ended".to_string(),
            ContractError::ProposalDidNotPass {} => "Proposal did not pass".to_string(),
            ContractError::CannotRemoveLastMember {} => "Cannot remove last DAO member".to_string(),
            ContractError::MemberAlreadyExists {} => "Member already exists".to_string(),
            ContractError::MemberDoesNotExist {} => "Member does not exist".to_string(),
            ContractError::InvalidVotingThreshold {} => "Invalid voting threshold".to_string(),
            ContractError::NotImplemented {} => "Feature not implemented yet".to_string(),
        }
    }
}

} // verus!
