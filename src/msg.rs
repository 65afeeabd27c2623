//! The values that callers hand to the engine and receive from it.
use vstd::prelude::*;

verus! {

/// Parameters of a new contract instance.
#[derive(Debug, PartialEq)]
pub struct InstantiateMsg {
    pub name: String,
    pub symbol: String,
    pub owner: String,
}

/// The read-only requests that the contract answers.
#[allow(inconsistent_fields)]
#[derive(Debug, PartialEq)]
pub enum QueryMsg {
    OwnerOf { token_id: String },
    TokenInfo { token_id: String },
    AllTokens { start_after: Option<String>, limit: Option<u32> },
    NumTokens {},
    ContractInfo {},
    GetDataItem { token_id: String },
    GetDataVersions { token_id: String },
    GetAuthorizedUsers { token_id: String },
    CheckAccessLevel { token_id: String, user: String },
    GetCitations { paper_id: String },
    GetPaperDoi { paper_id: String },
    GetBaseCitationFee {},
    GetDaoMembers {},
    GetDaoConfig {},
    GetProposal { proposal_id: u64 },
    GetProposals { start_after: Option<u64>, limit: Option<u32>, status_filter: Option<ProposalStatus> },
    GetVote { proposal_id: u64, voter: String },
    GetVoteCount { proposal_id: u64 },
    GetMemberVotingPower { member: String },
}

/// Access that a record's owner granted to another account.
#[derive(Clone, Copy, Debug, PartialEq, Eq, Structural)]
pub enum AccessLevel {
    NoAccess,
    Read,
    Write,
}

/// One stored revision of a record's content.
#[derive(Debug, PartialEq)]
pub struct DataVersion {
    pub ipfs_hash: String,
    pub timestamp: u64,
}

impl Clone for DataVersion {
    fn clone(&self) -> (r: Self)
        ensures
            r == *self,
    {
        DataVersion { ipfs_hash: self.ipfs_hash.clone(), timestamp: self.timestamp }
    }
}

/// Name, symbol and owner of the instance.
#[derive(Debug, PartialEq)]
pub struct ContractInfoResponse {
    pub name: String,
    pub symbol: String,
    pub owner: String,
}

/// A payment that came with a call, in one denomination.
#[derive(Debug, PartialEq)]
pub struct Coin {
    pub denom: String,
    pub amount: u128,
}

/// One citation of a paper: who paid how much, and when.
#[derive(Debug, PartialEq)]
pub struct Citation {
    pub citer: String,
    pub amount: u128,
    pub timestamp: u64,
}

impl Clone for Citation {
    fn clone(&self) -> (r: Self)
        ensures
            r == *self,
    {
        Citation { citer: self.citer.clone(), amount: self.amount, timestamp: self.timestamp }
    }
}

/// A transfer that the caller must carry out: `amount` of the fee
/// denomination to `to`.
#[derive(Debug, PartialEq)]
pub struct Payout {
    pub to: String,
    pub amount: u128,
}

/// A record with its number and owner.
#[derive(Debug, PartialEq)]
pub struct TokenInfoResponse {
    pub token_id: u64,
    pub owner: String,
    pub data_item: crate::registry::DataItem,
}

/// Number of records in the registry.
#[derive(Clone, Copy, Debug, PartialEq, Eq, Structural)]
pub struct NumTokensResponse {
    pub count: u64,
}

/// The governance parameters: voting window in seconds, approval threshold
/// in percent of the eligible voters, and the smallest allowed membership.
#[derive(Clone, Copy, Debug, PartialEq, Eq, Structural)]
pub struct DaoConfig {
    pub voting_period: u64,
    pub approval_threshold: u64,
    pub min_members: u64,
}

/// What a proposal asks for.
#[derive(Clone, Copy, Debug, PartialEq, Eq, Structural)]
pub enum ProposalType {
    ArticlePublication,
    AddMember,
    RemoveMember,
    UpdateConfig,
}

/// Where a proposal stands in its lifecycle.
#[derive(Clone, Copy, Debug, PartialEq, Eq, Structural)]
pub enum ProposalStatus {
    Active,
    Passed,
    Rejected,
    Executed,
    Expired,
}

/// A member's decision on a proposal.
#[derive(Clone, Copy, Debug, PartialEq, Eq, Structural)]
pub enum VoteChoice {
    Yes,
    No,
    Abstain,
}

/// The running tally of a proposal: one counter per choice, and the number
/// of members eligible to vote on it.
#[derive(Clone, Copy, Debug, PartialEq, Eq, Structural)]
pub struct VoteCount {
    pub yes: u64,
    pub no: u64,
    pub abstain: u64,
    pub total_eligible: u64,
}

/// Whether a member proposal admits or removes its target.
#[derive(Clone, Copy, Debug, PartialEq, Eq, Structural)]
pub enum MemberAction {
    Add,
    Remove,
}

/// The payload of a proposal, one variant per kind of proposal.
#[derive(Debug, PartialEq)]
pub enum ExecutionData {
    ArticlePublication { ipfs_hash: String, doi: String, metadata_uri: String },
    MemberChange { member_address: String, action: MemberAction },
    ConfigUpdate { new_config: DaoConfig },
}

impl Clone for ExecutionData {
    fn clone(&self) -> (r: Self)
        ensures
            r == *self,
    {
        match self {
            ExecutionData::ArticlePublication { ipfs_hash, doi, metadata_uri } => {
                ExecutionData::ArticlePublication {
                    ipfs_hash: ipfs_hash.clone(),
                    doi: doi.clone(),
                    metadata_uri: metadata_uri.clone(),
                }
            },
            ExecutionData::MemberChange { member_address, action } => {
                ExecutionData::MemberChange { member_address: member_address.clone(), action: *action }
            },
            ExecutionData::ConfigUpdate { new_config } => {
                ExecutionData::ConfigUpdate { new_config: *new_config }
            },
        }
    }
}

/// A proposal as the store keeps it.
#[derive(Debug, PartialEq)]
pub struct Proposal {
    pub id: u64,
    pub proposer: String,
    pub proposal_type: ProposalType,
    pub title: String,
    pub description: String,
    pub created_at: u64,
    pub voting_end: u64,
    pub status: ProposalStatus,
    pub execution_data: Option<ExecutionData>,
}

impl Clone for Proposal {
    fn clone(&self) -> (r: Self)
        ensures
            r == *self,
    {
        let execution_data = match &self.execution_data {
            Some(d) => Some(d.clone()),
            None => None,
        };
        Proposal {
            id: self.id,
            proposer: self.proposer.clone(),
            proposal_type: self.proposal_type,
            title: self.title.clone(),
            description: self.description.clone(),
            created_at: self.created_at,
            voting_end: self.voting_end,
            status: self.status,
            execution_data,
        }
    }
}

/// One ledger entry: who voted, how, and when.
#[derive(Debug, PartialEq)]
pub struct Vote {
    pub voter: String,
    pub choice: VoteChoice,
    pub timestamp: u64,
}

impl Clone for Vote {
    fn clone(&self) -> (r: Self)
        ensures
            r == *self,
    {
        Vote { voter: self.voter.clone(), choice: self.choice, timestamp: self.timestamp }
    }
}

/// What a vote reports back: the proposal's status after evaluation, its
/// tally, and whether the vote replaced an earlier one of the same voter.
#[derive(Clone, Copy, Debug, PartialEq, Eq, Structural)]
pub struct VoteReceipt {
    pub status: ProposalStatus,
    pub yes: u64,
    pub no: u64,
    pub abstain: u64,
    pub total_eligible: u64,
    pub vote_updated: bool,
}

/// What executing a proposal did.
#[derive(Debug, PartialEq)]
pub enum ExecutionOutcome {
    /// The proposal carried no payload.
    Nothing,
    MemberAdded { member: String },
    MemberRemoved { member: String },
    ConfigUpdated { old_config: DaoConfig, new_config: DaoConfig },
    /// The work became paper record `token_id`.
    ArticlePublished { token_id: u64 },
}

/// The current members and how many there are.
#[derive(Debug, PartialEq)]
pub struct DaoMembersResponse {
    pub members: Vec<String>,
    pub total_count: u64,
}

/// One page of proposals, with the number of proposals that match the filter.
#[derive(Debug, PartialEq)]
pub struct ProposalsResponse {
    pub proposals: Vec<Proposal>,
    pub total_count: u64,
}

/// The weight of an account's vote: one for a member, nothing otherwise.
#[derive(Clone, Copy, Debug, PartialEq, Eq, Structural)]
pub struct VotingPowerResponse {
    pub power: u64,
    pub is_member: bool,
}

#[derive(Clone, Copy, Debug, PartialEq, Eq, Structural)]
pub struct DaoConfigResponse {
    pub config: DaoConfig,
}

#[derive(Debug, PartialEq)]
pub struct ProposalResponse {
    pub proposal: Proposal,
}

#[derive(Debug, PartialEq)]
pub struct VoteResponse {
    pub vote: Option<Vote>,
}

#[derive(Clone, Copy, Debug, PartialEq, Eq, Structural)]
pub struct VoteCountResponse {
    pub vote_count: VoteCount,
}

} // verus!
