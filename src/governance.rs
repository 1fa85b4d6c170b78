use vstd::prelude::*;

use crate::errors::DataChainError;
use crate::identity::Identity;
use crate::settlement::{byte_len, checked_sum, overflows, text_len, text_too_long, TokenHolding};

verus! {

pub const GOVERNANCE_VERSION: u8 = 1;

/// Voting period a governance is usually set up with: seven days, in seconds.
pub const VOTING_PERIOD: i64 = 604800;

/// Delay after the vote that a governance is usually set up with: two days.
pub const EXECUTION_DELAY: i64 = 172800;

/// Quorum a governance is usually set up with, in percent of the eligible votes.
pub const QUORUM_PERCENTAGE: u8 = 10;

/// Approval threshold a governance is usually set up with, in percent of the votes cast.
pub const APPROVAL_THRESHOLD_PERCENTAGE: u8 = 60;

pub const MAX_PROPOSAL_TITLE_LENGTH: usize = 100;

pub const MAX_PROPOSAL_DESCRIPTION_LENGTH: usize = 1000;

pub const MAX_PROPOSAL_LINK_LENGTH: usize = 200;

pub const MAX_EXECUTION_PARAMS_SIZE: usize = 1000;

/// What a proposal asks for.
#[derive(Clone, Copy, Debug, PartialEq, Eq, Structural)]
pub enum ProposalType {
    UpdateFees,
    UpgradeProgram,
    AddFeature,
    RemoveFeature,
    FundProject,
    Other,
}

/// The proposal type with the given wire code, if there is one.
pub open spec fn proposal_type_of(code: u8) -> Option<ProposalType> {
    if code == 0 {
        Some(ProposalType::UpdateFees)
    } else if code == 1 {
        Some(ProposalType::UpgradeProgram)
    } else if code == 2 {
        Some(ProposalType::AddFeature)
    } else if code == 3 {
        Some(ProposalType::RemoveFeature)
    } else if code == 4 {
        Some(ProposalType::FundProject)
    } else if code == 5 {
        Some(ProposalType::Other)
    } else {
        None
    }
}

impl ProposalType {
    /// Reads a wire code: 0 to 5, in the order of the variants.
    pub fn from_code(code: u8) -> (r: Option<ProposalType>)
        ensures
            r == proposal_type_of(code),
    {
        match code {
            0 => Some(ProposalType::UpdateFees),
            1 => Some(ProposalType::UpgradeProgram),
            2 => Some(ProposalType::AddFeature),
            3 => Some(ProposalType::RemoveFeature),
            4 => Some(ProposalType::FundProject),
            5 => Some(ProposalType::Other),
            _ => None,
        }
    }

    /// The wire code of a proposal type.
    pub fn code(&self) -> (r: u8)
        ensures
            proposal_type_of(r) == Some(*self),
    {
        match self {
            ProposalType::UpdateFees => 0,
            ProposalType::UpgradeProgram => 1,
            ProposalType::AddFeature => 2,
            ProposalType::RemoveFeature => 3,
            ProposalType::FundProject => 4,
            ProposalType::Other => 5,
        }
    }
}

/// Where a proposal stands. `Active` moves on to `Approved`, `Rejected` or
/// `Expired`, and an open proposal to `Executed`; `Rejected`, `Executed` and
/// `Expired` are final.
#[derive(Clone, Copy, Debug, PartialEq, Eq, Structural)]
pub enum ProposalStatus {
    Active,
    Approved,
    Rejected,
    Executed,
    Expired,
}

impl ProposalStatus {
    /// Whether no further transition leaves this status.
    pub open spec fn is_final(self) -> bool {
        self == ProposalStatus::Rejected || self == ProposalStatus::Executed || self
            == ProposalStatus::Expired
    }
}

/// A governance proposal and its running tally.
#[derive(Clone, Debug)]
pub struct Proposal {
    pub creator: Identity,
    pub title: String,
    pub description: String,
    pub proposal_type: ProposalType,
    pub link: Option<String>,
    pub yes_votes: u64,
    pub no_votes: u64,
    /// Supply of the governance token when the proposal was made.
    pub total_eligible_votes: u64,
    /// Opaque parameters for whoever carries the proposal out.
    pub execution_params: Option<Vec<u8>>,
    pub created_at: i64,
    pub voting_ends_at: i64,
    pub executed_at: Option<i64>,
    pub status: ProposalStatus,
    pub version: u8,
}

/// One voter's vote on one proposal; the ledger creates it at most once.
#[derive(Clone, Copy, Debug)]
pub struct Vote {
    pub voter: Identity,
    pub proposal: Identity,
    /// `true` for yes.
    pub vote: bool,
    /// The voter's balance of the governance token when voting.
    pub weight: u64,
    pub voted_at: i64,
}

/// The governance's singleton configuration and totals.
#[derive(Clone, Copy, Debug)]
pub struct GovernanceConfig {
    pub authority: Identity,
    pub governance_token: Identity,
    pub voting_period: i64,
    pub execution_delay: i64,
    pub quorum_percentage: u8,
    pub approval_threshold_percentage: u8,
    pub total_proposals: u64,
    pub executed_proposals: u64,
    pub version: u8,
}

impl GovernanceConfig {
    pub open spec fn wf(&self) -> bool {
        &&& self.quorum_percentage <= 100
        &&& self.approval_threshold_percentage <= 100
        &&& self.voting_period > 0
        &&& self.execution_delay > 0
    }
}

/// The accounts that creating a proposal reads and writes.
#[derive(Clone, Debug)]
pub struct CreateProposal {
    /// The authenticated caller.
    pub creator: Identity,
    pub creator_token: TokenHolding,
    pub governance_config: GovernanceConfig,
    /// Circulating supply of the governance token, read for this action.
    pub governance_token_supply: u64,
    /// The ledger's clock, read once for the action.
    pub now: i64,
}

/// The accounts that casting a vote reads and writes.
#[derive(Clone, Debug)]
pub struct CastVote {
    /// The authenticated caller.
    pub voter: Identity,
    /// Address of the proposal account that was loaded.
    pub proposal_key: Identity,
    pub proposal: Proposal,
    pub voter_token: TokenHolding,
    pub governance_config: GovernanceConfig,
    pub now: i64,
}

/// The accounts that executing a proposal reads and writes.
#[derive(Clone, Debug)]
pub struct ExecuteProposal {
    /// The authenticated caller.
    pub executor: Identity,
    /// Address of the proposal account that was loaded.
    pub proposal_key: Identity,
    pub proposal: Proposal,
    pub governance_config: GovernanceConfig,
    pub now: i64,
}

/// The accounts that setting up governance reads.
#[derive(Clone, Copy, Debug)]
pub struct InitializeGovernance {
    /// The authenticated caller, who becomes the governance's authority.
    pub authority: Identity,
    pub governance_token: Identity,
}

/// Whether `a + b` leaves the range of `i64`.
pub open spec fn time_overflows(a: i64, b: i64) -> bool {
    a + b > i64::MAX || a + b < i64::MIN
}

/// `a + b`, or `InvalidParameters` where the sum leaves `i64`.
fn checked_time(a: i64, b: i64) -> (r: Result<i64, DataChainError>)
    ensures
        match r {
            Ok(v) => !time_overflows(a, b) && v == a + b,
            Err(e) => time_overflows(a, b) && e == DataChainError::InvalidParameters,
        },
{
    let wide: i128 = a as i128 + b as i128;
    if wide > i64::MAX as i128 || wide < i64::MIN as i128 {
        return Err(DataChainError::InvalidParameters);
    }
    Ok(wide as i64)
}

/// Whether optional execution parameters exceed `MAX_EXECUTION_PARAMS_SIZE` bytes.
pub open spec fn params_too_long(p: Option<Vec<u8>>) -> bool {
    match p {
        Some(v) => v@.len() > MAX_EXECUTION_PARAMS_SIZE,
        None => false,
    }
}

/// Whether a holding account gives `holder` a say: it must hold the
/// governance token, belong to `holder`, and not be empty.
pub open spec fn voting_power_error(
    config: GovernanceConfig,
    holding: TokenHolding,
    holder: Identity,
) -> Option<DataChainError> {
    if holding.mint != config.governance_token || holding.owner != holder {
        Some(DataChainError::Unauthorized)
    } else if holding.amount == 0 {
        Some(DataChainError::InsufficientVotingPower)
    } else {
        None
    }
}

fn check_voting_power(config: &GovernanceConfig, holding: &TokenHolding, holder: &Identity) -> (r:
    Result<(), DataChainError>)
    ensures
        match r {
            Ok(_) => voting_power_error(*config, *holding, *holder) is None,
            Err(e) => voting_power_error(*config, *holding, *holder) == Some(e),
        },
{
    if !holding.mint.same(&config.governance_token) || !holding.owner.same(holder) {
        return Err(DataChainError::Unauthorized);
    }
    if holding.amount == 0 {
        return Err(DataChainError::InsufficientVotingPower);
    }
    Ok(())
}

/// Why creating a proposal fails, if it does: the creator's voting power,
/// then the bounded fields, then the type code, then the arithmetic.
pub open spec fn create_proposal_error(
    ctx: CreateProposal,
    title: String,
    description: String,
    proposal_type: u8,
    link: Option<String>,
    execution_params: Option<Vec<u8>>,
) -> Option<DataChainError> {
    match voting_power_error(ctx.governance_config, ctx.creator_token, ctx.creator) {
        Some(e) => Some(e),
        None => if byte_len(title@) > MAX_PROPOSAL_TITLE_LENGTH || byte_len(description@)
            > MAX_PROPOSAL_DESCRIPTION_LENGTH || text_too_long(
            link,
            MAX_PROPOSAL_LINK_LENGTH as nat,
        ) || params_too_long(execution_params) {
            Some(DataChainError::InvalidParameters)
        } else if proposal_type_of(proposal_type) is None {
            Some(DataChainError::InvalidProposalType)
        } else if time_overflows(ctx.now, ctx.governance_config.voting_period) || overflows(
            ctx.governance_config.total_proposals,
            1,
        ) {
            Some(DataChainError::InvalidParameters)
        } else {
            None
        },
    }
}

/// Opens a proposal for voting until `now + voting_period`, with the
/// governance token's current supply as the eligible votes.
pub fn create_proposal(
    ctx: &mut CreateProposal,
    title: String,
    description: String,
    proposal_type: u8,
    link: Option<String>,
    execution_params: Option<Vec<u8>>,
) -> (r: Result<Proposal, DataChainError>)
    ensures
        match r {
            Ok(p) => {
                &&& create_proposal_error(
                    *old(ctx),
                    title,
                    description,
                    proposal_type,
                    link,
                    execution_params,
                ) is None
                &&& p == (Proposal {
                    creator: old(ctx).creator,
                    title,
                    description,
                    proposal_type: proposal_type_of(proposal_type)->Some_0,
                    link,
                    yes_votes: 0,
                    no_votes: 0,
                    total_eligible_votes: old(ctx).governance_token_supply,
                    execution_params,
                    created_at: old(ctx).now,
                    voting_ends_at: (old(ctx).now + old(ctx).governance_config.voting_period) as i64,
                    executed_at: None,
                    status: ProposalStatus::Active,
                    version: GOVERNANCE_VERSION,
                })
                &&& *final(ctx) == (CreateProposal {
                    governance_config: GovernanceConfig {
                        total_proposals: (old(ctx).governance_config.total_proposals + 1) as u64,
                        ..old(ctx).governance_config
                    },
                    ..*old(ctx)
                })
            },
            Err(e) => {
                &&& create_proposal_error(
                    *old(ctx),
                    title,
                    description,
                    proposal_type,
                    link,
                    execution_params,
                ) == Some(e)
                &&& *final(ctx) == *old(ctx)
            },
        },
{
    match check_voting_power(&ctx.governance_config, &ctx.creator_token, &ctx.creator) {
        Ok(_) => {},
        Err(e) => return Err(e),
    }
    let link_too_long = match &link {
        Some(l) => text_len(l) > MAX_PROPOSAL_LINK_LENGTH,
        None => false,
    };
    let params_too_long = match &execution_params {
        Some(p) => p.len() > MAX_EXECUTION_PARAMS_SIZE,
        None => false,
    };
    if text_len(&title) > MAX_PROPOSAL_TITLE_LENGTH || text_len(&description)
        > MAX_PROPOSAL_DESCRIPTION_LENGTH || link_too_long || params_too_long {
        return Err(DataChainError::InvalidParameters);
    }
    let kind = match ProposalType::from_code(proposal_type) {
        Some(k) => k,
        None => return Err(DataChainError::InvalidProposalType),
    };
    let voting_ends_at = match checked_time(ctx.now, ctx.governance_config.voting_period) {
        Ok(v) => v,
        Err(e) => return Err(e),
    };
    let total_proposals = match checked_sum(ctx.governance_config.total_proposals, 1) {
        Ok(v) => v,
        Err(e) => return Err(e),
    };
    ctx.governance_config.total_proposals = total_proposals;
    Ok(
        Proposal {
            creator: ctx.creator,
            title,
            description,
            proposal_type: kind,
            link,
            yes_votes: 0,
            no_votes: 0,
            total_eligible_votes: ctx.governance_token_supply,
            execution_params,
            created_at: ctx.now,
            voting_ends_at,
            executed_at: None,
            status: ProposalStatus::Active,
            version: GOVERNANCE_VERSION,
        },
    )
}

/// Why a vote fails, if it does: the proposal must be open, the voter must
/// hold the governance token, the proposal must be the one named, and the
/// tally must not overflow.
pub open spec fn vote_error(ctx: CastVote, proposal_id: Identity, vote_value: bool) -> Option<
    DataChainError,
> {
    if ctx.proposal.status != ProposalStatus::Active || ctx.proposal.voting_ends_at <= ctx.now {
        Some(DataChainError::ProposalVotingEnded)
    } else {
        match voting_power_error(ctx.governance_config, ctx.voter_token, ctx.voter) {
            Some(e) => Some(e),
            None => if ctx.proposal_key != proposal_id {
                Some(DataChainError::ProposalNotFound)
            } else if (vote_value && overflows(
                ctx.proposal.yes_votes,
                ctx.voter_token.amount as int,
            )) || (!vote_value && overflows(
                ctx.proposal.no_votes,
                ctx.voter_token.amount as int,
            )) {
                Some(DataChainError::InvalidParameters)
            } else {
                None
            },
        }
    }
}

/// The accounts after a successful vote: the voter's balance is added to
/// the yes or the no side of the tally.
pub open spec fn voted(ctx: CastVote, vote_value: bool) -> CastVote {
    let weight = ctx.voter_token.amount;
    CastVote {
        proposal: if vote_value {
            Proposal { yes_votes: (ctx.proposal.yes_votes + weight) as u64, ..ctx.proposal }
        } else {
            Proposal { no_votes: (ctx.proposal.no_votes + weight) as u64, ..ctx.proposal }
        },
        ..ctx
    }
}

/// Casts the caller's vote, weighted by their balance of the governance
/// token, and returns the vote record to create. On an error nothing changes.
pub fn vote(ctx: &mut CastVote, proposal_id: Identity, vote_value: bool) -> (r: Result<
    Vote,
    DataChainError,
>)
    ensures
        match r {
            Ok(v) => {
                &&& vote_error(*old(ctx), proposal_id, vote_value) is None
                &&& *final(ctx) == voted(*old(ctx), vote_value)
                &&& v == (Vote {
                    voter: old(ctx).voter,
                    proposal: old(ctx).proposal_key,
                    vote: vote_value,
                    weight: old(ctx).voter_token.amount,
                    voted_at: old(ctx).now,
                })
            },
            Err(e) => {
                &&& vote_error(*old(ctx), proposal_id, vote_value) == Some(e)
                &&& *final(ctx) == *old(ctx)
            },
        },
{
    if ctx.proposal.status != ProposalStatus::Active || ctx.proposal.voting_ends_at <= ctx.now {
        return Err(DataChainError::ProposalVotingEnded);
    }
    match check_voting_power(&ctx.governance_config, &ctx.voter_token, &ctx.voter) {
        Ok(_) => {},
        Err(e) => return Err(e),
    }
    if !ctx.proposal_key.same(&proposal_id) {
        return Err(DataChainError::ProposalNotFound);
    }
    let weight = ctx.voter_token.amount;
    if vote_value {
        match checked_sum(ctx.proposal.yes_votes, weight) {
            Ok(v) => {
                ctx.proposal.yes_votes = v;
            },
            Err(e) => return Err(e),
        }
    } else {
        match checked_sum(ctx.proposal.no_votes, weight) {
            Ok(v) => {
                ctx.proposal.no_votes = v;
            },
            Err(e) => return Err(e),
        }
    }
    Ok(
        Vote {
            voter: ctx.voter,
            proposal: ctx.proposal_key,
            vote: vote_value,
            weight,
            voted_at: ctx.now,
        },
    )
}

/// Votes needed for a quorum: the percentage of the eligible votes, rounded down.
pub open spec fn quorum_of(eligible: int, quorum_percentage: int) -> int {
    eligible * quorum_percentage / 100
}

/// Yes votes needed for approval: the percentage of the votes cast, rounded down.
pub open spec fn approval_threshold_of(total_votes: int, approval_percentage: int) -> int {
    total_votes * approval_percentage / 100
}

/// Why a proposal cannot be decided now, if it cannot: it must still be
/// open, its execution delay must have passed, it must be the one named, its
/// tally must fit `u64`, and the votes cast must reach the quorum.
pub open spec fn execution_error(ctx: ExecuteProposal, proposal_id: Identity) -> Option<
    DataChainError,
> {
    let p = ctx.proposal;
    let total = p.yes_votes + p.no_votes;
    if p.status != ProposalStatus::Active && p.status != ProposalStatus::Approved {
        Some(DataChainError::ProposalRejected)
    } else if ctx.now < p.voting_ends_at + ctx.governance_config.execution_delay {
        Some(DataChainError::InvalidTimestamp)
    } else if ctx.proposal_key != proposal_id {
        Some(DataChainError::ProposalNotFound)
    } else if total > u64::MAX {
        Some(DataChainError::InvalidParameters)
    } else if total < quorum_of(
        p.total_eligible_votes as int,
        ctx.governance_config.quorum_percentage as int,
    ) {
        Some(DataChainError::QuorumNotReached)
    } else {
        None
    }
}

/// Whether a decided proposal has too few yes votes; a tie with the
/// threshold approves.
pub open spec fn falls_short(ctx: ExecuteProposal) -> bool {
    let p = ctx.proposal;
    p.yes_votes < approval_threshold_of(
        p.yes_votes + p.no_votes,
        ctx.governance_config.approval_threshold_percentage as int,
    )
}

/// What executing a proposal returns, and the accounts afterwards. A
/// proposal that reaches the quorum without enough yes votes is rejected for
/// good: the status `Rejected` is written and `ProposalRejected` reported.
/// One that passes is marked executed at `now`, and counted.
pub open spec fn execution_result(ctx: ExecuteProposal, proposal_id: Identity) -> (
    Result<(), DataChainError>,
    ExecuteProposal,
) {
    match execution_error(ctx, proposal_id) {
        Some(e) => (Err(e), ctx),
        None => if falls_short(ctx) {
            (
                Err(DataChainError::ProposalRejected),
                ExecuteProposal {
                    proposal: Proposal { status: ProposalStatus::Rejected, ..ctx.proposal },
                    ..ctx
                },
            )
        } else if overflows(ctx.governance_config.executed_proposals, 1) {
            (Err(DataChainError::InvalidParameters), ctx)
        } else {
            (
                Ok(()),
                ExecuteProposal {
                    proposal: Proposal {
                        status: ProposalStatus::Executed,
                        executed_at: Some(ctx.now),
                        ..ctx.proposal
                    },
                    governance_config: GovernanceConfig {
                        executed_proposals: (ctx.governance_config.executed_proposals
                            + 1) as u64,
                        ..ctx.governance_config
                    },
                    ..ctx
                },
            )
        },
    }
}

/// Decides a proposal once its voting period and execution delay are over:
/// checks the quorum, then the approval threshold, and records the outcome.
/// Carrying out `execution_params` is left to the caller.
pub fn execute_proposal(ctx: &mut ExecuteProposal, proposal_id: Identity) -> (r: Result<
    (),
    DataChainError,
>)
    ensures
        (r, *final(ctx)) == execution_result(*old(ctx), proposal_id),
{
    if ctx.proposal.status != ProposalStatus::Active && ctx.proposal.status
        != ProposalStatus::Approved {
        return Err(DataChainError::ProposalRejected);
    }
    let opens_at: i128 = ctx.proposal.voting_ends_at as i128
        + ctx.governance_config.execution_delay as i128;
    if (ctx.now as i128) < opens_at {
        return Err(DataChainError::InvalidTimestamp);
    }
    if !ctx.proposal_key.same(&proposal_id) {
        return Err(DataChainError::ProposalNotFound);
    }
    let total_votes = match checked_sum(ctx.proposal.yes_votes, ctx.proposal.no_votes) {
        Ok(v) => v,
        Err(e) => return Err(e),
    };
    let eligible = ctx.proposal.total_eligible_votes;
    let quorum_percentage = ctx.governance_config.quorum_percentage;
    let approval_percentage = ctx.governance_config.approval_threshold_percentage;
    proof {
        assert((eligible as int) * (quorum_percentage as int) <= (u64::MAX as int) * 255)
            by (nonlinear_arith)
            requires
                eligible <= u64::MAX,
                quorum_percentage <= 255,
        ;
        assert((total_votes as int) * (approval_percentage as int) <= (u64::MAX as int) * 255)
            by (nonlinear_arith)
            requires
                total_votes <= u64::MAX,
                approval_percentage <= 255,
        ;
    }
    let quorum: u128 = (eligible as u128) * (quorum_percentage as u128) / 100;
    if (total_votes as u128) < quorum {
        return Err(DataChainError::QuorumNotReached);
    }
    let threshold: u128 = (total_votes as u128) * (approval_percentage as u128) / 100;
    if (ctx.proposal.yes_votes as u128) < threshold {
        ctx.proposal.status = ProposalStatus::Rejected;
        return Err(DataChainError::ProposalRejected);
    }
    let executed_proposals = match checked_sum(ctx.governance_config.executed_proposals, 1) {
        Ok(v) => v,
        Err(e) => return Err(e),
    };
    ctx.proposal.status = ProposalStatus::Executed;
    ctx.proposal.executed_at = Some(ctx.now);
    ctx.governance_config.executed_proposals = executed_proposals;
    Ok(())
}

/// Sets up governance; both percentages must be at most 100 and both
/// periods positive.
pub fn initialize_governance(
    ctx: &InitializeGovernance,
    voting_period: i64,
    execution_delay: i64,
    quorum_percentage: u8,
    approval_threshold_percentage: u8,
) -> (r: Result<GovernanceConfig, DataChainError>)
    ensures
        match r {
            Ok(c) => {
                &&& c.wf()
                &&& c == (GovernanceConfig {
                    authority: ctx.authority,
                    governance_token: ctx.governance_token,
                    voting_period,
                    execution_delay,
                    quorum_percentage,
                    approval_threshold_percentage,
                    total_proposals: 0,
                    executed_proposals: 0,
                    version: GOVERNANCE_VERSION,
                })
            },
            Err(e) => {
                &&& !(quorum_percentage <= 100 && approval_threshold_percentage <= 100
                    && voting_period > 0 && execution_delay > 0)
                &&& e == DataChainError::InvalidParameters
            },
        },
{
    if quorum_percentage > 100 || approval_threshold_percentage > 100 {
        return Err(DataChainError::InvalidParameters);
    }
    if voting_period <= 0 || execution_delay <= 0 {
        return Err(DataChainError::InvalidParameters);
    }
    Ok(
        GovernanceConfig {
            authority: ctx.authority,
            governance_token: ctx.governance_token,
            voting_period,
            execution_delay,
            quorum_percentage,
            approval_threshold_percentage,
            total_proposals: 0,
            executed_proposals: 0,
            version: GOVERNANCE_VERSION,
        },
    )
}

/// With 1000 eligible votes, a quorum of 10% and an approval threshold of
/// 60%, an open proposal past its delay is: short of quorum with fewer than
/// 100 votes cast; rejected for good with 59 yes out of 100; executed with
/// 60 yes out of 100.
pub proof fn lemma_quorum_then_threshold(ctx: ExecuteProposal, proposal_id: Identity)
    requires
        ctx.proposal.status == ProposalStatus::Active,
        ctx.now >= ctx.proposal.voting_ends_at + ctx.governance_config.execution_delay,
        ctx.proposal_key == proposal_id,
        ctx.proposal.total_eligible_votes == 1000,
        ctx.governance_config.quorum_percentage == 10,
        ctx.governance_config.approval_threshold_percentage == 60,
        !overflows(ctx.governance_config.executed_proposals, 1),
    ensures
        ctx.proposal.yes_votes + ctx.proposal.no_votes < 100 ==> execution_result(
            ctx,
            proposal_id,
        ).0 == Err::<(), DataChainError>(DataChainError::QuorumNotReached),
        ctx.proposal.yes_votes == 59 && ctx.proposal.no_votes == 41 ==> {
            &&& execution_result(ctx, proposal_id).0 == Err::<(), DataChainError>(
                DataChainError::ProposalRejected,
            )
            &&& execution_result(ctx, proposal_id).1.proposal.status == ProposalStatus::Rejected
        },
        ctx.proposal.yes_votes == 60 && ctx.proposal.no_votes == 40 ==> {
            &&& execution_result(ctx, proposal_id).0 is Ok
            &&& execution_result(ctx, proposal_id).1.proposal.status == ProposalStatus::Executed
        },
{
}

/// A proposal in a final status stays as it is: executing it again fails
/// and changes nothing, and no vote reaches it.
pub proof fn lemma_final_status_kept(
    exec: ExecuteProposal,
    proposal_id: Identity,
    cast: CastVote,
    vote_id: Identity,
    vote_value: bool,
)
    requires
        exec.proposal.status.is_final(),
        cast.proposal.status.is_final(),
    ensures
        execution_result(exec, proposal_id).0 is Err,
        execution_result(exec, proposal_id).1 == exec,
        vote_error(cast, vote_id, vote_value) == Some(DataChainError::ProposalVotingEnded),
{
}

} // verus!
