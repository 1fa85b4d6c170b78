use datachain_ai::errors::DataChainError;
use datachain_ai::governance::{
    create_proposal, execute_proposal, initialize_governance, vote, CastVote, CreateProposal,
    ExecuteProposal, GovernanceConfig, InitializeGovernance, Proposal, ProposalStatus,
    ProposalType,
};
use datachain_ai::identity::Identity;
use datachain_ai::settlement::TokenHolding;

fn id(n: u8) -> Identity {
    Identity::new([n; 32])
}

const GOV_TOKEN: u8 = 2;
const PROPOSAL: u8 = 4;

fn config() -> GovernanceConfig {
    initialize_governance(
        &InitializeGovernance { authority: id(1), governance_token: id(GOV_TOKEN) },
        100,
        50,
        10,
        60,
    )
    .unwrap()
}

fn wallet(owner: u8, amount: u64) -> TokenHolding {
    TokenHolding { key: id(owner + 100), owner: id(owner), mint: id(GOV_TOKEN), amount }
}

fn proposal(supply: u64) -> (Proposal, GovernanceConfig) {
    let mut ctx = CreateProposal {
        creator: id(3),
        creator_token: wallet(3, 5),
        governance_config: config(),
        governance_token_supply: supply,
        now: 1000,
    };
    let p = create_proposal(
        &mut ctx,
        "Lower fees".to_string(),
        "Lower the dataset fee".to_string(),
        0,
        Some("https://forum".to_string()),
        Some(vec![1, 2, 3]),
    )
    .unwrap();
    (p, ctx.governance_config)
}

fn execute(p: Proposal, c: GovernanceConfig, now: i64) -> (Result<(), DataChainError>, ExecuteProposal) {
    let mut ctx = ExecuteProposal {
        executor: id(9),
        proposal_key: id(PROPOSAL),
        proposal: p,
        governance_config: c,
        now,
    };
    let r = execute_proposal(&mut ctx, id(PROPOSAL));
    (r, ctx)
}

#[test]
fn created_proposal_is_active() {
    let (p, c) = proposal(1000);
    assert_eq!(p.status, ProposalStatus::Active);
    assert_eq!(p.proposal_type, ProposalType::UpdateFees);
    assert_eq!(p.voting_ends_at, 1100);
    assert_eq!(p.total_eligible_votes, 1000);
    assert_eq!((p.yes_votes, p.no_votes), (0, 0));
    assert_eq!(c.total_proposals, 1);
    assert_eq!(p.executed_at, None);
}

#[test]
fn proposal_fields_are_checked() {
    let mut ctx = CreateProposal {
        creator: id(3),
        creator_token: wallet(3, 5),
        governance_config: config(),
        governance_token_supply: 1000,
        now: 1000,
    };
    let s = |t: &str| t.to_string();
    assert_eq!(
        create_proposal(&mut ctx, s("t"), s("d"), 6, None, None).unwrap_err(),
        DataChainError::InvalidProposalType
    );
    assert_eq!(
        create_proposal(&mut ctx, "t".repeat(101), s("d"), 1, None, None).unwrap_err(),
        DataChainError::InvalidParameters
    );
    assert_eq!(
        create_proposal(&mut ctx, s("t"), s("d"), 1, Some("l".repeat(201)), None).unwrap_err(),
        DataChainError::InvalidParameters
    );
    assert_eq!(
        create_proposal(&mut ctx, s("t"), s("d"), 1, None, Some(vec![0; 1001])).unwrap_err(),
        DataChainError::InvalidParameters
    );
    assert_eq!(ctx.governance_config.total_proposals, 0);
    let p = create_proposal(&mut ctx, s("t"), s("d"), 5, None, Some(vec![0; 1000])).unwrap();
    assert_eq!(p.proposal_type, ProposalType::Other);
    ctx.creator_token = wallet(3, 0);
    assert_eq!(
        create_proposal(&mut ctx, s("t"), s("d"), 1, None, None).unwrap_err(),
        DataChainError::InsufficientVotingPower
    );
    ctx.creator_token = wallet(7, 5);
    assert_eq!(
        create_proposal(&mut ctx, s("t"), s("d"), 1, None, None).unwrap_err(),
        DataChainError::Unauthorized
    );
}

fn cast(p: Proposal, c: GovernanceConfig, voter: u8, weight: u64, yes: bool, now: i64) -> (Result<(), DataChainError>, Proposal) {
    let mut ctx = CastVote {
        voter: id(voter),
        proposal_key: id(PROPOSAL),
        proposal: p,
        voter_token: wallet(voter, weight),
        governance_config: c,
        now,
    };
    let r = vote(&mut ctx, id(PROPOSAL), yes).map(|v| {
        assert_eq!(v.weight, weight);
        assert_eq!(v.vote, yes);
    });
    (r, ctx.proposal)
}

#[test]
fn votes_are_weighted_by_balance() {
    let (p, c) = proposal(1000);
    let (r, p) = cast(p, c, 10, 70, true, 1001);
    r.unwrap();
    let (r, p) = cast(p, c, 11, 30, false, 1099);
    r.unwrap();
    assert_eq!((p.yes_votes, p.no_votes), (70, 30));
    let (r, p) = cast(p, c, 12, 30, false, 1100);
    assert_eq!(r.unwrap_err(), DataChainError::ProposalVotingEnded);
    let (r, p) = cast(p, c, 12, 0, false, 1050);
    assert_eq!(r.unwrap_err(), DataChainError::InsufficientVotingPower);
    assert_eq!((p.yes_votes, p.no_votes), (70, 30));
    let mut wrong = CastVote {
        voter: id(12),
        proposal_key: id(PROPOSAL),
        proposal: p,
        voter_token: wallet(12, 5),
        governance_config: c,
        now: 1050,
    };
    assert_eq!(vote(&mut wrong, id(8), true).unwrap_err(), DataChainError::ProposalNotFound);
}

fn tallied(yes: u64, no: u64) -> (Proposal, GovernanceConfig) {
    let (mut p, c) = proposal(1000);
    p.yes_votes = yes;
    p.no_votes = no;
    (p, c)
}

#[test]
fn quorum_not_reached() {
    let (p, c) = tallied(60, 39);
    let (r, ctx) = execute(p, c, 1150);
    assert_eq!(r.unwrap_err(), DataChainError::QuorumNotReached);
    assert_eq!(ctx.proposal.status, ProposalStatus::Active);
}

#[test]
fn below_threshold_is_rejected() {
    let (p, c) = tallied(59, 41);
    let (r, ctx) = execute(p, c, 1150);
    assert_eq!(r.unwrap_err(), DataChainError::ProposalRejected);
    assert_eq!(ctx.proposal.status, ProposalStatus::Rejected);
    assert_eq!(ctx.governance_config.executed_proposals, 0);
    let (r, again) = execute(ctx.proposal, ctx.governance_config, 1200);
    assert!(r.is_err());
    assert_eq!(again.proposal.status, ProposalStatus::Rejected);
}

#[test]
fn threshold_reached_is_executed() {
    let (p, c) = tallied(60, 40);
    let (r, ctx) = execute(p, c, 1150);
    r.unwrap();
    assert_eq!(ctx.proposal.status, ProposalStatus::Executed);
    assert_eq!(ctx.proposal.executed_at, Some(1150));
    assert_eq!(ctx.governance_config.executed_proposals, 1);
    let (r, again) = execute(ctx.proposal, ctx.governance_config, 1200);
    assert_eq!(r.unwrap_err(), DataChainError::ProposalRejected);
    assert_eq!(again.governance_config.executed_proposals, 1);
}

#[test]
fn execution_waits_for_delay() {
    let (p, c) = tallied(60, 40);
    let (r, ctx) = execute(p.clone(), c, 1149);
    assert_eq!(r.unwrap_err(), DataChainError::InvalidTimestamp);
    assert_eq!(ctx.proposal.status, ProposalStatus::Active);
    let mut wrong = ExecuteProposal { executor: id(9), proposal_key: id(PROPOSAL), proposal: p, governance_config: c, now: 1150 };
    assert_eq!(execute_proposal(&mut wrong, id(8)).unwrap_err(), DataChainError::ProposalNotFound);
}

#[test]
fn governance_parameters_are_checked() {
    let ctx = InitializeGovernance { authority: id(1), governance_token: id(GOV_TOKEN) };
    assert_eq!(initialize_governance(&ctx, 100, 50, 101, 60).unwrap_err(), DataChainError::InvalidParameters);
    assert_eq!(initialize_governance(&ctx, 100, 50, 10, 101).unwrap_err(), DataChainError::InvalidParameters);
    assert_eq!(initialize_governance(&ctx, 0, 50, 10, 60).unwrap_err(), DataChainError::InvalidParameters);
    assert_eq!(initialize_governance(&ctx, 100, -1, 10, 60).unwrap_err(), DataChainError::InvalidParameters);
    let c = initialize_governance(&ctx, 100, 50, 100, 0).unwrap();
    assert_eq!((c.quorum_percentage, c.approval_threshold_percentage), (100, 0));
}

#[test]
fn proposal_type_codes_round_trip() {
    for code in 0u8..=5 {
        assert_eq!(ProposalType::from_code(code).unwrap().code(), code);
    }
    assert_eq!(ProposalType::from_code(6), None);
}
