use sfdn_oracle::feed::{create_product, PriceAccount};
use sfdn_oracle::global::GlobalState;
use sfdn_oracle::governance::{
    create_proposal, execute_governance_action, execute_proposal, initialize_program,
    vote_proposal, ActionEvent, GovernanceState, Proposal,
};
use sfdn_oracle::stake::{PublisherAccount, TokenVault};
use sfdn_oracle::types::{AssetType, ErrorCode, PriceType, ProposalType, Pubkey, VoteType};

fn key(n: u8) -> Pubkey {
    Pubkey { bytes: [n; 32] }
}

fn setup(quorum: u8, supply: u64) -> (GlobalState, TokenVault, GovernanceState) {
    initialize_program(key(200), key(201), key(202), key(203), key(204), key(205), 5, 100, 10, quorum, 50, supply, 3, (1, 2, 3, 4))
}

fn proposal_with(t: ProposalType) -> Proposal {
    let (g, _, mut gov) = setup(20, 1_000_000);
    let (p, _) = create_proposal(&g, &mut gov, key(1), 100, t, "d".to_string(), 0, 0).unwrap();
    p
}

fn executed(t: ProposalType) -> Proposal {
    let mut p = proposal_with(t);
    p.executed = true;
    p
}

fn feed() -> PriceAccount {
    let mut g = setup(20, 1).0;
    create_product(&mut g, "X".to_string(), AssetType::Equity, "x".to_string(), PriceType::Spot, 3, 0, key(1), key(2), key(3), (0, 0)).unwrap().1
}

fn publisher(stake: u64) -> PublisherAccount {
    PublisherAccount {
        authority: key(1),
        staked_amount: stake,
        stake_account: key(2),
        reputation: 100,
        name: "alpha".to_string(),
        registered_at: 1,
        slash_count: 0,
        last_slash_slot: 0,
        unbonding_amount: 0,
        unbonding_start: 0,
        bump: 0,
    }
}

#[test]
fn initialize_sets_up_state() {
    let (g, v, gov) = setup(20, 1_000_000);
    assert!(!g.paused);
    assert_eq!(g.version, 1);
    assert_eq!((g.bump, g.vault_authority_bump, v.bump, gov.bump), (1, 2, 3, 4));
    assert_eq!((v.total_staked, v.reward_rate, v.last_distribution_slot), (0, 5, 3));
    assert_eq!((gov.proposal_threshold, gov.voting_period, gov.quorum_percentage), (100, 10, 20));
    assert_eq!((gov.timelock_duration, gov.proposal_count, gov.total_supply), (50, 0, 1_000_000));
}

#[test]
fn create_proposal_numbers_and_windows() {
    let (g, _, mut gov) = setup(20, 1_000_000);
    let (p, ev) = create_proposal(&g, &mut gov, key(1), 100, ProposalType::EmergencyPause, "stop".to_string(), 40, 9).unwrap();
    assert_eq!((p.proposal_id, p.start_slot, p.end_slot), (0, 40, 50));
    assert_eq!((p.yes_votes, p.no_votes, p.abstain_votes, p.execution_time), (0, 0, 0, 0));
    assert!(!p.executed);
    assert_eq!(ev.description, "stop");
    let (q, _) = create_proposal(&g, &mut gov, key(1), 500, ProposalType::EmergencyUnpause, "go".to_string(), 41, 9).unwrap();
    assert_eq!(q.proposal_id, 1);
    assert_eq!(gov.proposal_count, 2);
    assert!(matches!(create_proposal(&g, &mut gov, key(1), 99, ProposalType::EmergencyPause, "".to_string(), 0, 0), Err(ErrorCode::Unauthorized)));
    let paused = GlobalState { paused: true, ..g };
    assert!(matches!(create_proposal(&paused, &mut gov, key(1), 100, ProposalType::EmergencyPause, "".to_string(), 0, 0), Err(ErrorCode::SystemPaused)));
    assert!(matches!(create_proposal(&g, &mut gov, key(1), 100, ProposalType::EmergencyPause, "".to_string(), u64::MAX, 0), Err(ErrorCode::Overflow)));
    assert_eq!(gov.proposal_count, 2);
}

#[test]
fn votes_until_end_slot() {
    let mut p = proposal_with(ProposalType::EmergencyPause);
    assert_eq!(vote_proposal(&mut p, VoteType::Yes, 7, 10), Ok(()));
    assert_eq!(vote_proposal(&mut p, VoteType::No, 3, 5), Ok(()));
    assert_eq!(vote_proposal(&mut p, VoteType::Abstain, 2, 0), Ok(()));
    assert_eq!(vote_proposal(&mut p, VoteType::Yes, 7, 11), Err(ErrorCode::VotingPeriodEnded));
    assert_eq!((p.yes_votes, p.no_votes, p.abstain_votes), (7, 3, 2));
    assert_eq!(vote_proposal(&mut p, VoteType::Yes, u64::MAX, 1), Err(ErrorCode::Overflow));
    assert_eq!(p.yes_votes, 7);
}

#[test]
fn quorum_of_twenty_percent_of_a_million() {
    let (_, _, gov) = setup(20, 1_000_000);
    let mut p = proposal_with(ProposalType::EmergencyPause);
    vote_proposal(&mut p, VoteType::Yes, 150_000, 1).unwrap();
    vote_proposal(&mut p, VoteType::No, 49_999, 1).unwrap();
    assert!(matches!(execute_proposal(&mut p, &gov, 11, 1000), Err(ErrorCode::QuorumNotReached)));
    vote_proposal(&mut p, VoteType::Abstain, 1, 1).unwrap();
    assert!(matches!(execute_proposal(&mut p, &gov, 11, 1000), Ok(None)));
    assert_eq!(p.execution_time, 1050);
}

#[test]
fn two_phase_execution() {
    let (_, _, gov) = setup(20, 1_000_000);
    let mut p = proposal_with(ProposalType::EmergencyPause);
    vote_proposal(&mut p, VoteType::Yes, 300_000, 1).unwrap();
    assert!(matches!(execute_proposal(&mut p, &gov, 10, 1000), Err(ErrorCode::VotingPeriodActive)));
    assert!(matches!(execute_proposal(&mut p, &gov, 11, 1000), Ok(None)));
    assert!(!p.executed);
    assert_eq!(p.execution_time, 1050);
    assert!(matches!(execute_proposal(&mut p, &gov, 12, 1049), Err(ErrorCode::TimelockNotExpired)));
    assert!(!p.executed);
    let ev = execute_proposal(&mut p, &gov, 13, 1050).unwrap().unwrap();
    assert_eq!(ev.proposal_id, 0);
    assert!(p.executed);
    assert!(matches!(execute_proposal(&mut p, &gov, 14, 2000), Err(ErrorCode::ProposalNotApproved)));
}

#[test]
fn majority_must_say_yes() {
    let (_, _, gov) = setup(0, 1_000_000);
    let mut p = proposal_with(ProposalType::EmergencyPause);
    vote_proposal(&mut p, VoteType::Yes, 5, 1).unwrap();
    vote_proposal(&mut p, VoteType::No, 5, 1).unwrap();
    assert!(matches!(execute_proposal(&mut p, &gov, 11, 1000), Err(ErrorCode::ProposalNotApproved)));
    assert_eq!(p.execution_time, 0);
}

#[test]
fn arming_past_the_time_range_fails() {
    let (_, _, mut gov) = setup(0, 1);
    gov.timelock_duration = u64::MAX;
    let mut p = proposal_with(ProposalType::EmergencyPause);
    vote_proposal(&mut p, VoteType::Yes, 5, 1).unwrap();
    assert!(matches!(execute_proposal(&mut p, &gov, 11, 1000), Err(ErrorCode::Overflow)));
    assert_eq!(p.execution_time, 0);
}

#[test]
fn actions_need_an_executed_proposal() {
    let (mut g, mut v, mut gov) = setup(20, 1);
    let p = proposal_with(ProposalType::UpdateRewardRate { new_rate: 9 });
    let r = execute_governance_action(&p, &mut g, &mut gov, &mut v, &mut None, &mut None, key(9), key(200), 1, 1);
    assert!(matches!(r, Err(ErrorCode::ProposalNotApproved)));
    assert_eq!(v.reward_rate, 5);
}

#[test]
fn reward_rate_and_pause_actions() {
    let (mut g, mut v, mut gov) = setup(20, 1);
    let p = executed(ProposalType::UpdateRewardRate { new_rate: 9 });
    assert!(matches!(execute_governance_action(&p, &mut g, &mut gov, &mut v, &mut None, &mut None, key(9), key(200), 1, 1), Ok(None)));
    assert_eq!(v.reward_rate, 9);
    let p = executed(ProposalType::EmergencyPause);
    let r = execute_governance_action(&p, &mut g, &mut gov, &mut v, &mut None, &mut None, key(9), key(200), 77, 1);
    assert!(matches!(r, Ok(Some(ActionEvent::Paused(e))) if e.timestamp == 77));
    assert!(g.paused);
    let p = executed(ProposalType::EmergencyUnpause);
    let r = execute_governance_action(&p, &mut g, &mut gov, &mut v, &mut None, &mut None, key(9), key(200), 78, 1);
    assert!(matches!(r, Ok(Some(ActionEvent::Unpaused(_)))));
    assert!(!g.paused);
}

#[test]
fn min_publishers_action() {
    let (mut g, mut v, mut gov) = setup(20, 1);
    let p = executed(ProposalType::UpdateMinPublishers { feed: key(2), new_min: 7 });
    let mut target = Some(feed());
    assert!(matches!(execute_governance_action(&p, &mut g, &mut gov, &mut v, &mut target, &mut None, key(9), key(200), 1, 1), Ok(None)));
    assert_eq!(target.unwrap().min_publishers, 7);
    let mut absent: Option<PriceAccount> = None;
    assert!(matches!(execute_governance_action(&p, &mut g, &mut gov, &mut v, &mut absent, &mut None, key(9), key(200), 1, 1), Ok(None)));
}

#[test]
fn slash_action() {
    let (mut g, mut v, mut gov) = setup(20, 1);
    v.total_staked = 5000;
    let p = executed(ProposalType::SlashPublisher { publisher: key(1), percentage: 10 });
    let mut target = Some(publisher(1000));
    let r = execute_governance_action(&p, &mut g, &mut gov, &mut v, &mut None, &mut target, key(9), key(200), 1, 33);
    assert!(matches!(r, Ok(Some(ActionEvent::Slashed(ref e))) if e.slash_amount == 100));
    let acct = target.unwrap();
    assert_eq!((acct.staked_amount, acct.slash_count, acct.last_slash_slot), (900, 1, 33));
    assert_eq!(v.total_staked, 4900);
    assert!(matches!(execute_governance_action(&p, &mut g, &mut gov, &mut v, &mut None, &mut None, key(9), key(200), 1, 33), Ok(None)));
    assert_eq!(v.total_staked, 4900);
}

#[test]
fn governance_params_action_overwrites_present_fields() {
    let (mut g, mut v, mut gov) = setup(20, 1);
    let p = executed(ProposalType::UpdateGovernanceParams {
        proposal_threshold: Some(1),
        voting_period: None,
        quorum_percentage: Some(51),
        timelock_duration: None,
    });
    assert!(matches!(execute_governance_action(&p, &mut g, &mut gov, &mut v, &mut None, &mut None, key(9), key(200), 1, 1), Ok(None)));
    assert_eq!((gov.proposal_threshold, gov.voting_period, gov.quorum_percentage, gov.timelock_duration), (1, 10, 51, 50));
}

#[test]
fn error_messages() {
    assert_eq!(ErrorCode::TimelockNotExpired.message(), "Timelock not expired");
    assert_eq!(ErrorCode::PublishersArrayFull.message(), "Publishers array is full");
}
