//! Token-weighted governance: configuration, proposals, voting, the
//! two-phase timelocked execution gate and the dispatch of executed actions.
use vstd::prelude::*;

use crate::feed::PriceAccount;
use crate::global::GlobalState;
use crate::stake::{slash, slash_notice, slash_outcome, PublisherAccount, TokenVault};
use crate::types::{
    ErrorCode, ProposalCreated, ProposalExecuted, ProposalType, Pubkey, PublisherSlashed,
    SystemPaused, SystemUnpaused, VoteType,
};
use crate::PROGRAM_VERSION;

verus! {

/// Governance parameters and the proposal counter.
#[derive(Clone, Copy, Debug)]
pub struct GovernanceState {
    pub governance_token: Pubkey,
    pub proposal_threshold: u64,
    pub voting_period: u64,
    pub quorum_percentage: u8,
    pub timelock_duration: u64,
    pub proposal_count: u64,
    /// Token supply that quorum is measured against.
    pub total_supply: u64,
    pub authority: Pubkey,
    pub bump: u8,
}

/// A governance proposal and its tallies.
#[derive(Clone, Debug)]
pub struct Proposal {
    pub proposer: Pubkey,
    pub proposal_type: ProposalType,
    pub description: String,
    pub yes_votes: u64,
    pub no_votes: u64,
    pub abstain_votes: u64,
    pub start_slot: u64,
    pub end_slot: u64,
    pub executed: bool,
    /// Zero until the first successful execute call arms the timelock.
    pub execution_time: i64,
    pub proposal_id: u64,
    pub bump: u8,
}

/// Notification of an executed governance action.
#[derive(Clone, Debug)]
pub enum ActionEvent {
    Paused(SystemPaused),
    Unpaused(SystemUnpaused),
    Slashed(PublisherSlashed),
}


/// Sets up the global state, the vault's bookkeeping and the governance
/// configuration of a fresh deployment.
pub fn initialize_program(
    authority: Pubkey,
    token_mint: Pubkey,
    token_vault: Pubkey,
    vault_authority: Pubkey,
    governance: Pubkey,
    vault_token_account: Pubkey,
    reward_rate: u64,
    proposal_threshold: u64,
    voting_period: u64,
    quorum_percentage: u8,
    timelock_duration: u64,
    total_supply: u64,
    slot: u64,
    bumps: (u8, u8, u8, u8),
) -> (r: (GlobalState, TokenVault, GovernanceState))
    ensures
        r.0 == (GlobalState {
            authority,
            token_mint,
            token_vault,
            vault_authority,
            governance,
            paused: false,
            total_products: 0,
            total_publishers: 0,
            version: PROGRAM_VERSION,
            bump: bumps.0,
            vault_authority_bump: bumps.1,
        }),
        r.1 == (TokenVault {
            total_staked: 0,
            total_rewards_distributed: 0,
            reward_rate,
            last_distribution_slot: slot,
            token_mint,
            vault_token_account,
            vault_authority,
            authority,
            bump: bumps.2,
        }),
        r.2 == (GovernanceState {
            governance_token: token_mint,
            proposal_threshold,
            voting_period,
            quorum_percentage,
            timelock_duration,
            proposal_count: 0,
            total_supply,
            authority,
            bump: bumps.3,
        }),
{
    let global_state = GlobalState {
        authority,
        token_mint,
        token_vault,
        vault_authority,
        governance,
        paused: false,
        total_products: 0,
        total_publishers: 0,
        version: PROGRAM_VERSION,
        bump: bumps.0,
        vault_authority_bump: bumps.1,
    };
    let vault = TokenVault {
        total_staked: 0,
        total_rewards_distributed: 0,
        reward_rate,
        last_distribution_slot: slot,
        token_mint,
        vault_token_account,
        vault_authority,
        authority,
        bump: bumps.2,
    };
    let governance_state = GovernanceState {
        governance_token: token_mint,
        proposal_threshold,
        voting_period,
        quorum_percentage,
        timelock_duration,
        proposal_count: 0,
        total_supply,
        authority,
        bump: bumps.3,
    };
    (global_state, vault, governance_state)
}

/// Opens a proposal whose voting window starts at `slot`; the proposer's
/// token balance must reach the proposal threshold. Returns the proposal and
/// its creation notification.
pub fn create_proposal(
    global_state: &GlobalState,
    governance_state: &mut GovernanceState,
    proposer: Pubkey,
    proposer_balance: u64,
    proposal_type: ProposalType,
    description: String,
    slot: u64,
    bump: u8,
) -> (r: Result<(Proposal, ProposalCreated), ErrorCode>)
    ensures
        global_state.paused ==> r == Err::<(Proposal, ProposalCreated), ErrorCode>(
            ErrorCode::SystemPaused,
        ),
        !global_state.paused && proposer_balance < old(governance_state).proposal_threshold ==> r
            == Err::<(Proposal, ProposalCreated), ErrorCode>(ErrorCode::Unauthorized),
        !global_state.paused && proposer_balance >= old(governance_state).proposal_threshold && (
        slot + old(governance_state).voting_period > u64::MAX || old(
            governance_state,
        ).proposal_count + 1 > u64::MAX) ==> r == Err::<(Proposal, ProposalCreated), ErrorCode>(
            ErrorCode::Overflow,
        ),
        !global_state.paused && proposer_balance >= old(governance_state).proposal_threshold && slot
            + old(governance_state).voting_period <= u64::MAX && old(
            governance_state,
        ).proposal_count + 1 <= u64::MAX ==> r is Ok,
        r is Err ==> *final(governance_state) == *old(governance_state),
        r is Ok ==> {
            let (p, ev) = r->Ok_0;
            &&& !global_state.paused && proposer_balance >= old(governance_state).proposal_threshold
            &&& p.proposer == proposer && p.proposal_type == proposal_type
            &&& p.description@ == description@
            &&& p.yes_votes == 0 && p.no_votes == 0 && p.abstain_votes == 0
            &&& p.start_slot == slot && p.end_slot == slot + old(governance_state).voting_period
            &&& !p.executed && p.execution_time == 0
            &&& p.proposal_id == old(governance_state).proposal_count && p.bump == bump
            &&& *final(governance_state) == (GovernanceState {
                proposal_count: (old(governance_state).proposal_count + 1) as u64,
                ..*old(governance_state)
            })
            &&& ev.proposal_id == p.proposal_id && ev.proposer == proposer
            &&& ev.proposal_type == proposal_type && ev.description@ == description@
        },
{
    if global_state.paused {
        return Err(ErrorCode::SystemPaused);
    }
    if proposer_balance < governance_state.proposal_threshold {
        return Err(ErrorCode::Unauthorized);
    }
    let end_slot = match slot.checked_add(governance_state.voting_period) {
        Some(e) => e,
        None => {
            return Err(ErrorCode::Overflow);
        },
    };
    let next_count = match governance_state.proposal_count.checked_add(1) {
        Some(c) => c,
        None => {
            return Err(ErrorCode::Overflow);
        },
    };
    let proposal_id = governance_state.proposal_count;
    governance_state.proposal_count = next_count;
    let event = ProposalCreated {
        proposal_id,
        proposer,
        proposal_type,
        description: description.clone(),
    };
    let proposal = Proposal {
        proposer,
        proposal_type,
        description,
        yes_votes: 0,
        no_votes: 0,
        abstain_votes: 0,
        start_slot: slot,
        end_slot,
        executed: false,
        execution_time: 0,
        proposal_id,
        bump,
    };
    Ok((proposal, event))
}

/// Adds `vote_weight` to the tally of `vote` while the voting window, which
/// includes its end slot, is open at `slot`.
pub fn vote_proposal(proposal: &mut Proposal, vote: VoteType, vote_weight: u64, slot: u64) -> (r:
    Result<(), ErrorCode>)
    ensures
        slot > old(proposal).end_slot ==> r == Err::<(), ErrorCode>(ErrorCode::VotingPeriodEnded),
        slot <= old(proposal).end_slot && (match vote {
            VoteType::Yes => old(proposal).yes_votes,
            VoteType::No => old(proposal).no_votes,
            VoteType::Abstain => old(proposal).abstain_votes,
        }) + vote_weight > u64::MAX ==> r == Err::<(), ErrorCode>(ErrorCode::Overflow),
        slot <= old(proposal).end_slot && (match vote {
            VoteType::Yes => old(proposal).yes_votes,
            VoteType::No => old(proposal).no_votes,
            VoteType::Abstain => old(proposal).abstain_votes,
        }) + vote_weight <= u64::MAX ==> r is Ok,
        r is Err ==> *final(proposal) == *old(proposal),
        r is Ok ==> slot <= old(proposal).end_slot && *final(proposal) == match vote {
            VoteType::Yes => Proposal {
                yes_votes: (old(proposal).yes_votes + vote_weight) as u64,
                ..*old(proposal)
            },
            VoteType::No => Proposal {
                no_votes: (old(proposal).no_votes + vote_weight) as u64,
                ..*old(proposal)
            },
            VoteType::Abstain => Proposal {
                abstain_votes: (old(proposal).abstain_votes + vote_weight) as u64,
                ..*old(proposal)
            },
        },
{
    if slot > proposal.end_slot {
        return Err(ErrorCode::VotingPeriodEnded);
    }
    match vote {
        VoteType::Yes => {
            match proposal.yes_votes.checked_add(vote_weight) {
                Some(t) => {
                    proposal.yes_votes = t;
                },
                None => {
                    return Err(ErrorCode::Overflow);
                },
            }
        },
        VoteType::No => {
            match proposal.no_votes.checked_add(vote_weight) {
                Some(t) => {
                    proposal.no_votes = t;
                },
                None => {
                    return Err(ErrorCode::Overflow);
                },
            }
        },
        VoteType::Abstain => {
            match proposal.abstain_votes.checked_add(vote_weight) {
                Some(t) => {
                    proposal.abstain_votes = t;
                },
                None => {
                    return Err(ErrorCode::Overflow);
                },
            }
        },
    }
    Ok(())
}

/// Votes a proposal needs: `quorum_percentage` percent of the total supply.
pub open spec fn quorum(g: GovernanceState) -> int {
    g.total_supply * g.quorum_percentage / 100
}

/// All votes cast on a proposal.
pub open spec fn total_votes(p: Proposal) -> int {
    p.yes_votes + p.no_votes + p.abstain_votes
}

/// The proposal after an execute call at `slot` and time `now`, or why the
/// call fails. The first successful call only arms the timelock; a call once
/// it has expired marks the proposal executed.
pub open spec fn execute_step(p: Proposal, g: GovernanceState, slot: u64, now: i64) -> Result<
    Proposal,
    ErrorCode,
> {
    if slot <= p.end_slot {
        Err(ErrorCode::VotingPeriodActive)
    } else if p.executed {
        Err(ErrorCode::ProposalNotApproved)
    } else if total_votes(p) < quorum(g) {
        Err(ErrorCode::QuorumNotReached)
    } else if p.yes_votes <= p.no_votes {
        Err(ErrorCode::ProposalNotApproved)
    } else if p.execution_time == 0 {
        if now + g.timelock_duration > i64::MAX {
            Err(ErrorCode::Overflow)
        } else {
            Ok(Proposal { execution_time: (now + g.timelock_duration) as i64, ..p })
        }
    } else if now < p.execution_time {
        Err(ErrorCode::TimelockNotExpired)
    } else {
        Ok(Proposal { executed: true, ..p })
    }
}

/// Runs the two-phase execution gate of a proposal whose voting window has
/// closed with quorum and a yes majority. Returns the execution notification
/// when the call marked the proposal executed.
pub fn execute_proposal(
    proposal: &mut Proposal,
    governance_state: &GovernanceState,
    slot: u64,
    now: i64,
) -> (r: Result<Option<ProposalExecuted>, ErrorCode>)
    ensures
        execute_step(*old(proposal), *governance_state, slot, now) is Err ==> *final(proposal)
            == *old(proposal) && r == Err::<Option<ProposalExecuted>, ErrorCode>(
            execute_step(*old(proposal), *governance_state, slot, now)->Err_0,
        ),
        execute_step(*old(proposal), *governance_state, slot, now) is Ok ==> *final(proposal)
            == execute_step(*old(proposal), *governance_state, slot, now)->Ok_0 && r is Ok,
        r is Ok && final(proposal).executed ==> r->Ok_0 is Some && r->Ok_0->Some_0.proposal_id
            == old(proposal).proposal_id && r->Ok_0->Some_0.proposal_type == old(
            proposal,
        ).proposal_type,
        r is Ok && !final(proposal).executed ==> r->Ok_0 is None,
{
    if slot <= proposal.end_slot {
        return Err(ErrorCode::VotingPeriodActive);
    }
    if proposal.executed {
        return Err(ErrorCode::ProposalNotApproved);
    }
    let votes: u128 = proposal.yes_votes as u128 + proposal.no_votes as u128
        + proposal.abstain_votes as u128;
    assert(governance_state.total_supply as u128 * governance_state.quorum_percentage as u128
        <= 0xffff_ffff_ffff_ffffu128 * 255) by (nonlinear_arith)
        requires
            governance_state.total_supply <= 0xffff_ffff_ffff_ffffu64,
            governance_state.quorum_percentage <= 255u8,
    ;
    let needed: u128 = (governance_state.total_supply as u128
        * governance_state.quorum_percentage as u128) / 100;
    if votes < needed {
        return Err(ErrorCode::QuorumNotReached);
    }
    if proposal.yes_votes <= proposal.no_votes {
        return Err(ErrorCode::ProposalNotApproved);
    }
    if proposal.execution_time == 0 {
        let at: i128 = now as i128 + governance_state.timelock_duration as i128;
        if at > i64::MAX as i128 {
            return Err(ErrorCode::Overflow);
        }
        proposal.execution_time = at as i64;
        return Ok(None);
    }
    if now < proposal.execution_time {
        return Err(ErrorCode::TimelockNotExpired);
    }
    proposal.executed = true;
    Ok(Some(ProposalExecuted { proposal_id: proposal.proposal_id, proposal_type: proposal.proposal_type }))
}


/// `b` is the feed `a` with its minimum publisher count set to `m`.
pub open spec fn min_publishers_set(a: PriceAccount, b: PriceAccount, m: u8) -> bool {
    &&& b.min_publishers == m
    &&& b.product_account == a.product_account
    &&& b.price_type == a.price_type
    &&& b.aggregate == a.aggregate
    &&& b.publishers@ == a.publishers@
    &&& b.publisher_count == a.publisher_count
    &&& b.last_update_slot == a.last_update_slot
    &&& b.ema == a.ema
    &&& b.authority == a.authority
    &&& b.exponent == a.exponent
    &&& b.bump == a.bump
}

/// The governance configuration with each parameter present in the payload
/// overwritten.
pub open spec fn params_updated(
    g: GovernanceState,
    proposal_threshold: Option<u64>,
    voting_period: Option<u64>,
    quorum_percentage: Option<u8>,
    timelock_duration: Option<u64>,
) -> GovernanceState {
    GovernanceState {
        proposal_threshold: match proposal_threshold {
            Some(v) => v,
            None => g.proposal_threshold,
        },
        voting_period: match voting_period {
            Some(v) => v,
            None => g.voting_period,
        },
        quorum_percentage: match quorum_percentage {
            Some(v) => v,
            None => g.quorum_percentage,
        },
        timelock_duration: match timelock_duration {
            Some(v) => v,
            None => g.timelock_duration,
        },
        ..g
    }
}

/// Carries out the action of an executed proposal. The feed and the
/// publisher it may target are optional; an absent target makes the action a
/// no-op. `caller`, `now` and `slot` go into notifications and slash records.
/// A failure changes nothing.
pub fn execute_governance_action(
    proposal: &Proposal,
    global_state: &mut GlobalState,
    governance_state: &mut GovernanceState,
    token_vault: &mut TokenVault,
    price_account: &mut Option<PriceAccount>,
    publisher_account: &mut Option<PublisherAccount>,
    publisher_address: Pubkey,
    caller: Pubkey,
    now: i64,
    slot: u64,
) -> (r: Result<Option<ActionEvent>, ErrorCode>)
    requires
        (*old(price_account)) is Some ==> (*old(price_account))->Some_0.wf(),
    ensures
        (*final(price_account)) is Some ==> (*final(price_account))->Some_0.wf(),
        !proposal.executed ==> r == Err::<Option<ActionEvent>, ErrorCode>(
            ErrorCode::ProposalNotApproved,
        ),
        r is Err ==> {
            &&& *final(global_state) == *old(global_state)
            &&& *final(governance_state) == *old(governance_state)
            &&& *final(token_vault) == *old(token_vault)
            &&& *final(price_account) == *old(price_account)
            &&& *final(publisher_account) == *old(publisher_account)
        },
        proposal.executed ==> match proposal.proposal_type {
            ProposalType::UpdateRewardRate { new_rate } => {
                &&& r == Ok::<Option<ActionEvent>, ErrorCode>(None)
                &&& *final(token_vault) == (TokenVault { reward_rate: new_rate, ..*old(token_vault) })
                &&& *final(global_state) == *old(global_state)
                &&& *final(governance_state) == *old(governance_state)
                &&& *final(price_account) == *old(price_account)
                &&& *final(publisher_account) == *old(publisher_account)
            },
            ProposalType::UpdateMinPublishers { feed: _, new_min } => {
                &&& r == Ok::<Option<ActionEvent>, ErrorCode>(None)
                &&& (*old(price_account)) is None ==> *final(price_account) == *old(price_account)
                &&& (*old(price_account)) is Some ==> (*final(price_account)) is Some
                    && min_publishers_set(
                    (*old(price_account))->Some_0,
                    (*final(price_account))->Some_0,
                    new_min,
                )
                &&& *final(token_vault) == *old(token_vault)
                &&& *final(global_state) == *old(global_state)
                &&& *final(governance_state) == *old(governance_state)
                &&& *final(publisher_account) == *old(publisher_account)
            },
            ProposalType::SlashPublisher { publisher: _, percentage } => {
                &&& (*old(publisher_account)) is None ==> r == Ok::<Option<ActionEvent>, ErrorCode>(
                    None,
                ) && *final(publisher_account) == *old(publisher_account) && *final(token_vault)
                    == *old(token_vault)
                &&& (*old(publisher_account)) is Some ==> {
                    &&& (*final(publisher_account)) is Some
                    &&& slash_outcome(
                        (*old(publisher_account))->Some_0,
                        (*final(publisher_account))->Some_0,
                        *old(token_vault),
                        *final(token_vault),
                        percentage,
                        slot,
                        r is Err,
                    )
                    &&& r is Err ==> r == Err::<Option<ActionEvent>, ErrorCode>(ErrorCode::Overflow)
                    &&& r is Ok ==> r->Ok_0 is Some && r->Ok_0->Some_0 is Slashed && slash_notice(
                        r->Ok_0->Some_0->Slashed_0,
                        (*old(publisher_account))->Some_0,
                        publisher_address,
                        percentage,
                    )
                }
                &&& *final(global_state) == *old(global_state)
                &&& *final(governance_state) == *old(governance_state)
                &&& *final(price_account) == *old(price_account)
            },
            ProposalType::EmergencyPause => {
                &&& r == Ok::<Option<ActionEvent>, ErrorCode>(
                    Some(ActionEvent::Paused(SystemPaused { timestamp: now, authority: caller })),
                )
                &&& *final(global_state) == (GlobalState { paused: true, ..*old(global_state) })
                &&& *final(governance_state) == *old(governance_state)
                &&& *final(token_vault) == *old(token_vault)
                &&& *final(price_account) == *old(price_account)
                &&& *final(publisher_account) == *old(publisher_account)
            },
            ProposalType::EmergencyUnpause => {
                &&& r == Ok::<Option<ActionEvent>, ErrorCode>(
                    Some(
                        ActionEvent::Unpaused(SystemUnpaused { timestamp: now, authority: caller }),
                    ),
                )
                &&& *final(global_state) == (GlobalState { paused: false, ..*old(global_state) })
                &&& *final(governance_state) == *old(governance_state)
                &&& *final(token_vault) == *old(token_vault)
                &&& *final(price_account) == *old(price_account)
                &&& *final(publisher_account) == *old(publisher_account)
            },
            ProposalType::UpdateGovernanceParams {
                proposal_threshold,
                voting_period,
                quorum_percentage,
                timelock_duration,
            } => {
                &&& r == Ok::<Option<ActionEvent>, ErrorCode>(None)
                &&& *final(governance_state) == params_updated(
                    *old(governance_state),
                    proposal_threshold,
                    voting_period,
                    quorum_percentage,
                    timelock_duration,
                )
                &&& *final(global_state) == *old(global_state)
                &&& *final(token_vault) == *old(token_vault)
                &&& *final(price_account) == *old(price_account)
                &&& *final(publisher_account) == *old(publisher_account)
            },
        },
{
    if !proposal.executed {
        return Err(ErrorCode::ProposalNotApproved);
    }
    match proposal.proposal_type {
        ProposalType::UpdateRewardRate { new_rate } => {
            token_vault.reward_rate = new_rate;
            Ok(None)
        },
        ProposalType::UpdateMinPublishers { feed: _, new_min } => {
            match price_account {
                Some(feed) => {
                    feed.min_publishers = new_min;
                },
                None => {},
            }
            Ok(None)
        },
        ProposalType::EmergencyPause => {
            global_state.paused = true;
            Ok(Some(ActionEvent::Paused(SystemPaused { timestamp: now, authority: caller })))
        },
        ProposalType::EmergencyUnpause => {
            global_state.paused = false;
            Ok(Some(ActionEvent::Unpaused(SystemUnpaused { timestamp: now, authority: caller })))
        },
        ProposalType::UpdateGovernanceParams {
            proposal_threshold,
            voting_period,
            quorum_percentage,
            timelock_duration,
        } => {
            if let Some(threshold) = proposal_threshold {
                governance_state.proposal_threshold = threshold;
            }
            if let Some(period) = voting_period {
                governance_state.voting_period = period;
            }
            if let Some(quorum) = quorum_percentage {
                governance_state.quorum_percentage = quorum;
            }
            if let Some(timelock) = timelock_duration {
                governance_state.timelock_duration = timelock;
            }
            Ok(None)
        },
        ProposalType::SlashPublisher { publisher: _, percentage } => {
            match publisher_account {
                Some(account) => {
                    match slash(account, token_vault, publisher_address, percentage, slot) {
                        Ok(ev) => Ok(Some(ActionEvent::Slashed(ev))),
                        Err(e) => Err(e),
                    }
                },
                None => Ok(None),
            }
        },
    }
}


/// The execution gate has two phases. After voting closes, the first
/// successful call only arms the timelock; a call before the armed time
/// fails with TimelockNotExpired; a call at or after it marks the proposal
/// executed, and every later call fails, so that happens once.
pub proof fn lemma_two_phase_execution(
    p: Proposal,
    g: GovernanceState,
    slot1: u64,
    now1: i64,
    slot2: u64,
    now2: i64,
    slot3: u64,
    now3: i64,
)
    requires
        !p.executed,
        p.execution_time == 0,
        execute_step(p, g, slot1, now1) is Ok,
        now1 + g.timelock_duration != 0,
        slot2 > p.end_slot,
        slot3 > p.end_slot,
    ensures
        ({
            let armed = execute_step(p, g, slot1, now1)->Ok_0;
            &&& !armed.executed
            &&& armed.execution_time == now1 + g.timelock_duration
            &&& now2 < armed.execution_time ==> execute_step(armed, g, slot2, now2) == Err::<
                Proposal,
                ErrorCode,
            >(ErrorCode::TimelockNotExpired)
            &&& now2 >= armed.execution_time ==> execute_step(armed, g, slot2, now2) is Ok
                && execute_step(armed, g, slot2, now2)->Ok_0.executed && execute_step(
                execute_step(armed, g, slot2, now2)->Ok_0,
                g,
                slot3,
                now3,
            ) == Err::<Proposal, ErrorCode>(ErrorCode::ProposalNotApproved)
        }),
{
}

} // verus!
