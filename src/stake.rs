//! The publisher stake ledger: registration, staking, timed unbonding and
//! slashing, with the vault's running total kept alongside.
use vstd::prelude::*;
use vstd::string::StringExecFns;

use crate::global::GlobalState;
use crate::types::{ErrorCode, PublisherAdded, PublisherSlashed, Pubkey};
use crate::{INITIAL_REPUTATION, MIN_STAKE_AMOUNT, UNBONDING_PERIOD};

verus! {

/// A registered publisher and its stake.
#[derive(Clone, Debug)]
pub struct PublisherAccount {
    pub authority: Pubkey,
    pub staked_amount: u64,
    pub stake_account: Pubkey,
    pub reputation: u64,
    pub name: String,
    pub registered_at: i64,
    pub slash_count: u32,
    pub last_slash_slot: u64,
    /// Stake waiting out its unbonding period; 0 when none is pending.
    pub unbonding_amount: u64,
    pub unbonding_start: i64,
    pub bump: u8,
}

/// Bookkeeping of the tokens held in custody.
#[derive(Clone, Copy, Debug)]
pub struct TokenVault {
    pub total_staked: u64,
    pub total_rewards_distributed: u64,
    pub reward_rate: u64,
    pub last_distribution_slot: u64,
    pub token_mint: Pubkey,
    pub vault_token_account: Pubkey,
    pub vault_authority: Pubkey,
    pub authority: Pubkey,
    pub bump: u8,
}


/// Registers a publisher with its initial stake, which must reach the
/// protocol minimum. Returns the new record and the publisher-added
/// notification; the caller moves `initial_stake` into custody.
pub fn add_publisher(
    global_state: &mut GlobalState,
    token_vault: &mut TokenVault,
    publisher_address: Pubkey,
    authority: Pubkey,
    stake_account: Pubkey,
    name: String,
    initial_stake: u64,
    now: i64,
    bump: u8,
) -> (r: Result<(PublisherAccount, PublisherAdded), ErrorCode>)
    ensures
        old(global_state).paused ==> r == Err::<(PublisherAccount, PublisherAdded), ErrorCode>(
            ErrorCode::SystemPaused,
        ),
        !old(global_state).paused && initial_stake < MIN_STAKE_AMOUNT ==> r == Err::<
            (PublisherAccount, PublisherAdded),
            ErrorCode,
        >(ErrorCode::InsufficientStake),
        !old(global_state).paused && initial_stake >= MIN_STAKE_AMOUNT && (old(
            token_vault,
        ).total_staked + initial_stake > u64::MAX || old(global_state).total_publishers + 1
            > u64::MAX) ==> r == Err::<(PublisherAccount, PublisherAdded), ErrorCode>(
            ErrorCode::Overflow,
        ),
        !old(global_state).paused && initial_stake >= MIN_STAKE_AMOUNT && old(
            token_vault,
        ).total_staked + initial_stake <= u64::MAX && old(global_state).total_publishers + 1
            <= u64::MAX ==> r is Ok,
        r is Err ==> *final(global_state) == *old(global_state) && *final(token_vault) == *old(
            token_vault,
        ),
        r is Ok ==> {
            let (acct, ev) = r->Ok_0;
            &&& !old(global_state).paused && initial_stake >= MIN_STAKE_AMOUNT
            &&& acct.authority == authority && acct.staked_amount == initial_stake
            &&& acct.stake_account == stake_account && acct.reputation == INITIAL_REPUTATION
            &&& acct.name@ == name@ && acct.registered_at == now && acct.slash_count == 0
            &&& acct.last_slash_slot == 0 && acct.unbonding_amount == 0
            &&& acct.unbonding_start == 0 && acct.bump == bump
            &&& ev.publisher == publisher_address && ev.authority == authority
            &&& ev.stake_amount == initial_stake && ev.name@ == name@
            &&& final(token_vault).total_staked == old(token_vault).total_staked + initial_stake
            &&& *final(token_vault) == (TokenVault {
                total_staked: final(token_vault).total_staked,
                ..*old(token_vault)
            })
            &&& final(global_state).total_publishers == old(global_state).total_publishers + 1
            &&& *final(global_state) == (GlobalState {
                total_publishers: final(global_state).total_publishers,
                ..*old(global_state)
            })
        },
{
    if global_state.paused {
        return Err(ErrorCode::SystemPaused);
    }
    if initial_stake < MIN_STAKE_AMOUNT {
        return Err(ErrorCode::InsufficientStake);
    }
    let total_staked = match token_vault.total_staked.checked_add(initial_stake) {
        Some(t) => t,
        None => {
            return Err(ErrorCode::Overflow);
        },
    };
    let total_publishers = match global_state.total_publishers.checked_add(1) {
        Some(t) => t,
        None => {
            return Err(ErrorCode::Overflow);
        },
    };
    token_vault.total_staked = total_staked;
    global_state.total_publishers = total_publishers;
    let event = PublisherAdded {
        publisher: publisher_address,
        authority,
        stake_amount: initial_stake,
        name: name.clone(),
    };
    let account = PublisherAccount {
        authority,
        staked_amount: initial_stake,
        stake_account,
        reputation: INITIAL_REPUTATION,
        name,
        registered_at: now,
        slash_count: 0,
        last_slash_slot: 0,
        unbonding_amount: 0,
        unbonding_start: 0,
        bump,
    };
    Ok((account, event))
}

/// Adds `amount` to a publisher's stake and to the vault's total; the caller
/// moves the tokens into custody.
pub fn stake_tokens(
    global_state: &GlobalState,
    publisher: &mut PublisherAccount,
    token_vault: &mut TokenVault,
    amount: u64,
) -> (r: Result<(), ErrorCode>)
    ensures
        global_state.paused ==> r == Err::<(), ErrorCode>(ErrorCode::SystemPaused),
        !global_state.paused && amount == 0 ==> r == Err::<(), ErrorCode>(
            ErrorCode::InsufficientStake,
        ),
        !global_state.paused && amount > 0 && (old(publisher).staked_amount + amount > u64::MAX
            || old(token_vault).total_staked + amount > u64::MAX) ==> r == Err::<(), ErrorCode>(
            ErrorCode::Overflow,
        ),
        !global_state.paused && amount > 0 && old(publisher).staked_amount + amount <= u64::MAX
            && old(token_vault).total_staked + amount <= u64::MAX ==> r is Ok,
        r is Err ==> *final(publisher) == *old(publisher) && *final(token_vault) == *old(
            token_vault,
        ),
        r is Ok ==> {
            &&& !global_state.paused && amount > 0
            &&& final(publisher).staked_amount == old(publisher).staked_amount + amount
            &&& *final(publisher) == (PublisherAccount {
                staked_amount: final(publisher).staked_amount,
                ..*old(publisher)
            })
            &&& final(token_vault).total_staked == old(token_vault).total_staked + amount
            &&& *final(token_vault) == (TokenVault {
                total_staked: final(token_vault).total_staked,
                ..*old(token_vault)
            })
        },
{
    if global_state.paused {
        return Err(ErrorCode::SystemPaused);
    }
    if amount == 0 {
        return Err(ErrorCode::InsufficientStake);
    }
    let staked = match publisher.staked_amount.checked_add(amount) {
        Some(t) => t,
        None => {
            return Err(ErrorCode::Overflow);
        },
    };
    let total = match token_vault.total_staked.checked_add(amount) {
        Some(t) => t,
        None => {
            return Err(ErrorCode::Overflow);
        },
    };
    publisher.staked_amount = staked;
    token_vault.total_staked = total;
    Ok(())
}

/// Moves `amount` of a publisher's stake into unbonding, starting the clock
/// at `now`. What stays staked must reach the protocol minimum. A pending
/// request is replaced.
pub fn unstake_tokens(
    global_state: &GlobalState,
    publisher: &mut PublisherAccount,
    amount: u64,
    now: i64,
) -> (r: Result<(), ErrorCode>)
    ensures
        global_state.paused ==> r == Err::<(), ErrorCode>(ErrorCode::SystemPaused),
        !global_state.paused && old(publisher).staked_amount - amount < MIN_STAKE_AMOUNT ==> r
            == Err::<(), ErrorCode>(ErrorCode::InsufficientStake),
        !global_state.paused && old(publisher).staked_amount - amount >= MIN_STAKE_AMOUNT ==> r is Ok,
        r is Err ==> *final(publisher) == *old(publisher),
        r is Ok ==> {
            &&& !global_state.paused && old(publisher).staked_amount - amount >= MIN_STAKE_AMOUNT
            &&& *final(publisher) == (PublisherAccount {
                staked_amount: (old(publisher).staked_amount - amount) as u64,
                unbonding_amount: amount,
                unbonding_start: now,
                ..*old(publisher)
            })
        },
{
    if global_state.paused {
        return Err(ErrorCode::SystemPaused);
    }
    let remaining = match publisher.staked_amount.checked_sub(amount) {
        Some(t) => t,
        None => {
            return Err(ErrorCode::InsufficientStake);
        },
    };
    if remaining < MIN_STAKE_AMOUNT {
        return Err(ErrorCode::InsufficientStake);
    }
    publisher.unbonding_amount = amount;
    publisher.unbonding_start = now;
    publisher.staked_amount = remaining;
    Ok(())
}

/// Releases a publisher's unbonded stake once the unbonding period has fully
/// elapsed at `now`. Returns the amount the caller moves out of custody.
pub fn withdraw_unbonded(
    publisher: &mut PublisherAccount,
    token_vault: &mut TokenVault,
    now: i64,
) -> (r: Result<u64, ErrorCode>)
    ensures
        now - old(publisher).unbonding_start < UNBONDING_PERIOD ==> r == Err::<u64, ErrorCode>(
            ErrorCode::UnbondingPeriodActive,
        ),
        now - old(publisher).unbonding_start >= UNBONDING_PERIOD && old(publisher).unbonding_amount
            == 0 ==> r == Err::<u64, ErrorCode>(ErrorCode::InsufficientStake),
        now - old(publisher).unbonding_start >= UNBONDING_PERIOD && old(publisher).unbonding_amount
            > 0 && old(token_vault).total_staked < old(publisher).unbonding_amount ==> r == Err::<
            u64,
            ErrorCode,
        >(ErrorCode::Overflow),
        now - old(publisher).unbonding_start >= UNBONDING_PERIOD && old(publisher).unbonding_amount
            > 0 && old(token_vault).total_staked >= old(publisher).unbonding_amount ==> r == Ok::<
            u64,
            ErrorCode,
        >(old(publisher).unbonding_amount),
        r is Err ==> *final(publisher) == *old(publisher) && *final(token_vault) == *old(
            token_vault,
        ),
        r is Ok ==> {
            &&& *final(publisher) == (PublisherAccount {
                unbonding_amount: 0,
                unbonding_start: 0,
                ..*old(publisher)
            })
            &&& *final(token_vault) == (TokenVault {
                total_staked: (old(token_vault).total_staked - old(publisher).unbonding_amount) as u64,
                ..*old(token_vault)
            })
        },
{
    if (now as i128) - (publisher.unbonding_start as i128) < UNBONDING_PERIOD as i128 {
        return Err(ErrorCode::UnbondingPeriodActive);
    }
    let amount = publisher.unbonding_amount;
    if amount == 0 {
        return Err(ErrorCode::InsufficientStake);
    }
    let total = match token_vault.total_staked.checked_sub(amount) {
        Some(t) => t,
        None => {
            return Err(ErrorCode::Overflow);
        },
    };
    publisher.unbonding_amount = 0;
    publisher.unbonding_start = 0;
    token_vault.total_staked = total;
    Ok(amount)
}

/// `percentage` percent of `staked`, rounded down.
pub open spec fn slash_amount(staked: int, percentage: int) -> int {
    staked * percentage / 100
}

/// The ledger effect of slashing `percentage` percent of a publisher's stake at
/// `slot`: `failed` exactly when the amount exceeds the publisher's stake or
/// the vault's total, or the slash counter is full; a failure changes nothing.
pub open spec fn slash_outcome(
    before: PublisherAccount,
    after: PublisherAccount,
    vault_before: TokenVault,
    vault_after: TokenVault,
    percentage: u8,
    slot: u64,
    failed: bool,
) -> bool {
    let amount = slash_amount(before.staked_amount as int, percentage as int);
    &&& failed == (amount > before.staked_amount || amount > vault_before.total_staked || before.slash_count
        == u32::MAX)
    &&& failed ==> after == before && vault_after == vault_before
    &&& !failed ==> {
        &&& after == (PublisherAccount {
            staked_amount: (before.staked_amount - amount) as u64,
            slash_count: (before.slash_count + 1) as u32,
            last_slash_slot: slot,
            ..before
        })
        &&& vault_after == (TokenVault { total_staked: (vault_before.total_staked - amount) as u64, ..vault_before })
    }
}

/// The notification for a publisher's stake slashed by `percentage`.
pub open spec fn slash_notice(
    ev: PublisherSlashed,
    before: PublisherAccount,
    publisher_address: Pubkey,
    percentage: u8,
) -> bool {
    &&& ev.publisher == publisher_address
    &&& ev.slash_amount == slash_amount(before.staked_amount as int, percentage as int)
    &&& ev.slash_percentage == percentage
    &&& ev.reason@ == "Governance proposal"@
}

/// Takes `percentage` percent of a publisher's stake away (rounded down), from
/// its balance and from the vault's total, and counts the slash. Fails with
/// `Overflow` when the amount exceeds either balance.
pub fn slash(
    publisher: &mut PublisherAccount,
    token_vault: &mut TokenVault,
    publisher_address: Pubkey,
    percentage: u8,
    slot: u64,
) -> (r: Result<PublisherSlashed, ErrorCode>)
    ensures
        slash_outcome(
            *old(publisher),
            *final(publisher),
            *old(token_vault),
            *final(token_vault),
            percentage,
            slot,
            r is Err,
        ),
        r is Err ==> r == Err::<PublisherSlashed, ErrorCode>(ErrorCode::Overflow),
        r is Ok ==> slash_notice(r->Ok_0, *old(publisher), publisher_address, percentage),
{
    let staked = publisher.staked_amount;
    assert(staked as u128 * percentage as u128 <= 0xffff_ffff_ffff_ffffu128 * 255) by (nonlinear_arith)
        requires
            staked <= 0xffff_ffff_ffff_ffffu64,
            percentage <= 255u8,
    ;
    let wide = (staked as u128 * percentage as u128) / 100;
    if wide > staked as u128 {
        return Err(ErrorCode::Overflow);
    }
    let amount = wide as u64;
    let remaining = staked - amount;
    let total = match token_vault.total_staked.checked_sub(amount) {
        Some(t) => t,
        None => {
            return Err(ErrorCode::Overflow);
        },
    };
    let count = match publisher.slash_count.checked_add(1) {
        Some(c) => c,
        None => {
            return Err(ErrorCode::Overflow);
        },
    };
    publisher.staked_amount = remaining;
    publisher.slash_count = count;
    publisher.last_slash_slot = slot;
    token_vault.total_staked = total;
    Ok(PublisherSlashed {
        publisher: publisher_address,
        slash_amount: amount,
        slash_percentage: percentage,
        reason: String::from_str("Governance proposal"),
    })
}

} // verus!
