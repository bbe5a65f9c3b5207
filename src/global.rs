//! Process-wide configuration: the authority and the emergency pause flag.
use vstd::prelude::*;

use crate::types::{ErrorCode, Pubkey, SystemPaused, SystemUnpaused};

verus! {

/// The protocol's global configuration.
#[derive(Clone, Copy, Debug)]
pub struct GlobalState {
    pub authority: Pubkey,
    pub token_mint: Pubkey,
    pub token_vault: Pubkey,
    pub vault_authority: Pubkey,
    pub governance: Pubkey,
    pub paused: bool,
    pub total_products: u64,
    pub total_publishers: u64,
    pub version: u8,
    pub bump: u8,
    pub vault_authority_bump: u8,
}

/// Pauses the system; only the global authority may.
pub fn emergency_pause(global_state: &mut GlobalState, caller: Pubkey, timestamp: i64) -> (r:
    Result<SystemPaused, ErrorCode>)
    ensures
        caller.bytes@ != old(global_state).authority.bytes@ ==> r == Err::<SystemPaused, ErrorCode>(
            ErrorCode::Unauthorized,
        ) && *final(global_state) == *old(global_state),
        caller.bytes@ == old(global_state).authority.bytes@ ==> r == Ok::<SystemPaused, ErrorCode>(
            SystemPaused { timestamp, authority: caller },
        ) && *final(global_state) == (GlobalState { paused: true, ..*old(global_state) }),
{
    if !caller.same(&global_state.authority) {
        return Err(ErrorCode::Unauthorized);
    }
    global_state.paused = true;
    Ok(SystemPaused { timestamp, authority: caller })
}

/// Lifts a pause; only the global authority may.
pub fn emergency_unpause(global_state: &mut GlobalState, caller: Pubkey, timestamp: i64) -> (r:
    Result<SystemUnpaused, ErrorCode>)
    ensures
        caller.bytes@ != old(global_state).authority.bytes@ ==> r == Err::<
            SystemUnpaused,
            ErrorCode,
        >(ErrorCode::Unauthorized) && *final(global_state) == *old(global_state),
        caller.bytes@ == old(global_state).authority.bytes@ ==> r == Ok::<
            SystemUnpaused,
            ErrorCode,
        >(SystemUnpaused { timestamp, authority: caller }) && *final(global_state) == (GlobalState {
            paused: false,
            ..*old(global_state)
        }),
{
    if !caller.same(&global_state.authority) {
        return Err(ErrorCode::Unauthorized);
    }
    global_state.paused = false;
    Ok(SystemUnpaused { timestamp, authority: caller })
}

} // verus!
