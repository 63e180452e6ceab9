use crate::address::Address;
use crate::constants::{MAX_PLAYERS, MIN_PLAYERS};
use crate::error::PokerError;
use crate::ledger::Vault;
use crate::state::{GameMode, PokerTable};
use vstd::prelude::*;

verus! {

/// The configurations that a table can have: 2 to 5 seats, a lowest buy-in
/// that is not above the highest, and a positive small blind.
pub open spec fn config_accepted(max_players: u8, buy_in_min: u64, buy_in_max: u64, small_blind: u64)
    -> bool {
    &&& MIN_PLAYERS <= max_players <= MAX_PLAYERS
    &&& buy_in_min <= buy_in_max
    &&& small_blind > 0
}

/// The table that `handler` creates from an accepted configuration: no
/// player, no game, nothing in the vault.
pub open spec fn created(
    key: Address,
    creator: Address,
    table_id: u64,
    mode: GameMode,
    max_players: u8,
    buy_in_min: u64,
    buy_in_max: u64,
    small_blind: u64,
    backend_account: Address,
) -> PokerTable {
    PokerTable {
        key,
        admin: creator,
        backend: backend_account,
        table_id,
        mode,
        max_players,
        buy_in_min,
        buy_in_max,
        small_blind,
        current_game: None,
        player_count: 0,
        seat_mask: 0,
        vault: Vault::of(0),
    }
}

/// Creates a table. `creator` becomes its operator; `mode` chooses between
/// the staged and the delegated way of running it. The configuration is
/// refused with `InvalidBuyIn` unless it is accepted.
pub fn handler(
    key: Address,
    creator: Address,
    table_id: u64,
    mode: GameMode,
    max_players: u8,
    buy_in_min: u64,
    buy_in_max: u64,
    small_blind: u64,
    backend_account: Address,
) -> (r: Result<PokerTable, PokerError>)
    ensures
        config_accepted(max_players, buy_in_min, buy_in_max, small_blind) ==> r == Ok::<
            PokerTable,
            PokerError,
        >(
            created(
                key,
                creator,
                table_id,
                mode,
                max_players,
                buy_in_min,
                buy_in_max,
                small_blind,
                backend_account,
            ),
        ),
        !config_accepted(max_players, buy_in_min, buy_in_max, small_blind) ==> r == Err::<
            PokerTable,
            PokerError,
        >(PokerError::InvalidBuyIn),
        r matches Ok(t) ==> t.wf() && t.vault.amount() == 0,
{
    broadcast use crate::ledger::group_vault;

    proof {
        reveal_with_fuel(crate::bits::ones_below, 9);
        assert(forall|i: u8| i < 8 ==> (0u8 >> i) & 1 == 0) by (bit_vector);
    }
    if !(max_players >= MIN_PLAYERS && max_players <= MAX_PLAYERS) {
        return Err(PokerError::InvalidBuyIn);
    }
    if buy_in_min > buy_in_max {
        return Err(PokerError::InvalidBuyIn);
    }
    if small_blind == 0 {
        return Err(PokerError::InvalidBuyIn);
    }
    Ok(
        PokerTable {
            key,
            admin: creator,
            backend: backend_account,
            table_id,
            mode,
            max_players,
            buy_in_min,
            buy_in_max,
            small_blind,
            current_game: None,
            player_count: 0,
            seat_mask: 0,
            vault: Vault::holding(0),
        },
    )
}

} // verus!
