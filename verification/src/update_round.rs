use crate::address::Address;
use crate::authority::{authorize, permitted, Operation};
use crate::bits::{bit, bit_is_set, count_ones, popcount};
use crate::error::PokerError;
use crate::state::{PlayerSeat, PokerGame, PokerTable, RoundSummary};
use vstd::prelude::*;

verus! {

/// The decision on one seat that comes with a summary: the seat is sound,
/// sits at the table, is attached to this game or to none, and is one of
/// the seats taken.
pub open spec fn seat_accepted(table: PokerTable, game: PokerGame, seat: PlayerSeat) -> Result<
    (),
    PokerError,
> {
    if !seat.wf() {
        Err(PokerError::InconsistentState)
    } else if seat.table != table.key || (!seat.game.is_unset() && seat.game != game.key) {
        Err(PokerError::PlayerNotAtTable)
    } else if !table.occupied(seat.seat_index) {
        Err(PokerError::InvalidSeatIndex)
    } else {
        Ok(())
    }
}

/// The decision on the seats from position `from` on: the refusal of the
/// first seat that is not accepted.
pub open spec fn seats_accepted(
    table: PokerTable,
    game: PokerGame,
    seats: Seq<PlayerSeat>,
    from: int,
) -> Result<(), PokerError>
    decreases seats.len() - from,
{
    if from < 0 || from >= seats.len() {
        Ok(())
    } else if seat_accepted(table, game, seats[from]) is Err {
        seat_accepted(table, game, seats[from])
    } else {
        seats_accepted(table, game, seats, from + 1)
    }
}

/// The decision on a summary: the first check that fails names the
/// refusal. The summary must be for the stage that the game is in.
pub open spec fn outcome(
    table: PokerTable,
    game: PokerGame,
    caller: Address,
    summary: RoundSummary,
    seats: Seq<PlayerSeat>,
) -> Result<(), PokerError> {
    if !table.wf() || !game.wf() {
        Err(PokerError::InconsistentState)
    } else if !game.played_at(table) {
        Err(PokerError::NoActiveGame)
    } else if permitted(Operation::UpdateRound, table, caller, caller) is Err {
        permitted(Operation::UpdateRound, table, caller, caller)
    } else if !game.stage.is_active() {
        Err(PokerError::InvalidGameStage)
    } else if summary.round_id != game.stage.ordinal_spec() {
        Err(PokerError::InvalidGameStage)
    } else {
        seats_accepted(table, game, seats, 0)
    }
}

/// `a + b`, held at the largest amount.
pub open spec fn capped_sum(a: u64, b: u64) -> u64 {
    if a + b > u64::MAX {
        u64::MAX
    } else {
        (a + b) as u64
    }
}

/// `a - b`, held at zero.
pub open spec fn floored_difference(a: u64, b: u64) -> u64 {
    if a < b {
        0
    } else {
        (a - b) as u64
    }
}

/// Whether `post` is `pre` after the summary has been replayed: the pot has
/// grown by `pot_delta`, the betting state is that of the summary, and the
/// two counts follow from the masks.
pub open spec fn replayed(pre: PokerGame, post: PokerGame, summary: RoundSummary) -> bool {
    &&& post.round_bets@ == summary.bets_by_player@
    &&& post == PokerGame {
        round_id: summary.round_id,
        round_bets: post.round_bets,
        folded_mask: summary.folded_mask,
        all_in_mask: summary.all_in_mask,
        pot: capped_sum(pre.pot, summary.pot_delta),
        current_bet: summary.current_bet,
        last_raiser: summary.last_raiser,
        acted_mask: summary.acted_mask,
        action_on: summary.action_on,
        players_acted: popcount(summary.acted_mask) as u8,
        players_remaining: if popcount(summary.folded_mask) >= pre.player_count {
            0u8
        } else {
            (pre.player_count - popcount(summary.folded_mask)) as u8
        },
        ..pre
    }
}

/// What a seat newly owes in the round: its bet in the summary less its bet
/// as the game knew it before, and nothing where the bet has not grown.
pub open spec fn seat_delta(seat: PlayerSeat, previous_bets: Seq<u64>, summary: RoundSummary)
    -> u64 {
    floored_difference(
        summary.bets_by_player[seat.seat_index as int],
        previous_bets[seat.seat_index as int],
    )
}

/// A seat after the summary has been replayed on it: attached to the game,
/// the delta moved from its chips to its total bet, its bet and its flags
/// those of the summary. A seat that holds less than the delta pays what it
/// holds.
pub open spec fn seat_after(
    seat: PlayerSeat,
    game_key: Address,
    previous_bets: Seq<u64>,
    summary: RoundSummary,
) -> PlayerSeat {
    let delta = seat_delta(seat, previous_bets, summary);
    PlayerSeat {
        game: game_key,
        current_bet: summary.bets_by_player[seat.seat_index as int],
        total_bet: capped_sum(seat.total_bet, delta),
        chips: floored_difference(seat.chips, delta),
        is_folded: bit(summary.folded_mask, seat.seat_index),
        is_all_in: bit(summary.all_in_mask, seat.seat_index),
        has_acted: bit(summary.acted_mask, seat.seat_index),
        ..seat
    }
}

/// The seats after the summary has been replayed on each.
pub open spec fn seats_after(
    seats: Seq<PlayerSeat>,
    game_key: Address,
    previous_bets: Seq<u64>,
    summary: RoundSummary,
) -> Seq<PlayerSeat> {
    Seq::new(seats.len(), |i: int| seat_after(seats[i], game_key, previous_bets, summary))
}

/// Replaying a summary a second time moves no chips: the bets of the first
/// replay are the previous bets of the second, so every delta is zero, and
/// each seat stays as the first replay left it.
pub proof fn lemma_replay_idempotent(
    seat: PlayerSeat,
    game_key: Address,
    previous_bets: Seq<u64>,
    summary: RoundSummary,
)
    requires
        seat.seat_index < 5,
        previous_bets.len() == 5,
    ensures
        seat_delta(
            seat_after(seat, game_key, previous_bets, summary),
            summary.bets_by_player@,
            summary,
        ) == 0,
        seat_after(
            seat_after(seat, game_key, previous_bets, summary),
            game_key,
            summary.bets_by_player@,
            summary,
        ) == seat_after(seat, game_key, previous_bets, summary),
{
}

/// Replaying a summary a second time changes nothing of the game but the
/// pot, which grows by `pot_delta` once more.
pub proof fn lemma_replay_twice(
    pre: PokerGame,
    once: PokerGame,
    twice: PokerGame,
    summary: RoundSummary,
)
    requires
        replayed(pre, once, summary),
        replayed(once, twice, summary),
    ensures
        twice == (PokerGame { pot: capped_sum(once.pot, summary.pot_delta), ..once }),
{
    assert(twice.round_bets =~= once.round_bets);
}

/// A seat whose total bet covers what the game knew of its bet in the round
/// keeps its bet of the round within its total bet.
pub proof fn lemma_bet_within_total(
    seat: PlayerSeat,
    game_key: Address,
    previous_bets: Seq<u64>,
    summary: RoundSummary,
)
    requires
        seat.seat_index < 5,
        previous_bets.len() == 5,
        seat.total_bet >= previous_bets[seat.seat_index as int],
    ensures
        seat_after(seat, game_key, previous_bets, summary).current_bet <= seat_after(
            seat,
            game_key,
            previous_bets,
            summary,
        ).total_bet,
{
}

fn check_seats(table: &PokerTable, game: &PokerGame, seats: &Vec<PlayerSeat>) -> (r: Result<
    (),
    PokerError,
>)
    ensures
        match r {
            Ok(()) => seats_accepted(*table, *game, seats@, 0) is Ok,
            Err(e) => seats_accepted(*table, *game, seats@, 0) == Err::<(), PokerError>(e),
        },
        r is Ok ==> forall|i: int|
            0 <= i < seats@.len() ==> seat_accepted(*table, *game, #[trigger] seats@[i]) is Ok,
{
    let mut i: usize = 0;
    while i < seats.len()
        invariant
            i <= seats@.len(),
            seats_accepted(*table, *game, seats@, 0) == seats_accepted(
                *table,
                *game,
                seats@,
                i as int,
            ),
            forall|j: int| 0 <= j < i ==> seat_accepted(*table, *game, #[trigger] seats@[j]) is Ok,
        decreases seats@.len() - i,
    {
        let seat = &seats[i];
        if !seat.is_well_formed() {
            return Err(PokerError::InconsistentState);
        }
        if seat.table != table.key || (!seat.game.is_zero() && seat.game != game.key) {
            return Err(PokerError::PlayerNotAtTable);
        }
        if !table.is_occupied(seat.seat_index) {
            return Err(PokerError::InvalidSeatIndex);
        }
        i += 1;
    }
    Ok(())
}

/// Replays the summary on one seat.
fn sync_seat(seat: &mut PlayerSeat, game_key: Address, previous_bets: &[u64; 5], summary: &RoundSummary)
    requires
        old(seat).seat_index < 5,
    ensures
        *final(seat) == seat_after(*old(seat), game_key, previous_bets@, *summary),
{
    let index = seat.seat_index as usize;
    let new_round_bet = summary.bets_by_player[index];
    let delta = new_round_bet.saturating_sub(previous_bets[index]);
    seat.game = game_key;
    seat.current_bet = new_round_bet;
    seat.total_bet = seat.total_bet.saturating_add(delta);
    seat.chips = seat.chips.saturating_sub(delta);
    seat.is_folded = bit_is_set(summary.folded_mask, seat.seat_index);
    seat.is_all_in = bit_is_set(summary.all_in_mask, seat.seat_index);
    seat.has_acted = bit_is_set(summary.acted_mask, seat.seat_index);
}

/// Replays the summary of one betting round on the game and on the seats
/// that come with it. What the summary says is taken as it is: that its
/// bets add up to its `pot_delta` is the aggregator's word and is not
/// checked here.
#[verifier::loop_isolation(false)]
pub fn handler(
    table: &PokerTable,
    game: &mut PokerGame,
    caller: Address,
    summary: RoundSummary,
    seats: &mut Vec<PlayerSeat>,
) -> (r: Result<(), PokerError>)
    ensures
        match r {
            Ok(()) => outcome(*table, *old(game), caller, summary, old(seats)@) is Ok && replayed(
                *old(game),
                *final(game),
                summary,
            ) && final(seats)@ == seats_after(
                old(seats)@,
                old(game).key,
                old(game).round_bets@,
                summary,
            ) && final(game).wf(),
            Err(e) => outcome(*table, *old(game), caller, summary, old(seats)@) == Err::<
                (),
                PokerError,
            >(e) && *final(game) == *old(game) && final(seats)@ == old(seats)@,
        },
{
    if !table.is_well_formed() || !game.is_well_formed() {
        return Err(PokerError::InconsistentState);
    }
    if !game.is_played_at(table) {
        return Err(PokerError::NoActiveGame);
    }
    match authorize(Operation::UpdateRound, table, &caller, &caller) {
        Err(e) => {
            return Err(e);
        },
        Ok(()) => {},
    }
    if !game.stage.is_playable() {
        return Err(PokerError::InvalidGameStage);
    }
    if summary.round_id != game.stage.ordinal() {
        return Err(PokerError::InvalidGameStage);
    }
    match check_seats(table, game, seats) {
        Err(e) => {
            return Err(e);
        },
        Ok(()) => {},
    }
    let previous_round_bets = game.round_bets;
    let folded = count_ones(summary.folded_mask);
    game.round_id = summary.round_id;
    game.round_bets = summary.bets_by_player;
    game.folded_mask = summary.folded_mask;
    game.all_in_mask = summary.all_in_mask;
    game.pot = game.pot.saturating_add(summary.pot_delta);
    game.current_bet = summary.current_bet;
    game.last_raiser = summary.last_raiser;
    game.acted_mask = summary.acted_mask;
    game.action_on = summary.action_on;
    game.players_acted = count_ones(summary.acted_mask);
    game.players_remaining = game.player_count.saturating_sub(folded);

    let game_key = game.key;
    let mut i: usize = 0;
    while i < seats.len()
        invariant
            i <= seats@.len(),
            seats@.len() == old(seats)@.len(),
            previous_round_bets@ == old(game).round_bets@,
            game_key == old(game).key,
            forall|j: int| 0 <= j < seats@.len() ==> (#[trigger] old(seats)@[j]).seat_index < 5,
            forall|j: int|
                0 <= j < i ==> #[trigger] seats@[j] == seat_after(
                    old(seats)@[j],
                    game_key,
                    previous_round_bets@,
                    summary,
                ),
            forall|j: int| i <= j < seats@.len() ==> #[trigger] seats@[j] == old(seats)@[j],
        decreases seats@.len() - i,
    {
        let mut seat = seats[i];
        sync_seat(&mut seat, game_key, &previous_round_bets, &summary);
        seats[i] = seat;
        i += 1;
    }
    assert(seats@ =~= seats_after(old(seats)@, old(game).key, old(game).round_bets@, summary));
    Ok(())
}

} // verus!
