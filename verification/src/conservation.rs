use crate::address::Address;
use crate::ledger::Vault;
use crate::refund_all::{pairs_released, refund_total, RefundPair};
use crate::state::player_seat::chips_total;
use crate::state::{PlayerSeat, PokerGame, PokerTable, RoundSummary};
use crate::update_round::{replayed, seat_after, seat_delta, seats_after};
use vstd::prelude::*;

verus! {

/// What the players of a table can claim: the chips of the seats and the
/// pot of the game.
pub open spec fn claims(seats: Seq<PlayerSeat>, pot: u64) -> int {
    chips_total(seats) + pot
}

/// What the vault of a table holds beyond the claims on it. The vault is
/// what was paid in less what was paid out, so this is zero as long as
/// chips, pot and payments are all that there is; the laws below say which
/// operations keep it as it is.
pub open spec fn surplus(vault: Vault, seats: Seq<PlayerSeat>, pot: u64) -> int {
    vault.amount() - claims(seats, pot)
}

/// The seats of the pairs offered for a refund.
pub open spec fn seats_of(pairs: Seq<RefundPair>) -> Seq<PlayerSeat> {
    Seq::new(pairs.len(), |i: int| pairs[i].seat)
}

/// What the seats newly owe by a summary, added up over the first `n`.
pub open spec fn deltas_total(
    seats: Seq<PlayerSeat>,
    previous_bets: Seq<u64>,
    summary: RoundSummary,
    n: int,
) -> int
    decreases n,
{
    if n <= 0 {
        0
    } else {
        deltas_total(seats, previous_bets, summary, n - 1) + seat_delta(
            seats[n - 1],
            previous_bets,
            summary,
        )
    }
}

/// A table never seats more players than it has seats: whatever operation
/// is accepted on a table within its invariant, the table is within its
/// invariant afterwards.
pub proof fn lemma_seats_within_limit(
    table: PokerTable,
    game: PokerGame,
    seat: PlayerSeat,
    player: Address,
    amount: u64,
    game_key: Address,
    final_pot: Option<u64>,
    program_id: Address,
    pairs: Seq<RefundPair>,
)
    requires
        table.wf(),
    ensures
        table.player_count <= table.max_players <= crate::constants::MAX_PLAYERS,
        crate::join_table::outcome(table, player, amount) is Ok ==> crate::join_table::table_after(
            table,
            amount,
        ).wf(),
        crate::leave_table::table_after(table, seat, amount).wf(),
        (PokerTable { current_game: Some(game_key), ..table }).wf(),
        crate::settle_game::table_after(table, game, final_pot).wf(),
        crate::refund_all::outcome(table, game, player, program_id, pairs) is Ok
            ==> crate::refund_all::table_after(table, pairs).wf(),
{
    if crate::join_table::outcome(table, player, amount) is Ok {
        crate::join_table::lemma_join_keeps_invariant(table, player, amount);
    }
    if crate::refund_all::outcome(table, game, player, program_id, pairs) is Ok {
        crate::refund_all::lemma_refund_keeps_invariant(table, game, player, program_id, pairs);
    }
}

/// The chips of a list that has grown by one seat.
pub proof fn lemma_total_push(seats: Seq<PlayerSeat>, seat: PlayerSeat)
    ensures
        chips_total(seats.push(seat)) == chips_total(seats) + seat.chips,
{
    assert(seats.push(seat).drop_last() =~= seats);
}

/// The chips of a list in which one seat was replaced.
pub proof fn lemma_total_update(seats: Seq<PlayerSeat>, i: int, seat: PlayerSeat)
    requires
        0 <= i < seats.len(),
    ensures
        chips_total(seats.update(i, seat)) == chips_total(seats) - seats[i].chips + seat.chips,
    decreases seats.len(),
{
    let changed = seats.update(i, seat);
    if i == seats.len() - 1 {
        assert(changed.drop_last() =~= seats.drop_last());
    } else {
        lemma_total_update(seats.drop_last(), i, seat);
        assert(changed.drop_last() =~= seats.drop_last().update(i, seat));
    }
}

/// A player who joins pays the buy-in into the vault and holds it as
/// chips: the surplus stays.
pub proof fn lemma_join_conserves(
    table: PokerTable,
    seats: Seq<PlayerSeat>,
    pot: u64,
    player: Address,
    buy_in: u64,
    seat: PlayerSeat,
)
    requires
        crate::join_table::outcome(table, player, buy_in) is Ok,
        crate::join_table::is_new_seat(seat, table, player, buy_in),
    ensures
        surplus(crate::join_table::table_after(table, buy_in).vault, seats.push(seat), pot)
            == surplus(table.vault, seats, pot),
{
    broadcast use crate::ledger::group_vault;

    lemma_total_push(seats, seat);
}

/// A player who withdraws is paid from the vault what leaves the seat: the
/// surplus stays.
pub proof fn lemma_leave_conserves(
    table: PokerTable,
    seats: Seq<PlayerSeat>,
    pot: u64,
    i: int,
    player: Address,
    amount: u64,
)
    requires
        0 <= i < seats.len(),
        crate::leave_table::outcome(table, seats[i], player, amount) is Ok,
    ensures
        surplus(
            crate::leave_table::table_after(table, seats[i], amount).vault,
            seats.update(i, crate::leave_table::seat_after(seats[i], amount)),
            pot,
        ) == surplus(table.vault, seats, pot),
{
    broadcast use crate::ledger::group_vault;

    lemma_total_update(seats, i, crate::leave_table::seat_after(seats[i], amount));
}

/// The blinds move from two seats into the pot: the claims stay, and the
/// vault is not touched.
pub proof fn lemma_blinds_conserve(seats: Seq<PlayerSeat>, small_blind: u64, big_blind: u64)
    requires
        crate::start_game::blinds_due(seats) ==> seats[0].chips >= small_blind && seats[1].chips
            >= big_blind && small_blind + big_blind <= u64::MAX,
    ensures
        claims(
            crate::start_game::seats_after(seats, small_blind, big_blind),
            crate::start_game::initial_pot(seats, small_blind, big_blind) as u64,
        ) == claims(seats, 0),
{
    if crate::start_game::blinds_due(seats) {
        let first = PlayerSeat { chips: (seats[0].chips - small_blind) as u64, ..seats[0] };
        let second = PlayerSeat { chips: (seats[1].chips - big_blind) as u64, ..seats[1] };
        lemma_total_update(seats, 0, first);
        lemma_total_update(seats.update(0, first), 1, second);
    }
}

proof fn lemma_replay_totals(
    seats: Seq<PlayerSeat>,
    game_key: Address,
    previous_bets: Seq<u64>,
    summary: RoundSummary,
    n: int,
)
    requires
        0 <= n <= seats.len(),
        forall|i: int|
            0 <= i < seats.len() ==> seat_delta(#[trigger] seats[i], previous_bets, summary)
                <= seats[i].chips,
    ensures
        chips_total(seats_after(seats, game_key, previous_bets, summary).take(n)) == chips_total(
            seats.take(n),
        ) - deltas_total(seats, previous_bets, summary, n),
    decreases n,
{
    let after = seats_after(seats, game_key, previous_bets, summary);
    if n > 0 {
        lemma_replay_totals(seats, game_key, previous_bets, summary, n - 1);
        assert(after.take(n).drop_last() =~= after.take(n - 1));
        assert(seats.take(n).drop_last() =~= seats.take(n - 1));
        assert(after.take(n).last() == seat_after(seats[n - 1], game_key, previous_bets, summary));
    }
}

/// A summary whose `pot_delta` is what the seats that come with it newly
/// owe moves that much from the chips into the pot: the claims stay. This
/// holds where every seat can pay its delta and the pot stays in range;
/// nothing else is asked of the summary.
pub proof fn lemma_replay_conserves(
    pre: PokerGame,
    post: PokerGame,
    seats: Seq<PlayerSeat>,
    summary: RoundSummary,
)
    requires
        replayed(pre, post, summary),
        forall|i: int|
            0 <= i < seats.len() ==> seat_delta(#[trigger] seats[i], pre.round_bets@, summary)
                <= seats[i].chips,
        summary.pot_delta == deltas_total(seats, pre.round_bets@, summary, seats.len() as int),
        pre.pot + summary.pot_delta <= u64::MAX,
    ensures
        claims(seats_after(seats, pre.key, pre.round_bets@, summary), post.pot) == claims(
            seats,
            pre.pot,
        ),
{
    let after = seats_after(seats, pre.key, pre.round_bets@, summary);
    lemma_replay_totals(seats, pre.key, pre.round_bets@, summary, seats.len() as int);
    assert(after.take(seats.len() as int) =~= after);
    assert(seats.take(seats.len() as int) =~= seats);
}

/// A settlement that pays the pot of the game takes from the vault what it
/// takes from the claims: the surplus stays.
pub proof fn lemma_settle_conserves(
    table: PokerTable,
    game: PokerGame,
    seats: Seq<PlayerSeat>,
    winner_seat_index: u8,
    final_pot: Option<u64>,
)
    requires
        crate::settle_game::payout_amount(game, final_pot) == game.pot,
        game.pot <= table.vault.amount(),
    ensures
        surplus(
            crate::settle_game::table_after(table, game, final_pot).vault,
            seats,
            crate::settle_game::game_after(game, winner_seat_index).pot,
        ) == surplus(table.vault, seats, game.pot),
{
    broadcast use crate::ledger::group_vault;

}

proof fn lemma_refund_totals(before: Seq<RefundPair>, after: Seq<RefundPair>, n: int)
    requires
        pairs_released(before, after),
        0 <= n <= before.len(),
    ensures
        chips_total(seats_of(after).take(n)) == 0,
        chips_total(seats_of(before).take(n)) == refund_total(before, n),
    decreases n,
{
    if n > 0 {
        lemma_refund_totals(before, after, n - 1);
        assert(seats_of(after).take(n).drop_last() =~= seats_of(after).take(n - 1));
        assert(seats_of(before).take(n).drop_last() =~= seats_of(before).take(n - 1));
        assert(seats_of(after).take(n).last() == after[n - 1].seat);
        assert(seats_of(before).take(n).last() == before[n - 1].seat);
    }
}

/// A refund pays every seat its chips from the vault and leaves no chips
/// behind: where the game has an empty pot, the surplus stays. A pot that
/// is not empty is dropped by the refund and stays in the vault.
pub proof fn lemma_refund_conserves(
    table: PokerTable,
    game: PokerGame,
    before: Seq<RefundPair>,
    after: Seq<RefundPair>,
)
    requires
        pairs_released(before, after),
        refund_total(before, before.len() as int) <= table.vault.amount(),
    ensures
        surplus(
            crate::refund_all::table_after(table, before).vault,
            seats_of(after),
            crate::refund_all::game_after(game).pot,
        ) == surplus(table.vault, seats_of(before), game.pot) + game.pot,
{
    broadcast use crate::ledger::group_vault;

    lemma_refund_totals(before, after, before.len() as int);
    assert(seats_of(after).take(before.len() as int) =~= seats_of(after));
    assert(seats_of(before).take(before.len() as int) =~= seats_of(before));
}

} // verus!
