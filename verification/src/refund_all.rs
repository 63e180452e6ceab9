use crate::address::{find_program_address, program_address, seeds_view, Address};
use crate::authority::{authorize, permitted, Operation};
use crate::bits::{
    bit, clear_bit, lemma_ones_without_bit, lemma_without_bit, popcount, without_bit,
};
use crate::error::PokerError;
use crate::ledger::{Payout, Vault};
use crate::state::{GameStage, PlayerSeat, PokerGame, PokerTable};
use vstd::prelude::*;

verus! {

/// One seat offered for a refund: the record, the address at which the
/// ledger keeps it, and the wallet to be paid.
#[derive(Clone, Copy, Debug, PartialEq, Eq)]
pub struct RefundPair {
    pub seat_address: Address,
    pub seat: PlayerSeat,
    pub wallet: Address,
}

/// The text with which the seeds of a seat's address begin: `player_seat`.
pub open spec fn seat_tag() -> Seq<u8> {
    seq![112u8, 108u8, 97u8, 121u8, 101u8, 114u8, 95u8, 115u8, 101u8, 97u8, 116u8]
}

/// The seeds from which the ledger derives the address of a player's seat
/// at a table: the tag, the table's address, the player's address.
pub open spec fn seat_seeds(table_key: Address, player: Address) -> Seq<Seq<u8>> {
    seq![seat_tag(), table_key@, player@]
}

/// The address at which the ledger keeps the seat of `player` at the table,
/// under the program `program_id`: the address that the ledger derives from
/// the seat's seeds, if it derives one.
pub open spec fn seat_address(program_id: Address, table_key: Address, player: Address) -> Option<
    Seq<u8>,
> {
    match program_address(seat_seeds(table_key, player), program_id@) {
        Some((a, _)) => Some(a),
        None => None,
    }
}

/// The decision on one pair, given the address that the ledger derives for
/// the seat's owner: the seat is sound, is kept at that address, sits at
/// the table, is one of the seats taken, and belongs to the wallet.
pub open spec fn pair_accepted(table: PokerTable, pair: RefundPair, derived: Option<Seq<u8>>)
    -> Result<(), PokerError> {
    if !pair.seat.wf() {
        Err(PokerError::InconsistentState)
    } else if derived != Some(pair.seat_address@) {
        Err(PokerError::PlayerNotAtTable)
    } else if pair.seat.table != table.key {
        Err(PokerError::PlayerNotAtTable)
    } else if pair.wallet != pair.seat.player {
        Err(PokerError::PlayerNotAtTable)
    } else if !table.occupied(pair.seat.seat_index) {
        Err(PokerError::InvalidSeatIndex)
    } else {
        Ok(())
    }
}

/// The decision on the pairs from position `from` on: the refusal of the
/// first pair that is not accepted.
pub open spec fn pairs_accepted(
    table: PokerTable,
    program_id: Address,
    pairs: Seq<RefundPair>,
    from: int,
) -> Result<(), PokerError>
    decreases pairs.len() - from,
{
    if from < 0 || from >= pairs.len() {
        Ok(())
    } else {
        let derived = seat_address(program_id, table.key, pairs[from].seat.player);
        if pair_accepted(table, pairs[from], derived) is Err {
            pair_accepted(table, pairs[from], derived)
        } else {
            pairs_accepted(table, program_id, pairs, from + 1)
        }
    }
}

/// Whether no two pairs name the same seat index.
pub open spec fn distinct_seats(pairs: Seq<RefundPair>) -> bool {
    forall|i: int, j: int|
        0 <= i < j < pairs.len() ==> pairs[i].seat.seat_index != pairs[j].seat.seat_index
}

/// The chips of the seats of the first `n` pairs, added up.
pub open spec fn refund_total(pairs: Seq<RefundPair>, n: int) -> int
    decreases n,
{
    if n <= 0 {
        0
    } else {
        refund_total(pairs, n - 1) + pairs[n - 1].seat.chips
    }
}

/// The seats that are taken once the seats of the first `n` pairs are
/// released.
pub open spec fn released_mask(mask: u8, pairs: Seq<RefundPair>, n: int) -> u8
    decreases n,
{
    if n <= 0 {
        mask
    } else {
        without_bit(released_mask(mask, pairs, n - 1), pairs[n - 1].seat.seat_index)
    }
}

/// The decision on a refund: the first check that fails names the refusal.
/// The pairs are seats of the table, any number of them but none, and no
/// seat twice.
pub open spec fn outcome(
    table: PokerTable,
    game: PokerGame,
    caller: Address,
    program_id: Address,
    pairs: Seq<RefundPair>,
) -> Result<(), PokerError> {
    if !table.wf() || !game.wf() {
        Err(PokerError::InconsistentState)
    } else if !game.played_at(table) {
        Err(PokerError::NoActiveGame)
    } else if permitted(Operation::RefundAll, table, caller, caller) is Err {
        permitted(Operation::RefundAll, table, caller, caller)
    } else if game.settled {
        Err(PokerError::AlreadySettled)
    } else if pairs.len() == 0 {
        Err(PokerError::InvalidRefundAccounts)
    } else if pairs_accepted(table, program_id, pairs, 0) is Err {
        pairs_accepted(table, program_id, pairs, 0)
    } else if !distinct_seats(pairs) {
        Err(PokerError::InvalidRefundAccounts)
    } else if refund_total(pairs, pairs.len() as int) > table.vault.amount() {
        Err(PokerError::VaultOutOfRange)
    } else {
        Ok(())
    }
}

/// A seat after its refund: without chips, bets and flags, and attached to
/// no game.
pub open spec fn is_released(before: PlayerSeat, after: PlayerSeat) -> bool {
    &&& after.game.is_unset()
    &&& after == PlayerSeat {
        game: after.game,
        chips: 0,
        current_bet: 0,
        total_bet: 0,
        is_folded: false,
        is_all_in: false,
        has_acted: false,
        ..before
    }
}

/// Whether `after` are the pairs `before` once their seats are refunded.
pub open spec fn pairs_released(before: Seq<RefundPair>, after: Seq<RefundPair>) -> bool {
    &&& after.len() == before.len()
    &&& forall|i: int|
        0 <= i < before.len() ==> {
            &&& (#[trigger] after[i]).seat_address == before[i].seat_address
            &&& after[i].wallet == before[i].wallet
            &&& is_released(before[i].seat, after[i].seat)
        }
}

/// The payments of a refund: to each wallet the chips of its seat, in the
/// order of the pairs.
pub open spec fn refunds(pairs: Seq<RefundPair>) -> Seq<Payout> {
    Seq::new(pairs.len(), |i: int| Payout { to: pairs[i].wallet, amount: pairs[i].seat.chips })
}

/// The game after the refund: finished, without pot and without winner.
pub open spec fn game_after(game: PokerGame) -> PokerGame {
    PokerGame { stage: GameStage::Finished, pot: 0, winner_seat: None, ..game }
}

/// The table after the refund: without the players refunded and without
/// game, the refunds gone from its vault.
pub open spec fn table_after(table: PokerTable, pairs: Seq<RefundPair>) -> PokerTable {
    PokerTable {
        player_count: (table.player_count - pairs.len()) as u8,
        seat_mask: released_mask(table.seat_mask, pairs, pairs.len() as int),
        current_game: None,
        vault: Vault::of((table.vault.amount() - refund_total(pairs, pairs.len() as int)) as u64),
        ..table
    }
}

/// Tells how many pairs a list of accounts makes, in which a seat and its
/// wallet follow one another: half its length, unless it is empty or a seat
/// lacks its wallet.
pub fn pair_count(account_count: usize) -> (r: Result<usize, PokerError>)
    ensures
        account_count > 0 && account_count % 2 == 0 ==> r == Ok::<usize, PokerError>(
            account_count / 2,
        ),
        account_count == 0 || account_count % 2 != 0 ==> r == Err::<usize, PokerError>(
            PokerError::InvalidRefundAccounts,
        ),
{
    if account_count == 0 || account_count % 2 != 0 {
        Err(PokerError::InvalidRefundAccounts)
    } else {
        Ok(account_count / 2)
    }
}

/// Where every pair from `from` on is accepted, each of them is.
pub proof fn lemma_pairs_accepted(
    table: PokerTable,
    program_id: Address,
    pairs: Seq<RefundPair>,
    from: int,
)
    requires
        0 <= from,
        pairs_accepted(table, program_id, pairs, from) is Ok,
    ensures
        forall|i: int|
            from <= i < pairs.len() ==> pair_accepted(
                table,
                #[trigger] pairs[i],
                seat_address(program_id, table.key, pairs[i].seat.player),
            ) is Ok,
    decreases pairs.len() - from,
{
    if from < pairs.len() {
        lemma_pairs_accepted(table, program_id, pairs, from + 1);
    }
}

/// Releasing the seats of `n` pairs, which are taken and of which no two
/// are the same, leaves `n` seats fewer taken, takes no seat that was free,
/// and leaves the seats of the other pairs taken.
pub proof fn lemma_released(mask: u8, pairs: Seq<RefundPair>, n: int)
    requires
        0 <= n <= pairs.len(),
        distinct_seats(pairs),
        forall|i: int|
            0 <= i < pairs.len() ==> (#[trigger] pairs[i]).seat.seat_index < 8 && bit(
                mask,
                pairs[i].seat.seat_index,
            ),
    ensures
        popcount(released_mask(mask, pairs, n)) + n == popcount(mask),
        forall|j: u8| bit(released_mask(mask, pairs, n), j) ==> bit(mask, j),
        forall|i: int|
            n <= i < pairs.len() ==> bit(
                released_mask(mask, pairs, n),
                (#[trigger] pairs[i]).seat.seat_index,
            ),
    decreases n,
{
    if n > 0 {
        lemma_released(mask, pairs, n - 1);
        let before = released_mask(mask, pairs, n - 1);
        let index = pairs[n - 1].seat.seat_index;
        assert(bit(before, index));
        lemma_ones_without_bit(before, index, 8);
        assert forall|j: u8| bit(released_mask(mask, pairs, n), j) implies bit(mask, j) by {
            lemma_without_bit(before, index, j);
        }
        assert forall|i: int| n <= i < pairs.len() implies bit(
            released_mask(mask, pairs, n),
            (#[trigger] pairs[i]).seat.seat_index,
        ) by {
            lemma_without_bit(before, index, pairs[i].seat.seat_index);
            assert(pairs[n - 1].seat.seat_index != pairs[i].seat.seat_index);
        }
    }
}

/// A refund that is accepted names no more seats than are taken, and
/// leaves the table within its invariant.
pub proof fn lemma_refund_keeps_invariant(
    table: PokerTable,
    game: PokerGame,
    caller: Address,
    program_id: Address,
    pairs: Seq<RefundPair>,
)
    requires
        outcome(table, game, caller, program_id, pairs) is Ok,
    ensures
        pairs.len() <= table.player_count,
        table_after(table, pairs).wf(),
{
    lemma_pairs_accepted(table, program_id, pairs, 0);
    lemma_released(table.seat_mask, pairs, pairs.len() as int);
    let after = table_after(table, pairs);
    assert(after.seat_mask == released_mask(table.seat_mask, pairs, pairs.len() as int));
    assert(popcount(after.seat_mask) + pairs.len() == table.player_count);
    assert forall|i: u8| after.max_players <= i < 8 implies !bit(after.seat_mask, i) by {
        if bit(after.seat_mask, i) {
            assert(bit(table.seat_mask, i));
        }
    }
}

/// The tag of a seat's seeds as bytes.
fn seat_tag_bytes() -> (v: Vec<u8>)
    ensures
        v@ == seat_tag(),
{
    let mut v: Vec<u8> = Vec::new();
    v.push(112);
    v.push(108);
    v.push(97);
    v.push(121);
    v.push(101);
    v.push(114);
    v.push(95);
    v.push(115);
    v.push(101);
    v.push(97);
    v.push(116);
    assert(v@ =~= seat_tag());
    v
}

/// Asks the ledger's derivation for the address of the seat of `player` at
/// the table.
pub fn derive_seat_address(program_id: &Address, table_key: &Address, player: &Address) -> (r:
    Option<Address>)
    ensures
        match r {
            Some(a) => seat_address(*program_id, *table_key, *player) == Some(a@),
            None => seat_address(*program_id, *table_key, *player) is None,
        },
{
    let mut seeds: Vec<Vec<u8>> = Vec::new();
    seeds.push(seat_tag_bytes());
    seeds.push(table_key.to_vec());
    seeds.push(player.to_vec());
    assert(seeds_view(&seeds) =~= seat_seeds(*table_key, *player));
    match find_program_address(&seeds, program_id) {
        Some((a, _)) => Some(a),
        None => None,
    }
}

/// Decides on one pair, given the address that the ledger derived for the
/// seat's owner.
pub fn check_pair(table: &PokerTable, pair: &RefundPair, derived: Option<Address>) -> (r: Result<
    (),
    PokerError,
>)
    ensures
        r == pair_accepted(
            *table,
            *pair,
            match derived {
                Some(a) => Some(a@),
                None => None,
            },
        ),
{
    if !pair.seat.is_well_formed() {
        return Err(PokerError::InconsistentState);
    }
    match derived {
        Some(a) => {
            if a != pair.seat_address {
                assert(a@ != pair.seat_address@) by {
                    if a@ == pair.seat_address@ {
                        assert(a.bytes =~= pair.seat_address.bytes);
                    }
                }
                return Err(PokerError::PlayerNotAtTable);
            }
        },
        None => {
            return Err(PokerError::PlayerNotAtTable);
        },
    }
    if pair.seat.table != table.key {
        return Err(PokerError::PlayerNotAtTable);
    }
    if pair.wallet != pair.seat.player {
        return Err(PokerError::PlayerNotAtTable);
    }
    if !table.is_occupied(pair.seat.seat_index) {
        return Err(PokerError::InvalidSeatIndex);
    }
    Ok(())
}

fn check_pairs(table: &PokerTable, program_id: &Address, pairs: &Vec<RefundPair>) -> (r: Result<
    (),
    PokerError,
>)
    ensures
        match r {
            Ok(()) => pairs_accepted(*table, *program_id, pairs@, 0) is Ok,
            Err(e) => pairs_accepted(*table, *program_id, pairs@, 0) == Err::<(), PokerError>(e),
        },
{
    let mut i: usize = 0;
    while i < pairs.len()
        invariant
            i <= pairs@.len(),
            pairs_accepted(*table, *program_id, pairs@, 0) == pairs_accepted(
                *table,
                *program_id,
                pairs@,
                i as int,
            ),
        decreases pairs@.len() - i,
    {
        let pair = &pairs[i];
        let derived = derive_seat_address(program_id, &table.key, &pair.seat.player);
        match check_pair(table, pair, derived) {
            Err(e) => {
                return Err(e);
            },
            Ok(()) => {},
        }
        i += 1;
    }
    Ok(())
}

fn seats_are_distinct(pairs: &Vec<RefundPair>) -> (r: bool)
    ensures
        r == distinct_seats(pairs@),
{
    let mut j: usize = 0;
    while j < pairs.len()
        invariant
            j <= pairs@.len(),
            forall|a: int, b: int|
                0 <= a < b < j ==> pairs@[a].seat.seat_index != pairs@[b].seat.seat_index,
        decreases pairs@.len() - j,
    {
        let mut i: usize = 0;
        while i < j
            invariant
                i <= j < pairs@.len(),
                forall|a: int| 0 <= a < i ==> pairs@[a].seat.seat_index != pairs@[j as int].seat.seat_index,
            decreases j - i,
        {
            if pairs[i].seat.seat_index == pairs[j].seat.seat_index {
                return false;
            }
            i += 1;
        }
        j += 1;
    }
    true
}

/// Adds up the chips to refund, unless they are more than `limit`.
fn total_within(pairs: &Vec<RefundPair>, limit: u64) -> (r: Option<u64>)
    ensures
        match r {
            Some(t) => t == refund_total(pairs@, pairs@.len() as int) && t <= limit,
            None => refund_total(pairs@, pairs@.len() as int) > limit,
        },
{
    let mut total: u64 = 0;
    let mut i: usize = 0;
    while i < pairs.len()
        invariant
            i <= pairs@.len(),
            total == refund_total(pairs@, i as int),
            total <= limit,
        decreases pairs@.len() - i,
    {
        let chips = pairs[i].seat.chips;
        if chips > limit - total {
            proof {
                lemma_total_grows(pairs@, i as int + 1, pairs@.len() as int);
            }
            return None;
        }
        total = total + chips;
        i += 1;
    }
    Some(total)
}

proof fn lemma_total_grows(pairs: Seq<RefundPair>, n: int, m: int)
    requires
        0 <= n <= m,
    ensures
        refund_total(pairs, n) <= refund_total(pairs, m),
    decreases m - n,
{
    if n < m {
        lemma_total_grows(pairs, n, m - 1);
    }
}

/// Unwinds a game that will not be settled: every seat that is named gets
/// its chips back and is released, the game is finished without a winner,
/// and the table is left without game and with the seats that were not
/// named. The result lists what the ledger has to pay, pair by pair.
#[verifier::loop_isolation(false)]
pub fn handler(
    table: &mut PokerTable,
    game: &mut PokerGame,
    caller: Address,
    program_id: Address,
    pairs: &mut Vec<RefundPair>,
) -> (r: Result<Vec<Payout>, PokerError>)
    ensures
        match r {
            Ok(payouts) => outcome(*old(table), *old(game), caller, program_id, old(pairs)@) is Ok
                && payouts@ == refunds(old(pairs)@) && pairs_released(old(pairs)@, final(pairs)@)
                && *final(game) == game_after(*old(game)) && *final(table) == table_after(
                *old(table),
                old(pairs)@,
            ) && final(game).wf() && final(table).wf(),
            Err(e) => outcome(*old(table), *old(game), caller, program_id, old(pairs)@) == Err::<
                (),
                PokerError,
            >(e) && *final(game) == *old(game) && *final(table) == *old(table) && final(pairs)@
                == old(pairs)@,
        },
{
    broadcast use crate::ledger::group_vault;

    if !table.is_well_formed() || !game.is_well_formed() {
        return Err(PokerError::InconsistentState);
    }
    if !game.is_played_at(table) {
        return Err(PokerError::NoActiveGame);
    }
    match authorize(Operation::RefundAll, table, &caller, &caller) {
        Err(e) => {
            return Err(e);
        },
        Ok(()) => {},
    }
    if game.settled {
        return Err(PokerError::AlreadySettled);
    }
    if pairs.len() == 0 {
        return Err(PokerError::InvalidRefundAccounts);
    }
    match check_pairs(table, &program_id, pairs) {
        Err(e) => {
            return Err(e);
        },
        Ok(()) => {},
    }
    if !seats_are_distinct(pairs) {
        return Err(PokerError::InvalidRefundAccounts);
    }
    let total = match total_within(pairs, table.vault.balance()) {
        Some(t) => t,
        None => {
            return Err(PokerError::VaultOutOfRange);
        },
    };
    match table.vault.withdraw(total) {
        Err(e) => {
            return Err(e);
        },
        Ok(()) => {},
    }
    proof {
        lemma_refund_keeps_invariant(*old(table), *old(game), caller, program_id, old(pairs)@);
        lemma_pairs_accepted(*old(table), program_id, old(pairs)@, 0);
    }
    let mut payouts: Vec<Payout> = Vec::new();
    let mut seat_mask: u8 = table.seat_mask;
    let mut player_count: u8 = table.player_count;
    let mut i: usize = 0;
    while i < pairs.len()
        invariant
            i <= pairs@.len(),
            pairs@.len() == old(pairs)@.len(),
            payouts@.len() == i,
            seat_mask == released_mask(old(table).seat_mask, old(pairs)@, i as int),
            player_count == old(table).player_count - i,
            forall|j: int| 0 <= j < i ==> #[trigger] payouts@[j] == refunds(old(pairs)@)[j],
            forall|j: int|
                0 <= j < i ==> {
                    &&& (#[trigger] pairs@[j]).seat_address == old(pairs)@[j].seat_address
                    &&& pairs@[j].wallet == old(pairs)@[j].wallet
                    &&& is_released(old(pairs)@[j].seat, pairs@[j].seat)
                },
            forall|j: int| i <= j < pairs@.len() ==> #[trigger] pairs@[j] == old(pairs)@[j],
        decreases pairs@.len() - i,
    {
        let pair = pairs[i];
        payouts.push(Payout { to: pair.wallet, amount: pair.seat.chips });
        let released = PlayerSeat {
            game: Address::zero(),
            chips: 0,
            current_bet: 0,
            total_bet: 0,
            is_folded: false,
            is_all_in: false,
            has_acted: false,
            ..pair.seat
        };
        pairs[i] = RefundPair { seat: released, ..pair };
        seat_mask = clear_bit(seat_mask, pair.seat.seat_index);
        player_count = player_count - 1;
        i += 1;
    }
    table.player_count = player_count;
    table.seat_mask = seat_mask;
    table.current_game = None;
    game.stage = GameStage::Finished;
    game.pot = 0;
    game.winner_seat = None;
    assert(payouts@ =~= refunds(old(pairs)@));
    Ok(payouts)
}

} // verus!
