use crate::address::Address;
use crate::bits::{bit, bit_is_set};
use crate::constants::{MAX_PLAYERS, MIN_PLAYERS};
use crate::handle::EncryptedHandle;
use crate::process_cards::{do_simple_shuffle, is_permutation, shuffle_spec};
use crate::state::{GameMode, GameStage, PokerTable};
use vstd::prelude::*;

verus! {

/// The state of one hand, from its start to its settlement.
#[derive(Clone, Copy, Debug, PartialEq, Eq)]
pub struct PokerGame {
    /// Where the ledger keeps this record.
    pub key: Address,
    /// The table that the game is played at.
    pub table: Address,
    pub game_id: u64,
    /// The mode of the table, fixed when the game starts.
    pub mode: GameMode,
    pub stage: GameStage,
    /// The betting round that the last summary was for.
    pub round_id: u8,
    pub pot: u64,
    /// The highest bet of the current betting round.
    pub current_bet: u64,
    pub dealer_position: u8,
    /// The seat whose turn it is.
    pub action_on: u8,
    /// Seats that have not folded.
    pub players_remaining: u8,
    /// Seats that have acted in the current round.
    pub players_acted: u8,
    /// Seats in the game: as many as were taken at the table when the game
    /// started.
    pub player_count: u8,
    /// Bit `i` is set where seat `i` has folded.
    pub folded_mask: u8,
    /// Bit `i` is set where seat `i` is all-in.
    pub all_in_mask: u8,
    /// Bit `i` is set where seat `i` has posted a blind.
    pub blinds_posted: u8,
    pub last_raiser: u8,
    pub last_raise_amount: u64,
    /// The bet of each seat in the current round.
    pub round_bets: [u64; 5],
    /// Bit `i` is set where seat `i` has acted in the current round.
    pub acted_mask: u8,
    /// The handle under which the service knows the seed of the deal.
    pub shuffle_random: EncryptedHandle,
    /// The seed from which the permutation was drawn.
    pub shuffle_seed: u64,
    /// The handle of the offset that is added to every card.
    pub card_offset: EncryptedHandle,
    /// The permutation of the deal: entry `p` is the seat that pair `p` of
    /// the dealt cards goes to.
    pub shuffled_indices: [u8; 5],
    /// The hole cards, two for each seat.
    pub deal_cards: [EncryptedHandle; 10],
    pub community_cards: [EncryptedHandle; 5],
    /// Dealing batches applied so far: the index of the batch that is due.
    pub batches_done: u8,
    /// Whether all eight batches are applied.
    pub cards_processed: bool,
    /// The identity off the table that may be granted the community cards.
    pub frontend_account: Address,
    /// Bit `i` is set where community card `i` has been revealed.
    pub community_revealed: u8,
    /// The seat that was paid, once the game is settled.
    pub winner_seat: Option<u8>,
    /// Whether the pot has been paid. Set once and never cleared.
    pub settled: bool,
}

impl PokerGame {
    /// The invariant of a game record.
    pub open spec fn wf(&self) -> bool {
        &&& MIN_PLAYERS <= self.player_count <= MAX_PLAYERS
        &&& self.dealer_position < self.player_count
        &&& is_permutation(self.shuffled_indices@)
        &&& self.batches_done <= 8
        &&& self.cards_processed == (self.batches_done == 8)
        &&& (self.batches_done >= 1 ==> self.shuffled_indices@ == shuffle_spec(self.shuffle_seed))
        &&& (self.stage == GameStage::Waiting ==> !self.cards_processed)
        &&& (self.stage.is_active() ==> self.cards_processed)
        &&& (self.winner_seat is Some <==> self.settled)
        &&& (self.settled ==> self.stage == GameStage::Finished)
        &&& (self.winner_seat matches Some(w) ==> w < MAX_PLAYERS)
        &&& (self.mode == GameMode::Delegated ==> self.stage == GameStage::Waiting || self.stage
            == GameStage::PreFlop || self.stage == GameStage::Finished)
    }

    /// Tests the invariant.
    pub fn is_well_formed(&self) -> (r: bool)
        ensures
            r == self.wf(),
    {
        if !(MIN_PLAYERS <= self.player_count && self.player_count <= MAX_PLAYERS
            && self.dealer_position < self.player_count) {
            return false;
        }
        if !permutation_holds(&self.shuffled_indices) {
            return false;
        }
        if self.batches_done > 8 || self.cards_processed != (self.batches_done == 8) {
            return false;
        }
        if self.batches_done >= 1 {
            let expected = do_simple_shuffle(self.shuffle_seed);
            let mut i: usize = 0;
            while i < 5
                invariant
                    i <= 5,
                    self.batches_done >= 1,
                    expected@ == shuffle_spec(self.shuffle_seed),
                    forall|j: int| 0 <= j < i ==> self.shuffled_indices[j] == expected[j],
                decreases 5 - i,
            {
                if self.shuffled_indices[i] != expected[i] {
                    assert(self.shuffled_indices@[i as int] != expected@[i as int]);
                    return false;
                }
                i += 1;
            }
            assert(self.shuffled_indices@ =~= expected@);
        }
        let active = self.stage.is_playable();
        if matches!(self.stage, GameStage::Waiting) && self.cards_processed {
            return false;
        }
        if active && !self.cards_processed {
            return false;
        }
        match self.winner_seat {
            Some(w) => {
                if !self.settled || w >= MAX_PLAYERS {
                    return false;
                }
            },
            None => {
                if self.settled {
                    return false;
                }
            },
        }
        if self.settled && !matches!(self.stage, GameStage::Finished) {
            return false;
        }
        match self.mode {
            GameMode::Delegated => matches!(
                self.stage,
                GameStage::Waiting | GameStage::PreFlop | GameStage::Finished
            ),
            GameMode::Staged => true,
        }
    }

    /// Whether the game is or was a game of `table`: it names the table and
    /// has its mode.
    pub open spec fn belongs_to(&self, table: PokerTable) -> bool {
        self.table == table.key && self.mode == table.mode
    }

    /// Whether the game is the active game of `table`: it is a game of the
    /// table, and the table names it.
    pub open spec fn played_at(&self, table: PokerTable) -> bool {
        self.belongs_to(table) && table.plays(self.key)
    }

    pub fn is_game_of(&self, table: &PokerTable) -> (r: bool)
        ensures
            r == self.belongs_to(*table),
    {
        self.table == table.key && self.mode == table.mode
    }

    pub fn is_played_at(&self, table: &PokerTable) -> (r: bool)
        ensures
            r == self.played_at(*table),
    {
        self.is_game_of(table) && table.is_playing(&self.key)
    }

    /// Whether the seat has folded.
    pub open spec fn folded(&self, seat: u8) -> bool {
        bit(self.folded_mask, seat)
    }

    /// Whether the seat is all-in.
    pub open spec fn all_in(&self, seat: u8) -> bool {
        bit(self.all_in_mask, seat)
    }

    /// Whether the seat can still act: it has neither folded nor gone all-in.
    pub open spec fn active(&self, seat: u8) -> bool {
        !self.folded(seat) && !self.all_in(seat)
    }

    /// The number of seats below `n` that can still act.
    pub open spec fn active_below(&self, n: nat) -> nat
        decreases n,
    {
        if n == 0 {
            0
        } else {
            self.active_below((n - 1) as nat) + if self.active((n - 1) as u8) {
                1nat
            } else {
                0nat
            }
        }
    }

    /// The pair of dealt cards that goes to `seat`: the first position of the
    /// permutation that holds the seat.
    pub open spec fn pair_of(&self, seat: u8) -> Option<int> {
        first_position(self.shuffled_indices@, seat, 0)
    }

    /// The two hole cards that the seat may see.
    pub open spec fn hole_cards(&self, seat: u8) -> Option<(EncryptedHandle, EncryptedHandle)> {
        if seat >= 5 {
            None
        } else {
            match self.pair_of(seat) {
                Some(p) => Some((self.deal_cards[2 * p], self.deal_cards[2 * p + 1])),
                None => None,
            }
        }
    }

    pub fn is_folded(&self, seat: u8) -> (r: bool)
        ensures
            r == self.folded(seat),
    {
        bit_is_set(self.folded_mask, seat)
    }

    pub fn is_all_in(&self, seat: u8) -> (r: bool)
        ensures
            r == self.all_in(seat),
    {
        bit_is_set(self.all_in_mask, seat)
    }

    pub fn is_active(&self, seat: u8) -> (r: bool)
        ensures
            r == self.active(seat),
    {
        !self.is_folded(seat) && !self.is_all_in(seat)
    }

    /// Counts the seats of the game that can still act.
    pub fn active_player_count(&self) -> (n: u8)
        ensures
            n == self.active_below(self.player_count as nat),
            n <= self.player_count,
    {
        let mut count: u8 = 0;
        let mut i: u8 = 0;
        while i < self.player_count
            invariant
                i <= self.player_count,
                count <= i,
                count == self.active_below(i as nat),
            decreases self.player_count - i,
        {
            if self.is_active(i) {
                count += 1;
            }
            i += 1;
        }
        count
    }

    /// Finds the pair of dealt cards that goes to `seat`.
    pub fn pair_index(&self, seat: u8) -> (r: Option<usize>)
        ensures
            match r {
                Some(p) => p < 5 && self.pair_of(seat) == Some(p as int),
                None => self.pair_of(seat) is None,
            },
    {
        let mut pos: usize = 0;
        while pos < 5
            invariant
                pos <= 5,
                self.pair_of(seat) == first_position(self.shuffled_indices@, seat, pos as int),
            decreases 5 - pos,
        {
            if self.shuffled_indices[pos] == seat {
                return Some(pos);
            }
            pos += 1;
        }
        None
    }

    /// The hole cards of a seat, found through the permutation of the deal.
    pub fn get_player_hole_cards(&self, player_idx: u8) -> (r: Option<
        (EncryptedHandle, EncryptedHandle),
    >)
        ensures
            r == self.hole_cards(player_idx),
    {
        if player_idx >= 5 {
            return None;
        }
        match self.pair_index(player_idx) {
            Some(pos) => Some((self.deal_cards[pos * 2], self.deal_cards[pos * 2 + 1])),
            None => None,
        }
    }
}

/// The first position at or after `from` at which `perm` holds `seat`.
pub open spec fn first_position(perm: Seq<u8>, seat: u8, from: int) -> Option<int>
    decreases perm.len() - from,
{
    if from < 0 || from >= perm.len() {
        None
    } else if perm[from] == seat {
        Some(from)
    } else {
        first_position(perm, seat, from + 1)
    }
}

/// In a permutation every seat below five has a pair, and the pair is the
/// only position that holds the seat.
pub proof fn lemma_pair_exists(perm: Seq<u8>, seat: u8)
    requires
        is_permutation(perm),
        seat < 5,
    ensures
        first_position(perm, seat, 0) matches Some(p) && 0 <= p < 5 && perm[p] == seat && forall|
            q: int,
        |
            0 <= q < 5 && perm[q] == seat ==> q == p,
{
    reveal_with_fuel(first_position, 6);
    // Five distinct values below five: one of them is the seat.
    if perm[0] != seat && perm[1] != seat && perm[2] != seat && perm[3] != seat && perm[4]
        != seat {
        assert(perm[0] != perm[1] && perm[0] != perm[2] && perm[0] != perm[3] && perm[0]
            != perm[4] && perm[1] != perm[2] && perm[1] != perm[3] && perm[1] != perm[4]
            && perm[2] != perm[3] && perm[2] != perm[4] && perm[3] != perm[4]);
        assert(false);
    }
}

/// In a permutation two seats have two pairs: no card of the deal goes to
/// two seats.
pub proof fn lemma_pairs_differ(perm: Seq<u8>, seat: u8, other: u8)
    requires
        is_permutation(perm),
        seat < 5,
        other < 5,
        seat != other,
    ensures
        first_position(perm, seat, 0) != first_position(perm, other, 0),
{
    lemma_pair_exists(perm, seat);
    lemma_pair_exists(perm, other);
}

/// Tests whether five seat indices are a permutation of 0 to 4.
pub fn permutation_holds(indices: &[u8; 5]) -> (r: bool)
    ensures
        r == is_permutation(indices@),
{
    let mut seen: [bool; 5] = [false, false, false, false, false];
    let mut i: usize = 0;
    while i < 5
        invariant
            i <= 5,
            forall|j: int| 0 <= j < i ==> indices[j] < 5,
            forall|j: int, k: int| 0 <= j < k < i ==> indices[j] != indices[k],
            forall|v: int| 0 <= v < 5 ==> (seen[v] <==> exists|j: int| 0 <= j < i && indices[j] == v),
        decreases 5 - i,
    {
        let v = indices[i];
        if v >= 5 {
            return false;
        }
        if seen[v as usize] {
            let ghost j = choose|j: int| 0 <= j < i && indices[j] == v;
            assert(indices@[j] == indices@[i as int]);
            return false;
        }
        seen[v as usize] = true;
        i += 1;
    }
    true
}

} // verus!
