use crate::address::Address;
use crate::authority::{authorize, permitted, Operation};
use crate::error::PokerError;
use crate::handle::EncryptedHandle;
use crate::state::{GameStage, PokerGame, PokerTable};
use vstd::prelude::*;

verus! {

/// What batch 0 brings besides its two cards: the seed of the deal, the
/// handle under which the service knows the seed, and the handle of the
/// encrypted offset.
#[derive(Clone, Copy, Debug, PartialEq, Eq)]
pub struct Bootstrap {
    pub seed: u64,
    pub seed_handle: EncryptedHandle,
    pub offset: EncryptedHandle,
}

/// What the caller has to prepare for a batch.
#[derive(Clone, Copy, Debug, PartialEq, Eq)]
pub struct BatchPlan {
    /// The first card slot of the batch.
    pub first_slot: u8,
    /// The card slots of the batch: two, and one in the last batch.
    pub slot_count: u8,
    /// Whether the batch is the first and needs a `Bootstrap`.
    pub bootstrap_due: bool,
    /// The handle of the offset to add to each card, for every batch but the
    /// first, which brings its own.
    pub offset: EncryptedHandle,
}

/// The number of dealing batches.
pub const BATCH_COUNT: u8 = 8;

/// The offset that belongs to a seed, before encryption: the seed modulo 52.
pub open spec fn offset_value_spec(seed: u64) -> u128 {
    (seed % 52) as u128
}

/// The card slots of a batch, of which there are fifteen in all.
pub open spec fn slots_in_batch(batch_index: u8) -> u8 {
    if batch_index == 7 {
        1
    } else {
        2
    }
}

/// Where the card of a slot is kept. A hole card, in a slot below ten, goes
/// to the seat that the permutation assigns to the slot's pair; a community
/// card, in a slot from ten to fourteen, goes to its own position; any
/// other slot holds no card.
pub open spec fn place(
    cards: (Seq<EncryptedHandle>, Seq<EncryptedHandle>),
    perm: Seq<u8>,
    slot: int,
    card: EncryptedHandle,
) -> (Seq<EncryptedHandle>, Seq<EncryptedHandle>) {
    if 0 <= slot < 10 {
        (cards.0.update(perm[slot / 2] as int * 2 + slot % 2, card), cards.1)
    } else if 10 <= slot < 15 {
        (cards.0, cards.1.update(slot - 10, card))
    } else {
        cards
    }
}

/// The checks of a batch that do not look at what the batch brings: the
/// first that fails names the refusal. Batches are applied in the order of
/// their indices, each once.
pub open spec fn admitted(table: PokerTable, game: PokerGame, caller: Address, batch_index: u8)
    -> Result<(), PokerError> {
    if !table.wf() || !game.wf() {
        Err(PokerError::InconsistentState)
    } else if !game.played_at(table) {
        Err(PokerError::NoActiveGame)
    } else if permitted(Operation::ProcessCards, table, caller, caller) is Err {
        permitted(Operation::ProcessCards, table, caller, caller)
    } else if game.stage != GameStage::Waiting {
        Err(PokerError::InvalidGameStage)
    } else if batch_index >= BATCH_COUNT {
        Err(PokerError::InvalidBatchIndex)
    } else if batch_index < game.batches_done {
        Err(PokerError::CardsAlreadyProcessed)
    } else if batch_index > game.batches_done {
        Err(PokerError::InvalidBatchIndex)
    } else {
        Ok(())
    }
}

/// The decision on a batch: it is admitted, and it brings the bootstrap if
/// and only if it is the first.
pub open spec fn outcome(
    table: PokerTable,
    game: PokerGame,
    caller: Address,
    batch_index: u8,
    bootstrap: Option<Bootstrap>,
) -> Result<(), PokerError> {
    if admitted(table, game, caller, batch_index) is Err {
        admitted(table, game, caller, batch_index)
    } else if batch_index == 0 && bootstrap is None {
        Err(PokerError::CardsNotSubmitted)
    } else if batch_index != 0 && bootstrap is Some {
        Err(PokerError::InvalidBatchIndex)
    } else {
        Ok(())
    }
}

/// The permutation with which a batch routes its cards: the first batch
/// draws it from its seed, the others find it in the game.
pub open spec fn permutation_for(game: PokerGame, bootstrap: Option<Bootstrap>) -> Seq<u8> {
    match bootstrap {
        Some(b) => shuffle_spec(b.seed),
        None => game.shuffled_indices@,
    }
}

/// Whether `post` is `pre` after a batch has been applied.
pub open spec fn applied(
    pre: PokerGame,
    post: PokerGame,
    batch_index: u8,
    bootstrap: Option<Bootstrap>,
    card_0: EncryptedHandle,
    card_1: EncryptedHandle,
) -> bool {
    let perm = permutation_for(pre, bootstrap);
    let cards = place(
        place((pre.deal_cards@, pre.community_cards@), perm, 2 * batch_index, card_0),
        perm,
        2 * batch_index + 1,
        card_1,
    );
    &&& post.shuffled_indices@ == perm
    &&& post.deal_cards@ == cards.0
    &&& post.community_cards@ == cards.1
    &&& post == PokerGame {
        shuffle_seed: match bootstrap {
            Some(b) => b.seed,
            None => pre.shuffle_seed,
        },
        shuffle_random: match bootstrap {
            Some(b) => b.seed_handle,
            None => pre.shuffle_random,
        },
        card_offset: match bootstrap {
            Some(b) => b.offset,
            None => pre.card_offset,
        },
        shuffled_indices: post.shuffled_indices,
        deal_cards: post.deal_cards,
        community_cards: post.community_cards,
        batches_done: (batch_index + 1) as u8,
        cards_processed: batch_index == 7,
        stage: if batch_index == 7 {
            GameStage::PreFlop
        } else {
            GameStage::Waiting
        },
        ..pre
    }
}

/// Whether five seat indices are a permutation of 0 to 4: each is below
/// five and no two are equal.
pub open spec fn is_permutation(s: Seq<u8>) -> bool {
    &&& s.len() == 5
    &&& forall|i: int| 0 <= i < 5 ==> s[i] < 5
    &&& forall|i: int, j: int| 0 <= i < j < 5 ==> s[i] != s[j]
}

/// Byte `i` of a seed, counted from the lowest.
pub open spec fn seed_byte(seed: u64, i: u64) -> u8 {
    ((seed >> (8 * i) as u64) & 0xff) as u8
}

/// `s` with the entries at `i` and `j` exchanged.
pub open spec fn swapped(s: Seq<u8>, i: int, j: int) -> Seq<u8> {
    s.update(i, s[j]).update(j, s[i])
}

/// The shuffle from position `i` down: position `i` is exchanged with the
/// position that byte `i` of the seed picks among those up to `i`, then the
/// same is done from `i - 1`, and position 0 stays.
pub open spec fn shuffle_from(s: Seq<u8>, seed: u64, i: nat) -> Seq<u8>
    decreases i,
{
    if i == 0 {
        s
    } else {
        shuffle_from(
            swapped(s, i as int, (seed_byte(seed, i as u64) as int) % (i as int + 1)),
            seed,
            (i - 1) as nat,
        )
    }
}

/// The permutation that a seed gives: the seats 0 to 4 in order, shuffled
/// from position 4 down.
pub open spec fn shuffle_spec(seed: u64) -> Seq<u8> {
    shuffle_from(seq![0u8, 1u8, 2u8, 3u8, 4u8], seed, 4)
}

proof fn lemma_swap_permutation(s: Seq<u8>, i: int, j: int)
    requires
        is_permutation(s),
        0 <= i < 5,
        0 <= j < 5,
    ensures
        is_permutation(swapped(s, i, j)),
{
    let t = swapped(s, i, j);
    assert forall|a: int, b: int| 0 <= a < b < 5 implies t[a] != t[b] by {
        let pa = if a == i { j } else if a == j { i } else { a };
        let pb = if b == i { j } else if b == j { i } else { b };
        assert(t[a] == s[pa]);
        assert(t[b] == s[pb]);
        assert(pa != pb);
        if pa < pb {
            assert(s[pa] != s[pb]);
        } else {
            assert(s[pb] != s[pa]);
        }
    }
}

/// Whatever the seed, the shuffle gives a permutation of the seats 0 to 4.
pub proof fn lemma_shuffle_is_permutation(seed: u64)
    ensures
        is_permutation(shuffle_spec(seed)),
{
    let s4 = seq![0u8, 1u8, 2u8, 3u8, 4u8];
    let s3 = swapped(s4, 4, (seed_byte(seed, 4) as int) % 5);
    let s2 = swapped(s3, 3, (seed_byte(seed, 3) as int) % 4);
    let s1 = swapped(s2, 2, (seed_byte(seed, 2) as int) % 3);
    let s0 = swapped(s1, 1, (seed_byte(seed, 1) as int) % 2);
    lemma_swap_permutation(s4, 4, (seed_byte(seed, 4) as int) % 5);
    lemma_swap_permutation(s3, 3, (seed_byte(seed, 3) as int) % 4);
    lemma_swap_permutation(s2, 2, (seed_byte(seed, 2) as int) % 3);
    lemma_swap_permutation(s1, 1, (seed_byte(seed, 1) as int) % 2);
    reveal_with_fuel(shuffle_from, 5);
    assert(shuffle_spec(seed) == s0);
}

/// A batch leaves the game with a permutation of the seats 0 to 4: the
/// first batch with the one that its seed gives, every other batch with the
/// one that it found.
pub proof fn lemma_deal_keeps_permutation(
    pre: PokerGame,
    post: PokerGame,
    batch_index: u8,
    bootstrap: Option<Bootstrap>,
    card_0: EncryptedHandle,
    card_1: EncryptedHandle,
)
    requires
        is_permutation(pre.shuffled_indices@),
        applied(pre, post, batch_index, bootstrap, card_0, card_1),
    ensures
        is_permutation(post.shuffled_indices@),
        bootstrap matches Some(b) ==> post.shuffled_indices@ == shuffle_spec(b.seed),
        bootstrap is None ==> post.shuffled_indices@ == pre.shuffled_indices@,
{
    if let Some(b) = bootstrap {
        lemma_shuffle_is_permutation(b.seed);
    }
}

/// What one call of `handler` with `batch_index` does to a game, whatever
/// else the call names: it is refused and leaves the game as it was, or the
/// batch is the one that is due and is counted.
pub open spec fn batch_step(pre: PokerGame, batch_index: u8, post: PokerGame) -> bool {
    ||| post == pre
    ||| {
        &&& batch_index == pre.batches_done
        &&& batch_index < BATCH_COUNT
        &&& post.batches_done == batch_index + 1
        &&& post.cards_processed == (batch_index == 7)
    }
}

/// The batches that were applied in a run of calls, in the order of the
/// calls: `games` holds the game before the first call and after each, and
/// `batches` the index that each call named. A call has applied its batch
/// where it has changed the game.
pub open spec fn applied_batches(games: Seq<PokerGame>, batches: Seq<u8>) -> Seq<u8>
    decreases batches.len(),
{
    if batches.len() == 0 || games.len() != batches.len() + 1 {
        Seq::<u8>::empty()
    } else {
        let earlier = applied_batches(games.drop_last(), batches.drop_last());
        if games[games.len() - 1] != games[games.len() - 2] {
            earlier.push(batches.last())
        } else {
            earlier
        }
    }
}

/// The batch indices from 0 up to `n`, in order.
pub open spec fn first_batches(n: nat) -> Seq<u8> {
    Seq::new(n, |i: int| i as u8)
}

/// In every run of calls on a game that starts with no batch applied, the
/// batches that are applied are 0, 1, 2 and so on, in this order and each
/// once, as far as the game has counted; and the cards are processed if and
/// only if these are the batches 0 to 7.
pub proof fn lemma_batches_in_order(games: Seq<PokerGame>, batches: Seq<u8>)
    requires
        games.len() == batches.len() + 1,
        games[0].batches_done == 0,
        !games[0].cards_processed,
        forall|i: int|
            0 <= i < batches.len() ==> batch_step(#[trigger] games[i], batches[i], games[i + 1]),
    ensures
        games.last().batches_done <= BATCH_COUNT,
        applied_batches(games, batches) == first_batches(games.last().batches_done as nat),
        games.last().cards_processed <==> applied_batches(games, batches) == first_batches(8),
    decreases batches.len(),
{
    if batches.len() == 0 {
        assert(applied_batches(games, batches) =~= first_batches(0));
        assert(first_batches(8).len() == 8);
    } else {
        let n = batches.len() as int;
        let before = games.drop_last();
        assert forall|i: int| 0 <= i < n - 1 implies batch_step(
            #[trigger] before[i],
            batches.drop_last()[i],
            before[i + 1],
        ) by {
            assert(batch_step(games[i], batches[i], games[i + 1]));
        }
        lemma_batches_in_order(before, batches.drop_last());
        assert(before.last() == games[n - 1]);
        assert(batch_step(games[n - 1], batches[n - 1], games[n]));
        let earlier = applied_batches(before, batches.drop_last());
        let done = games[n - 1].batches_done;
        if games[n] != games[n - 1] {
            assert(earlier.push(batches.last()) =~= first_batches((done + 1) as nat));
        }
        let last_done = games.last().batches_done;
        assert(first_batches(last_done as nat).len() == last_done);
        assert(first_batches(8).len() == 8);
    }
}

/// Draws the permutation of a deal from its seed by a Fisher-Yates shuffle:
/// bytes 4, 3, 2 and 1 of the seed decide the four exchanges.
pub fn do_simple_shuffle(seed: u64) -> (indices: [u8; 5])
    ensures
        indices@ == shuffle_spec(seed),
        is_permutation(indices@),
{
    let mut indices: [u8; 5] = [0, 1, 2, 3, 4];
    assert(indices@ =~= seq![0u8, 1u8, 2u8, 3u8, 4u8]);
    let mut i: usize = 4;
    while i >= 1
        invariant
            i <= 4,
            is_permutation(indices@),
            shuffle_from(indices@, seed, i as nat) == shuffle_spec(seed),
        decreases i,
    {
        let byte: u8 = ((seed >> (8 * (i as u64))) & 0xff) as u8;
        let j: usize = (byte as usize) % (i + 1);
        proof {
            lemma_swap_permutation(indices@, i as int, j as int);
        }
        let ghost before = indices@;
        let held = indices[i];
        indices[i] = indices[j];
        indices[j] = held;
        assert(indices@ =~= swapped(before, i as int, j as int));
        i -= 1;
    }
    indices
}

/// The offset of a seed, which the caller has the service encrypt.
pub fn offset_value(seed: u64) -> (v: u128)
    ensures
        v == offset_value_spec(seed),
        v < 52,
{
    (seed % 52) as u128
}

/// Tells the caller what to prepare for a batch, or why the batch cannot be
/// applied now. Nothing changes.
pub fn plan(table: &PokerTable, game: &PokerGame, caller: Address, batch_index: u8) -> (r: Result<
    BatchPlan,
    PokerError,
>)
    ensures
        match r {
            Ok(p) => admitted(*table, *game, caller, batch_index) is Ok && p == (BatchPlan {
                first_slot: (2 * batch_index) as u8,
                slot_count: slots_in_batch(batch_index),
                bootstrap_due: batch_index == 0,
                offset: game.card_offset,
            }),
            Err(e) => admitted(*table, *game, caller, batch_index) == Err::<(), PokerError>(e),
        },
{
    match check(table, game, caller, batch_index) {
        Err(e) => Err(e),
        Ok(()) => Ok(
            BatchPlan {
                first_slot: 2 * batch_index,
                slot_count: if batch_index == 7 {
                    1
                } else {
                    2
                },
                bootstrap_due: batch_index == 0,
                offset: game.card_offset,
            },
        ),
    }
}

fn check(table: &PokerTable, game: &PokerGame, caller: Address, batch_index: u8) -> (r: Result<
    (),
    PokerError,
>)
    ensures
        r == admitted(*table, *game, caller, batch_index),
{
    if !table.is_well_formed() || !game.is_well_formed() {
        return Err(PokerError::InconsistentState);
    }
    if !game.is_played_at(table) {
        return Err(PokerError::NoActiveGame);
    }
    match authorize(Operation::ProcessCards, table, &caller, &caller) {
        Err(e) => {
            return Err(e);
        },
        Ok(()) => {},
    }
    if !matches!(game.stage, GameStage::Waiting) {
        return Err(PokerError::InvalidGameStage);
    }
    if batch_index >= BATCH_COUNT {
        return Err(PokerError::InvalidBatchIndex);
    }
    if batch_index < game.batches_done {
        return Err(PokerError::CardsAlreadyProcessed);
    }
    if batch_index > game.batches_done {
        return Err(PokerError::InvalidBatchIndex);
    }
    Ok(())
}

/// Keeps the card of one slot where `place` says.
fn store(game: &mut PokerGame, slot: usize, card: EncryptedHandle)
    requires
        is_permutation(old(game).shuffled_indices@),
    ensures
        (final(game).deal_cards@, final(game).community_cards@) == place(
            (old(game).deal_cards@, old(game).community_cards@),
            old(game).shuffled_indices@,
            slot as int,
            card,
        ),
        *final(game) == (PokerGame {
            deal_cards: final(game).deal_cards,
            community_cards: final(game).community_cards,
            ..*old(game)
        }),
{
    if slot < 10 {
        let seat = game.shuffled_indices[slot / 2] as usize;
        game.deal_cards[seat * 2 + slot % 2] = card;
    } else if slot < 15 {
        game.community_cards[slot - 10] = card;
    }
}

/// Applies one dealing batch: two card slots, and in the last batch one.
/// `card_0` and `card_1` are the handles of the batch's cards after the
/// service has added the offset to them; the last batch ignores `card_1`.
///
/// The first batch fixes the seed, the offset handle and the permutation of
/// the deal. The last batch marks the cards as processed and moves the game
/// from `Waiting` to `PreFlop`.
pub fn handler(
    table: &PokerTable,
    game: &mut PokerGame,
    caller: Address,
    batch_index: u8,
    bootstrap: Option<Bootstrap>,
    card_0: EncryptedHandle,
    card_1: EncryptedHandle,
) -> (r: Result<(), PokerError>)
    ensures
        r == outcome(*table, *old(game), caller, batch_index, bootstrap),
        r is Ok ==> applied(*old(game), *final(game), batch_index, bootstrap, card_0, card_1)
            && final(game).wf(),
        r is Err ==> *final(game) == *old(game),
        batch_step(*old(game), batch_index, *final(game)),
{
    match check(table, game, caller, batch_index) {
        Err(e) => {
            return Err(e);
        },
        Ok(()) => {},
    }
    match bootstrap {
        Some(b) => {
            if batch_index != 0 {
                return Err(PokerError::InvalidBatchIndex);
            }
            game.shuffle_seed = b.seed;
            game.shuffle_random = b.seed_handle;
            game.card_offset = b.offset;
            game.shuffled_indices = do_simple_shuffle(b.seed);
        },
        None => {
            if batch_index == 0 {
                return Err(PokerError::CardsNotSubmitted);
            }
        },
    }
    let base: usize = (batch_index as usize) * 2;
    store(game, base, card_0);
    store(game, base + 1, card_1);
    game.batches_done = batch_index + 1;
    if batch_index == 7 {
        game.cards_processed = true;
        game.stage = GameStage::PreFlop;
    }
    Ok(())
}

} // verus!
