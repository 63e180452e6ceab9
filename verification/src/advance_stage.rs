use crate::address::Address;
use crate::authority::{authorize, permitted, Operation};
use crate::error::PokerError;
use crate::ledger::Grant;
use crate::state::{GameStage, PokerGame, PokerTable};
use vstd::prelude::*;

verus! {

/// The seat at which the scan for the first seat to act begins: the one
/// after the dealer.
pub open spec fn scan_start(game: PokerGame) -> int {
    (game.dealer_position + 1) % (game.player_count as int)
}

/// The first seat that can act among those that the scan reaches from its
/// step `k` on. The scan begins at `scan_start` and goes round the table
/// once; where it finds no seat, the answer is the seat at which it began.
pub open spec fn first_active_from(game: PokerGame, k: int) -> int
    decreases game.player_count - k,
{
    let seat = (scan_start(game) + k) % (game.player_count as int);
    if k < 0 || k >= game.player_count {
        scan_start(game)
    } else if game.active(seat as u8) {
        seat
    } else {
        first_active_from(game, k + 1)
    }
}

/// The seat that acts first in a new betting round.
pub open spec fn first_to_act(game: PokerGame) -> int {
    first_active_from(game, 0)
}

/// The seat at which the scan stands at its step `k`.
pub open spec fn scanned(game: PokerGame, k: int) -> int {
    (scan_start(game) + k) % (game.player_count as int)
}

/// What the scan finds from its step `k` on is the first seat that can act
/// among those that it reaches: that seat can act and none reached before
/// it can. Where none of them can act, the scan gives the seat at which it
/// began.
pub proof fn lemma_first_active(game: PokerGame, k: int)
    requires
        game.player_count > 0,
        0 <= k <= game.player_count,
    ensures
        ({
            let found = first_active_from(game, k);
            ||| exists|j: int|
                k <= j < game.player_count && found == scanned(game, j) && game.active(
                    found as u8,
                ) && forall|i: int| k <= i < j ==> !game.active(#[trigger] scanned(game, i) as u8)
            ||| found == scan_start(game) && forall|i: int|
                k <= i < game.player_count ==> !game.active(#[trigger] scanned(game, i) as u8)
        }),
    decreases game.player_count - k,
{
    let found = first_active_from(game, k);
    if k < game.player_count {
        if game.active(scanned(game, k) as u8) {
            assert(found == scanned(game, k));
        } else {
            lemma_first_active(game, k + 1);
            let rest = first_active_from(game, k + 1);
            assert(found == rest);
            if exists|j: int|
                k + 1 <= j < game.player_count && rest == scanned(game, j) && game.active(
                    rest as u8,
                ) && forall|i: int|
                    k + 1 <= i < j ==> !game.active(#[trigger] scanned(game, i) as u8) {
                let j = choose|j: int|
                    k + 1 <= j < game.player_count && rest == scanned(game, j) && game.active(
                        rest as u8,
                    ) && forall|i: int|
                        k + 1 <= i < j ==> !game.active(#[trigger] scanned(game, i) as u8);
                assert(k <= j < game.player_count && found == scanned(game, j) && game.active(
                    found as u8,
                ) && forall|i: int| k <= i < j ==> !game.active(#[trigger] scanned(game, i) as u8));
            }
        }
    }
}

/// The stage that a game moves to: `Showdown` at once where a single player
/// remains, and else the stage that follows.
pub open spec fn target_stage(game: PokerGame) -> GameStage {
    if game.players_remaining == 1 {
        GameStage::Showdown
    } else {
        match game.stage.next_spec() {
            Some(s) => s,
            None => game.stage,
        }
    }
}

/// The grants that turn the community cards of a stage: one for each card
/// of `reveal_indices`, to the viewer that the game has registered.
pub open spec fn reveal_grants(game: PokerGame, stage: GameStage) -> Seq<Grant> {
    stage.reveal_indices().map_values(
        |i: u8| Grant { handle: game.community_cards[i as int], grantee: game.frontend_account },
    )
}

/// The grants of an advance: none by the shortcut, and else those that turn
/// the community cards of the stage that the game moves to.
pub open spec fn granted(game: PokerGame) -> Seq<Grant> {
    if game.players_remaining == 1 {
        Seq::<Grant>::empty()
    } else {
        reveal_grants(game, target_stage(game))
    }
}

/// The decision on a request to advance: the first check that fails names
/// the refusal. A game with a single player left asks for no viewer.
pub open spec fn outcome(
    table: PokerTable,
    game: PokerGame,
    caller: Address,
    frontend: Address,
    allowances: usize,
) -> Result<(), PokerError> {
    if !table.wf() || !game.wf() {
        Err(PokerError::InconsistentState)
    } else if !game.played_at(table) {
        Err(PokerError::NoActiveGame)
    } else if permitted(Operation::AdvanceStage, table, caller, caller) is Err {
        permitted(Operation::AdvanceStage, table, caller, caller)
    } else if !game.stage.is_active() {
        Err(PokerError::InvalidGameStage)
    } else if game.players_remaining == 1 {
        Ok(())
    } else if game.frontend_account.is_unset() || frontend != game.frontend_account {
        Err(PokerError::FrontendAccountNotSet)
    } else if allowances < target_stage(game).reveal_indices().len() {
        Err(PokerError::MissingAllowanceAccounts)
    } else {
        Ok(())
    }
}

/// Whether `post` is `pre` after it has advanced. By the shortcut only the
/// stage changes. Else the betting of the round is cleared, the cards of
/// the new stage are marked as revealed, and the action goes to the first
/// seat that can act.
pub open spec fn advanced(pre: PokerGame, post: PokerGame) -> bool {
    if pre.players_remaining == 1 {
        post == (PokerGame { stage: GameStage::Showdown, ..pre })
    } else {
        &&& post.round_bets@ == seq![0u64, 0u64, 0u64, 0u64, 0u64]
        &&& post == PokerGame {
            stage: target_stage(pre),
            community_revealed: pre.community_revealed | target_stage(pre).reveal_mask(),
            current_bet: 0,
            players_acted: 0,
            last_raiser: 0,
            last_raise_amount: 0,
            round_bets: post.round_bets,
            acted_mask: 0,
            action_on: first_to_act(pre) as u8,
            ..pre
        }
    }
}

/// A game that advances never comes back to `Waiting`; it arrives at
/// `Showdown` from `River`, or from any stage where a single player is
/// left; and without that shortcut it arrives at the stage that follows the
/// one it was in.
pub proof fn lemma_stage_order(pre: PokerGame, post: PokerGame)
    requires
        pre.stage.is_active(),
        advanced(pre, post),
    ensures
        post.stage != GameStage::Waiting,
        post.stage.ordinal_spec() >= pre.stage.ordinal_spec(),
        post.stage == GameStage::Showdown ==> pre.stage == GameStage::River
            || pre.players_remaining == 1,
        pre.players_remaining != 1 ==> pre.stage.next_spec() == Some(post.stage),
{
}

proof fn lemma_scan_step(start: int, k: int, n: int)
    requires
        0 < n,
        0 <= start < n,
        0 <= k < n,
    ensures
        start % n == start,
        ((start + k) % n + 1) % n == (start + k + 1) % n,
        (start + n) % n == start,
{
    vstd::arithmetic::div_mod::lemma_small_mod(start as nat, n as nat);
    vstd::arithmetic::div_mod::lemma_add_mod_noop(start + k, 1, n);
    vstd::arithmetic::div_mod::lemma_mod_twice(start + k, n);
    if n > 1 {
        vstd::arithmetic::div_mod::lemma_small_mod(1, n as nat);
    } else {
        assert(((start + k) % n + 1) % n == 0 && (start + k + 1) % n == 0);
    }
    vstd::arithmetic::div_mod::lemma_mod_add_multiples_vanish(start, n);
}

/// A request of the table's authority to advance the table's active game,
/// with the registered viewer and a grant record for each card to turn, is
/// accepted in the stages in which a hand is played and in no other: in
/// `Waiting` and in `Finished` it is refused with `InvalidGameStage`. A game
/// that has advanced is not in `Waiting`, and in no stage before the one it
/// was in.
pub proof fn lemma_advance_accepted(
    table: PokerTable,
    game: PokerGame,
    post: PokerGame,
    caller: Address,
    frontend: Address,
    allowances: usize,
)
    requires
        table.wf(),
        game.wf(),
        game.played_at(table),
        permitted(Operation::AdvanceStage, table, caller, caller) is Ok,
        game.players_remaining == 1 || (!game.frontend_account.is_unset() && frontend
            == game.frontend_account && allowances >= 3),
    ensures
        outcome(table, game, caller, frontend, allowances) is Ok <==> game.stage.is_active(),
        !game.stage.is_active() ==> outcome(table, game, caller, frontend, allowances) == Err::<
            (),
            PokerError,
        >(PokerError::InvalidGameStage),
        game.stage.is_active() && advanced(game, post) ==> post.stage != GameStage::Waiting
            && post.stage.ordinal_spec() >= game.stage.ordinal_spec() && post.wf(),
{
    if game.stage.is_active() && advanced(game, post) {
        lemma_stage_order(game, post);
    }
}

/// Finds the seat that acts first in a new betting round. A game without
/// seats has no such seat.
pub fn find_first_to_act(game: &PokerGame) -> (seat: u8)
    requires
        game.player_count > 0,
    ensures
        seat == first_to_act(*game),
        seat < game.player_count,
{
    let n = game.player_count;
    let start: u8 = ((game.dealer_position as u16 + 1) % (n as u16)) as u8;
    let mut pos: u8 = start;
    let mut checked: u8 = 0;
    proof {
        lemma_scan_step(start as int, 0, n as int);
    }
    while checked < n
        invariant
            n == game.player_count,
            0 < n,
            start == scan_start(*game),
            checked <= n,
            pos < n,
            pos == (start + checked) % (n as int),
            first_to_act(*game) == first_active_from(*game, checked as int),
        decreases n - checked,
    {
        proof {
            lemma_scan_step(start as int, checked as int, n as int);
        }
        if game.is_active(pos) {
            return pos;
        }
        pos = ((pos as u16 + 1) % (n as u16)) as u8;
        checked += 1;
    }
    pos
}

/// Moves the game to its next stage. The result lists the grants that the
/// caller has to request from the service for the community cards that the
/// new stage turns, in the order of the cards.
pub fn handler(
    table: &PokerTable,
    game: &mut PokerGame,
    caller: Address,
    frontend: Address,
    allowances: usize,
) -> (r: Result<Vec<Grant>, PokerError>)
    ensures
        match r {
            Ok(grants) => {
                &&& outcome(*table, *old(game), caller, frontend, allowances) is Ok
                &&& advanced(*old(game), *final(game))
                &&& final(game).wf()
                &&& grants@ == granted(*old(game))
            },
            Err(e) => outcome(*table, *old(game), caller, frontend, allowances) == Err::<
                (),
                PokerError,
            >(e) && *final(game) == *old(game),
        },
{
    if !table.is_well_formed() || !game.is_well_formed() {
        return Err(PokerError::InconsistentState);
    }
    if !game.is_played_at(table) {
        return Err(PokerError::NoActiveGame);
    }
    match authorize(Operation::AdvanceStage, table, &caller, &caller) {
        Err(e) => {
            return Err(e);
        },
        Ok(()) => {},
    }
    if !game.stage.is_playable() {
        return Err(PokerError::InvalidGameStage);
    }
    let mut grants: Vec<Grant> = Vec::new();
    if game.players_remaining == 1 {
        game.stage = GameStage::Showdown;
        return Ok(grants);
    }
    let next_stage = match game.stage.next() {
        Some(s) => s,
        None => {
            return Err(PokerError::InvalidGameStage);
        },
    };
    if game.frontend_account.is_zero() || frontend != game.frontend_account {
        return Err(PokerError::FrontendAccountNotSet);
    }
    let viewer = game.frontend_account;
    let first = find_first_to_act(game);
    match next_stage {
        GameStage::Flop => {
            if allowances < 3 {
                return Err(PokerError::MissingAllowanceAccounts);
            }
            grants.push(Grant { handle: game.community_cards[0], grantee: viewer });
            grants.push(Grant { handle: game.community_cards[1], grantee: viewer });
            grants.push(Grant { handle: game.community_cards[2], grantee: viewer });
            game.community_revealed = game.community_revealed | 0b0000_0111;
        },
        GameStage::Turn => {
            if allowances < 1 {
                return Err(PokerError::MissingAllowanceAccounts);
            }
            grants.push(Grant { handle: game.community_cards[3], grantee: viewer });
            game.community_revealed = game.community_revealed | 0b0000_1000;
        },
        GameStage::River => {
            if allowances < 1 {
                return Err(PokerError::MissingAllowanceAccounts);
            }
            grants.push(Grant { handle: game.community_cards[4], grantee: viewer });
            game.community_revealed = game.community_revealed | 0b0001_0000;
        },
        _ => {
            assert(game.community_revealed | 0 == game.community_revealed) by (bit_vector);
        },
    }
    assert(grants@ =~= reveal_grants(*old(game), next_stage));
    game.current_bet = 0;
    game.players_acted = 0;
    game.last_raiser = 0;
    game.last_raise_amount = 0;
    game.round_bets = [0, 0, 0, 0, 0];
    game.acted_mask = 0;
    game.action_on = first;
    game.stage = next_stage;
    assert(game.round_bets@ =~= seq![0u64, 0u64, 0u64, 0u64, 0u64]);
    Ok(grants)
}

} // verus!
