use vstd::prelude::*;

pub mod player_seat;
pub mod poker_game;
pub mod poker_table;

pub use player_seat::PlayerSeat;
pub use poker_game::PokerGame;
pub use poker_table::PokerTable;

verus! {

/// The phase of a hand. The stages follow one another in the order in which
/// they are listed.
#[derive(Clone, Copy, PartialEq, Eq, Debug, Structural)]
pub enum GameStage {
    /// Players are seated and the cards are being dealt.
    Waiting,
    /// Betting after the hole cards.
    PreFlop,
    /// Betting after three community cards.
    Flop,
    /// Betting after the fourth community card.
    Turn,
    /// Betting after the fifth community card.
    River,
    /// The winner is being determined.
    Showdown,
    /// The hand is over.
    Finished,
}

/// What a table in delegated mode shows of a stage: betting happens off the
/// table there, and every stage between the deal and the end is one.
#[derive(Clone, Copy, PartialEq, Eq, Debug, Structural)]
pub enum SimpleStage {
    Waiting,
    Playing,
    Finished,
}

/// How a table is run. The mode is chosen when the table is created and
/// never changes.
#[derive(Clone, Copy, PartialEq, Eq, Debug, Structural)]
pub enum GameMode {
    /// The table walks through all seven stages, replays each betting round
    /// from a summary, and pays the pot it has counted. The operator is the
    /// authority.
    Staged,
    /// The table deals the cards and then waits for the result: betting is
    /// run elsewhere, the stages between deal and end collapse into one, and
    /// a final pot is supplied at settlement. The backend is the authority.
    Delegated,
}

impl Default for GameStage {
    fn default() -> (s: GameStage)
        ensures
            s == GameStage::Waiting,
    {
        GameStage::Waiting
    }
}

impl GameStage {
    /// The position of a stage in the sequence, from 0 for `Waiting` to 6
    /// for `Finished`.
    pub open spec fn ordinal_spec(self) -> u8 {
        match self {
            GameStage::Waiting => 0,
            GameStage::PreFlop => 1,
            GameStage::Flop => 2,
            GameStage::Turn => 3,
            GameStage::River => 4,
            GameStage::Showdown => 5,
            GameStage::Finished => 6,
        }
    }

    /// The stage that follows, or none after `Finished`.
    pub open spec fn next_spec(self) -> Option<GameStage> {
        match self {
            GameStage::Waiting => Some(GameStage::PreFlop),
            GameStage::PreFlop => Some(GameStage::Flop),
            GameStage::Flop => Some(GameStage::Turn),
            GameStage::Turn => Some(GameStage::River),
            GameStage::River => Some(GameStage::Showdown),
            GameStage::Showdown => Some(GameStage::Finished),
            GameStage::Finished => None,
        }
    }

    /// The stages in which a hand is being played: all but the first and the
    /// last.
    pub open spec fn is_active(self) -> bool {
        self != GameStage::Waiting && self != GameStage::Finished
    }

    /// The number of community cards that are face up once the stage has
    /// begun.
    pub open spec fn community_cards_spec(self) -> u8 {
        match self {
            GameStage::Flop => 3,
            GameStage::Turn => 4,
            GameStage::River => 5,
            _ => 0,
        }
    }

    /// The community cards that are turned when the stage begins.
    pub open spec fn reveal_indices(self) -> Seq<u8> {
        match self {
            GameStage::Flop => seq![0u8, 1u8, 2u8],
            GameStage::Turn => seq![3u8],
            GameStage::River => seq![4u8],
            _ => Seq::<u8>::empty(),
        }
    }

    /// The bits of the cards of `reveal_indices`.
    pub open spec fn reveal_mask(self) -> u8 {
        match self {
            GameStage::Flop => 0b0000_0111,
            GameStage::Turn => 0b0000_1000,
            GameStage::River => 0b0001_0000,
            _ => 0,
        }
    }

    /// The stage as a delegated table shows it.
    pub open spec fn simple_spec(self) -> SimpleStage {
        match self {
            GameStage::Waiting => SimpleStage::Waiting,
            GameStage::Finished => SimpleStage::Finished,
            _ => SimpleStage::Playing,
        }
    }

    pub fn ordinal(&self) -> (n: u8)
        ensures
            n == self.ordinal_spec(),
            n <= 6,
    {
        match self {
            GameStage::Waiting => 0,
            GameStage::PreFlop => 1,
            GameStage::Flop => 2,
            GameStage::Turn => 3,
            GameStage::River => 4,
            GameStage::Showdown => 5,
            GameStage::Finished => 6,
        }
    }

    pub fn next(&self) -> (r: Option<GameStage>)
        ensures
            r == self.next_spec(),
            r is None <==> *self == GameStage::Finished,
            r matches Some(s) ==> s.ordinal_spec() == self.ordinal_spec() + 1,
    {
        match self {
            GameStage::Waiting => Some(GameStage::PreFlop),
            GameStage::PreFlop => Some(GameStage::Flop),
            GameStage::Flop => Some(GameStage::Turn),
            GameStage::Turn => Some(GameStage::River),
            GameStage::River => Some(GameStage::Showdown),
            GameStage::Showdown => Some(GameStage::Finished),
            GameStage::Finished => None,
        }
    }

    pub fn community_cards_to_reveal(&self) -> (n: u8)
        ensures
            n == self.community_cards_spec(),
    {
        match self {
            GameStage::Flop => 3,
            GameStage::Turn => 4,
            GameStage::River => 5,
            _ => 0,
        }
    }

    pub fn is_playable(&self) -> (r: bool)
        ensures
            r == self.is_active(),
    {
        match self {
            GameStage::Waiting | GameStage::Finished => false,
            _ => true,
        }
    }

    pub fn simple(&self) -> (s: SimpleStage)
        ensures
            s == self.simple_spec(),
    {
        match self {
            GameStage::Waiting => SimpleStage::Waiting,
            GameStage::Finished => SimpleStage::Finished,
            _ => SimpleStage::Playing,
        }
    }
}

/// The outcome of one betting round, as an aggregator outside the table
/// reports it. Bit `i` of a mask and entry `i` of `bets_by_player` speak of
/// seat `i`.
#[derive(Clone, Copy, PartialEq, Eq, Debug)]
pub struct RoundSummary {
    pub round_id: u8,
    pub bets_by_player: [u64; 5],
    pub folded_mask: u8,
    pub all_in_mask: u8,
    pub pot_delta: u64,
    pub current_bet: u64,
    pub last_raiser: u8,
    pub acted_mask: u8,
    pub action_on: u8,
}

} // verus!
