use vstd::prelude::*;

verus! {

/// Why an operation was refused. Every refusal leaves all records as they
/// were.
#[derive(Clone, Copy, Debug, PartialEq, Eq, Structural)]
pub enum PokerError {
    /// A buy-in, or a table configuration, is outside the accepted range.
    InvalidBuyIn,
    /// Every seat of the table is taken.
    TableFull,
    /// Fewer than two players are seated.
    NotEnoughPlayers,
    /// The table already has an active game.
    GameInProgress,
    /// The table has no active game, or not the one named.
    NoActiveGame,
    /// The action is on another seat.
    NotYourTurn,
    /// A seat holds fewer chips than it has to pay.
    InsufficientChips,
    /// An amount of zero where a positive one is needed.
    InvalidBetAmount,
    /// The seat has folded.
    PlayerFolded,
    /// The seat has acted in this round already.
    PlayerAlreadyActed,
    /// The betting round is still open.
    BettingNotComplete,
    /// The game is not in a stage that admits the operation.
    InvalidGameStage,
    /// A seat does not belong to the table, the game or the player named.
    PlayerNotAtTable,
    /// The caller is not the table's operator.
    NotAdmin,
    /// The caller is not the table's backend.
    NotBackend,
    /// No cards were submitted.
    CardsNotSubmitted,
    /// Not all eight dealing batches have been applied.
    CardsNotProcessed,
    /// A wrong number of cards.
    InvalidCardCount,
    /// The seat is taken.
    SeatTaken,
    /// The player holds a seat already.
    PlayerAlreadySeated,
    /// A player tried to leave while a game is active.
    CannotLeaveDuringGame,
    /// The game has not finished.
    GameNotFinished,
    /// A check where a call or a fold is due.
    CannotCheck,
    /// A raise below the minimum.
    RaiseTooSmall,
    /// No winner has been named.
    WinnerNotDetermined,
    /// A seat index outside the game.
    InvalidSeatIndex,
    /// The blinds of this hand are posted already.
    BlindsAlreadyPosted,
    /// A batch index that is not the next one due, or not below eight.
    InvalidBatchIndex,
    /// The batch, or the whole deal, has been applied already.
    CardsAlreadyProcessed,
    /// The game has no viewer registered, or the viewer named is another.
    FrontendAccountNotSet,
    /// Fewer grant records than handles to reveal.
    MissingAllowanceAccounts,
    /// The seats offered for a refund are not the seats of the table.
    InvalidRefundAccounts,
    /// The game has been settled already.
    AlreadySettled,
    /// The pooled balance cannot pay, or cannot hold, the amount.
    VaultOutOfRange,
    /// A handle that refers to nothing.
    HandleNotInitialized,
    /// A record breaks its own invariant.
    InconsistentState,
    /// The operation does not exist in the table's operating mode.
    WrongMode,
}

/// The six classes into which refusals fall.
#[derive(Clone, Copy, Debug, PartialEq, Eq, Structural)]
pub enum ErrorKind {
    /// The caller is not the operator, backend or owner that is required.
    Authorization,
    /// Wrong stage, a game already active or absent, a batch already
    /// applied, a second settlement.
    State,
    /// The table is full, or a buy-in is outside the configured range.
    Capacity,
    /// Not enough chips or pooled balance; nothing to pay from.
    Ledger,
    /// A seat that does not match its game, a batch or seat index out of
    /// range, a broken record.
    Integrity,
    /// The confidential-compute service would refuse the request.
    ConfidentialOp,
}

impl PokerError {
    /// The class of each refusal.
    pub open spec fn kind_spec(self) -> ErrorKind {
        match self {
            PokerError::NotAdmin | PokerError::NotBackend | PokerError::FrontendAccountNotSet => {
                ErrorKind::Authorization
            },
            PokerError::InvalidBuyIn | PokerError::TableFull => ErrorKind::Capacity,
            PokerError::InsufficientChips
            | PokerError::InvalidBetAmount
            | PokerError::VaultOutOfRange => ErrorKind::Ledger,
            PokerError::PlayerNotAtTable
            | PokerError::InvalidCardCount
            | PokerError::InvalidSeatIndex
            | PokerError::InvalidBatchIndex
            | PokerError::MissingAllowanceAccounts
            | PokerError::InvalidRefundAccounts
            | PokerError::InconsistentState => ErrorKind::Integrity,
            PokerError::HandleNotInitialized => ErrorKind::ConfidentialOp,
            _ => ErrorKind::State,
        }
    }

    pub fn kind(&self) -> (k: ErrorKind)
        ensures
            k == self.kind_spec(),
    {
        match self {
            PokerError::NotAdmin | PokerError::NotBackend | PokerError::FrontendAccountNotSet => {
                ErrorKind::Authorization
            },
            PokerError::InvalidBuyIn | PokerError::TableFull => ErrorKind::Capacity,
            PokerError::InsufficientChips
            | PokerError::InvalidBetAmount
            | PokerError::VaultOutOfRange => ErrorKind::Ledger,
            PokerError::PlayerNotAtTable
            | PokerError::InvalidCardCount
            | PokerError::InvalidSeatIndex
            | PokerError::InvalidBatchIndex
            | PokerError::MissingAllowanceAccounts
            | PokerError::InvalidRefundAccounts
            | PokerError::InconsistentState => ErrorKind::Integrity,
            PokerError::HandleNotInitialized => ErrorKind::ConfidentialOp,
            _ => ErrorKind::State,
        }
    }
}

} // verus!
