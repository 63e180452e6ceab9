use crate::address::Address;
use crate::error::PokerError;
use crate::state::{GameMode, PokerTable};
use vstd::prelude::*;

verus! {

/// The operations of a table.
#[derive(Clone, Copy, Debug, PartialEq, Eq, Structural)]
pub enum Operation {
    CreateTable,
    JoinTable,
    LeaveTable,
    StartGame,
    ProcessCards,
    RevealHand,
    RevealShuffleSeed,
    RevealCardOffset,
    RevealCommunity,
    UpdateRound,
    AdvanceStage,
    SettleGame,
    RefundAll,
}

/// Who may call an operation.
#[derive(Clone, Copy, Debug, PartialEq, Eq, Structural)]
pub enum Role {
    /// Any caller.
    Anyone,
    /// The player who owns the seat that the operation is about.
    SeatOwner,
    /// The authority of the table: its operator in staged mode, its backend
    /// in delegated mode.
    Authority,
}

/// The policy: the role that each operation asks of its caller.
pub open spec fn required_role(op: Operation) -> Role {
    match op {
        Operation::CreateTable => Role::Anyone,
        Operation::JoinTable | Operation::LeaveTable => Role::SeatOwner,
        _ => Role::Authority,
    }
}

/// Whether a mode has the operation. A delegated table replays no betting
/// rounds and walks through no stages.
pub open spec fn available(op: Operation, mode: GameMode) -> bool {
    mode == GameMode::Staged || (op != Operation::UpdateRound && op != Operation::AdvanceStage)
}

/// The authority of a table in its mode.
pub open spec fn authority_of(table: PokerTable) -> Address {
    match table.mode {
        GameMode::Staged => table.admin,
        GameMode::Delegated => table.backend,
    }
}

/// The refusal that tells a caller that it is not the authority.
pub open spec fn not_authority(mode: GameMode) -> PokerError {
    match mode {
        GameMode::Staged => PokerError::NotAdmin,
        GameMode::Delegated => PokerError::NotBackend,
    }
}

/// The decision of the policy on one call: `owner` is the owner of the seat
/// that the call is about, and counts for the operations of a seat owner
/// alone.
pub open spec fn permitted(op: Operation, table: PokerTable, caller: Address, owner: Address)
    -> Result<(), PokerError> {
    if !available(op, table.mode) {
        Err(PokerError::WrongMode)
    } else {
        match required_role(op) {
            Role::Anyone => Ok(()),
            Role::SeatOwner => if caller == owner {
                Ok(())
            } else {
                Err(PokerError::PlayerNotAtTable)
            },
            Role::Authority => if caller == authority_of(table) {
                Ok(())
            } else {
                Err(not_authority(table.mode))
            },
        }
    }
}

/// The role that an operation asks of its caller.
pub fn role_for(op: Operation) -> (r: Role)
    ensures
        r == required_role(op),
{
    match op {
        Operation::CreateTable => Role::Anyone,
        Operation::JoinTable | Operation::LeaveTable => Role::SeatOwner,
        _ => Role::Authority,
    }
}

/// Decides whether `caller` may run `op` on `table`. Every operation asks
/// this before it changes anything.
pub fn authorize(op: Operation, table: &PokerTable, caller: &Address, owner: &Address) -> (r:
    Result<(), PokerError>)
    ensures
        r == permitted(op, *table, *caller, *owner),
{
    let staged = matches!(table.mode, GameMode::Staged);
    if !staged && matches!(op, Operation::UpdateRound | Operation::AdvanceStage) {
        return Err(PokerError::WrongMode);
    }
    match role_for(op) {
        Role::Anyone => Ok(()),
        Role::SeatOwner => {
            if *caller == *owner {
                Ok(())
            } else {
                Err(PokerError::PlayerNotAtTable)
            }
        },
        Role::Authority => {
            if staged {
                if *caller == table.admin {
                    Ok(())
                } else {
                    Err(PokerError::NotAdmin)
                }
            } else {
                if *caller == table.backend {
                    Ok(())
                } else {
                    Err(PokerError::NotBackend)
                }
            }
        },
    }
}

} // verus!
