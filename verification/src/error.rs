//! The ways in which one invocation can fail.

use vstd::prelude::*;

verus! {

/// Outcome of an invocation that did not succeed. Every one is final: nothing
/// is retried, and no record has been changed when it is returned.
#[derive(Clone, Copy, Debug, PartialEq, Eq, Structural)]
pub enum Error {
    /// The record to be created is initialized already.
    AlreadyExists,
    /// A supplied address differs from the one derived from the logical inputs.
    InvalidDerivedAccount,
    /// A record that must be initialized is not.
    UninitializedState,
    /// The storage slot does not have the size of the record's layout.
    InvalidAccountData,
    /// The token account belongs to another mint than the one supplied.
    TokenMintMismatch,
    /// The mint's authority contradicts the chosen transfer path.
    WrongMintOwner,
    /// The custody token account is not owned by its own derived address.
    WrongTokenAccountOwner,
    /// The guardian set that signed is not the bridge's active one.
    OldGuardianSet,
    /// The new guardian set index is not the one after the active one.
    GuardianIndexNotIncreasing,
    /// The guardian set that signed has expired.
    GuardianSetExpired,
    /// The message is older than a superseded set's messages may be.
    VAAExpired,
    /// The signature primitive rejected the message.
    InvalidVAASignature,
    /// The message's payload is of no kind that can be applied here.
    InvalidVAAAction,
    /// The message was applied before.
    VAAClaimed,
    /// The seeds derive no valid address.
    InvalidProgramAddress,
    /// The input bytes decode to no instruction or message.
    ParseFailed,
    /// The storage slot holds no initialized token account.
    ExpectedAccount,
    /// The storage slot holds no initialized mint.
    ExpectedToken,
    /// The storage slot holds no initialized bridge record.
    ExpectedBridge,
    /// The storage slot holds no initialized guardian set.
    ExpectedGuardianSet,
    /// Fewer accounts were supplied than the instruction reads.
    NotEnoughAccountKeys,
    /// The configured token program is not the token ledger's.
    IncorrectProgramId,
    /// The clock, or a time computed from it, is outside what a record holds.
    TimeOutOfRange,
}

} // verus!
