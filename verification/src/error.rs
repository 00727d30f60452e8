//! The error taxonomy of the ledger engine.  Every validation failure aborts
//! the whole command with one of these values and leaves every record
//! untouched.

use vstd::prelude::*;

verus! {

/// Failure to recognise a command buffer.
#[derive(Clone, Copy, Debug, PartialEq, Eq, Structural)]
pub enum CommandError {
    /// The buffer is empty, carries an unknown tag, or its payload is shorter
    /// than the tag requires.
    InvalidCommand,
}

/// Domain failures of the state-transition rules.
#[derive(Clone, Copy, Debug, PartialEq, Eq, Structural)]
pub enum GameError {
    /// The pool record has already been initialized.
    AlreadyInitialize,
    /// A record that must be initialized is not.
    NotInitialize,
    /// A reward accrual would overflow the 64-bit balance.
    RewardAmountOverflow,
    /// The referrer handle presented does not match the stored referrer.
    InvalidUpline,
    /// The reward balance is zero, so there is nothing to claim.
    UnclaimableAmount,
    /// A participant tried to register with itself as referrer.
    SelfRecursiveUpline,
}

/// The full error taxonomy a command can fail with.  It covers the domain
/// failures of [`GameError`], the decoding failure of [`CommandError`] and
/// the structural checks on the record handles a caller presents.
#[derive(Clone, Copy, Debug, PartialEq, Eq, Structural)]
pub enum ProcessError {
    /// The command buffer was not recognised.
    InvalidCommand,
    /// Fewer record handles were presented than the command needs.
    MissingRecordHandle,
    /// A record handle that must be bound to this engine (or, for the custody
    /// account, to the custodian) carries another owner tag.
    WrongOwner,
    /// The handle claimed as signer carries no proof of authorization.
    MissingAuthorization,
    /// The signer is not entitled to this command: not the pool's
    /// administrator for a distribution, or not the record's owner for a
    /// claim.
    Unauthorized,
    /// The record has already been initialized.
    AlreadyInitialized,
    /// A record that must be initialized is not.
    NotInitialized,
    /// The referrer handle presented does not match the stored referrer.
    InvalidUpline,
    /// A participant tried to register with itself as referrer.
    SelfReferral,
    /// A reward accrual would overflow the 64-bit balance.
    RewardAmountOverflow,
    /// The reward balance is zero, so there is nothing to claim.
    UnclaimableAmount,
    /// A record buffer has the wrong size or a malformed field encoding.
    InvalidRecordData,
    /// No custody delegate could be derived for the engine's identity.
    DelegateUnavailable,
    /// The external custodian refused a requested transfer, so the command
    /// commits nothing.
    TransferFailed,
}

impl From<CommandError> for ProcessError {
    fn from(e: CommandError) -> (r: ProcessError) {
        match e {
            CommandError::InvalidCommand => ProcessError::InvalidCommand,
        }
    }
}

impl vstd::std_specs::convert::FromSpecImpl<CommandError> for ProcessError {
    open spec fn obeys_from_spec() -> bool {
        true
    }

    open spec fn from_spec(e: CommandError) -> ProcessError {
        ProcessError::InvalidCommand
    }
}

impl From<GameError> for ProcessError {
    fn from(e: GameError) -> (r: ProcessError) {
        match e {
            GameError::AlreadyInitialize => ProcessError::AlreadyInitialized,
            GameError::NotInitialize => ProcessError::NotInitialized,
            GameError::RewardAmountOverflow => ProcessError::RewardAmountOverflow,
            GameError::InvalidUpline => ProcessError::InvalidUpline,
            GameError::UnclaimableAmount => ProcessError::UnclaimableAmount,
            GameError::SelfRecursiveUpline => ProcessError::SelfReferral,
        }
    }
}

impl vstd::std_specs::convert::FromSpecImpl<GameError> for ProcessError {
    open spec fn obeys_from_spec() -> bool {
        true
    }

    open spec fn from_spec(e: GameError) -> ProcessError {
        match e {
            GameError::AlreadyInitialize => ProcessError::AlreadyInitialized,
            GameError::NotInitialize => ProcessError::NotInitialized,
            GameError::RewardAmountOverflow => ProcessError::RewardAmountOverflow,
            GameError::InvalidUpline => ProcessError::InvalidUpline,
            GameError::UnclaimableAmount => ProcessError::UnclaimableAmount,
            GameError::SelfRecursiveUpline => ProcessError::SelfReferral,
        }
    }
}

} // verus!
