//! The command wire format: one tag byte followed by the tag's payload.
//!
//! Tag 0 initializes the pool, tag 1 registers a participant, tag 2 carries
//! a little-endian 64-bit reward amount to distribute, and tag 3 claims the
//! caller's balance.  Any other tag, and any payload shorter than its tag
//! requires, is refused.  Bytes after the required payload are ignored.

use vstd::prelude::*;
use vstd::bytes::{spec_u64_from_le_bytes, spec_u64_to_le_bytes};
use vstd::bytes::{lemma_auto_spec_u64_to_from_le_bytes, u64_from_le_bytes, u64_to_le_bytes};
use vstd::slice::{slice_index_get, slice_subrange};

use crate::error::CommandError;
use crate::identity::{Identity, IDENTITY_LEN};

verus! {

/// A decoded command.
#[derive(Clone, Copy, Debug, PartialEq, Eq, Structural)]
pub enum Command {
    /// Initialize the pool record and take custody of the funding account.
    Init,
    /// Register the caller as a participant, optionally under a referrer.
    Register,
    /// Credit a reward to a participant, split with their referrer.
    AddReward {
        /// The amount to distribute.
        reward_amount: u64,
    },
    /// Withdraw the caller's accumulated reward balance.
    Claim,
}

/// The canonical bytes a command encodes to.
pub open spec fn command_bytes(c: Command) -> Seq<u8> {
    match c {
        Command::Init => seq![0u8],
        Command::Register => seq![1u8],
        Command::AddReward { reward_amount } => seq![2u8] + spec_u64_to_le_bytes(reward_amount),
        Command::Claim => seq![3u8],
    }
}

/// The decoding of a command buffer: `None` when the buffer is empty, its
/// tag is unknown, or its payload is shorter than the tag requires.
pub open spec fn command_dec(s: Seq<u8>) -> Option<Command> {
    if s.len() == 0 {
        None
    } else if s[0] == 0u8 {
        Some(Command::Init)
    } else if s[0] == 1u8 {
        Some(Command::Register)
    } else if s[0] == 2u8 {
        if s.len() >= 9 {
            Some(Command::AddReward { reward_amount: spec_u64_from_le_bytes(s.subrange(1, 9)) })
    } else {
            None
        }
    } else if s[0] == 3u8 {
        Some(Command::Claim)
    } else {
        None
    }
}

/// The decoding of an optional leading identity: one presence byte, then 32
/// identity bytes when present, and the rest of the buffer.  `None` when the
/// buffer is empty, the presence byte is malformed, or the identity bytes
/// are missing.
pub open spec fn pubkey_option_dec(s: Seq<u8>) -> Option<(Option<Seq<u8>>, Seq<u8>)> {
    if s.len() == 0 {
        None
    } else if s[0] == 0u8 {
        Some((None, s.subrange(1, s.len() as int)))
    } else if s[0] == 1u8 && s.len() >= 33 {
        Some((Some(s.subrange(1, 33)), s.subrange(33, s.len() as int)))
    } else {
        None
    }
}

impl Command {
    /// Encodes the command to its canonical wire bytes.
    pub fn pack(&self) -> (r: Vec<u8>)
        ensures
            r@ == command_bytes(*self),
    {
        proof {
            lemma_auto_spec_u64_to_from_le_bytes();
        }
        let mut out: Vec<u8> = Vec::new();
        match self {
            Command::Init => {
                out.push(0u8);
            },
            Command::Register => {
                out.push(1u8);
            },
            Command::AddReward { reward_amount } => {
                out.push(2u8);
                let mut amount = u64_to_le_bytes(*reward_amount);
                out.append(&mut amount);
            },
            Command::Claim => {
                out.push(3u8);
            },
        }
        proof {
            assert(out@ =~= command_bytes(*self));
        }
        out
    }

    /// Decodes a command buffer.
    pub fn unpack(input: &[u8]) -> (r: Result<Command, CommandError>)
        ensures
            match r {
                Ok(c) => command_dec(input@) == Some(c),
                Err(e) => command_dec(input@) is None && e == CommandError::InvalidCommand,
            },
    {
        if input.len() == 0 {
            return Err(CommandError::InvalidCommand);
        }
        let tag = *slice_index_get(input, 0);
        if tag == 0 {
            Ok(Command::Init)
        } else if tag == 1 {
            Ok(Command::Register)
        } else if tag == 2 {
            if input.len() < 9 {
                return Err(CommandError::InvalidCommand);
            }
            let reward_amount = u64_from_le_bytes(slice_subrange(input, 1, 9));
            Ok(Command::AddReward { reward_amount })
        } else if tag == 3 {
            Ok(Command::Claim)
        } else {
            Err(CommandError::InvalidCommand)
        }
    }

    /// Splits an optional leading identity off a payload: one presence byte,
    /// then the 32 identity bytes when present, returned beside the rest of
    /// the buffer.
    pub fn unpack_pubkey_option<'a>(input: &'a [u8]) -> (r: Result<
        (Option<Identity>, &'a [u8]),
        CommandError,
    >)
        ensures
            match r {
                Ok((id, rest)) => {
                    &&& pubkey_option_dec(input@) is Some
                    &&& match id {
                        Some(id) => pubkey_option_dec(input@)->Some_0.0 == Some(id@),
                        None => pubkey_option_dec(input@)->Some_0.0 is None,
                    }
                    &&& rest@ == pubkey_option_dec(input@)->Some_0.1
                },
                Err(e) => pubkey_option_dec(input@) is None && e == CommandError::InvalidCommand,
            },
    {
        if input.len() == 0 {
            return Err(CommandError::InvalidCommand);
        }
        let tag = *slice_index_get(input, 0);
        let n: usize = input.len();
        if tag == 0 {
            Ok((None, slice_subrange(input, 1, n)))
        } else if tag == 1 && n >= 33 {
            let part = slice_subrange(input, 1, 1 + IDENTITY_LEN);
            let v = vstd::slice::slice_to_vec(part);
            match Identity::new(v) {
                Some(id) => Ok((Some(id), slice_subrange(input, 33, n))),
                None => {
                    proof {
                        assert(false);
                    }
                    Err(CommandError::InvalidCommand)
                },
            }
        } else {
            Err(CommandError::InvalidCommand)
        }
    }
}

/// Law: decoding an encoded command gives the command back.
pub proof fn lemma_command_round_trip(c: Command)
    ensures
        command_dec(command_bytes(c)) == Some(c),
{
    lemma_auto_spec_u64_to_from_le_bytes();
    match c {
        Command::AddReward { reward_amount } => {
            let s = command_bytes(c);
            assert(s.subrange(1, 9) =~= spec_u64_to_le_bytes(reward_amount));
        },
        _ => {},
    }
}

} // verus!
