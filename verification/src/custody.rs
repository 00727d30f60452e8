//! The engine's side of the external asset custodian: the deterministic
//! derivation of the custody delegate, and the requests the engine hands the
//! host to perform against the custodian.
//!
//! The engine never holds a private key.  It proves authorization over the
//! custody account through a delegate identity derived from the engine's own
//! identity and a fixed seed; the host re-signs custodian calls with the
//! derivation's proof material (the bump byte).

use vstd::prelude::*;

use crate::identity::{Identity, IDENTITY_LEN};

verus! {

/// The delegate identity and bump byte the host runtime derives from a
/// program identity and a seed, or `None` when no viable bump exists.
pub uninterp spec fn delegate_of(program: Seq<u8>, seed: Seq<u8>) -> Option<(Seq<u8>, u8)>;

/// Relies on solana_program's `Pubkey::try_find_program_address`: a pure
/// search over SHA-256 digests, so the result depends on the seed and the
/// program identity alone.  `None` comes only when the seed is over the
/// crate's seed-length cap or, with statistically negligible probability,
/// when no bump byte yields a viable delegate.
#[verifier::external_body]
fn try_find_delegate_raw(program_id: &[u8], seed: &[u8]) -> (r: Option<(Vec<u8>, u8)>)
    requires
        program_id@.len() == IDENTITY_LEN,
    ensures
        match r {
            None => delegate_of(program_id@, seed@) is None,
            Some((d, bump)) => delegate_of(program_id@, seed@) == Some((d@, bump)) && d@.len()
                == IDENTITY_LEN,
        },
{
    let arr: [u8; 32] = program_id.try_into().unwrap();
    let pid = solana_program::pubkey::Pubkey::new_from_array(arr);
    solana_program::pubkey::Pubkey::try_find_program_address(&[seed], &pid).map(
        |pair: (solana_program::pubkey::Pubkey, u8)| (pair.0.to_bytes().to_vec(), pair.1),
    )
}

/// Derives the engine's custody delegate and its bump byte from the engine's
/// identity and the configured seed.
pub fn derive_custody_delegate(program_id: &Identity, seed: &[u8]) -> (r: Option<(Identity, u8)>)
    ensures
        match r {
            None => delegate_of(program_id@, seed@) is None,
            Some((d, bump)) => delegate_of(program_id@, seed@) == Some((d@, bump)),
        },
{
    let pid = program_id.to_vec();
    match try_find_delegate_raw(pid.as_slice(), seed) {
        None => None,
        Some((bytes, bump)) => match Identity::new(bytes) {
            Some(id) => Some((id, bump)),
            None => {
                proof {
                    assert(false);
                }
                None
            },
        },
    }
}

/// A request the engine asks the host to perform against the custodian.
/// Both operations are atomic from the engine's side: the host reports plain
/// success or failure, and the engine commits records only on success.
#[derive(Debug)]
pub enum CustodyRequest {
    /// Reassign control authority over `account` from `current_authority` to
    /// `new_authority` (the engine's derived delegate).
    SetAuthority {
        /// The custody account whose authority moves.
        account: Identity,
        /// The authority that signs the reassignment.
        current_authority: Identity,
        /// The delegate that takes over.
        new_authority: Identity,
    },
    /// Transfer `amount` units from `source` to `destination`, authorized by
    /// the engine's derived delegate.
    Transfer {
        /// The pool's custody account.
        source: Identity,
        /// The claimant's destination account.
        destination: Identity,
        /// The engine's derived delegate.
        authority: Identity,
        /// The delegate derivation's proof material.
        authority_bump: u8,
        /// The number of units to move.
        amount: u64,
    },
}

/// The mathematical shape of a custody request.
#[verifier::ext_equal]
pub ghost enum CustodyRequestView {
    SetAuthority { account: Seq<u8>, current_authority: Seq<u8>, new_authority: Seq<u8> },
    Transfer {
        source: Seq<u8>,
        destination: Seq<u8>,
        authority: Seq<u8>,
        authority_bump: u8,
        amount: u64,
    },
}

impl View for CustodyRequest {
    type V = CustodyRequestView;

    open spec fn view(&self) -> CustodyRequestView {
        match self {
            CustodyRequest::SetAuthority { account, current_authority, new_authority } => {
                CustodyRequestView::SetAuthority {
                    account: account@,
                    current_authority: current_authority@,
                    new_authority: new_authority@,
                }
            },
            CustodyRequest::Transfer {
                source,
                destination,
                authority,
                authority_bump,
                amount,
            } => {
                CustodyRequestView::Transfer {
                    source: source@,
                    destination: destination@,
                    authority: authority@,
                    authority_bump: *authority_bump,
                    amount: *amount,
                }
            },
        }
    }
}

} // verus!
