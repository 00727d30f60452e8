//! A deterministic ledger engine that processes discrete commands against two
//! kinds of fixed-layout binary records: a singleton pool record and one
//! participant record per registered participant.  The engine enforces
//! authorization, referral-tree relationships and conservation of a reward
//! balance; asset custody itself is left to an external custodian, which the
//! engine only directs through explicit requests.

pub mod custody;
pub mod error;
pub mod identity;
pub mod instruction;
pub mod processor;
pub mod state;
