//! Script interpreters on threads of their own, each reached through a pair of
//! channels, alone or in a pool that is served in turn.
use vstd::prelude::*;

pub mod channel;
pub mod default_worker;
pub mod error;
pub mod pool;
pub mod text;
pub mod worker;

verus! {

/// The identifier that an interpreter assigns to a module when it loads it.
pub type ModuleId = usize;

} // verus!
