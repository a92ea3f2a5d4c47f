//! Coverage marks: named events that production code fires when a specific
//! branch runs, and scope-bound checks that a test uses to assert the mark
//! actually fired (at least once, or an exact number of times).
//!
//! All state lives in an explicit per-thread [`Registry`] value: a gate
//! counting the active checks and a stack of check records, most recently
//! entered last. Production code calls [`hit`] with the registry of its own
//! thread; test code brackets a scope with [`Guard::new`] and [`Guard::exit`],
//! which reports an [`Outcome`] instead of panicking.

use vstd::prelude::*;

pub mod guard;
pub mod laws;
pub mod outcome;
pub mod registry;

verus! {

pub use crate::guard::Guard;
pub use crate::guard::GuardView;
pub use crate::guard::exit_stack;
pub use crate::guard::fresh_record;
pub use crate::guard::guard_matches;
pub use crate::guard::spec_exit;
pub use crate::guard::verdict;
pub use crate::outcome::Outcome;
pub use crate::outcome::OutcomeView;
pub use crate::registry::RecordView;
pub use crate::registry::Registry;
pub use crate::registry::dispatch;
pub use crate::registry::hit;
pub use crate::registry::record_hit;

} // verus!
