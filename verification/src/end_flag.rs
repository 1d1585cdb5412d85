use std::sync::atomic::{AtomicBool, Ordering};
use std::sync::Arc;
use vstd::prelude::*;

verus! {

/// The word that a subscription leaves when it ends, or a sink when it goes:
/// a flag that is raised once and never lowered. It can be raised at any
/// time, also while the stream is locked by somebody else, so what it shows
/// is out of a contract's reach.
pub struct EndFlag {
    raised: Arc<AtomicBool>,
}

/// `AtomicBool::store` of `true` with `Ordering::SeqCst`. With that ordering
/// std names no panic, so the call returns normally. The contract claims
/// nothing else.
#[verifier::external_body]
fn store_true(flag: &AtomicBool)
    opens_invariants none
    no_unwind
{
    flag.store(true, Ordering::SeqCst)
}

impl EndFlag {
    /// A flag that is not raised.
    pub fn new() -> (flag: Self) {
        EndFlag { raised: Arc::new(AtomicBool::new(false)) }
    }

    /// The same flag once more: raised through one, it is raised for both.
    pub fn share(&self) -> (flag: Self)
        ensures
            flag == *self,
    {
        EndFlag { raised: Arc::clone(&self.raised) }
    }

    /// Raises the flag.
    pub fn raise(&self)
        opens_invariants none
        no_unwind
    {
        store_true(&self.raised)
    }

    /// Whether the flag is raised now.
    pub fn is_raised(&self) -> (raised: bool) {
        self.raised.load(Ordering::SeqCst)
    }
}

} // verus!
