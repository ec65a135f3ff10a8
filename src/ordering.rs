//! The five abstract memory orderings and the rules on which of them each
//! operation kind accepts.
use vstd::prelude::*;

verus! {

/// An abstract memory-ordering level.
#[derive(Clone, Copy, Debug, PartialEq, Eq, Structural)]
pub enum Ordering {
    Relaxed,
    Release,
    Acquire,
    AcqRel,
    SeqCst,
}

impl Ordering {
    /// Whether the ordering carries acquire semantics.
    pub open spec fn spec_has_acquire(self) -> bool {
        self == Ordering::Acquire || self == Ordering::AcqRel || self == Ordering::SeqCst
    }

    /// Whether the ordering carries release semantics.
    pub open spec fn spec_has_release(self) -> bool {
        self == Ordering::Release || self == Ordering::AcqRel || self == Ordering::SeqCst
    }

    /// An ordering is accepted by a load unless it releases without acquiring.
    pub open spec fn spec_valid_for_load(self) -> bool {
        self == Ordering::Relaxed || self == Ordering::Acquire || self == Ordering::SeqCst
    }

    /// An ordering is accepted by a store unless it acquires without releasing.
    pub open spec fn spec_valid_for_store(self) -> bool {
        self == Ordering::Relaxed || self == Ordering::Release || self == Ordering::SeqCst
    }

    pub fn has_acquire(self) -> (r: bool)
        ensures
            r == self.spec_has_acquire(),
    {
        match self {
            Ordering::Acquire | Ordering::AcqRel | Ordering::SeqCst => true,
            _ => false,
        }
    }

    pub fn has_release(self) -> (r: bool)
        ensures
            r == self.spec_has_release(),
    {
        match self {
            Ordering::Release | Ordering::AcqRel | Ordering::SeqCst => true,
            _ => false,
        }
    }

    pub fn is_valid_for_load(self) -> (r: bool)
        ensures
            r == self.spec_valid_for_load(),
    {
        match self {
            Ordering::Relaxed | Ordering::Acquire | Ordering::SeqCst => true,
            _ => false,
        }
    }

    pub fn is_valid_for_store(self) -> (r: bool)
        ensures
            r == self.spec_valid_for_store(),
    {
        match self {
            Ordering::Relaxed | Ordering::Release | Ordering::SeqCst => true,
            _ => false,
        }
    }
}

/// `a` gives every guarantee that `b` gives.
pub open spec fn at_least(a: Ordering, b: Ordering) -> bool {
    &&& (b.spec_has_acquire() ==> a.spec_has_acquire())
    &&& (b.spec_has_release() ==> a.spec_has_release())
    &&& (b == Ordering::SeqCst ==> a == Ordering::SeqCst)
}

/// A failure ordering is a load ordering.
pub open spec fn valid_failure(failure: Ordering) -> bool {
    failure.spec_valid_for_load()
}

/// The pair of orderings that a compare-exchange accepts: a failure ordering
/// that is a load ordering, and a success ordering at least as strong as it.
pub open spec fn valid_compare_exchange(success: Ordering, failure: Ordering) -> bool {
    valid_failure(failure) && at_least(success, failure)
}

/// The single ordering that serves both outcomes of a compare-exchange: the
/// success ordering, strengthened by whatever the failure ordering adds.
pub open spec fn spec_upgrade(success: Ordering, failure: Ordering) -> Ordering {
    if failure == Ordering::SeqCst {
        Ordering::SeqCst
    } else if failure.spec_has_acquire() && !success.spec_has_acquire() {
        if success.spec_has_release() {
            Ordering::AcqRel
        } else {
            Ordering::Acquire
        }
    } else {
        success
    }
}

/// The ordering under which an architecture that has one ordering for both
/// outcomes of a compare-exchange runs it.
pub fn upgrade_success_ordering(success: Ordering, failure: Ordering) -> (r: Ordering)
    requires
        valid_failure(failure),
    ensures
        r == spec_upgrade(success, failure),
        at_least(r, success),
        at_least(r, failure),
{
    match (success, failure) {
        (Ordering::Relaxed, Ordering::Acquire) => Ordering::Acquire,
        (Ordering::Release, Ordering::Acquire) => Ordering::AcqRel,
        (_, Ordering::SeqCst) => Ordering::SeqCst,
        _ => success,
    }
}

} // verus!
