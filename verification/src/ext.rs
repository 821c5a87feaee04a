//! Running a step on a value in the middle of a chain of calls.

use vstd::prelude::*;

verus! {

/// Values on which a step can be run in passing.
pub trait Also: Sized {
    /// Runs `op` on the value, in place, and hands the reference back: what
    /// it points to is the value as `op` left it.
    fn also<F: FnOnce(&mut Self)>(&mut self, op: F) -> (after: &mut Self)
        requires
            forall|r: &mut Self| *r == *old(self) ==> call_requires(op, (r,)),
        ensures
            exists|r: &mut Self|
                *r == *old(self) && *final(r) == *after && #[trigger] call_ensures(op, (r,), ()),
            *final(after) == *final(self),
    ;
}

impl<T> Also for T {
    fn also<F: FnOnce(&mut Self)>(&mut self, op: F) -> (after: &mut Self) {
        op(self);
        self
    }
}

} // verus!
