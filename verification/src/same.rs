//! The structural-equality contract used for change detection.
//!
//! The rendering layer decides what to redraw by comparing two snapshots of
//! the state tree. Every type in the tree therefore carries an executable
//! equality test, `same`, together with the mathematical relation,
//! `same_spec`, that the test is proved to decide: field-by-field equality,
//! recursively, with strings compared by their characters and shared track
//! handles short-circuited by pointer identity.

use std::sync::Arc;
use vstd::prelude::*;

verus! {

/// The equality contract of the state tree: `same` decides `same_spec`.
pub trait Same: Sized {
    /// The mathematical equality the rendering layer relies on.
    spec fn same_spec(self, other: Self) -> bool;

    /// Executable structural equality, proved to decide `same_spec`.
    fn same(&self, other: &Self) -> (r: bool)
        ensures
            r == (*self).same_spec(*other),
    ;

    /// Every value compares equal to itself.
    proof fn same_refl(&self)
        ensures
            (*self).same_spec(*self),
    ;
}

impl Same for bool {
    open spec fn same_spec(self, other: Self) -> bool {
        self == other
    }

    fn same(&self, other: &Self) -> (r: bool) {
        *self == *other
    }

    proof fn same_refl(&self) {
    }
}

impl Same for u64 {
    open spec fn same_spec(self, other: Self) -> bool {
        self == other
    }

    fn same(&self, other: &Self) -> (r: bool) {
        *self == *other
    }

    proof fn same_refl(&self) {
    }
}

impl Same for usize {
    open spec fn same_spec(self, other: Self) -> bool {
        self == other
    }

    fn same(&self, other: &Self) -> (r: bool) {
        *self == *other
    }

    proof fn same_refl(&self) {
    }
}

impl Same for String {
    open spec fn same_spec(self, other: Self) -> bool {
        self@ == other@
    }

    fn same(&self, other: &Self) -> (r: bool) {
        self.eq(other)
    }

    proof fn same_refl(&self) {
    }
}

impl<T: Same> Same for Option<T> {
    open spec fn same_spec(self, other: Self) -> bool {
        match (self, other) {
            (None, None) => true,
            (Some(a), Some(b)) => a.same_spec(b),
            _ => false,
        }
    }

    fn same(&self, other: &Self) -> (r: bool) {
        match (self, other) {
            (None, None) => true,
            (Some(a), Some(b)) => a.same(b),
            _ => false,
        }
    }

    proof fn same_refl(&self) {
        match self {
            Some(a) => a.same_refl(),
            None => {},
        }
    }
}

impl<T: Same> Same for Vec<T> {
    open spec fn same_spec(self, other: Self) -> bool {
        self@.len() == other@.len() && (forall|i: int|
            0 <= i < self@.len() ==> #[trigger] self@[i].same_spec(other@[i]))
    }

    fn same(&self, other: &Self) -> (r: bool) {
        if self.len() != other.len() {
            return false;
        }
        let mut i: usize = 0;
        while i < self.len()
            invariant
                0 <= i <= self@.len(),
                self@.len() == other@.len(),
                forall|j: int| 0 <= j < i ==> #[trigger] self@[j].same_spec(other@[j]),
            decreases self@.len() - i,
        {
            if !self[i].same(&other[i]) {
                return false;
            }
            i = i + 1;
        }
        true
    }

    proof fn same_refl(&self) {
        assert forall|i: int| 0 <= i < self@.len() implies #[trigger] self@[i].same_spec(
            self@[i],
        ) by {
            self@[i].same_refl();
        }
    }
}

/// Relies on std's `Arc::ptr_eq`: it returns true only when both handles
/// point to the same allocation, and then they hold the same value.
#[verifier::external_body]
fn arc_ptr_eq<T>(a: &Arc<T>, b: &Arc<T>) -> (r: bool)
    ensures
        r ==> *a == *b,
{
    Arc::ptr_eq(a, b)
}

/// Relies on std's `Arc::clone`: the new handle shares the allocation of the
/// old one, so both hold the same value.
#[verifier::external_body]
pub(crate) fn arc_clone<T>(a: &Arc<T>) -> (r: Arc<T>)
    ensures
        r == *a,
{
    Arc::clone(a)
}

impl<T: Same> Same for Arc<T> {
    open spec fn same_spec(self, other: Self) -> bool {
        (*self).same_spec(*other)
    }

    fn same(&self, other: &Self) -> (r: bool) {
        if arc_ptr_eq(self, other) {
            proof {
                (**self).same_refl();
            }
            true
        } else {
            (**self).same(&**other)
        }
    }

    proof fn same_refl(&self) {
        (**self).same_refl();
    }
}

} // verus!
