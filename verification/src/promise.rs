//! A four-state cell for one asynchronous fetch.
//!
//! External collaborators (API client, audio engine) push their results into
//! these cells; the model never blocks. A cell starts [`PromiseState::Empty`],
//! is driven to [`PromiseState::Pending`] when the owning view issues a
//! request, and settles as [`PromiseState::Resolved`] or
//! [`PromiseState::Rejected`] when the request completes. Because a newer
//! request may be issued before an older one completes, every request is
//! tagged with a monotonically increasing id: a completion whose id is no
//! longer the current one is stale and is discarded, as is any completion of
//! a cell that is not pending.

use crate::same::Same;
use vstd::prelude::*;

verus! {

/// The lifecycle state of one asynchronous fetch.
#[derive(Clone, Debug, PartialEq)]
pub enum PromiseState<T, E> {
    /// Never requested.
    Empty,
    /// A request is in flight; its id is the cell's current `last_id`.
    Pending,
    /// The request finished with a value.
    Resolved(T),
    /// The request failed; `E` is typically a human-readable description.
    Rejected(E),
}

/// An asynchronous-result cell: the current state plus the id of the most
/// recently issued request, used to detect stale completions.
#[derive(Clone, Debug, PartialEq)]
pub struct Promise<T, E> {
    /// The current lifecycle state.
    pub state: PromiseState<T, E>,
    /// The id handed out by the latest `to_pending`; 0 before any request.
    pub last_id: u64,
}

impl<T, E> Promise<T, E> {
    /// A cell that was never driven: empty, with no request ever issued.
    pub open spec fn is_fresh(self) -> bool {
        self.state is Empty && self.last_id == 0
    }

    /// A new cell, in the never-requested state.
    pub fn new() -> (p: Self)
        ensures
            p.is_fresh(),
    {
        Promise { state: PromiseState::Empty, last_id: 0 }
    }

    /// The cell after a new request is issued: pending, under the next id.
    pub open spec fn pending_effect(self) -> Self {
        Promise { state: PromiseState::Pending, last_id: (self.last_id + 1) as u64 }
    }

    /// Issue a new request: any previous result is discarded and the cell
    /// becomes pending under a fresh id, which is returned so the caller can
    /// tag the eventual completion with it.
    pub fn to_pending(&mut self) -> (id: u64)
        requires
            old(self).last_id < u64::MAX,
        ensures
            *final(self) == old(self).pending_effect(),
            id == final(self).last_id,
    {
        self.last_id = self.last_id + 1;
        self.state = PromiseState::Pending;
        self.last_id
    }

    /// The cell after a successful completion tagged `id` arrives: applied
    /// only when the cell is still pending under that very id; otherwise the
    /// completion is stale and the cell is left unchanged.
    pub open spec fn resolve_effect(self, id: u64, value: T) -> Self {
        if self.state is Pending && id == self.last_id {
            Promise { state: PromiseState::Resolved(value), last_id: self.last_id }
        } else {
            self
        }
    }

    /// Deliver a successful result for the request tagged `id`. A stale or
    /// misdirected delivery (the cell is not pending, or a newer request has
    /// been issued since) is a no-op.
    pub fn resolve(&mut self, id: u64, value: T)
        ensures
            *final(self) == old(self).resolve_effect(id, value),
    {
        let current = match self.state {
            PromiseState::Pending => id == self.last_id,
            _ => false,
        };
        if current {
            self.state = PromiseState::Resolved(value);
        }
    }

    /// The cell after a failed completion tagged `id` arrives; symmetric to
    /// `resolve_effect`.
    pub open spec fn reject_effect(self, id: u64, error: E) -> Self {
        if self.state is Pending && id == self.last_id {
            Promise { state: PromiseState::Rejected(error), last_id: self.last_id }
        } else {
            self
        }
    }

    /// Deliver a failure for the request tagged `id`; a stale or misdirected
    /// delivery is a no-op, symmetric to `resolve`.
    pub fn reject(&mut self, id: u64, error: E)
        ensures
            *final(self) == old(self).reject_effect(id, error),
    {
        let current = match self.state {
            PromiseState::Pending => id == self.last_id,
            _ => false,
        };
        if current {
            self.state = PromiseState::Rejected(error);
        }
    }

    /// Reset to the never-requested state (the owning view changed its
    /// query). Ids keep growing monotonically across resets.
    pub fn clear(&mut self)
        ensures
            final(self).state is Empty,
            final(self).last_id == old(self).last_id,
    {
        self.state = PromiseState::Empty;
    }

    /// Whether the cell was never requested (or was reset).
    pub fn is_empty(&self) -> (r: bool)
        ensures
            r == (self.state is Empty),
    {
        match self.state {
            PromiseState::Empty => true,
            _ => false,
        }
    }

    /// Whether a request is in flight.
    pub fn is_pending(&self) -> (r: bool)
        ensures
            r == (self.state is Pending),
    {
        match self.state {
            PromiseState::Pending => true,
            _ => false,
        }
    }

    /// The successful result, if the cell is resolved.
    pub fn resolved(&self) -> (r: Option<&T>)
        ensures
            (match self.state {
                PromiseState::Resolved(v) => r matches Some(x) && *x == v,
                _ => r is None,
            }),
    {
        match &self.state {
            PromiseState::Resolved(v) => Some(v),
            _ => None,
        }
    }

    /// The failure, if the cell is rejected.
    pub fn rejected(&self) -> (r: Option<&E>)
        ensures
            (match self.state {
                PromiseState::Rejected(e) => r matches Some(x) && *x == e,
                _ => r is None,
            }),
    {
        match &self.state {
            PromiseState::Rejected(e) => Some(e),
            _ => None,
        }
    }

    /// Law: a completion delivered to a cell that is not pending — never
    /// requested, already resolved, or already rejected — changes nothing,
    /// whatever id it carries.
    pub proof fn lemma_settled_completion_is_noop(self, id: u64, value: T, error: E)
        requires
            !(self.state is Pending),
        ensures
            self.resolve_effect(id, value) == self,
            self.reject_effect(id, error) == self,
    {
    }

    /// Law: a request followed at once by its own completion settles the
    /// cell on the delivered value.
    pub proof fn lemma_fresh_completion_applies(self, value: T)
        requires
            self.last_id < u64::MAX,
        ensures
            ({
                let p = self.pending_effect();
                p.resolve_effect(p.last_id, value) == (Promise::<T, E> {
                    state: PromiseState::Resolved(value),
                    last_id: p.last_id,
                })
            }),
    {
    }

    /// Law: once a second request supersedes the first, the first request's
    /// completion is stale — it is discarded and the cell stays pending
    /// under the newer id.
    pub proof fn lemma_stale_completion_is_dropped(self, value: T, error: E)
        requires
            self.last_id + 2 <= u64::MAX,
        ensures
            ({
                let first = self.pending_effect();
                let second = first.pending_effect();
                second.resolve_effect(first.last_id, value) == second
                    && second.reject_effect(first.last_id, error) == second
            }),
    {
    }
}

impl<T: Same, E: Same> Same for Promise<T, E> {
    open spec fn same_spec(self, other: Self) -> bool {
        self.last_id == other.last_id && match (self.state, other.state) {
            (PromiseState::Empty, PromiseState::Empty) => true,
            (PromiseState::Pending, PromiseState::Pending) => true,
            (PromiseState::Resolved(a), PromiseState::Resolved(b)) => a.same_spec(b),
            (PromiseState::Rejected(a), PromiseState::Rejected(b)) => a.same_spec(b),
            _ => false,
        }
    }

    fn same(&self, other: &Self) -> (r: bool) {
        if self.last_id != other.last_id {
            return false;
        }
        match (&self.state, &other.state) {
            (PromiseState::Empty, PromiseState::Empty) => true,
            (PromiseState::Pending, PromiseState::Pending) => true,
            (PromiseState::Resolved(a), PromiseState::Resolved(b)) => a.same(b),
            (PromiseState::Rejected(a), PromiseState::Rejected(b)) => a.same(b),
            _ => false,
        }
    }

    proof fn same_refl(&self) {
        match &self.state {
            PromiseState::Resolved(a) => a.same_refl(),
            PromiseState::Rejected(a) => a.same_refl(),
            _ => {},
        }
    }
}

} // verus!
