use vstd::prelude::*;

verus! {

/// What one step of a suspending computation gives.
#[derive(Debug, Clone, Copy, PartialEq, Eq)]
pub enum Poll<T> {
    /// The computation has finished with this value.
    Ready(T),
    /// The computation has suspended and will wake its owner later.
    Pending,
}

/// How a deferred result holds the computation behind it.
#[derive(Debug, Clone, Copy, PartialEq, Eq, Structural)]
pub enum Strategy {
    /// The computation is stored in place, under its own, unnameable type.
    /// Needs a compiler that can name such types.
    Inline,
    /// The computation is stored on the heap and called through a pointer.
    Boxed,
}

impl Strategy {
    /// The strategy a build uses: in place where the compiler allows it,
    /// boxed everywhere else.
    pub fn select(inline_available: bool) -> (strategy: Strategy)
        ensures
            strategy == if inline_available {
                Strategy::Inline
            } else {
                Strategy::Boxed
            },
    {
        if inline_available {
            Strategy::Inline
        } else {
            Strategy::Boxed
        }
    }
}

impl Default for Strategy {
    fn default() -> (strategy: Strategy)
        ensures
            strategy == Strategy::Boxed,
    {
        Strategy::Boxed
    }
}

/// A deferred result, as its owner sees it: a computation that yields `Out`
/// once, after any number of suspensions.
///
/// The computation itself lives with whoever drives it. Each time it has
/// been stepped, what it gave is passed through [`Deferred::poll`], which
/// hands it on unchanged and keeps track of whether the result is in.
#[derive(Debug)]
pub struct Deferred<Out> {
    strategy: Strategy,
    resolved: bool,
    output: core::marker::PhantomData<Out>,
}

impl<Out> Deferred<Out> {
    /// How the computation is held.
    pub closed spec fn spec_strategy(self) -> Strategy {
        self.strategy
    }

    /// Whether the computation has yielded its value.
    pub closed spec fn spec_is_resolved(self) -> bool {
        self.resolved
    }

    /// One step: what the owner is handed when the computation gave `inner`,
    /// and the state after it.
    pub closed spec fn step(self, inner: Poll<Out>) -> (Self, Poll<Out>) {
        (Deferred { resolved: inner is Ready, ..self }, inner)
    }

    /// A whole life: the state at the end and the answers handed to the
    /// owner when the computation gives `inner`, one answer per step. The
    /// computation is not stepped again once it has resolved.
    pub open spec fn drive(self, inner: Seq<Poll<Out>>) -> (Self, Seq<Poll<Out>>)
        decreases inner.len(),
    {
        if inner.len() == 0 || self.spec_is_resolved() {
            (self, Seq::empty())
        } else {
            let (next, answer) = self.step(inner[0]);
            let (last, answers) = next.drive(inner.drop_first());
            (last, seq![answer] + answers)
        }
    }

    /// A deferred result that has not been stepped yet.
    pub fn new(strategy: Strategy) -> (deferred: Self)
        ensures
            deferred.spec_strategy() == strategy,
            !deferred.spec_is_resolved(),
    {
        Deferred { strategy, resolved: false, output: core::marker::PhantomData }
    }

    /// How the computation is held.
    pub fn strategy(&self) -> (strategy: Strategy)
        ensures
            strategy == self.spec_strategy(),
    {
        self.strategy
    }

    /// Whether the computation has yielded its value.
    pub fn is_resolved(&self) -> (resolved: bool)
        ensures
            resolved == self.spec_is_resolved(),
    {
        self.resolved
    }

    /// Takes what a step of the computation gave and hands it to the owner,
    /// unchanged. A computation that has yielded its value is never stepped
    /// again.
    pub fn poll(&mut self, inner: Poll<Out>) -> (answer: Poll<Out>)
        requires
            !old(self).spec_is_resolved(),
        ensures
            (*final(self), answer) == old(self).step(inner),
            answer == inner,
            final(self).spec_is_resolved() == (inner is Ready),
            final(self).spec_strategy() == old(self).spec_strategy(),
    {
        if let Poll::Ready(_) = &inner {
            self.resolved = true;
        }
        inner
    }

    /// A deferred result resolves once. Whatever the computation gives, the
    /// owner is handed its answers unchanged and in order, up to the first
    /// value and no further: every answer before the last is a suspension,
    /// and the result is in exactly when the last answer is a value.
    pub proof fn lemma_resolves_once(self, inner: Seq<Poll<Out>>)
        requires
            !self.spec_is_resolved(),
        ensures
            ({
                let (last, answers) = self.drive(inner);
                &&& answers.len() <= inner.len()
                &&& answers == inner.take(answers.len() as int)
                &&& forall|i: int| 0 <= i < answers.len() - 1 ==> answers[i] is Pending
                &&& last.spec_is_resolved() <==> answers.len() > 0 && answers.last() is Ready
                &&& !last.spec_is_resolved() ==> answers.len() == inner.len()
                &&& last.spec_strategy() == self.spec_strategy()
            }),
        decreases inner.len(),
    {
        if inner.len() > 0 {
            let (next, answer) = self.step(inner[0]);
            let rest = inner.drop_first();
            let (last, answers) = next.drive(rest);
            if next.spec_is_resolved() {
                next.lemma_resolved_is_final(rest);
            } else {
                next.lemma_resolves_once(rest);
            }
            let all = seq![answer] + answers;
            assert(all =~= inner.take(all.len() as int));
            assert forall|i: int| 0 <= i < all.len() - 1 implies all[i] is Pending by {
                if i > 0 {
                    assert(all[i] == answers[i - 1]);
                }
            }
            if answers.len() > 0 {
                assert(all.last() == answers.last());
            }
        } else {
            assert(Seq::<Poll<Out>>::empty() =~= inner.take(0));
        }
    }

    /// Once the result is in, the computation is not stepped again: nothing
    /// more is handed to the owner, and the state stays as it is.
    pub proof fn lemma_resolved_is_final(self, inner: Seq<Poll<Out>>)
        requires
            self.spec_is_resolved(),
        ensures
            self.drive(inner) == (self, Seq::<Poll<Out>>::empty()),
    {
    }

    /// The strategy cannot be observed: two deferred results that are driven
    /// by the same computation hand their owners the same answers and resolve
    /// at the same step, however each of them holds the computation.
    pub proof fn lemma_strategies_agree(self, other: Self, inner: Seq<Poll<Out>>)
        requires
            self.spec_is_resolved() == other.spec_is_resolved(),
        ensures
            self.drive(inner).1 == other.drive(inner).1,
            self.drive(inner).0.spec_is_resolved() == other.drive(inner).0.spec_is_resolved(),
        decreases inner.len(),
    {
        if inner.len() > 0 && !self.spec_is_resolved() {
            let (next, _) = self.step(inner[0]);
            let (other_next, _) = other.step(inner[0]);
            next.lemma_strategies_agree(other_next, inner.drop_first());
        }
    }
}

} // verus!
