//! Work that is done step by step: each step starts only after the one before it
//! has succeeded, and the first step that fails ends the work.

use vstd::prelude::*;

verus! {

/// How far a list of steps has got.
#[verifier::ext_equal]
pub struct SequenceView<S> {
    pub steps: Seq<S>,
    /// The number of steps that have succeeded.
    pub done: int,
    /// Whether a step has failed.
    pub stopped: bool,
}

impl<S> SequenceView<S> {
    /// The state before the first step.
    pub open spec fn start(steps: Seq<S>) -> Self {
        SequenceView { steps, done: 0, stopped: false }
    }

    pub open spec fn valid(self) -> bool {
        0 <= self.done <= self.steps.len()
    }

    /// The step that is to be done now.
    pub open spec fn next(self) -> Option<S> {
        if !self.stopped && 0 <= self.done < self.steps.len() {
            Some(self.steps[self.done])
        } else {
            None
        }
    }

    /// Whether every step has succeeded.
    pub open spec fn complete(self) -> bool {
        !self.stopped && self.done == self.steps.len()
    }

    /// The state after the step that is to be done now has ended.
    pub open spec fn after(self, success: bool) -> Self {
        if self.next() is None {
            self
        } else if success {
            SequenceView { done: self.done + 1, ..self }
        } else {
            SequenceView { stopped: true, ..self }
        }
    }

    /// The state after a number of steps have ended.
    pub open spec fn after_all(self, outcomes: Seq<bool>) -> Self
        decreases outcomes.len(),
    {
        if outcomes.len() == 0 {
            self
        } else {
            self.after_all(outcomes.drop_last()).after(outcomes.last())
        }
    }
}

/// A list of steps and how far it has got.
pub struct Sequence<S> {
    steps: Vec<S>,
    done: usize,
    stopped: bool,
}

impl<S> View for Sequence<S> {
    type V = SequenceView<S>;

    closed spec fn view(&self) -> SequenceView<S> {
        SequenceView { steps: self.steps@, done: self.done as int, stopped: self.stopped }
    }
}

impl<S> Sequence<S> {
    #[verifier::type_invariant]
    spec fn inv(self) -> bool {
        self.done <= self.steps@.len()
    }
}

impl<S: Copy> Sequence<S> {
    pub fn new(steps: Vec<S>) -> (r: Self)
        ensures
            r@ == SequenceView::start(steps@),
    {
        Sequence { steps, done: 0, stopped: false }
    }

    /// The step that is to be done now, if there is one.
    pub fn next(&self) -> (r: Option<S>)
        ensures
            r == self@.next(),
            self@.valid(),
    {
        proof {
            use_type_invariant(self);
        }
        if !self.stopped && self.done < self.steps.len() {
            Some(self.steps[self.done])
        } else {
            None
        }
    }

    /// Records how the step that was to be done has ended.
    pub fn record(&mut self, success: bool)
        ensures
            final(self)@ == old(self)@.after(success),
        no_unwind
    {
        proof {
            use_type_invariant(&*self);
        }
        if !self.stopped && self.done < self.steps.len() {
            if success {
                self.done = self.done + 1;
            } else {
                self.stopped = true;
            }
        }
    }

    /// The steps that have succeeded.
    pub fn done_steps(&self) -> (r: Vec<S>)
        ensures
            r@ == self@.steps.take(self@.done),
            self@.valid(),
    {
        proof {
            use_type_invariant(self);
        }
        let mut r: Vec<S> = Vec::new();
        for i in 0..self.done
            invariant
                self.done <= self.steps@.len(),
                r@ == self.steps@.take(i as int),
        {
            r.push(self.steps[i]);
        }
        r
    }

    /// Whether every step has succeeded.
    pub fn is_complete(&self) -> (r: bool)
        ensures
            r == self@.complete(),
    {
        !self.stopped && self.done == self.steps.len()
    }
}

proof fn lemma_after_all<S>(steps: Seq<S>, outcomes: Seq<bool>)
    ensures
        ({
            let state = SequenceView::start(steps).after_all(outcomes);
            &&& state.valid()
            &&& state.steps == steps
            &&& state.done <= outcomes.len()
            &&& forall|i: int| 0 <= i < state.done ==> outcomes[i]
            &&& state.stopped ==> state.done < steps.len() && state.done < outcomes.len()
                && !outcomes[state.done]
            &&& !state.stopped ==> state.done == steps.len() || state.done == outcomes.len()
        }),
    decreases outcomes.len(),
{
    if outcomes.len() > 0 {
        let before = outcomes.drop_last();
        lemma_after_all(steps, before);
        let prior = SequenceView::start(steps).after_all(before);
        let state = SequenceView::start(steps).after_all(outcomes);
        assert(state == prior.after(outcomes.last()));
        assert forall|i: int| 0 <= i < state.done implies outcomes[i] by {
            if i < prior.done {
                assert(before[i] == outcomes[i]);
            }
        }
        if prior.stopped {
            assert(before[prior.done] == outcomes[prior.done]);
        }
    }
}

/// A step is reached only if every step before it has succeeded.
pub proof fn law_earlier_steps_succeeded<S>(steps: Seq<S>, outcomes: Seq<bool>, i: int)
    requires
        0 <= i < SequenceView::start(steps).after_all(outcomes).done,
    ensures
        i < outcomes.len(),
        outcomes[i],
        SequenceView::start(steps).after_all(outcomes).done <= steps.len(),
{
    lemma_after_all(steps, outcomes);
}

/// Nothing is done after a step has failed.
pub proof fn law_failure_ends_the_work<S>(state: SequenceView<S>, outcomes: Seq<bool>)
    requires
        state.stopped,
    ensures
        state.after_all(outcomes) == state,
        state.next() is None,
    decreases outcomes.len(),
{
    if outcomes.len() > 0 {
        law_failure_ends_the_work(state, outcomes.drop_last());
    }
}

/// The work is complete exactly when each of its steps has been tried and has
/// succeeded.
pub proof fn law_complete_means_all_succeeded<S>(steps: Seq<S>, outcomes: Seq<bool>)
    ensures
        SequenceView::start(steps).after_all(outcomes).complete() <==> {
            &&& steps.len() <= outcomes.len()
            &&& forall|i: int| 0 <= i < steps.len() ==> outcomes[i]
        },
{
    lemma_after_all(steps, outcomes);
}

/// After as many successes as there were tries, the step to do is the one with that
/// number, until all are done; after a failure there is none.
pub proof fn law_steps_are_taken_in_turn<S>(steps: Seq<S>, outcomes: Seq<bool>)
    ensures
        (forall|i: int| 0 <= i < outcomes.len() ==> outcomes[i]) && outcomes.len() < steps.len()
            ==> SequenceView::start(steps).after_all(outcomes).next() == Some(
            steps[outcomes.len() as int],
        ),
        (exists|i: int| 0 <= i < outcomes.len() && i < steps.len() && !#[trigger] outcomes[i])
            ==> SequenceView::start(steps).after_all(outcomes).next() is None,
        outcomes.len() >= steps.len() ==> SequenceView::start(steps).after_all(outcomes).next()
            is None,
{
    lemma_after_all(steps, outcomes);
    let state = SequenceView::start(steps).after_all(outcomes);
    if !state.stopped && state.done < steps.len() {
        assert(state.done == outcomes.len());
    }
}

} // verus!
