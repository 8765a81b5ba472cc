//! One iteration of the harness as a state machine.
//!
//! The machine decides what happens next; the program around it does the
//! work and reports back. An iteration runs strictly in sequence: decode,
//! invoke the reference, invoke the translated implementation, compare,
//! release what either of them allocated, and come to rest with an outcome.
//! The machine keeps count of the resource handles acquired and released, so
//! that the balance between the two is a property of every state it can be in.

use vstd::prelude::*;

verus! {

/// The two implementations under comparison.
#[derive(Clone, Copy, Debug, PartialEq, Eq, Structural)]
pub enum Side {
    Reference,
    Translated,
}

/// How an iteration ends.
#[derive(Clone, Copy, Debug, PartialEq, Eq, Structural)]
pub enum Outcome {
    /// The input was empty or degenerate; nothing was invoked.
    Rejected,
    /// Both implementations were invoked and their results are the same.
    Passed,
    /// Both implementations were invoked and their results differ.
    Failed,
}

/// Where an iteration stands.
#[derive(Clone, Copy, Debug, PartialEq, Eq, Structural)]
pub enum State {
    /// Waiting for the decoder's answer.
    Decode,
    /// Waiting for the reference implementation to return.
    InvokeReference,
    /// Waiting for the translated implementation to return.
    InvokeTranslated,
    /// Waiting for the oracle's answer.
    Compare,
    /// Waiting for the handle of the given side to be released.
    Reclaim(Side),
    /// At rest, with the outcome.
    Idle(Outcome),
}

/// What the program reports to the machine.
#[derive(Clone, Copy, Debug, PartialEq, Eq, Structural)]
pub enum Event {
    /// The decoder has answered: arguments were produced, or the input was
    /// rejected.
    Decoded { accepted: bool },
    /// The invocation that was asked for has returned, with or without a
    /// resource handle that must be released later.
    Returned { handle: bool },
    /// The oracle has answered.
    Compared { diverged: bool },
    /// The release that was asked for has been made.
    Released,
}

/// What the machine asks the program to do next.
#[derive(Clone, Copy, Debug, PartialEq, Eq, Structural)]
pub enum Action {
    /// Call the implementation of the given side with the decoded arguments.
    Invoke(Side),
    /// Hand both results to the oracle.
    Compare,
    /// Release the handle that the given side returned.
    Release(Side),
    /// Nothing is left to do; the iteration has ended with this outcome.
    Stop(Outcome),
}

/// The state of an iteration as contracts see it.
pub struct IterationModel {
    pub state: State,
    /// The reference returned a handle that has not been released.
    pub reference_held: bool,
    /// The translated implementation returned a handle that has not been
    /// released.
    pub translated_held: bool,
    /// The oracle found a divergence.
    pub diverged: bool,
    /// Invocations that have returned.
    pub invocations: nat,
    /// Handles that the invocations returned.
    pub acquired: nat,
    /// Handles that were released.
    pub released: nat,
}

impl IterationModel {
    /// The state in which every iteration starts.
    pub open spec fn initial() -> IterationModel {
        IterationModel {
            state: State::Decode,
            reference_held: false,
            translated_held: false,
            diverged: false,
            invocations: 0,
            acquired: 0,
            released: 0,
        }
    }

    /// The number of handles that are held and not yet released.
    pub open spec fn held(self) -> nat {
        (if self.reference_held { 1nat } else { 0nat }) + (if self.translated_held { 1nat } else { 0nat })
    }

    /// The outcome of an iteration in which both sides were invoked.
    pub open spec fn verdict(self) -> Outcome {
        if self.diverged {
            Outcome::Failed
        } else {
            Outcome::Passed
        }
    }

    /// What holds of every state that an iteration can reach: each handle
    /// acquired is either still held or was released once, and the state
    /// agrees with what has been done so far.
    pub open spec fn consistent(self) -> bool {
        &&& self.held() + self.released == self.acquired
        &&& match self.state {
            State::Decode | State::InvokeReference | State::Idle(Outcome::Rejected) => {
                &&& self.invocations == 0
                &&& self.acquired == 0
                &&& !self.diverged
            },
            State::InvokeTranslated => {
                &&& self.invocations == 1
                &&& !self.translated_held
                &&& self.released == 0
                &&& !self.diverged
            },
            State::Compare => {
                &&& self.invocations == 2
                &&& self.released == 0
                &&& !self.diverged
            },
            State::Reclaim(Side::Reference) => {
                &&& self.invocations == 2
                &&& self.reference_held
            },
            State::Reclaim(Side::Translated) => {
                &&& self.invocations == 2
                &&& !self.reference_held
                &&& self.translated_held
            },
            State::Idle(outcome) => {
                &&& self.invocations == 2
                &&& self.held() == 0
                &&& outcome == self.verdict()
            },
        }
    }

    /// After the comparison, and after each release: the next handle to
    /// release, the reference's first, or the end of the iteration when
    /// nothing is held any more.
    pub open spec fn settle(self) -> (IterationModel, Action) {
        if self.reference_held {
            (
                IterationModel { state: State::Reclaim(Side::Reference), ..self },
                Action::Release(Side::Reference),
            )
        } else if self.translated_held {
            (
                IterationModel { state: State::Reclaim(Side::Translated), ..self },
                Action::Release(Side::Translated),
            )
        } else {
            (IterationModel { state: State::Idle(self.verdict()), ..self }, Action::Stop(self.verdict()))
        }
    }

    /// The transition function: the state that follows `event` and the action
    /// that the machine asks for, or nothing where the event does not answer
    /// what the machine is waiting for.
    pub open spec fn next(self, event: Event) -> Option<(IterationModel, Action)> {
        match (self.state, event) {
            (State::Decode, Event::Decoded { accepted }) => {
                if accepted {
                    Some(
                        (
                            IterationModel { state: State::InvokeReference, ..self },
                            Action::Invoke(Side::Reference),
                        ),
                    )
                } else {
                    Some(
                        (
                            IterationModel { state: State::Idle(Outcome::Rejected), ..self },
                            Action::Stop(Outcome::Rejected),
                        ),
                    )
                }
            },
            (State::InvokeReference, Event::Returned { handle }) => Some(
                (
                    IterationModel {
                        state: State::InvokeTranslated,
                        reference_held: handle,
                        invocations: self.invocations + 1,
                        acquired: self.acquired + if handle { 1nat } else { 0nat },
                        ..self
                    },
                    Action::Invoke(Side::Translated),
                ),
            ),
            (State::InvokeTranslated, Event::Returned { handle }) => Some(
                (
                    IterationModel {
                        state: State::Compare,
                        translated_held: handle,
                        invocations: self.invocations + 1,
                        acquired: self.acquired + if handle { 1nat } else { 0nat },
                        ..self
                    },
                    Action::Compare,
                ),
            ),
            (State::Compare, Event::Compared { diverged }) => Some(
                IterationModel { diverged, ..self }.settle(),
            ),
            (State::Reclaim(Side::Reference), Event::Released) => Some(
                IterationModel { reference_held: false, released: self.released + 1, ..self }.settle(),
            ),
            (State::Reclaim(Side::Translated), Event::Released) => Some(
                IterationModel { translated_held: false, released: self.released + 1, ..self }.settle(),
            ),
            _ => None,
        }
    }
}

/// The state after `event`: the state that the transition leads to, or the
/// same state where the event is refused.
pub open spec fn after(model: IterationModel, event: Event) -> IterationModel {
    match model.next(event) {
        Some((next, _)) => next,
        None => model,
    }
}

/// The state that an iteration is in after it was told `events`, one after
/// the other, from its start.
pub open spec fn run(events: Seq<Event>) -> IterationModel
    decreases events.len(),
{
    if events.len() == 0 {
        IterationModel::initial()
    } else {
        after(run(events.drop_last()), events.last())
    }
}

/// The number of releases that the machine has asked for after `events`:
/// those that were made and the one it may be waiting for.
pub open spec fn releases_asked(events: Seq<Event>) -> nat {
    run(events).released + if run(events).state is Reclaim {
        1nat
    } else {
        0nat
    }
}

/// Every transition leads from a consistent state to a consistent state.
pub proof fn lemma_next_keeps_consistent(model: IterationModel, event: Event)
    requires
        model.consistent(),
    ensures
        model.next(event) matches Some((after, _)) ==> after.consistent(),
{
}

/// Whatever an iteration is told, it is in a consistent state.
pub proof fn lemma_run_consistent(events: Seq<Event>)
    ensures
        run(events).consistent(),
    decreases events.len(),
{
    if events.len() > 0 {
        lemma_run_consistent(events.drop_last());
        lemma_next_keeps_consistent(run(events.drop_last()), events.last());
    }
}

/// Resource safety of every iteration: whatever it is told, it never asks
/// for more releases than handles were acquired, and once it is at rest,
/// passed, failed or rejected, it has asked for exactly as many, all of
/// which were made.
pub proof fn lemma_every_iteration_balanced(events: Seq<Event>)
    ensures
        releases_asked(events) <= run(events).acquired,
        run(events).state is Idle ==> releases_asked(events) == run(events).acquired
            && run(events).released == run(events).acquired,
{
    lemma_run_consistent(events);
}

/// No invocation without arguments: an iteration whose input was rejected
/// stays at rest whatever it is told afterwards, with nothing invoked,
/// acquired or released.
pub proof fn lemma_rejected_stays_rejected(events: Seq<Event>)
    requires
        events.len() > 0,
        events[0] == (Event::Decoded { accepted: false }),
    ensures
        run(events) == (IterationModel {
            state: State::Idle(Outcome::Rejected),
            ..IterationModel::initial()
        }),
    decreases events.len(),
{
    if events.len() == 1 {
        assert(events.drop_last().len() == 0);
        assert(run(events.drop_last()) == IterationModel::initial());
    } else {
        assert(events.drop_last()[0] == events[0]);
        lemma_rejected_stays_rejected(events.drop_last());
    }
}

/// Rejected input ends the iteration at once: the machine stops in the
/// rejected state, asks for no invocation and no release, and has counted
/// none.
pub proof fn lemma_rejection_short_circuits()
    ensures
        IterationModel::initial().next(Event::Decoded { accepted: false }) == Some(
            (
                IterationModel { state: State::Idle(Outcome::Rejected), ..IterationModel::initial() },
                Action::Stop(Outcome::Rejected),
            ),
        ),
{
}

/// A release is asked for only of a handle that is held and was not released
/// before.
pub proof fn lemma_release_only_what_is_held(model: IterationModel, event: Event)
    requires
        model.consistent(),
    ensures
        model.next(event) matches Some((after, Action::Release(side))) ==> {
            &&& after.state == State::Reclaim(side)
            &&& side == Side::Reference ==> after.reference_held
            &&& side == Side::Translated ==> after.translated_held
            &&& after.released < after.acquired
        },
{
}

/// The machine stops only at rest: when it reports an outcome, every handle
/// that was acquired has been released, on the failing path as on the
/// passing one.
pub proof fn lemma_stop_is_at_rest(model: IterationModel, event: Event)
    requires
        model.consistent(),
    ensures
        model.next(event) matches Some((after, Action::Stop(outcome))) ==> {
            &&& after.state == State::Idle(outcome)
            &&& after.released == after.acquired
        },
{
}

/// Neither implementation is invoked before the decoder has accepted the
/// input, and the translated one only after the reference has returned.
pub proof fn lemma_invocations_in_order(model: IterationModel, event: Event)
    requires
        model.consistent(),
    ensures
        model.next(event) matches Some((_, Action::Invoke(side))) ==> {
            &&& side == Side::Reference ==> model.state == State::Decode && event == (Event::Decoded {
                accepted: true,
            })
            &&& side == Side::Translated ==> model.state == State::InvokeReference
        },
{
}

/// One iteration of the harness.
#[derive(Debug)]
pub struct Iteration {
    state: State,
    reference_held: bool,
    translated_held: bool,
    diverged: bool,
    invocations: u8,
    acquired: u8,
    released: u8,
}

impl View for Iteration {
    type V = IterationModel;

    closed spec fn view(&self) -> IterationModel {
        IterationModel {
            state: self.state,
            reference_held: self.reference_held,
            translated_held: self.translated_held,
            diverged: self.diverged,
            invocations: self.invocations as nat,
            acquired: self.acquired as nat,
            released: self.released as nat,
        }
    }
}

impl Iteration {
    #[verifier::type_invariant]
    spec fn well_formed(self) -> bool {
        self@.consistent()
    }

    /// A fresh iteration, waiting for the decoder.
    pub fn new() -> (iteration: Iteration)
        ensures
            iteration@ == IterationModel::initial(),
    {
        Iteration {
            state: State::Decode,
            reference_held: false,
            translated_held: false,
            diverged: false,
            invocations: 0,
            acquired: 0,
            released: 0,
        }
    }

    /// An iteration that has taken the decoder's answer, with what it asks
    /// for first: the reference's invocation, or nothing more where the input
    /// was rejected.
    pub fn begin(accepted: bool) -> (begun: (Iteration, Action))
        ensures
            IterationModel::initial().next(Event::Decoded { accepted }) == Some((begun.0@, begun.1)),
    {
        let (state, action) = if accepted {
            (State::InvokeReference, Action::Invoke(Side::Reference))
        } else {
            (State::Idle(Outcome::Rejected), Action::Stop(Outcome::Rejected))
        };
        (
            Iteration {
                state,
                reference_held: false,
                translated_held: false,
                diverged: false,
                invocations: 0,
                acquired: 0,
                released: 0,
            },
            action,
        )
    }

    /// Where the iteration stands.
    pub fn state(&self) -> (state: State)
        ensures
            state == self@.state,
    {
        self.state
    }

    /// The outcome, once the iteration is at rest.
    pub fn outcome(&self) -> (outcome: Option<Outcome>)
        ensures
            outcome == match self@.state {
                State::Idle(o) => Some(o),
                _ => None::<Outcome>,
            },
    {
        match self.state {
            State::Idle(o) => Some(o),
            _ => None,
        }
    }

    /// The number of invocations that have returned.
    pub fn invocations(&self) -> (n: u8)
        ensures
            n == self@.invocations,
    {
        self.invocations
    }

    /// The number of handles that the invocations returned.
    pub fn acquired(&self) -> (n: u8)
        ensures
            n == self@.acquired,
    {
        self.acquired
    }

    /// The number of handles that were released.
    pub fn released(&self) -> (n: u8)
        ensures
            n == self@.released,
    {
        self.released
    }

    /// After the comparison, and after each release: the iteration that
    /// waits for the next release, or the iteration at rest.
    fn settled(
        reference_held: bool,
        translated_held: bool,
        diverged: bool,
        acquired: u8,
        released: u8,
    ) -> (next: (Iteration, Action))
        requires
            (if reference_held { 1nat } else { 0nat }) + (if translated_held { 1nat } else { 0nat })
                + released == acquired,
        ensures
            (next.0@, next.1) == (IterationModel {
                state: State::Compare,
                reference_held,
                translated_held,
                diverged,
                invocations: 2,
                acquired: acquired as nat,
                released: released as nat,
            }).settle(),
    {
        let (state, action) = if reference_held {
            (State::Reclaim(Side::Reference), Action::Release(Side::Reference))
        } else if translated_held {
            (State::Reclaim(Side::Translated), Action::Release(Side::Translated))
        } else if diverged {
            (State::Idle(Outcome::Failed), Action::Stop(Outcome::Failed))
        } else {
            (State::Idle(Outcome::Passed), Action::Stop(Outcome::Passed))
        };
        (
            Iteration {
                state,
                reference_held,
                translated_held,
                diverged,
                invocations: 2,
                acquired,
                released,
            },
            action,
        )
    }

    /// Takes the program's report and says what to do next. A report that
    /// does not answer what the machine is waiting for is refused: nothing is
    /// returned and the iteration stays as it was.
    pub fn step(&mut self, event: Event) -> (action: Option<Action>)
        ensures
            match old(self)@.next(event) {
                Some((model, asked)) => final(self)@ == model && action == Some(asked),
                None => final(self)@ == old(self)@ && action is None,
            },
            old(self)@.consistent(),
            final(self)@.consistent(),
    {
        proof {
            use_type_invariant(&*self);
        }
        match (self.state, event) {
            (State::Decode, Event::Decoded { accepted }) => {
                if accepted {
                    self.state = State::InvokeReference;
                    Some(Action::Invoke(Side::Reference))
                } else {
                    self.state = State::Idle(Outcome::Rejected);
                    Some(Action::Stop(Outcome::Rejected))
                }
            },
            (State::InvokeReference, Event::Returned { handle }) => {
                *self = Iteration {
                    state: State::InvokeTranslated,
                    reference_held: handle,
                    translated_held: false,
                    diverged: false,
                    invocations: 1,
                    acquired: if handle { 1 } else { 0 },
                    released: 0,
                };
                Some(Action::Invoke(Side::Translated))
            },
            (State::InvokeTranslated, Event::Returned { handle }) => {
                *self = Iteration {
                    state: State::Compare,
                    reference_held: self.reference_held,
                    translated_held: handle,
                    diverged: false,
                    invocations: 2,
                    acquired: if handle { self.acquired + 1 } else { self.acquired },
                    released: 0,
                };
                Some(Action::Compare)
            },
            (State::Compare, Event::Compared { diverged }) => {
                let (next, action) = Iteration::settled(
                    self.reference_held,
                    self.translated_held,
                    diverged,
                    self.acquired,
                    self.released,
                );
                *self = next;
                Some(action)
            },
            (State::Reclaim(Side::Reference), Event::Released) => {
                let (next, action) = Iteration::settled(
                    false,
                    self.translated_held,
                    self.diverged,
                    self.acquired,
                    self.released + 1,
                );
                *self = next;
                Some(action)
            },
            (State::Reclaim(Side::Translated), Event::Released) => {
                let (next, action) = Iteration::settled(
                    false,
                    false,
                    self.diverged,
                    self.acquired,
                    self.released + 1,
                );
                *self = next;
                Some(action)
            },
            _ => None,
        }
    }
}

} // verus!
