//! The harness proper: the decoder and the oracle joined to the iteration's
//! state machine.
//!
//! An iteration begins with the engine's input and steps through the machine;
//! here the two answers that the library itself can give, the decoder's and
//! the oracle's, are fed to it, so that what the machine is told is what was
//! decoded and what was found.

use vstd::prelude::*;
use crate::decoder::{
    decode_text,
    decode_words,
    decodes_text,
    decodes_words,
    sort_arguments,
    terminated,
    text_arguments,
    SortArguments,
};
use crate::iteration::{Action, Event, Iteration, IterationModel, Outcome, State};
use crate::oracle::{
    compare_reports,
    compare_words,
    judges_reports,
    judges_words,
    FieldDivergence,
    UrlReport,
    WordDivergence,
};

verus! {

/// An iteration that has taken the decoder's answer: the machine, what it
/// asks for first, and the arguments, if the input was accepted.
#[derive(Debug)]
pub struct Begun<A> {
    pub iteration: Iteration,
    pub action: Action,
    pub arguments: Option<A>,
}

/// The machine and its first action after the decoder accepted or rejected
/// the input.
pub open spec fn begins(accepted: bool, iteration: IterationModel, action: Action) -> bool {
    IterationModel::initial().next(Event::Decoded { accepted }) == Some((iteration, action))
}

/// Begins an iteration of the ordering harness on the engine's words. Empty
/// input is rejected and the iteration is over; otherwise the machine asks
/// for the reference to be invoked with the decoded arguments.
pub fn begin_words(data: &[u64]) -> (begun: Begun<SortArguments>)
    ensures
        decodes_words(data@, begun.arguments),
        begun.arguments matches Some(arguments) ==> arguments@.in_range(),
        begins(data@.len() > 0, begun.iteration@, begun.action),
{
    let arguments = decode_words(data);
    let (iteration, action) = Iteration::begin(arguments.is_some());
    Begun { iteration, action, arguments }
}

/// Begins an iteration of the parsing harness on the engine's bytes. Empty
/// input is rejected and the iteration is over; otherwise the machine asks
/// for the reference to be invoked with the terminated buffer.
pub fn begin_text(data: &[u8]) -> (begun: Begun<Vec<u8>>)
    ensures
        decodes_text(data@, begun.arguments),
        begun.arguments matches Some(buffer) ==> terminated(buffer@),
        begins(data@.len() > 0, begun.iteration@, begun.action),
{
    let arguments = decode_text(data);
    let (iteration, action) = Iteration::begin(arguments.is_some());
    Begun { iteration, action, arguments }
}

/// The oracle's answer and what the machine asks for after it.
#[derive(Debug)]
pub struct Judged<D> {
    /// The next action, or nothing where the machine was not waiting for the
    /// oracle.
    pub action: Option<Action>,
    /// The divergence record, if the results differ.
    pub divergence: Option<D>,
}

/// What the machine makes of the oracle's answer: the state and the action
/// that follow it, or the state unchanged and no action.
pub open spec fn judged(
    before: IterationModel,
    diverged: bool,
    after: IterationModel,
    action: Option<Action>,
) -> bool {
    match before.next(Event::Compared { diverged }) {
        Some((model, asked)) => after == model && action == Some(asked),
        None => after == before && action is None,
    }
}

/// Compares the buffers that the two implementations left behind and tells
/// the machine whether they diverge.
pub fn judge_words(iteration: &mut Iteration, reference: &[i32], translated: &[i32]) -> (verdict:
    Judged<WordDivergence>)
    ensures
        judges_words(reference@, translated@, verdict.divergence),
        judged(
            old(iteration)@,
            reference@ != translated@,
            final(iteration)@,
            verdict.action,
        ),
{
    let divergence = compare_words(reference, translated);
    let action = iteration.step(Event::Compared { diverged: divergence.is_some() });
    Judged { action, divergence }
}

/// Compares what the two implementations reported of the parsed value and
/// tells the machine whether they diverge.
pub fn judge_reports(iteration: &mut Iteration, reference: &UrlReport, translated: &UrlReport) -> (verdict:
    Judged<FieldDivergence>)
    ensures
        judges_reports(reference@, translated@, verdict.divergence),
        judged(
            old(iteration)@,
            reference@ != translated@,
            final(iteration)@,
            verdict.action,
        ),
{
    let divergence = compare_reports(reference, translated);
    let action = iteration.step(Event::Compared { diverged: divergence.is_some() });
    Judged { action, divergence }
}

/// Empty input short-circuits: whatever begins on it is over at once, in
/// the rejected state, with no arguments decoded, no invocation asked for or
/// counted, and no handle acquired or released.
pub proof fn lemma_empty_input_is_rejected(iteration: IterationModel, action: Action)
    requires
        begins(false, iteration, action),
    ensures
        action == Action::Stop(Outcome::Rejected),
        iteration.state == State::Idle(Outcome::Rejected),
        iteration.invocations == 0,
        iteration.acquired == 0,
        iteration.released == 0,
        sort_arguments(Seq::<u64>::empty()) is None,
        text_arguments(Seq::<u8>::empty()) is None,
{
}

/// The verdict follows the results: an iteration that holds no handle when
/// the oracle answers passes exactly when the two results are the same, and
/// fails exactly when they differ.
pub proof fn lemma_pass_iff_identical(
    before: IterationModel,
    diverged: bool,
    after: IterationModel,
    action: Option<Action>,
)
    requires
        before.consistent(),
        before.state == State::Compare,
        before.held() == 0,
        judged(before, diverged, after, action),
    ensures
        !diverged <==> action == Some(Action::Stop(Outcome::Passed)),
        diverged <==> action == Some(Action::Stop(Outcome::Failed)),
{
}

/// Whatever is held when the oracle answers, the iteration ends as the
/// results say: once at rest it has passed exactly when they were the same.
pub proof fn lemma_outcome_is_the_verdict(model: IterationModel)
    requires
        model.consistent(),
        model.state is Idle,
        model.invocations == 2,
    ensures
        model.state == State::Idle(Outcome::Failed) <==> model.diverged,
        model.state == State::Idle(Outcome::Passed) <==> !model.diverged,
{
}

} // verus!
