use diffharness::decoder::SortArguments;
use diffharness::harness::{begin_text, begin_words, judge_reports, judge_words, Begun};
use diffharness::iteration::{Action, Event, Iteration, Outcome, Side, State};
use diffharness::oracle::{Accessor, FieldDivergence, UrlReport, WordDivergence};

/// A stand-in for an ordering routine: sorts the inclusive range in place.
fn sort_range(arguments: &SortArguments) -> Vec<i32> {
    let mut buffer = arguments.buffer.clone();
    if 0 <= arguments.low && arguments.low < arguments.high {
        buffer[arguments.low as usize..=arguments.high as usize].sort();
    }
    buffer
}

/// A stand-in for an ordering routine that forgets the last element.
fn sort_all_but_last(arguments: &SortArguments) -> Vec<i32> {
    let mut buffer = arguments.buffer.clone();
    let end = buffer.len() - 1;
    buffer[..end].sort();
    buffer
}

/// Runs the ordering harness with the two given routines.
fn run_ordering(
    data: &[u64],
    reference: fn(&SortArguments) -> Vec<i32>,
    translated: fn(&SortArguments) -> Vec<i32>,
) -> (Iteration, Vec<Action>, Option<WordDivergence>, Option<(Vec<i32>, Vec<i32>)>) {
    let Begun { mut iteration, action, arguments } = begin_words(data);
    let mut action = action;
    let mut actions = Vec::new();
    let mut left = None;
    let mut right = None;
    let mut divergence = None;
    loop {
        actions.push(action);
        action = match action {
            Action::Invoke(Side::Reference) => {
                left = Some(reference(arguments.as_ref().unwrap()));
                iteration.step(Event::Returned { handle: false }).unwrap()
            }
            Action::Invoke(Side::Translated) => {
                right = Some(translated(arguments.as_ref().unwrap()));
                iteration.step(Event::Returned { handle: false }).unwrap()
            }
            Action::Compare => {
                let verdict =
                    judge_words(&mut iteration, left.as_ref().unwrap(), right.as_ref().unwrap());
                divergence = verdict.divergence;
                verdict.action.unwrap()
            }
            Action::Release(_) => iteration.step(Event::Released).unwrap(),
            Action::Stop(_) => break,
        };
    }
    (iteration, actions, divergence, left.zip(right))
}

fn text(s: &str) -> Option<Vec<u8>> {
    Some(s.as_bytes().to_vec())
}

fn report(protocol: &str, host: &str, path: &str) -> UrlReport {
    UrlReport {
        protocol: text(protocol),
        host: text(host),
        hostname: None,
        path: text(path),
        query: None,
        fragment: None,
        port: None,
        authority: None,
        path_only: None,
        search_only: None,
    }
}

/// Runs the parsing harness with the two given results: whether the parse
/// returned a handle, and what the accessors reported.
fn run_parsing(
    data: &[u8],
    reference: (bool, UrlReport),
    translated: (bool, UrlReport),
) -> (Iteration, Vec<Action>, Option<FieldDivergence>) {
    let Begun { mut iteration, action, arguments } = begin_text(data);
    let mut action = action;
    let mut actions = Vec::new();
    let mut divergence = None;
    loop {
        actions.push(action);
        action = match action {
            Action::Invoke(Side::Reference) => {
                assert!(arguments.is_some());
                iteration.step(Event::Returned { handle: reference.0 }).unwrap()
            }
            Action::Invoke(Side::Translated) => {
                iteration.step(Event::Returned { handle: translated.0 }).unwrap()
            }
            Action::Compare => {
                let verdict = judge_reports(&mut iteration, &reference.1, &translated.1);
                divergence = verdict.divergence;
                verdict.action.unwrap()
            }
            Action::Release(_) => iteration.step(Event::Released).unwrap(),
            Action::Stop(_) => break,
        };
    }
    (iteration, actions, divergence)
}

#[test]
fn ordering_four_words_passes() {
    let (iteration, actions, divergence, results) = run_ordering(&[5, 3, 8, 1], sort_range, sort_range);
    let (reference, translated) = results.unwrap();
    assert_eq!(reference, vec![1, 3, 5, 8]);
    assert_eq!(translated, vec![1, 3, 5, 8]);
    assert_eq!(divergence, None);
    assert_eq!(iteration.outcome(), Some(Outcome::Passed));
    assert_eq!(
        actions,
        vec![
            Action::Invoke(Side::Reference),
            Action::Invoke(Side::Translated),
            Action::Compare,
            Action::Stop(Outcome::Passed),
        ]
    );
}

#[test]
fn parsing_a_url_passes() {
    let data = b"http://example.com/path";
    let (iteration, actions, divergence) = run_parsing(
        data,
        (true, report("http", "example.com", "/path")),
        (true, report("http", "example.com", "/path")),
    );
    assert_eq!(divergence, None);
    assert_eq!(iteration.outcome(), Some(Outcome::Passed));
    assert_eq!(
        actions,
        vec![
            Action::Invoke(Side::Reference),
            Action::Invoke(Side::Translated),
            Action::Compare,
            Action::Release(Side::Reference),
            Action::Release(Side::Translated),
            Action::Stop(Outcome::Passed),
        ]
    );
    assert_eq!((iteration.acquired(), iteration.released()), (2, 2));
}

#[test]
fn parsing_begins_with_the_terminated_buffer() {
    let begun = begin_text(b"http://example.com/path");
    assert_eq!(begun.action, Action::Invoke(Side::Reference));
    assert_eq!(begun.arguments, Some(b"http://example.com/path\0".to_vec()));
    assert_eq!(begun.iteration.state(), State::InvokeReference);
}

#[test]
fn empty_bytes_are_rejected() {
    let (iteration, actions, divergence) =
        run_parsing(b"", (true, report("", "", "")), (true, report("", "", "")));
    assert_eq!(actions, vec![Action::Stop(Outcome::Rejected)]);
    assert_eq!(divergence, None);
    assert_eq!(iteration.state(), State::Idle(Outcome::Rejected));
    assert_eq!(iteration.invocations(), 0);
    assert_eq!((iteration.acquired(), iteration.released()), (0, 0));
    assert_eq!(begin_text(b"").arguments, None);
}

#[test]
fn empty_words_are_rejected() {
    let (iteration, actions, divergence, results) = run_ordering(&[], sort_range, sort_range);
    assert_eq!(actions, vec![Action::Stop(Outcome::Rejected)]);
    assert_eq!(divergence, None);
    assert_eq!(results, None);
    assert_eq!(iteration.outcome(), Some(Outcome::Rejected));
    assert_eq!(iteration.invocations(), 0);
    assert_eq!(begin_words(&[]).arguments, None);
}

#[test]
fn a_divergent_ordering_fails_with_the_mismatch() {
    let (iteration, actions, divergence, results) =
        run_ordering(&[5, 3, 8, 1], sort_range, sort_all_but_last);
    let (reference, translated) = results.unwrap();
    assert_eq!(reference, vec![1, 3, 5, 8]);
    assert_eq!(translated, vec![3, 5, 8, 1]);
    assert_eq!(
        divergence,
        Some(WordDivergence { position: 0, reference: Some(1), translated: Some(3) })
    );
    assert_eq!(iteration.outcome(), Some(Outcome::Failed));
    assert_eq!(actions.last(), Some(&Action::Stop(Outcome::Failed)));
}

#[test]
fn a_divergent_parse_fails_after_releasing_both_handles() {
    let (iteration, actions, divergence) = run_parsing(
        b"http://example.com/path",
        (true, report("http", "example.com", "/path")),
        (true, report("http", "example.com", "path")),
    );
    assert_eq!(
        divergence,
        Some(FieldDivergence { accessor: Accessor::Path, reference: text("/path"), translated: text("path") })
    );
    assert_eq!(
        actions[3..],
        [
            Action::Release(Side::Reference),
            Action::Release(Side::Translated),
            Action::Stop(Outcome::Failed),
        ]
    );
    assert_eq!(iteration.outcome(), Some(Outcome::Failed));
    assert_eq!((iteration.acquired(), iteration.released()), (2, 2));
}

#[test]
fn a_failed_parse_on_one_side_leaves_one_handle_to_release() {
    let absent = UrlReport {
        protocol: None,
        host: None,
        hostname: None,
        path: None,
        query: None,
        fragment: None,
        port: None,
        authority: None,
        path_only: None,
        search_only: None,
    };
    let (iteration, actions, divergence) =
        run_parsing(b"::", (false, absent.clone()), (true, report("", "", "")));
    assert_eq!(
        divergence,
        Some(FieldDivergence { accessor: Accessor::Protocol, reference: None, translated: text("") })
    );
    assert_eq!(actions[3..], [Action::Release(Side::Translated), Action::Stop(Outcome::Failed)]);
    assert_eq!((iteration.acquired(), iteration.released()), (1, 1));
    let (iteration, actions, divergence) = run_parsing(b"::", (false, absent.clone()), (false, absent));
    assert_eq!(divergence, None);
    assert_eq!(actions[3..], [Action::Stop(Outcome::Passed)]);
    assert_eq!((iteration.acquired(), iteration.released()), (0, 0));
}

#[test]
fn the_oracle_is_not_heard_out_of_turn() {
    let Begun { mut iteration, .. } = begin_words(&[2, 1]);
    let verdict = judge_words(&mut iteration, &[1, 2], &[2, 1]);
    assert_eq!(verdict.action, None);
    assert_eq!(
        verdict.divergence,
        Some(WordDivergence { position: 0, reference: Some(1), translated: Some(2) })
    );
    assert_eq!(iteration.state(), State::InvokeReference);
}

#[test]
fn wide_words_reach_both_sides_narrowed_alike() {
    let (_, _, divergence, results) =
        run_ordering(&[0x1_0000_0003, u64::MAX, 0x8000_0000, 2], sort_range, sort_range);
    let (reference, translated) = results.unwrap();
    assert_eq!(reference, vec![i32::MIN, -1, 2, 3]);
    assert_eq!(translated, reference);
    assert_eq!(divergence, None);
}
