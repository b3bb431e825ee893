use cursor_override::recognizer::{KeySequenceRecognizer, MatchResult};

const A: u32 = 1;
const B: u32 = 2;
const C: u32 = 3;
const X: u32 = 99;

fn recognizer_abc() -> KeySequenceRecognizer {
    KeySequenceRecognizer::new(vec![A, B, C])
}

#[test]
fn full_target_yields_partials_then_complete() {
    let mut r = recognizer_abc();
    assert_eq!(r.consume(A), MatchResult::Partial);
    assert_eq!(r.consume(B), MatchResult::Partial);
    assert_eq!(r.consume(C), MatchResult::Complete);
    assert_eq!(r.position(), 0);
}

#[test]
fn complete_resets_so_rerun_repeats_results() {
    let mut r = recognizer_abc();
    for _round in 0..2 {
        assert_eq!(r.consume(A), MatchResult::Partial);
        assert_eq!(r.consume(B), MatchResult::Partial);
        assert_eq!(r.consume(C), MatchResult::Complete);
        assert_eq!(r.position(), 0);
    }
}

#[test]
fn mismatch_resets_and_match_can_resume() {
    let mut r = recognizer_abc();
    assert_eq!(r.consume(A), MatchResult::Partial);
    assert_eq!(r.consume(B), MatchResult::Partial);
    assert_eq!(r.consume(X), MatchResult::NoMatch);
    assert_eq!(r.position(), 0);
    assert_eq!(r.consume(A), MatchResult::Partial);
    assert_eq!(r.consume(B), MatchResult::Partial);
    assert_eq!(r.consume(C), MatchResult::Complete);
}

#[test]
fn repeated_leading_symbol_restarts_as_fresh_partial() {
    let mut r = recognizer_abc();
    assert_eq!(r.consume(A), MatchResult::Partial);
    assert_eq!(r.consume(A), MatchResult::Partial);
    assert_eq!(r.consume(B), MatchResult::Partial);
    assert_eq!(r.consume(C), MatchResult::Complete);
}

#[test]
fn overlapping_prefix_is_not_specially_detected() {
    // Target A B A B C fed A B A B A B C: the fifth symbol resets progress to
    // a fresh match at the first position instead of keeping the overlap, so
    // the stream never completes.
    let mut r = KeySequenceRecognizer::new(vec![A, B, A, B, C]);
    let stream = [A, B, A, B, A, B, C];
    let mut results: Vec<MatchResult> = Vec::new();
    for s in stream {
        results.push(r.consume(s));
    }
    assert_eq!(
        results,
        vec![
            MatchResult::Partial,
            MatchResult::Partial,
            MatchResult::Partial,
            MatchResult::Partial,
            MatchResult::Partial,
            MatchResult::Partial,
            MatchResult::NoMatch,
        ]
    );
}

#[test]
fn single_symbol_target_completes_at_once() {
    let mut r = KeySequenceRecognizer::new(vec![A]);
    assert_eq!(r.consume(X), MatchResult::NoMatch);
    assert_eq!(r.consume(A), MatchResult::Complete);
    assert_eq!(r.position(), 0);
    assert_eq!(r.consume(A), MatchResult::Complete);
}
