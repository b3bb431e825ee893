//! Recognizes one fixed ordered sequence of key symbols in a stream of
//! key-press events.
//!
//! The recognizer is a deterministic matcher over positions `0..target.len()`.
//! Consuming the expected symbol advances the position and reports
//! [`MatchResult::Partial`], or reports [`MatchResult::Complete`] and resets
//! when the final symbol is matched. Consuming anything else performs a hard
//! reset: all progress is discarded, and the offending symbol is reconsidered
//! exactly once as the possible start of a fresh match — it reports
//! [`MatchResult::Partial`] if it is the first target symbol and
//! [`MatchResult::NoMatch`] otherwise. The reset is deliberately a hard one:
//! no overlap between the discarded progress and the target's own prefixes is
//! detected, as a re-scan from the current position would.

use vstd::prelude::*;

verus! {

/// Outcome of consuming one key symbol.
#[derive(Clone, Copy, Debug, PartialEq, Eq, Structural)]
pub enum MatchResult {
    /// The symbol matched neither the expected symbol nor the start of the
    /// target; progress was reset.
    NoMatch,
    /// The symbol matched, but the target sequence is not yet complete.
    Partial,
    /// The symbol completed the target sequence; progress was reset.
    Complete,
}

/// Mathematical state of a recognizer: the fixed target sequence and the
/// number of consecutive leading symbols matched since the last reset.
pub ghost struct RecognizerModel {
    pub target: Seq<u32>,
    pub index: int,
}

/// Progress through a fixed target sequence of key symbols.
#[derive(Debug)]
pub struct KeySequenceRecognizer {
    keys: Vec<u32>,
    idx: usize,
}

/// The position after consuming `sym` at position `idx`: the expected symbol
/// advances the position (wrapping to the beginning when it completes the
/// target); any other symbol resets progress and is reconsidered once as the
/// possible start of a fresh match.
pub open spec fn step_index(target: Seq<u32>, idx: int, sym: u32) -> int
    recommends
        0 <= idx < target.len(),
{
    if target[idx] == sym {
        if idx == target.len() - 1 {
            0
        } else {
            idx + 1
        }
    } else if target[0] == sym {
        if target.len() == 1 {
            0
        } else {
            1
        }
    } else {
        0
    }
}

/// The result reported for consuming `sym` at position `idx`.
pub open spec fn step_result(target: Seq<u32>, idx: int, sym: u32) -> MatchResult
    recommends
        0 <= idx < target.len(),
{
    if target[idx] == sym {
        if idx == target.len() - 1 {
            MatchResult::Complete
        } else {
            MatchResult::Partial
        }
    } else if target[0] == sym {
        if target.len() == 1 {
            MatchResult::Complete
        } else {
            MatchResult::Partial
        }
    } else {
        MatchResult::NoMatch
    }
}

/// The position after consuming every symbol of `syms` in order, starting at
/// position `idx`.
pub open spec fn run_index(target: Seq<u32>, idx: int, syms: Seq<u32>) -> int
    decreases syms.len(),
{
    if syms.len() == 0 {
        idx
    } else {
        run_index(target, step_index(target, idx, syms[0]), syms.skip(1))
    }
}

/// The results reported for consuming every symbol of `syms` in order,
/// starting at position `idx`.
pub open spec fn run_results(target: Seq<u32>, idx: int, syms: Seq<u32>) -> Seq<MatchResult>
    decreases syms.len(),
{
    if syms.len() == 0 {
        Seq::empty()
    } else {
        seq![step_result(target, idx, syms[0])] + run_results(
            target,
            step_index(target, idx, syms[0]),
            syms.skip(1),
        )
    }
}

/// How many of the reported results are [`MatchResult::Complete`].
pub open spec fn complete_count(results: Seq<MatchResult>) -> nat
    decreases results.len(),
{
    if results.len() == 0 {
        0
    } else {
        (if results[0] is Complete {
            1nat
        } else {
            0nat
        }) + complete_count(results.skip(1))
    }
}

/// Running the recognizer over a concatenated stream is the same as running
/// it over the first part and then, from the position that part left it at,
/// over the second part.
pub proof fn lemma_run_concat(target: Seq<u32>, idx: int, a: Seq<u32>, b: Seq<u32>)
    ensures
        run_index(target, idx, a + b) == run_index(target, run_index(target, idx, a), b),
        run_results(target, idx, a + b) =~= run_results(target, idx, a) + run_results(
            target,
            run_index(target, idx, a),
            b,
        ),
    decreases a.len(),
{
    if a.len() == 0 {
        assert(a + b =~= b);
    } else {
        let idx1 = step_index(target, idx, a[0]);
        assert((a + b)[0] == a[0]);
        assert((a + b).skip(1) =~= a.skip(1) + b);
        lemma_run_concat(target, idx1, a.skip(1), b);
    }
}

/// Feeding the whole target, starting from the suffix position `k`, matches
/// every remaining symbol: the reports are all Partial until the final
/// symbol, which reports Complete, and the position ends back at 0.
proof fn lemma_suffix_completes(target: Seq<u32>, k: int)
    requires
        0 <= k < target.len(),
    ensures
        run_index(target, k, target.skip(k)) == 0,
        run_results(target, k, target.skip(k)) =~= Seq::new(
            (target.len() - k) as nat,
            |i: int|
                if i == target.len() - k - 1 {
                    MatchResult::Complete
                } else {
                    MatchResult::Partial
                },
        ),
    decreases target.len() - k,
{
    let syms = target.skip(k);
    assert(syms.len() == target.len() - k);
    assert(syms[0] == target[k]);
    if k == target.len() - 1 {
        assert(step_index(target, k, syms[0]) == 0);
        assert(step_result(target, k, syms[0]) == MatchResult::Complete);
        assert(syms.skip(1) =~= Seq::<u32>::empty());
        assert(run_index(target, 0, Seq::<u32>::empty()) == 0);
        assert(run_results(target, 0, Seq::<u32>::empty()) =~= Seq::<MatchResult>::empty());
        assert(run_index(target, k, syms) == 0);
        assert(run_results(target, k, syms) =~= seq![MatchResult::Complete]);
    } else {
        assert(step_index(target, k, syms[0]) == k + 1);
        assert(step_result(target, k, syms[0]) == MatchResult::Partial);
        assert(syms.skip(1) =~= target.skip(k + 1));
        lemma_suffix_completes(target, k + 1);
        assert(run_index(target, k, syms) == run_index(target, k + 1, target.skip(k + 1)));
        assert(run_results(target, k, syms) =~= seq![MatchResult::Partial] + run_results(
            target,
            k + 1,
            target.skip(k + 1),
        ));
    }
}

/// Feeding the complete target sequence to a recognizer at its reset
/// position reports Partial for every symbol but the last, Complete for the
/// last, and leaves the recognizer back at its reset position.
pub proof fn lemma_full_target_completes(target: Seq<u32>)
    requires
        target.len() >= 1,
    ensures
        run_index(target, 0, target) == 0,
        run_results(target, 0, target) =~= Seq::new(
            target.len(),
            |i: int|
                if i == target.len() - 1 {
                    MatchResult::Complete
                } else {
                    MatchResult::Partial
                },
        ),
{
    assert(target.skip(0) =~= target);
    lemma_suffix_completes(target, 0);
}

/// A result sequence whose only Complete stands at its final position
/// reports Complete exactly once.
pub proof fn lemma_single_complete(results: Seq<MatchResult>)
    requires
        results.len() >= 1,
        forall|i: int|
            0 <= i < results.len() ==> ((results[i] is Complete) <==> i == results.len() - 1),
    ensures
        complete_count(results) == 1,
    decreases results.len(),
{
    if results.len() == 1 {
        assert(results[0] is Complete);
        assert(results.skip(1) =~= Seq::<MatchResult>::empty());
        assert(complete_count(Seq::<MatchResult>::empty()) == 0);
    } else {
        let rest = results.skip(1);
        assert(!(results[0] is Complete));
        assert(forall|i: int| 0 <= i < rest.len() ==> rest[i] == results[i + 1]);
        assert(forall|i: int|
            0 <= i < rest.len() ==> ((rest[i] is Complete) <==> i == rest.len() - 1));
        lemma_single_complete(rest);
    }
}

/// A Complete resets the recognizer to its initial state, so a recognizer
/// that has just matched the whole target and is immediately fed the whole
/// target again reports the very same results a second time.
pub proof fn lemma_repeat_after_complete(target: Seq<u32>)
    requires
        target.len() >= 1,
    ensures
        run_index(target, 0, target + target) == 0,
        run_results(target, 0, target + target) =~= run_results(target, 0, target)
            + run_results(target, 0, target),
{
    lemma_full_target_completes(target);
    lemma_run_concat(target, 0, target, target);
}

impl View for KeySequenceRecognizer {
    type V = RecognizerModel;

    closed spec fn view(&self) -> RecognizerModel {
        RecognizerModel { target: self.keys@, index: self.idx as int }
    }
}

impl KeySequenceRecognizer {
    /// The target is nonempty and the current position is a valid index into
    /// it, so the next expected symbol is always defined.
    pub open spec fn well_formed(self) -> bool {
        self@.target.len() >= 1 && 0 <= self@.index < self@.target.len()
    }

    /// Creates a recognizer for the given nonempty target sequence, with no
    /// progress made yet.
    pub fn new(keys: Vec<u32>) -> (r: KeySequenceRecognizer)
        requires
            keys@.len() >= 1,
        ensures
            r@.target == keys@,
            r@.index == 0,
            r.well_formed(),
    {
        KeySequenceRecognizer { keys, idx: 0 }
    }

    /// Consumes one key symbol and reports whether it continued, completed,
    /// or broke the match. Completing the target resets the position to the
    /// beginning, so the recognizer is immediately ready to match again. A
    /// symbol that breaks the match discards all progress and counts once
    /// more as the possible start of a fresh match.
    pub fn consume(&mut self, symbol: u32) -> (r: MatchResult)
        requires
            old(self).well_formed(),
        ensures
            final(self).well_formed(),
            final(self)@.target == old(self)@.target,
            r == step_result(old(self)@.target, old(self)@.index, symbol),
            final(self)@.index == step_index(old(self)@.target, old(self)@.index, symbol),
    {
        if self.keys[self.idx] == symbol {
            if self.idx == self.keys.len() - 1 {
                self.idx = 0;
                MatchResult::Complete
            } else {
                self.idx = self.idx + 1;
                MatchResult::Partial
            }
        } else if self.keys[0] == symbol {
            if self.keys.len() == 1 {
                self.idx = 0;
                MatchResult::Complete
            } else {
                self.idx = 1;
                MatchResult::Partial
            }
        } else {
            self.idx = 0;
            MatchResult::NoMatch
        }
    }

    /// The current position: how many consecutive leading symbols of the
    /// target have matched since the last reset.
    pub fn position(&self) -> (i: usize)
        ensures
            i == self@.index,
    {
        self.idx
    }
}

} // verus!
