//! The end-to-end unlock law tying the two subsystems together.
//!
//! A controller that installs the override, feeds every key symbol into the
//! recognizer, and reverts once on the single Complete report, restores the
//! slot it overrode.

use vstd::prelude::*;

use crate::cursor::{install_effect, override_for, revert_effect, CursorModel, SlotModel};
use crate::cursor::lemma_install_then_revert_restores;
use crate::recognizer::{complete_count, run_index, run_results, MatchResult};
use crate::recognizer::{lemma_full_target_completes, lemma_single_complete};

verus! {

/// With the override installed, feeding the complete unlock sequence to a
/// recognizer at its reset position makes it report Complete exactly once —
/// at the final symbol — and leaves it reset; the one revert that this
/// single Complete triggers restores the overridden slot to the image it
/// held before the override was installed.
pub proof fn lemma_unlock_session(
    target: Seq<u32>,
    pre: SlotModel,
    replacement: CursorModel,
    copy_handle: u64,
    mid: SlotModel,
    post: SlotModel,
)
    requires
        target.len() >= 1,
        install_effect(pre, replacement, mid),
        revert_effect(override_for(pre, replacement, copy_handle), mid, post),
    ensures
        complete_count(run_results(target, 0, target)) == 1,
        run_results(target, 0, target)[target.len() - 1] is Complete,
        run_index(target, 0, target) == 0,
        post.kind == pre.kind,
        post.image == pre.image,
{
    lemma_full_target_completes(target);
    let results = run_results(target, 0, target);
    assert(forall|i: int|
        0 <= i < results.len() ==> ((results[i] is Complete) <==> i == results.len() - 1));
    lemma_single_complete(results);
    lemma_install_then_revert_restores(pre, replacement, copy_handle, mid, post);
}

} // verus!
