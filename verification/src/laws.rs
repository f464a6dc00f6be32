//! Laws of the allocator, proved over its mathematical model.

use vstd::prelude::*;

use crate::context::AllocatorModel;

verus! {

/// Law: stepping one issuing counter never changes another. The three
/// issuing counters and the last-applied marker are fully independent.
pub proof fn lemma_counters_independent(m: AllocatorModel, v: nat)
    ensures
        m.with_file_id(v).mem_seq == m.mem_seq,
        m.with_file_id(v).last_seq == m.last_seq,
        m.with_file_id(v).tsfamily_id == m.tsfamily_id,
        m.with_mem_seq(v).file_id == m.file_id,
        m.with_mem_seq(v).last_seq == m.last_seq,
        m.with_mem_seq(v).tsfamily_id == m.tsfamily_id,
        m.with_tsfamily_id(v).file_id == m.file_id,
        m.with_tsfamily_id(v).mem_seq == m.mem_seq,
        m.with_tsfamily_id(v).last_seq == m.last_seq,
        m.with_last_seq(v).file_id == m.file_id,
        m.with_last_seq(v).mem_seq == m.mem_seq,
        m.with_last_seq(v).tsfamily_id == m.tsfamily_id,
{
}

/// In a chain of allocator states where each state is the previous one with
/// its file-id counter advanced by one, the counter at step `k` is the
/// initial counter plus `k`.
proof fn lemma_file_id_after_steps(models: Seq<AllocatorModel>, k: int)
    requires
        0 <= k < models.len(),
        forall|i: int|
            0 <= i < models.len() - 1 ==> models[i + 1] == (#[trigger] models[i]).with_file_id(
                models[i].file_id + 1,
            ),
    ensures
        models[k].file_id == models[0].file_id + k,
    decreases k,
{
    if k > 0 {
        lemma_file_id_after_steps(models, k - 1);
        assert(models[k] == models[k - 1].with_file_id(models[k - 1].file_id + 1));
    }
}

/// Law: successive `file_id_next` calls return consecutive values. Given
/// the chain of allocator states that such calls produce, and the value
/// each call returned (the counter it observed), the call at step `i`
/// returns the initial counter plus `i`; in particular no two calls ever
/// return the same identifier.
pub proof fn lemma_file_id_next_returns_dense(models: Seq<AllocatorModel>, returned: Seq<nat>)
    requires
        models.len() == returned.len() + 1,
        forall|i: int| 0 <= i < returned.len() ==> #[trigger] returned[i] == models[i].file_id,
        forall|i: int|
            0 <= i < returned.len() ==> models[i + 1] == (#[trigger] models[i]).with_file_id(
                models[i].file_id + 1,
            ),
    ensures
        forall|i: int|
            0 <= i < returned.len() ==> #[trigger] returned[i] == models[0].file_id + i,
        forall|i: int, j: int|
            0 <= i < returned.len() && 0 <= j < returned.len() && i != j ==> returned[i]
                != returned[j],
{
    assert forall|i: int|
        0 <= i < returned.len() implies #[trigger] returned[i] == models[0].file_id + i by {
        lemma_file_id_after_steps(models, i);
    }
}

/// Law: on a freshly created allocator, `n` successive `file_id_next` calls
/// return exactly the identifiers `0, 1, ..., n - 1`: no duplicates and no
/// gaps. Activity on the other counters in between is irrelevant, since
/// they are independent of the file-id counter.
pub proof fn lemma_file_id_next_dense_from_fresh(models: Seq<AllocatorModel>, returned: Seq<nat>)
    requires
        models.len() == returned.len() + 1,
        models[0] == AllocatorModel::fresh(),
        forall|i: int| 0 <= i < returned.len() ==> #[trigger] returned[i] == models[i].file_id,
        forall|i: int|
            0 <= i < returned.len() ==> models[i + 1] == (#[trigger] models[i]).with_file_id(
                models[i].file_id + 1,
            ),
    ensures
        forall|i: int| 0 <= i < returned.len() ==> #[trigger] returned[i] == i,
        forall|i: int, j: int|
            0 <= i < returned.len() && 0 <= j < returned.len() && i != j ==> returned[i]
                != returned[j],
{
    lemma_file_id_next_returns_dense(models, returned);
}

/// Law: reading the last-applied-sequence marker right after setting it to
/// `v`, with no intervening writer, yields exactly `v`.
pub proof fn lemma_set_last_seq_then_current(m: AllocatorModel, v: u64)
    ensures
        m.with_last_seq(v as nat).last_seq == v,
{
}

/// Law: reading the file-id counter right after overwriting it with `v`,
/// with no intervening writer, yields exactly `v`; the same holds of the
/// family-id counter.
pub proof fn lemma_set_then_current(m: AllocatorModel, v: nat)
    ensures
        m.with_file_id(v).file_id == v,
        m.with_tsfamily_id(v).tsfamily_id == v,
{
}

/// Law: rebasing past a watermark `w` when the file-id counter is at most
/// `w` raises the counter to exactly `w + 1`, so the next issued identifier
/// is exactly `w + 1`.
pub proof fn lemma_rebase_low_then_next(m: AllocatorModel, w: nat)
    requires
        m.file_id <= w,
    ensures
        m.rebased_past(w).file_id == w + 1,
{
}

/// Law: rebasing past a watermark `w` when the file-id counter is already
/// above `w` changes nothing, so the next issued identifier is the counter
/// value itself.
pub proof fn lemma_rebase_high_then_next(m: AllocatorModel, w: nat)
    requires
        m.file_id > w,
    ensures
        m.rebased_past(w) == m,
{
}

/// Law: a rebase never decreases the file-id counter, always leaves it
/// strictly above the watermark, and never touches the other counters.
pub proof fn lemma_rebase_monotone(m: AllocatorModel, w: nat)
    ensures
        m.rebased_past(w).file_id >= m.file_id,
        m.rebased_past(w).file_id > w,
        m.rebased_past(w).mem_seq == m.mem_seq,
        m.rebased_past(w).last_seq == m.last_seq,
        m.rebased_past(w).tsfamily_id == m.tsfamily_id,
{
}

} // verus!
