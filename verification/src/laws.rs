//! What holds of every analysis, stated over `step` and `run`.

use crate::bucket_id::BucketId;
use crate::bucket_tracker::bucket_id_limit;
use crate::bucket_tracker::BucketsView;
use crate::bucket_tracker::LookupError;
use crate::instruction::Instruction;
use crate::resource::ResourceAddress;
use crate::resource::SpecifierView;
use crate::trusted_worktop::run;
use crate::trusted_worktop::step;
use crate::trusted_worktop::trusted_with;
use crate::trusted_worktop::trusted_with_nothing;
use crate::trusted_worktop::untrusted;
use crate::trusted_worktop::lemma_run_error_sticks;
use crate::trusted_worktop::AnalysisView;
use crate::worktop_content_tracker::distinct_addresses;
use crate::worktop_content_tracker::lemma_position_found;
use crate::worktop_content_tracker::position;
use crate::worktop_content_tracker::WorktopView;
use vstd::prelude::*;

verus! {

/// The state after the first `k + 1` instructions is the state after the
/// first `k`, and one step.
pub proof fn lemma_run_unfold(state: AnalysisView, instructions: Seq<Instruction>, k: int)
    requires
        0 <= k < instructions.len(),
    ensures
        run(state, instructions.take(k + 1)) == match run(state, instructions.take(k)) {
            Ok(before) => step(before, instructions[k], before.records.len() as int),
            Err(e) => Err(e),
        },
{
    assert(instructions.take(k + 1).drop_last() =~= instructions.take(k));
    assert(instructions.take(k + 1).last() == instructions[k]);
}

/// Where a manifest is analysed without an error, so is each of its
/// beginnings.
pub proof fn lemma_run_prefix_ok(state: AnalysisView, instructions: Seq<Instruction>, k: int)
    requires
        0 <= k <= instructions.len(),
        run(state, instructions) is Ok,
    ensures
        run(state, instructions.take(k)) is Ok,
{
    if run(state, instructions.take(k)) is Err {
        lemma_run_error_sticks(state, instructions, k);
    }
}

/// An instruction that is analysed adds exactly one verdict, after those
/// that were there.
pub proof fn law_one_verdict_per_instruction(
    state: AnalysisView,
    instruction: Instruction,
    index: int,
)
    ensures
        step(state, instruction, index) matches Ok(after) ==> after.records.len()
            == state.records.len() + 1 && after.records.drop_last() == state.records,
{
    if let Ok(after) = step(state, instruction, index) {
        assert(after.records.drop_last() =~= state.records);
    }
}

/// After every instruction of a manifest there are as many verdicts as
/// instructions analysed so far, and the verdicts given earlier stay as they
/// are: the verdicts after the first `k` instructions are the first `k` of
/// the verdicts of the whole manifest.
pub proof fn law_verdicts_align_with_instructions(
    state: AnalysisView,
    instructions: Seq<Instruction>,
)
    ensures
        run(state, instructions) matches Ok(after) ==> {
            &&& after.records.len() == state.records.len() + instructions.len()
            &&& forall|k: int|
                0 <= k <= instructions.len() ==> ((#[trigger] run(
                    state,
                    instructions.take(k),
                )) matches Ok(mid) && mid.records == after.records.take(
                    state.records.len() + k,
                ))
        },
    decreases instructions.len(),
{
    if let Ok(after) = run(state, instructions) {
        let base = state.records.len() as int;
        if instructions.len() == 0 {
            assert forall|k: int| 0 <= k <= instructions.len() implies (#[trigger] run(
                state,
                instructions.take(k),
            )) matches Ok(mid) && mid.records == after.records.take(base + k) by {
                assert(instructions.take(k) =~= instructions);
                assert(after.records.take(base + k) =~= after.records);
            }
        } else {
            let shorter = instructions.drop_last();
            law_verdicts_align_with_instructions(state, shorter);
            let before = run(state, shorter)->Ok_0;
            assert forall|k: int| 0 <= k <= instructions.len() implies (#[trigger] run(
                state,
                instructions.take(k),
            )) matches Ok(mid) && mid.records == after.records.take(base + k) by {
                if k == instructions.len() {
                    assert(instructions.take(k) =~= instructions);
                    assert(after.records.take(base + k) =~= after.records);
                } else {
                    assert(instructions.take(k) =~= shorter.take(k));
                    let mid = run(state, shorter.take(k))->Ok_0;
                    assert(mid.records == before.records.take(base + k));
                    assert(before.records.take(base + k) =~= after.records.take(base + k));
                }
            }
        }
    }
}

/// A manifest of instructions that only assert, or only handle proofs, the
/// auth zone or address reservations, is analysed without an error; each of
/// its verdicts is trusted and names no resources; and after each
/// instruction both trackers are as they were at the start. From the start
/// of a transaction both therefore stay in tracked mode throughout.
pub proof fn law_pure_instructions_are_trusted(
    state: AnalysisView,
    instructions: Seq<Instruction>,
)
    requires
        forall|i: int| 0 <= i < instructions.len() ==> (#[trigger] instructions[i]).is_pure(),
    ensures
        run(state, instructions) matches Ok(after) && {
            &&& after.worktop == state.worktop
            &&& after.buckets == state.buckets
            &&& after.records.len() == state.records.len() + instructions.len()
            &&& forall|i: int|
                0 <= i < instructions.len() ==> #[trigger] after.records[state.records.len() + i]
                    == trusted_with_nothing()
        },
        forall|k: int|
            0 <= k <= instructions.len() ==> ((#[trigger] run(state, instructions.take(k))) matches Ok(
                mid,
            ) && mid.worktop == state.worktop && mid.buckets == state.buckets),
    decreases instructions.len(),
{
    if instructions.len() == 0 {
        assert forall|k: int| 0 <= k <= instructions.len() implies (#[trigger] run(
            state,
            instructions.take(k),
        )) matches Ok(mid) && mid.worktop == state.worktop && mid.buckets == state.buckets by {
            assert(instructions.take(k) =~= instructions);
        }
    } else {
        let shorter = instructions.drop_last();
        assert forall|i: int| 0 <= i < shorter.len() implies (#[trigger] shorter[i]).is_pure() by {
            assert(shorter[i] == instructions[i]);
        }
        law_pure_instructions_are_trusted(state, shorter);
        let before = run(state, shorter)->Ok_0;
        assert(instructions.last().is_pure());
        let after = run(state, instructions)->Ok_0;
        assert forall|i: int| 0 <= i < instructions.len() implies #[trigger] after.records[state.records.len()
            + i] == trusted_with_nothing() by {
            if i < shorter.len() {
                assert(after.records[state.records.len() + i] == before.records[state.records.len()
                    + i]);
            }
        }
        assert forall|k: int| 0 <= k <= instructions.len() implies (#[trigger] run(
            state,
            instructions.take(k),
        )) matches Ok(mid) && mid.worktop == state.worktop && mid.buckets == state.buckets by {
            if k == instructions.len() {
                assert(instructions.take(k) =~= instructions);
            } else {
                assert(instructions.take(k) =~= shorter.take(k));
            }
        }
    }
}

/// Giving the worktop up twice is giving it up once, and nothing that is
/// done to a worktop in untracked mode brings it back: it stays in untracked
/// mode, with nothing known, whatever is put, taken or cleared.
pub proof fn law_worktop_untracked_is_permanent(
    worktop: WorktopView,
    resources: SpecifierView,
    address: Seq<u8>,
)
    ensures
        worktop.untrack().untracked,
        worktop.untrack().untrack() == worktop.untrack(),
        worktop.untracked ==> {
            &&& worktop.put(resources) == worktop
            &&& worktop.put_outcome(resources) is Ok
            &&& !worktop.can_take(resources)
            &&& worktop.take(resources) == worktop
            &&& worktop.without(address).untracked
            &&& worktop.cleared().untracked
        },
{
}

/// Giving the buckets up twice is giving them up once, and nothing that is
/// done to the buckets in untracked mode brings them back: no bucket is
/// recorded, none is held, and consuming one gives nothing and is no error.
pub proof fn law_buckets_untracked_is_permanent(
    buckets: BucketsView,
    content: Option<SpecifierView>,
    id: u32,
)
    ensures
        buckets.untrack().untracked,
        buckets.untrack().untrack() == buckets.untrack(),
        buckets.untracked ==> {
            &&& buckets.with_new_bucket(content) == buckets
            &&& !buckets.holds(id)
            &&& buckets.consume(id) == buckets
            &&& buckets.consume_outcome(id) == Ok::<
                Option<SpecifierView>,
                LookupError,
            >(None)
        },
{
}

/// A tracker that is in untracked mode before an instruction is in
/// untracked mode after it.
pub proof fn law_untracked_is_permanent_step(
    state: AnalysisView,
    instruction: Instruction,
    index: int,
)
    ensures
        step(state, instruction, index) matches Ok(after) ==> {
            &&& state.worktop.untracked ==> after.worktop.untracked
            &&& state.buckets.untracked ==> after.buckets.untracked
        },
{
}

/// A tracker that is in untracked mode after the first `i` instructions of
/// a manifest is in untracked mode after the first `j`, for every `j` from
/// `i` on.
pub proof fn law_untracked_is_permanent(
    state: AnalysisView,
    instructions: Seq<Instruction>,
    i: int,
    j: int,
)
    requires
        0 <= i <= j <= instructions.len(),
        run(state, instructions.take(j)) is Ok,
    ensures
        run(state, instructions.take(i)) matches Ok(earlier) && run(
            state,
            instructions.take(j),
        ) matches Ok(later) && {
            &&& earlier.worktop.untracked ==> later.worktop.untracked
            &&& earlier.buckets.untracked ==> later.buckets.untracked
        },
    decreases j - i,
{
    if i < j {
        lemma_run_unfold(state, instructions, j - 1);
        let before = run(state, instructions.take(j - 1))->Ok_0;
        law_untracked_is_permanent(state, instructions, i, j - 1);
        law_untracked_is_permanent_step(
            before,
            instructions[j - 1],
            before.records.len() as int,
        );
    }
}

/// What the worktop holds of each resource is the same where an entry is
/// taken out of the list and put at its end.
proof fn lemma_requeue_keeps_quantities(entries: Seq<SpecifierView>, i: int, address: Seq<u8>)
    requires
        distinct_addresses(entries),
        0 <= i < entries.len(),
    ensures
        distinct_addresses(entries.remove(i).push(entries[i])),
        (WorktopView { untracked: false, entries: entries.remove(i).push(entries[i]) }).quantity_of(
            address,
        ) == (WorktopView { untracked: false, entries }).quantity_of(address),
{
    let moved = entries.remove(i).push(entries[i]);
    let last = moved.len() - 1;
    assert forall|a: int, b: int| 0 <= a < b < moved.len() implies moved[a].address()
        != moved[b].address() by {
        let a_was = if a < i { a } else { a + 1 };
        if b == last {
            assert(moved[a] == entries[a_was]);
            assert(a_was != i);
            if a_was < i {
                assert(entries[a_was].address() != entries[i].address());
            } else {
                assert(entries[i].address() != entries[a_was].address());
            }
        } else {
            let b_was = if b < i { b } else { b + 1 };
            assert(moved[a] == entries[a_was]);
            assert(moved[b] == entries[b_was]);
            assert(entries[a_was].address() != entries[b_was].address());
        }
    }
    match position(entries, address) {
        Some(j) => {
            if j == i {
                lemma_position_found(moved, address, last);
            } else {
                let j_now = if j < i { j } else { j - 1 };
                assert(moved[j_now] == entries[j]);
                lemma_position_found(moved, address, j_now);
            }
        },
        None => {
            if position(moved, address) is Some {
                let k = position(moved, address)->0;
                let k_was = if k == last { i } else if k < i { k } else { k + 1 };
                assert(moved[k] == entries[k_was]);
                assert(entries[k_was].address() == address);
            }
        },
    }
}

/// Taking all that a worktop in tracked mode holds of a resource and
/// putting it back leaves the worktop holding of every resource what it held
/// before.
pub proof fn law_worktop_take_all_then_put_restores(worktop: WorktopView, address: Seq<u8>)
    requires
        worktop.wf(),
        !worktop.untracked,
        worktop.quantity_of(address) is Some,
    ensures
        ({
            let taken = worktop.quantity_of(address)->0;
            let after = worktop.without(address).put(taken);
            &&& worktop.without(address).put_outcome(taken) is Ok
            &&& !after.untracked
            &&& after.wf()
            &&& forall|other: Seq<u8>| #[trigger]
                after.quantity_of(other) == worktop.quantity_of(other)
        }),
{
    let entries = worktop.entries;
    let i = position(entries, address)->0;
    let taken = entries[i];
    let held = worktop.without(address);
    assert(held.entries == entries.remove(i));
    assert(position(held.entries, taken.address()) is None) by {
        if position(held.entries, taken.address()) is Some {
            let k = position(held.entries, taken.address())->0;
            let k_was = if k < i { k } else { k + 1 };
            assert(entries.remove(i)[k] == entries[k_was]);
            if k_was < i {
                assert(entries[k_was].address() != entries[i].address());
            } else {
                assert(entries[i].address() != entries[k_was].address());
            }
        }
    }
    let after = held.put(taken);
    assert(after.entries == entries.remove(i).push(taken));
    lemma_requeue_keeps_quantities(entries, i, address);
    assert forall|other: Seq<u8>| #[trigger]
        after.quantity_of(other) == worktop.quantity_of(other) by {
        lemma_requeue_keeps_quantities(entries, i, other);
    }
}

/// Taking all of a resource from the worktop and returning the bucket at
/// once leaves the worktop holding of every resource what it held before,
/// and the bucket gone. Both instructions are trusted, and the verdict on
/// the return names exactly what was taken.
///
/// This is so where the worktop holds the resource, both trackers are in
/// tracked mode, and a handle is left for the bucket.
pub proof fn law_take_all_then_return_restores_worktop(
    state: AnalysisView,
    resource_address: ResourceAddress,
)
    requires
        state.wf(),
        !state.worktop.untracked,
        !state.buckets.untracked,
        state.buckets.next_id < bucket_id_limit(),
        state.worktop.quantity_of(resource_address@) is Some,
    ensures
        ({
            let taken = state.worktop.quantity_of(resource_address@)->0;
            let bucket_id = BucketId(state.buckets.next_id as u32);
            let n = state.records.len() as int;
            &&& step(state, Instruction::TakeAllFromWorktop { resource_address }, n) matches Ok(
                held,
            )
            &&& held.records.last() == trusted_with(taken)
            &&& step(held, Instruction::ReturnToWorktop { bucket_id }, n + 1) matches Ok(after)
            &&& after.records.last() == trusted_with(taken)
            &&& !after.worktop.untracked
            &&& forall|address: Seq<u8>| #[trigger]
                after.worktop.quantity_of(address) == state.worktop.quantity_of(address)
            &&& after.buckets.buckets == state.buckets.buckets
        }),
{
    let taken = state.worktop.quantity_of(resource_address@)->0;
    let id = state.buckets.next_id as u32;
    let bucket_id = BucketId(id);
    let n = state.records.len() as int;
    let entries = state.worktop.entries;
    let i = position(entries, resource_address@)->0;
    let held = step(state, Instruction::TakeAllFromWorktop { resource_address }, n)->Ok_0;
    assert(held.worktop.entries == entries.remove(i));
    assert(held.buckets.buckets == state.buckets.buckets.insert(id, Some(taken)));
    // Nothing is left of the resource, so the returned quantity is added at the end.
    assert(position(held.worktop.entries, resource_address@) is None) by {
        if position(held.worktop.entries, resource_address@) is Some {
            let k = position(held.worktop.entries, resource_address@)->0;
            let k_was = if k < i { k } else { k + 1 };
            assert(entries.remove(i)[k] == entries[k_was]);
            if k_was < i {
                assert(entries[k_was].address() != entries[i].address());
            } else {
                assert(entries[i].address() != entries[k_was].address());
            }
        }
    }
    let after = step(held, Instruction::ReturnToWorktop { bucket_id }, n + 1)->Ok_0;
    assert(after.worktop.entries == entries.remove(i).push(taken));
    assert forall|address: Seq<u8>| #[trigger]
        after.worktop.quantity_of(address) == state.worktop.quantity_of(address) by {
        lemma_requeue_keeps_quantities(entries, i, address);
    }
    assert(after.buckets.buckets =~= state.buckets.buckets) by {
        assert(!state.buckets.buckets.contains_key(id));
    }
}

/// A call of a method of a vault puts both trackers in untracked mode, and
/// its verdict is untrusted and names no resources.
pub proof fn law_direct_vault_call_untracks_both(state: AnalysisView)
    ensures
        step(state, Instruction::CallDirectVaultMethod, state.records.len() as int) matches Ok(
            after,
        ) && after.worktop.untracked && after.buckets.untracked && after.records.last()
            == untrusted(),
{
}

/// With both trackers in untracked mode, an instruction that takes from the
/// worktop or returns to it is analysed without an error, and its verdict is
/// untrusted and names no resources.
pub proof fn law_take_and_return_untrusted_once_untracked(
    state: AnalysisView,
    instruction: Instruction,
)
    requires
        state.worktop.untracked,
        state.buckets.untracked,
        instruction.is_take_or_return(),
    ensures
        step(state, instruction, state.records.len() as int) matches Ok(after) && after.records.last()
            == untrusted() && after.worktop.untracked && after.buckets.untracked,
{
}

/// In a manifest that is analysed without an error and whose instruction
/// `k` calls a method of a vault: the verdict on that instruction is
/// untrusted and names no resources; both trackers are in untracked mode
/// after it and after every later instruction; and the verdict on every
/// later instruction that takes from the worktop or returns to it is
/// untrusted and names no resources.
pub proof fn law_after_direct_vault_call(
    state: AnalysisView,
    instructions: Seq<Instruction>,
    k: int,
)
    requires
        0 <= k < instructions.len(),
        instructions[k] == Instruction::CallDirectVaultMethod,
        run(state, instructions) is Ok,
    ensures
        ({
            let after = run(state, instructions)->Ok_0;
            let base = state.records.len() as int;
            &&& after.records.len() == base + instructions.len()
            &&& after.records[base + k] == untrusted()
            &&& forall|m: int|
                k < m <= instructions.len() ==> ((#[trigger] run(
                    state,
                    instructions.take(m),
                )) matches Ok(mid) && mid.worktop.untracked && mid.buckets.untracked)
            &&& forall|j: int|
                k < j < instructions.len() && (#[trigger] instructions[j]).is_take_or_return()
                    ==> after.records[base + j] == untrusted()
        }),
{
    let after = run(state, instructions)->Ok_0;
    let base = state.records.len() as int;
    law_verdicts_align_with_instructions(state, instructions);
    // The call itself.
    lemma_run_unfold(state, instructions, k);
    let at_call = run(state, instructions.take(k))->Ok_0;
    let past_call = run(state, instructions.take(k + 1))->Ok_0;
    law_verdicts_align_with_instructions(state, instructions.take(k));
    assert(at_call.records.len() == base + k) by {
        assert(instructions.take(k).len() == k);
    }
    assert(past_call.records == after.records.take(base + k + 1));
    assert(after.records[base + k] == past_call.records[base + k]);
    // Every state after it.
    assert forall|m: int| k < m <= instructions.len() implies (#[trigger] run(
        state,
        instructions.take(m),
    )) matches Ok(mid) && mid.worktop.untracked && mid.buckets.untracked by {
        lemma_run_prefix_ok(state, instructions, m);
        law_untracked_is_permanent(state, instructions, k + 1, m);
    }
    // Every later take or return.
    assert forall|j: int|
        k < j < instructions.len() && (#[trigger] instructions[j]).is_take_or_return() implies after.records[base
        + j] == untrusted() by {
        lemma_run_unfold(state, instructions, j);
        let before = run(state, instructions.take(j))->Ok_0;
        let next = run(state, instructions.take(j + 1))->Ok_0;
        assert(run(state, instructions.take(j)) is Ok);
        assert(before.worktop.untracked && before.buckets.untracked);
        law_verdicts_align_with_instructions(state, instructions.take(j));
        assert(before.records.len() == base + j) by {
            assert(instructions.take(j).len() == j);
        }
        law_take_and_return_untrusted_once_untracked(before, instructions[j]);
        assert(run(state, instructions.take(j + 1)) is Ok);
        assert(next.records == after.records.take(base + j + 1));
        assert(after.records[base + j] == next.records[base + j]);
    }
}

} // verus!
