use vstd::prelude::*;

use crate::miniblock_updates::MiniblockUpdates;
use crate::records::{record_hashes, TransactionExecutionResult};

verus! {

/// How far a batch has come: the records folded into the batch, the records of
/// the open miniblock, and the open miniblock's number.
pub struct Progress {
    pub batch: Seq<TransactionExecutionResult>,
    pub open: Seq<TransactionExecutionResult>,
    pub number: int,
}

/// One change of a manager: a transaction is applied, or a miniblock is pushed.
pub enum Step {
    Apply { record: TransactionExecutionResult },
    Push,
}

/// The progress after a transaction with the given record was applied.
pub open spec fn after_apply(p: Progress, record: TransactionExecutionResult) -> Progress {
    Progress { batch: p.batch, open: p.open.push(record), number: p.number }
}

/// The progress after a miniblock was pushed.
pub open spec fn after_push(p: Progress) -> Progress {
    Progress { batch: p.batch + p.open, open: Seq::empty(), number: p.number + 1 }
}

pub open spec fn after_step(p: Progress, step: Step) -> Progress {
    match step {
        Step::Apply { record } => after_apply(p, record),
        Step::Push => after_push(p),
    }
}

/// The progress after the steps were made, one after the other.
pub open spec fn after_steps(p: Progress, steps: Seq<Step>) -> Progress
    decreases steps.len(),
{
    if steps.len() == 0 {
        p
    } else {
        after_step(after_steps(p, steps.drop_last()), steps.last())
    }
}

/// How many of the steps apply a transaction.
pub open spec fn applies(steps: Seq<Step>) -> nat
    decreases steps.len(),
{
    if steps.len() == 0 {
        0
    } else if steps.last() is Apply {
        applies(steps.drop_last()) + 1
    } else {
        applies(steps.drop_last())
    }
}

/// How many of the steps push a miniblock.
pub open spec fn pushes(steps: Seq<Step>) -> nat
    decreases steps.len(),
{
    if steps.len() == 0 {
        0
    } else if steps.last() is Push {
        pushes(steps.drop_last()) + 1
    } else {
        pushes(steps.drop_last())
    }
}

/// The records of each miniblock that the steps seal, in the order of sealing.
pub open spec fn sealed_miniblocks(p: Progress, steps: Seq<Step>) -> Seq<
    Seq<TransactionExecutionResult>,
>
    decreases steps.len(),
{
    if steps.len() == 0 {
        Seq::empty()
    } else if steps.last() is Push {
        sealed_miniblocks(p, steps.drop_last()).push(after_steps(p, steps.drop_last()).open)
    } else {
        sealed_miniblocks(p, steps.drop_last())
    }
}

/// The number of each miniblock that the steps seal, in the order of sealing.
pub open spec fn sealed_numbers(p: Progress, steps: Seq<Step>) -> Seq<int>
    decreases steps.len(),
{
    if steps.len() == 0 {
        Seq::empty()
    } else if steps.last() is Push {
        sealed_numbers(p, steps.drop_last()).push(after_steps(p, steps.drop_last()).number)
    } else {
        sealed_numbers(p, steps.drop_last())
    }
}

/// The lists one after the other, as one list.
pub open spec fn concatenation(lists: Seq<Seq<TransactionExecutionResult>>) -> Seq<
    TransactionExecutionResult,
>
    decreases lists.len(),
{
    if lists.len() == 0 {
        Seq::empty()
    } else {
        concatenation(lists.drop_last()) + lists.last()
    }
}

/// Whatever the steps and their order, the batch and the open miniblock together
/// hold as many transactions more as were applied: none is lost, none counted
/// twice. The open miniblock's number has grown by the number of pushes.
pub proof fn lemma_every_application_is_counted(p: Progress, steps: Seq<Step>)
    ensures
        after_steps(p, steps).batch.len() + after_steps(p, steps).open.len() == p.batch.len()
            + p.open.len() + applies(steps),
        after_steps(p, steps).number == p.number + pushes(steps),
    decreases steps.len(),
{
    if steps.len() > 0 {
        lemma_every_application_is_counted(p, steps.drop_last());
    }
}

/// The miniblocks that are sealed have consecutive numbers that start with the
/// number of the miniblock that was open first: a strictly increasing sequence.
pub proof fn lemma_sealed_numbers_increase(p: Progress, steps: Seq<Step>)
    ensures
        sealed_numbers(p, steps).len() == pushes(steps),
        forall|k: int|
            0 <= k < sealed_numbers(p, steps).len() ==> #[trigger] sealed_numbers(p, steps)[k]
                == p.number + k,
        forall|j: int, k: int|
            0 <= j < k < sealed_numbers(p, steps).len() ==> sealed_numbers(p, steps)[j]
                < sealed_numbers(p, steps)[k],
    decreases steps.len(),
{
    if steps.len() > 0 {
        lemma_sealed_numbers_increase(p, steps.drop_last());
        lemma_every_application_is_counted(p, steps.drop_last());
    }
}

/// After any steps the batch holds what it held before, followed by the records
/// of each sealed miniblock, in the order of sealing.
pub proof fn lemma_batch_is_concatenation(p: Progress, steps: Seq<Step>)
    ensures
        after_steps(p, steps).batch == p.batch + concatenation(sealed_miniblocks(p, steps)),
    decreases steps.len(),
{
    if steps.len() == 0 {
        assert(p.batch =~= p.batch + concatenation(sealed_miniblocks(p, steps)));
    } else {
        let before = steps.drop_last();
        lemma_batch_is_concatenation(p, before);
        if steps.last() is Push {
            let sealed = sealed_miniblocks(p, before);
            let open = after_steps(p, before).open;
            assert(sealed.push(open).drop_last() =~= sealed);
            assert(after_steps(p, steps).batch =~= p.batch + concatenation(
                sealed_miniblocks(p, steps),
            ));
        }
    }
}

/// Two miniblocks with the same number, timestamp and previous hash, whose
/// transactions have the same hashes in the same order, have the same hash: the
/// hash depends on nothing else, so computing it again gives it again.
pub proof fn lemma_hash_depends_on_content_only(a: MiniblockUpdates, b: MiniblockUpdates)
    requires
        a.number == b.number,
        a.timestamp == b.timestamp,
        a.prev_block_hash.bytes@ == b.prev_block_hash.bytes@,
        record_hashes(a.executed_transactions@) == record_hashes(b.executed_transactions@),
    ensures
        a.hash_spec() == b.hash_spec(),
{
}

} // verus!
