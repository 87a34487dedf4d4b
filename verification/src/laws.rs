use vstd::prelude::*;
use crate::handler::{outcome_of, run_failed_ids, run_model, run_outcomes, MessageHandler};
use crate::message::{Message, Outcome};
use crate::report::{failed_ids_of, failure_count, success_count};

verus! {

/// Every message of the batch carries a reportable identifier and every
/// attempt succeeds in the state its predecessors left.
pub open spec fn all_messages_succeed<H: MessageHandler>(
    mdl: H::Model,
    batch: Seq<Message>,
) -> bool {
    forall|i: int|
        0 <= i < batch.len() ==> (#[trigger] batch[i]).reportable() && H::succeeds(
            run_model::<H>(mdl, batch.take(i)),
            batch[i],
        )
}

/// Every message of a batch is classified exactly once: the run yields
/// one outcome per message, each one either a success or a failure.
pub proof fn lemma_each_message_classified<H: MessageHandler>(mdl: H::Model, batch: Seq<Message>)
    ensures
        run_outcomes::<H>(mdl, batch).len() == batch.len(),
        success_count(run_outcomes::<H>(mdl, batch)) + failure_count(run_outcomes::<H>(mdl, batch))
            == batch.len(),
    decreases batch.len(),
{
    if batch.len() > 0 {
        lemma_each_message_classified::<H>(mdl, batch.drop_last());
        let outs = run_outcomes::<H>(mdl, batch);
        assert(outs.drop_last() =~= run_outcomes::<H>(mdl, batch.drop_last()));
    }
}

/// The outcome of the message at position `i` is decided at its own
/// attempt, in the state its predecessors left: later messages cannot
/// change it.
pub proof fn lemma_outcome_at<H: MessageHandler>(mdl: H::Model, batch: Seq<Message>, i: int)
    requires
        0 <= i < batch.len(),
    ensures
        run_outcomes::<H>(mdl, batch)[i] == outcome_of::<H>(
            run_model::<H>(mdl, batch.take(i)),
            batch[i],
        ),
    decreases batch.len(),
{
    if i == batch.len() - 1 {
        assert(batch.take(i) =~= batch.drop_last());
        lemma_each_message_classified::<H>(mdl, batch.drop_last());
    } else {
        lemma_outcome_at::<H>(mdl, batch.drop_last(), i);
        lemma_each_message_classified::<H>(mdl, batch.drop_last());
        assert(batch.drop_last().take(i) =~= batch.take(i));
        assert(batch.drop_last()[i] == batch[i]);
    }
}

/// When every message parses and every downstream write succeeds, the
/// report is empty: no failure is fabricated for a clean batch.
pub proof fn lemma_clean_batch_empty_report<H: MessageHandler>(mdl: H::Model, batch: Seq<Message>)
    requires
        all_messages_succeed::<H>(mdl, batch),
    ensures
        run_failed_ids::<H>(mdl, batch) == Seq::<Seq<char>>::empty(),
        failure_count(run_outcomes::<H>(mdl, batch)) == 0,
    decreases batch.len(),
{
    if batch.len() > 0 {
        let prefix = batch.drop_last();
        assert forall|i: int| 0 <= i < prefix.len() implies (#[trigger] prefix[i]).reportable()
            && H::succeeds(run_model::<H>(mdl, prefix.take(i)), prefix[i]) by {
            assert(prefix[i] == batch[i]);
            assert(prefix.take(i) =~= batch.take(i));
        }
        lemma_clean_batch_empty_report::<H>(mdl, prefix);
        assert(batch.take(batch.len() - 1) =~= prefix);
        assert(batch[batch.len() - 1] == batch.last());
        let outs = run_outcomes::<H>(mdl, batch);
        assert(outs.drop_last() =~= run_outcomes::<H>(mdl, prefix));
        assert(H::succeeds(run_model::<H>(mdl, prefix), batch.last()));
        assert(outs.last() == Outcome::Success);
        assert(run_failed_ids::<H>(mdl, batch) =~= Seq::<Seq<char>>::empty());
    }
}

/// The set of identifiers of the batch's messages: the only names a
/// report may contain.
pub open spec fn batch_id_set(batch: Seq<Message>) -> Set<Seq<char>> {
    Set::new(
        |id: Seq<char>|
            exists|i: int|
                0 <= i < batch.len() && (#[trigger] batch[i]).reportable() && batch[i].id_view()
                    == id,
    )
}

/// No fabricated failures: every identifier in the report names a
/// message of the input batch.
pub proof fn lemma_no_fabricated_identifiers<H: MessageHandler>(mdl: H::Model, batch: Seq<Message>)
    ensures
        forall|j: int|
            0 <= j < run_failed_ids::<H>(mdl, batch).len() ==> batch_id_set(batch).contains(
                #[trigger] run_failed_ids::<H>(mdl, batch)[j],
            ),
    decreases batch.len(),
{
    if batch.len() > 0 {
        let prefix = batch.drop_last();
        lemma_no_fabricated_identifiers::<H>(mdl, prefix);
        let ids = run_failed_ids::<H>(mdl, batch);
        let pids = run_failed_ids::<H>(mdl, prefix);
        assert(run_outcomes::<H>(mdl, batch).drop_last() =~= run_outcomes::<H>(mdl, prefix));
        assert forall|j: int| 0 <= j < ids.len() implies batch_id_set(batch).contains(
            #[trigger] ids[j],
        ) by {
            if j < pids.len() {
                assert(pids[j] == ids[j]);
                assert(batch_id_set(prefix).contains(ids[j]));
                let w = choose|i: int|
                    0 <= i < prefix.len() && (#[trigger] prefix[i]).reportable()
                        && prefix[i].id_view() == ids[j];
                assert(batch[w] == prefix[w]);
            } else {
                let m = batch.last();
                let last_out = run_outcomes::<H>(mdl, batch).last();
                assert(last_out == outcome_of::<H>(run_model::<H>(mdl, prefix), m));
                assert(m.reportable());
                assert(ids[j] == m.id_view());
                assert(batch[batch.len() - 1] == m);
            }
        }
    }
}

/// Isolation: when exactly one message of the batch is bound to fail —
/// every other attempt succeeds in the state its predecessors left —
/// the report names exactly that message, every other message is still
/// attempted, and each one is classified a success.
pub proof fn lemma_single_failure_isolated<H: MessageHandler>(
    mdl: H::Model,
    batch: Seq<Message>,
    k: int,
)
    requires
        0 <= k < batch.len(),
        forall|i: int| 0 <= i < batch.len() ==> (#[trigger] batch[i]).reportable(),
        forall|i: int|
            0 <= i < batch.len() && i != k ==> H::succeeds(
                run_model::<H>(mdl, #[trigger] batch.take(i)),
                batch[i],
            ),
        !H::succeeds(run_model::<H>(mdl, batch.take(k)), batch[k]),
    ensures
        run_failed_ids::<H>(mdl, batch) == seq![batch[k].id_view()],
        forall|i: int|
            0 <= i < batch.len() && i != k ==> run_outcomes::<H>(mdl, batch)[i]
                == Outcome::Success,
        run_outcomes::<H>(mdl, batch)[k] == Outcome::Failure(batch[k].id),
    decreases batch.len(),
{
    let prefix = batch.drop_last();
    assert forall|i: int| 0 <= i < prefix.len() implies prefix[i] == batch[i] && (
    #[trigger] prefix.take(i)) =~= batch.take(i) by {}
    if k == batch.len() - 1 {
        assert forall|i: int| 0 <= i < prefix.len() implies (#[trigger] prefix[i]).reportable()
            && H::succeeds(run_model::<H>(mdl, prefix.take(i)), prefix[i]) by {
            assert(prefix.take(i) =~= batch.take(i));
        }
        lemma_clean_batch_empty_report::<H>(mdl, prefix);
        lemma_each_message_classified::<H>(mdl, prefix);
        assert(batch.take(k) =~= prefix);
        let outs = run_outcomes::<H>(mdl, batch);
        assert(outs.drop_last() =~= run_outcomes::<H>(mdl, prefix));
        assert(batch[k] == batch.last());
        assert(batch[k].reportable());
        assert(outs.last() == Outcome::Failure(batch[k].id));
        assert(batch[k].id is Some);
        assert(failed_ids_of(outs) == failed_ids_of(outs.drop_last()) + seq![batch[k].id->0@]);
        assert(run_failed_ids::<H>(mdl, batch) =~= seq![batch[k].id_view()]);
        assert forall|i: int|
            0 <= i < batch.len() && i != k implies run_outcomes::<H>(mdl, batch)[i]
            == Outcome::Success by {
            lemma_outcome_at::<H>(mdl, batch, i);
            assert(batch.take(i) =~= prefix.take(i));
        }
    } else {
        lemma_single_failure_isolated::<H>(mdl, prefix, k);
        lemma_each_message_classified::<H>(mdl, prefix);
        let outs = run_outcomes::<H>(mdl, batch);
        assert(outs.drop_last() =~= run_outcomes::<H>(mdl, prefix));
        assert(batch.take(batch.len() - 1) =~= prefix);
        assert(batch[batch.len() - 1] == batch.last());
        assert(H::succeeds(run_model::<H>(mdl, prefix), batch.last()));
        assert(outs.last() == Outcome::Success);
        assert(prefix[k] == batch[k]);
        assert(run_failed_ids::<H>(mdl, batch) =~= seq![batch[k].id_view()]);
        assert forall|i: int|
            0 <= i < batch.len() && i != k implies run_outcomes::<H>(mdl, batch)[i]
            == Outcome::Success by {
            if i < batch.len() - 1 {
                assert(run_outcomes::<H>(mdl, prefix)[i] == Outcome::Success);
            }
        }
        assert(run_outcomes::<H>(mdl, batch)[k] == run_outcomes::<H>(mdl, prefix)[k]);
    }
}

} // verus!
