use vstd::prelude::*;
use crate::message::Outcome;

verus! {

/// The aggregate result of one batch: the identifiers of the messages
/// that failed. A message absent from the report is durably processed
/// and must not be redelivered by the upstream system.
pub struct BatchReport {
    pub failed_ids: Vec<String>,
}

impl View for BatchReport {
    type V = Seq<Seq<char>>;

    open spec fn view(&self) -> Seq<Seq<char>> {
        self.failed_ids@.map(|i: int, s: String| s@)
    }
}

/// The identifiers that a sequence of outcomes contributes to a report:
/// one entry for each failure that carries an identifier, in order.
pub open spec fn failed_ids_of(outs: Seq<Outcome>) -> Seq<Seq<char>>
    decreases outs.len(),
{
    if outs.len() == 0 {
        Seq::empty()
    } else {
        failed_ids_of(outs.drop_last()) + (match outs.last() {
            Outcome::Failure(Some(id)) => seq![id@],
            _ => Seq::<Seq<char>>::empty(),
        })
    }
}

/// How many outcomes in the sequence are successes.
pub open spec fn success_count(outs: Seq<Outcome>) -> nat
    decreases outs.len(),
{
    if outs.len() == 0 {
        0
    } else {
        success_count(outs.drop_last()) + (if outs.last().is_success() {
            1nat
        } else {
            0nat
        })
    }
}

/// How many outcomes in the sequence are failures.
pub open spec fn failure_count(outs: Seq<Outcome>) -> nat
    decreases outs.len(),
{
    if outs.len() == 0 {
        0
    } else {
        failure_count(outs.drop_last()) + (if outs.last().is_success() {
            0nat
        } else {
            1nat
        })
    }
}

/// Builds the partial-failure report from the per-message outcomes:
/// exactly the failures that carry an identifier are named, in order.
pub fn report_from_outcomes(outs: &Vec<Outcome>) -> (r: BatchReport)
    ensures
        r@ == failed_ids_of(outs@),
{
    let mut ids: Vec<String> = Vec::new();
    let mut i: usize = 0;
    while i < outs.len()
        invariant
            i <= outs@.len(),
            ids@.map(|j: int, s: String| s@) == failed_ids_of(outs@.take(i as int)),
        decreases outs@.len() - i,
    {
        let ghost prev = ids@;
        match &outs[i] {
            Outcome::Failure(Some(id)) => {
                ids.push(id.clone());
            },
            _ => {},
        }
        proof {
            let t1 = outs@.take(i as int + 1);
            assert(t1.drop_last() =~= outs@.take(i as int));
            assert(t1.last() == outs@[i as int]);
            assert(ids@.map(|j: int, s: String| s@) =~= failed_ids_of(t1));
        }
        i += 1;
    }
    proof {
        assert(outs@.take(outs@.len() as int) =~= outs@);
    }
    BatchReport { failed_ids: ids }
}

} // verus!
