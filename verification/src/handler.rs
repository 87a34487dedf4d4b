use vstd::prelude::*;
use crate::message::{FailureReason, Message, Outcome};
use crate::report::failed_ids_of;

verus! {

/// The per-use-case capability injected into the batch processor: one
/// attempt at processing one message, usually a parse followed by an
/// idempotent downstream write.
///
/// A handler abstracts its state (for instance the contents of the
/// downstream table) into `Model`; whether an attempt succeeds and how
/// the state changes are functions of that abstraction, so the batch
/// processor's contract can replay a whole batch over the model.
pub trait MessageHandler: Sized {
    /// Abstraction of the handler's state.
    type Model;

    /// The handler's internal invariant.
    spec fn wf(self) -> bool;

    /// The abstraction of the current state.
    spec fn model(self) -> Self::Model;

    /// Whether one attempt at `m` from abstract state `mdl` succeeds.
    spec fn succeeds(mdl: Self::Model, m: Message) -> bool;

    /// The abstract state after one attempt at `m`.
    spec fn after(mdl: Self::Model, m: Message) -> Self::Model;

    /// One attempt at processing `m`. Must be idempotent under
    /// at-least-once redelivery: the upstream system may present the
    /// same message again after a reported failure.
    fn handle(&mut self, m: &Message) -> (r: Result<(), FailureReason>)
        requires
            old(self).wf(),
        ensures
            final(self).wf(),
            final(self).model() == Self::after(old(self).model(), *m),
            r is Ok <==> Self::succeeds(old(self).model(), *m),
    ;
}

/// The abstract state after the processor is done with one message:
/// a message without a reportable identifier is classified without
/// invoking the handler, so the state is unchanged.
pub open spec fn step<H: MessageHandler>(mdl: H::Model, m: Message) -> H::Model {
    if m.reportable() {
        H::after(mdl, m)
    } else {
        mdl
    }
}

/// How the processor classifies one message attempted in state `mdl`.
pub open spec fn outcome_of<H: MessageHandler>(mdl: H::Model, m: Message) -> Outcome {
    if !m.reportable() {
        Outcome::Failure(None)
    } else if H::succeeds(mdl, m) {
        Outcome::Success
    } else {
        Outcome::Failure(m.id)
    }
}

/// The abstract state after processing a whole batch in order.
pub open spec fn run_model<H: MessageHandler>(mdl: H::Model, batch: Seq<Message>) -> H::Model
    decreases batch.len(),
{
    if batch.len() == 0 {
        mdl
    } else {
        step::<H>(run_model::<H>(mdl, batch.drop_last()), batch.last())
    }
}

/// The classification of every message of a batch, in batch order, each
/// one attempted exactly once in the state its predecessors left.
pub open spec fn run_outcomes<H: MessageHandler>(mdl: H::Model, batch: Seq<Message>) -> Seq<Outcome>
    decreases batch.len(),
{
    if batch.len() == 0 {
        Seq::empty()
    } else {
        run_outcomes::<H>(mdl, batch.drop_last()).push(
            outcome_of::<H>(run_model::<H>(mdl, batch.drop_last()), batch.last()),
        )
    }
}

/// The identifiers a batch contributes to the failure report.
pub open spec fn run_failed_ids<H: MessageHandler>(mdl: H::Model, batch: Seq<Message>) -> Seq<
    Seq<char>,
> {
    failed_ids_of(run_outcomes::<H>(mdl, batch))
}

} // verus!
