use vstd::prelude::*;
use crate::handler::{run_model, run_outcomes, run_failed_ids, outcome_of, step, MessageHandler};
use crate::message::{Message, Outcome};
use crate::report::{report_from_outcomes, BatchReport};

verus! {

/// Classifies every message of the batch, in order, attempting each one
/// exactly once. A message without a reportable identifier is a failure
/// on its own, without a handler attempt; any other message is handed to
/// the handler, and its failure never aborts the rest of the batch.
pub fn classify_batch<H: MessageHandler>(batch: &Vec<Message>, h: &mut H) -> (outs: Vec<Outcome>)
    requires
        old(h).wf(),
    ensures
        final(h).wf(),
        final(h).model() == run_model::<H>(old(h).model(), batch@),
        outs@ == run_outcomes::<H>(old(h).model(), batch@),
{
    let ghost m0 = h.model();
    let mut outs: Vec<Outcome> = Vec::new();
    let mut i: usize = 0;
    while i < batch.len()
        invariant
            i <= batch@.len(),
            h.wf(),
            h.model() == run_model::<H>(m0, batch@.take(i as int)),
            outs@ == run_outcomes::<H>(m0, batch@.take(i as int)),
        decreases batch@.len() - i,
    {
        let m = &batch[i];
        let ghost pre = h.model();
        if !m.has_reportable_id() {
            outs.push(Outcome::Failure(None));
        } else {
            match h.handle(m) {
                Ok(_) => {
                    outs.push(Outcome::Success);
                },
                Err(_) => {
                    let id = match &m.id {
                        Some(s) => Some(s.clone()),
                        None => None,
                    };
                    proof {
                        assert(id == m.id);
                    }
                    outs.push(Outcome::Failure(id));
                },
            }
        }
        proof {
            let t1 = batch@.take(i as int + 1);
            assert(t1.drop_last() =~= batch@.take(i as int));
            assert(t1.last() == batch@[i as int]);
            assert(h.model() == step::<H>(pre, batch@[i as int]));
            assert(outs@.last() == outcome_of::<H>(pre, batch@[i as int]));
            assert(h.model() == run_model::<H>(m0, t1));
            assert(outs@ == run_outcomes::<H>(m0, t1));
        }
        i += 1;
    }
    proof {
        assert(batch@.take(batch@.len() as int) =~= batch@);
    }
    outs
}

/// Processes a whole batch: classifies every message exactly once and
/// returns the partial-failure report naming exactly the failed
/// messages that carry an identifier.
pub fn process_batch<H: MessageHandler>(batch: &Vec<Message>, h: &mut H) -> (r: BatchReport)
    requires
        old(h).wf(),
    ensures
        final(h).wf(),
        final(h).model() == run_model::<H>(old(h).model(), batch@),
        r@ == run_failed_ids::<H>(old(h).model(), batch@),
{
    let outs = classify_batch(batch, h);
    report_from_outcomes(&outs)
}

/// The one piece of required external configuration: the name of the
/// downstream table the handlers write to, resolved once at process
/// start.
pub struct Config {
    pub table_name: String,
}

/// A startup-fatal condition: no message may be processed under it.
#[derive(Debug)]
pub enum StartupError {
    MissingTableName,
}

impl Config {
    /// Whether a resolved raw configuration value is acceptable.
    pub open spec fn valid_source(name: Option<String>) -> bool {
        name is Some && name->0@.len() > 0
    }

    /// Accepts the configuration value exactly when it is present and
    /// non-empty; its absence is fatal, not a per-message condition.
    pub fn from_table_name(name: Option<String>) -> (r: Result<Config, StartupError>)
        ensures
            r is Ok <==> Self::valid_source(name),
            r is Ok ==> r->Ok_0.table_name == name->0,
            r is Err ==> r->Err_0 matches StartupError::MissingTableName,
    {
        match name {
            Some(n) => {
                if n.as_str().is_empty() {
                    Err(StartupError::MissingTableName)
                } else {
                    Ok(Config { table_name: n })
                }
            },
            None => Err(StartupError::MissingTableName),
        }
    }
}

/// One whole invocation: checks the required configuration first and
/// fails fast — before any message is attempted — when it is absent;
/// otherwise processes the batch and returns its report.
pub fn run_invocation<H: MessageHandler>(
    table_name: Option<String>,
    batch: &Vec<Message>,
    h: &mut H,
) -> (r: Result<BatchReport, StartupError>)
    requires
        old(h).wf(),
    ensures
        final(h).wf(),
        r is Ok <==> Config::valid_source(table_name),
        r is Ok ==> r->Ok_0@ == run_failed_ids::<H>(old(h).model(), batch@) && final(h).model()
            == run_model::<H>(old(h).model(), batch@),
        r is Err ==> *final(h) == *old(h),
{
    match Config::from_table_name(table_name) {
        Ok(_) => Ok(process_batch(batch, h)),
        Err(e) => Err(e),
    }
}

} // verus!
