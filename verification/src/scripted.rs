use vstd::prelude::*;
use crate::handler::MessageHandler;
use crate::message::{FailureReason, Message};

verus! {

/// The abstract state of a scripted handler: the results it has still
/// to hand out, and every message it was asked to attempt, in order.
pub struct ScriptedState {
    pub remaining: Seq<bool>,
    pub calls: Seq<Message>,
}

/// A handler with scripted results, front first; once the script is
/// exhausted every attempt succeeds. It records each attempt, which
/// makes engineered failures and attempt counting possible without a
/// downstream store.
pub struct ScriptedHandler {
    pub script: Vec<bool>,
    pub calls: Ghost<Seq<Message>>,
}

impl ScriptedHandler {
    pub fn new(script: Vec<bool>) -> (r: ScriptedHandler)
        ensures
            r.wf(),
            r.model().remaining == script@,
            r.model().calls.len() == 0,
    {
        ScriptedHandler { script, calls: Ghost(Seq::empty()) }
    }

    /// How many scripted results are still unconsumed: one per attempt
    /// not yet made.
    pub fn remaining_len(&self) -> (n: usize)
        ensures
            n == self.model().remaining.len(),
    {
        self.script.len()
    }
}

impl MessageHandler for ScriptedHandler {
    type Model = ScriptedState;

    open spec fn wf(self) -> bool {
        true
    }

    open spec fn model(self) -> ScriptedState {
        ScriptedState { remaining: self.script@, calls: self.calls@ }
    }

    open spec fn succeeds(mdl: ScriptedState, m: Message) -> bool {
        mdl.remaining.len() == 0 || mdl.remaining[0]
    }

    open spec fn after(mdl: ScriptedState, m: Message) -> ScriptedState {
        ScriptedState {
            remaining: if mdl.remaining.len() == 0 {
                mdl.remaining
            } else {
                mdl.remaining.skip(1)
            },
            calls: mdl.calls.push(m),
        }
    }

    fn handle(&mut self, m: &Message) -> (r: Result<(), FailureReason>) {
        self.calls = Ghost(self.calls@.push(*m));
        let ok = if self.script.len() > 0 {
            let ghost s0 = self.script@;
            let first = self.script.remove(0);
            proof {
                assert(self.script@ =~= s0.skip(1));
            }
            first
        } else {
            true
        };
        if ok {
            Ok(())
        } else {
            Err(FailureReason::Downstream)
        }
    }
}

} // verus!
