use vstd::prelude::*;
use crate::handler::MessageHandler;
use crate::message::{FailureReason, Message};
use crate::payload::{parse_attributes, parse_flat_object};
use crate::store::TableStore;

verus! {

/// The recurring per-message behavior of the queue-triggered consumers:
/// parse the body against the expected shape, then upsert the
/// attributes into the downstream table under the message's identifier.
/// The write is keyed, not appended, so redelivery is safe to repeat.
pub struct UpsertHandler {
    pub store: TableStore,
}

impl UpsertHandler {
    pub fn new(store: TableStore) -> (r: UpsertHandler)
        requires
            store.wf(),
        ensures
            r.wf(),
            r.model() == store.contents(),
            r.store == store,
    {
        UpsertHandler { store }
    }
}

impl MessageHandler for UpsertHandler {
    /// The downstream state: the table's contents by key.
    type Model = Map<Seq<char>, Seq<(Seq<char>, Seq<char>)>>;

    open spec fn wf(self) -> bool {
        self.store.wf()
    }

    open spec fn model(self) -> Map<Seq<char>, Seq<(Seq<char>, Seq<char>)>> {
        self.store.contents()
    }

    /// An attempt succeeds exactly when the body parses; the in-memory
    /// table accepts every write.
    open spec fn succeeds(mdl: Map<Seq<char>, Seq<(Seq<char>, Seq<char>)>>, m: Message) -> bool {
        parse_flat_object(m.body@) is Some
    }

    open spec fn after(mdl: Map<Seq<char>, Seq<(Seq<char>, Seq<char>)>>, m: Message) -> Map<
        Seq<char>,
        Seq<(Seq<char>, Seq<char>)>,
    > {
        match parse_flat_object(m.body@) {
            Some(attrs) => mdl.insert(m.id_view(), attrs),
            None => mdl,
        }
    }

    fn handle(&mut self, m: &Message) -> (r: Result<(), FailureReason>) {
        match parse_attributes(m.body.as_str()) {
            Some(attrs) => {
                let key = match &m.id {
                    Some(s) => s.clone(),
                    None => String::new(),
                };
                proof {
                    assert(key@ == m.id_view());
                }
                self.store.upsert(key, attrs);
                Ok(())
            },
            None => Err(FailureReason::Parse),
        }
    }
}

/// Idempotency under at-least-once redelivery: handling the same
/// message a second time leaves the same downstream state as handling
/// it once — no duplicate record, no double-counting.
pub proof fn lemma_redelivery_idempotent(
    mdl: Map<Seq<char>, Seq<(Seq<char>, Seq<char>)>>,
    m: Message,
)
    ensures
        UpsertHandler::after(UpsertHandler::after(mdl, m), m) == UpsertHandler::after(mdl, m),
{
    match parse_flat_object(m.body@) {
        Some(attrs) => {
            assert(mdl.insert(m.id_view(), attrs).insert(m.id_view(), attrs) =~= mdl.insert(
                m.id_view(),
                attrs,
            ));
        },
        None => {},
    }
}

} // verus!
