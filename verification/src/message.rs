use vstd::prelude::*;

verus! {

/// One unit of work delivered in a batch: an opaque body under an
/// identifier assigned by the upstream delivery system. A malformed
/// envelope may carry no identifier, or an empty one.
pub struct Message {
    pub id: Option<String>,
    pub body: String,
}

impl Message {
    /// The identifier as a sequence of characters; empty when absent.
    pub open spec fn id_view(self) -> Seq<char> {
        match self.id {
            Some(s) => s@,
            None => Seq::empty(),
        }
    }

    /// A message can be named in a failure report only when it carries a
    /// non-empty identifier.
    pub open spec fn reportable(self) -> bool {
        self.id is Some && self.id->0@.len() > 0
    }

    pub fn has_reportable_id(&self) -> (r: bool)
        ensures
            r == self.reportable(),
    {
        match &self.id {
            Some(s) => !s.as_str().is_empty(),
            None => false,
        }
    }
}

/// Why handling one message failed. Reasons stay local to the consumer;
/// the failure report carries identifiers only.
pub enum FailureReason {
    /// The body does not conform to the expected shape.
    Parse,
    /// The downstream write failed (timeout, throttling, unavailability).
    Downstream,
    /// The envelope carries no identifier under which the message could
    /// be reported.
    MissingIdentifier,
}

/// The classification of one message after its single attempt.
pub enum Outcome {
    Success,
    /// Failed; the identifier is kept when the message has one, so that
    /// the report can name it.
    Failure(Option<String>),
}

impl Outcome {
    pub open spec fn is_success(self) -> bool {
        self matches Outcome::Success
    }
}

} // verus!
