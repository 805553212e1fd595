use vstd::prelude::*;
use crate::error::ProcessingError;
use crate::json::{find_member, first_with_key, is_text, JsonMember, JsonValue};
use crate::text::str_eq;
use crate::pipeline::{FieldMask, ProcessorFields, TicketProcessor};
use crate::ticket::{ProcessedTicket, ProcessingResult, TicketCategory};

verus! {

/// The instructions that go before the ticket's content in the prompt.
pub const PROMPT_HEAD: &'static str =
    "Read the customer support message below and classify it into one of the specified categories.\nOutput the category and your confidence in the classification as a number between 0.0 and 1.0. Format the result as JSON following the given schema.\n{\"category\": \"CategoryName\", \"confidence\": 0.95}\n\nExamples:\n- \"My payment failed and I can't access my account\" -> {\"category\": \"Billing\", \"confidence\": 0.95}\n- \"The app crashes when I try to upload\" -> {\"category\": \"Technical\", \"confidence\": 0.90}\n- \"I forgot my password\" -> {\"category\": \"Account\", \"confidence\": 0.85}\n- \"Do you have a mobile app?\" -> {\"category\": \"General\", \"confidence\": 0.80}\n\nTicket: \"";

/// Whether the members are those of the schema of an object: the first
/// member with the key `type` is the string `object`.
pub open spec fn describes_object(members: Seq<JsonMember>) -> bool {
    exists|at: int|
        first_with_key(members, "type"@, at) && at < members.len() && is_text(
            members[at].value,
            "object"@,
        )
}

/// Whether `after` is `before` closed against additional properties.
///
/// Every object in it that describes an object says under the key
/// `additionalProperties` that there are none: the first member with that
/// key holds `false`, and where there was no such member it has been added
/// at the end. Everything else is as it was, at every depth.
pub open spec fn closes(before: JsonValue, after: JsonValue) -> bool
    decreases before,
{
    match before {
        JsonValue::Array(items) => after matches JsonValue::Array(closed) && closed@.len()
            == items@.len() && forall|i: int|
            0 <= i < items@.len() ==> closes(items@[i], #[trigger] closed@[i]),
        JsonValue::Object(members) => after matches JsonValue::Object(closed)
            && if describes_object(members@) {
            exists|at: int|
                {
                    &&& first_with_key(members@, "additionalProperties"@, at)
                    &&& closed@.len() == if at < members@.len() {
                        members@.len()
                    } else {
                        members@.len() + 1
                    }
                    &&& closed@[at].key@ == "additionalProperties"@
                    &&& closed@[at].value == JsonValue::Bool(false)
                    &&& forall|i: int|
                        0 <= i < members@.len() && i != at ==> (#[trigger] closed@[i]).key@
                            == members@[i].key@ && closes(members@[i].value, closed@[i].value)
                }
        } else {
            closed@.len() == members@.len() && forall|i: int|
                0 <= i < members@.len() ==> (#[trigger] closed@[i]).key@ == members@[i].key@
                    && closes(members@[i].value, closed@[i].value)
        },
        _ => after == before,
    }
}

/// A copy of the document that is closed against additional properties.
pub fn closed_copy(value: &JsonValue) -> (closed: JsonValue)
    ensures
        closes(*value, closed),
    decreases *value,
{
    match value {
        JsonValue::Null => JsonValue::Null,
        JsonValue::Bool(flag) => JsonValue::Bool(*flag),
        JsonValue::Number(text) => JsonValue::Number(text.clone()),
        JsonValue::String(text) => JsonValue::String(text.clone()),
        JsonValue::Array(items) => {
            let mut closed: Vec<JsonValue> = Vec::new();
            let mut i: usize = 0;
            while i < items.len()
                invariant
                    forall|k: int| 0 <= k < items@.len() ==> decreases_to!(*value => items@[k]),
                    i <= items@.len(),
                    closed@.len() == i,
                    forall|k: int| 0 <= k < i ==> closes(items@[k], #[trigger] closed@[k]),
                decreases items@.len() - i,
            {
                let item = closed_copy(&items[i]);
                closed.push(item);
                i += 1;
            }
            JsonValue::Array(closed)
        },
        JsonValue::Object(members) => {
            let kind = find_member(members, "type");
            let describes = kind < members.len() && match &members[kind].value {
                JsonValue::String(text) => str_eq(text.as_str(), "object"),
                _ => false,
            };
            let at = if describes {
                find_member(members, "additionalProperties")
            } else {
                members.len()
            };
            let mut closed: Vec<JsonMember> = Vec::new();
            let mut i: usize = 0;
            while i < members.len()
                invariant
                    forall|k: int|
                        0 <= k < members@.len() ==> decreases_to!(*value => members@[k].value),
                    i <= members@.len(),
                    at <= members@.len(),
                    closed@.len() == i,
                    forall|k: int|
                        0 <= k < i && !(describes && k == at) ==> (#[trigger] closed@[k]).key@
                            == members@[k].key@ && closes(members@[k].value, closed@[k].value),
                    describes && at < i ==> closed@[at as int].key@ == members@[at as int].key@
                        && closed@[at as int].value == JsonValue::Bool(false),
                decreases members@.len() - i,
            {
                let key = members[i].key.clone();
                let member = if describes && i == at {
                    JsonMember { key, value: JsonValue::Bool(false) }
                } else {
                    JsonMember { key, value: closed_copy(&members[i].value) }
                };
                closed.push(member);
                i += 1;
            }
            if describes && at == members.len() {
                closed.push(
                    JsonMember {
                        key: "additionalProperties".to_owned(),
                        value: JsonValue::Bool(false),
                    },
                );
            }
            proof {
                if describes {
                    assert(first_with_key(members@, "type"@, kind as int));
                    assert(describes_object(members@));
                    assert(first_with_key(members@, "additionalProperties"@, at as int));
                } else {
                    assert(!describes_object(members@)) by {
                        assert forall|other: int|
                            first_with_key(members@, "type"@, other) implies other == kind by {
                            if other < kind {
                                assert(members@[other].key@ != "type"@);
                            } else if kind < other {
                                assert(members@[kind as int].key@ != "type"@);
                            }
                        }
                    }
                }
            }
            JsonValue::Object(closed)
        },
    }
}

/// What came of the request to the generation service.
#[derive(Debug, PartialEq, Eq)]
pub enum ClassificationReply {
    /// The schema of the answer could not be put into the request.
    SchemaFailure(String),
    /// The request could not be built, or the service did not answer it.
    RequestFailure(String),
    /// The service answered; the category is the one that its first choice
    /// names, if it has a first choice and that choice keeps to the schema.
    Answer(Option<TicketCategory>),
}

/// The processor that asks a remote generation service what a ticket is
/// about.
#[derive(Debug, Clone, Copy)]
pub struct ClassificationProcessor;

impl ClassificationProcessor {
    /// The declaration of the processor: it needs nothing and fills in the
    /// category.
    pub open spec fn fields() -> ProcessorFields {
        ProcessorFields {
            required: FieldMask {
                language: false,
                sentiment: false,
                category: false,
                priority: false,
            },
            output: FieldMask { language: false, sentiment: false, category: true, priority: false },
        }
    }

    /// The category that a reply amounts to, or the failure that stands in
    /// its way.
    pub open spec fn outcome(
        reply: ClassificationReply,
        found: Result<TicketCategory, ProcessingError>,
    ) -> bool {
        match reply {
            ClassificationReply::SchemaFailure(text) => found matches Err(
                ProcessingError::ClassificationError(detail),
            ) && detail@ == "Schema generation error: "@ + text@,
            ClassificationReply::RequestFailure(text) => found matches Err(
                ProcessingError::ClassificationError(detail),
            ) && detail@ == text@,
            ClassificationReply::Answer(Some(category)) => found == Ok::<
                TicketCategory,
                ProcessingError,
            >(category),
            ClassificationReply::Answer(None) => found matches Err(
                ProcessingError::ClassificationError(detail),
            ) && detail@ == "Failed to parse classification response"@,
        }
    }

    /// What the processor enters as the category of a ticket for which the
    /// service gave `reply`.
    pub open spec fn settles(reply: ClassificationReply, category: ProcessingResult<TicketCategory>)
        -> bool {
        match category {
            ProcessingResult::Success(found) => Self::outcome(reply, Ok(found)),
            ProcessingResult::Error(err) => Self::outcome(reply, Err(err)),
            ProcessingResult::Processing => false,
        }
    }

    pub fn new() -> (made: Result<Self, ProcessingError>)
        ensures
            made.is_ok(),
    {
        Ok(ClassificationProcessor)
    }

    /// The prompt for a ticket: the instructions, then the content in
    /// double quotes.
    pub fn build_prompt(&self, ticket_content: &str) -> (prompt: String)
        ensures
            prompt@ == PROMPT_HEAD@ + ticket_content@ + "\""@,
    {
        PROMPT_HEAD.to_owned().concat(ticket_content).concat("\"")
    }

    /// Closes a schema against additional properties, as the service asks of
    /// a schema that it is to follow strictly.
    pub fn add_additional_properties_false(value: &mut JsonValue)
        ensures
            closes(*old(value), *final(value)),
    {
        let closed = closed_copy(value);
        *value = closed;
    }

    /// Reads the category off a reply of the service.
    pub fn classify_ticket(reply: ClassificationReply) -> (found: Result<
        TicketCategory,
        ProcessingError,
    >)
        ensures
            Self::outcome(reply, found),
    {
        match reply {
            ClassificationReply::SchemaFailure(text) => Err(
                ProcessingError::ClassificationError(
                    "Schema generation error: ".to_owned().concat(text.as_str()),
                ),
            ),
            ClassificationReply::RequestFailure(text) => Err(
                ProcessingError::ClassificationError(text),
            ),
            ClassificationReply::Answer(Some(category)) => Ok(category),
            ClassificationReply::Answer(None) => Err(
                ProcessingError::ClassificationError(
                    "Failed to parse classification response".to_owned(),
                ),
            ),
        }
    }

    /// Completes the processor's run on a snapshot with the reply that the
    /// service gave for the ticket's prompt. The result names the same
    /// ticket, carries the category or the failure, and leaves every other
    /// field pending.
    pub fn process(&self, ticket: ProcessedTicket, reply: ClassificationReply) -> (result:
        ProcessedTicket)
        ensures
            result.ticket == ticket.ticket,
            result.language is Processing,
            result.sentiment is Processing,
            result.priority is Processing,
            Self::settles(reply, result.category),
            FieldMask::of_record(result) == Self::fields().output,
    {
        let category = match Self::classify_ticket(reply) {
            Ok(category) => ProcessingResult::Success(category),
            Err(err) => ProcessingResult::Error(err),
        };
        ProcessedTicket::new(ticket.ticket).with_category(category)
    }
}

impl TicketProcessor for ClassificationProcessor {
    open spec fn required(&self) -> FieldMask {
        Self::fields().required
    }

    open spec fn output(&self) -> FieldMask {
        Self::fields().output
    }

    fn required_fields(&self) -> (mask: FieldMask) {
        FieldMask::empty()
    }

    fn output_fields(&self) -> (mask: FieldMask) {
        FieldMask::category()
    }
}

} // verus!
