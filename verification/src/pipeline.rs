use vstd::prelude::*;
use crate::error::ProcessingError;
use crate::text::str_eq;
use crate::ticket::{ProcessedTicket, SupportTicket};
use crate::ticket_store::TicketStore;

verus! {

/// How many events the bus holds for a subscriber that lags behind. A
/// subscriber that falls further behind loses its subscription.
pub const EVENT_BUS_CAPACITY: usize = 16;

/// The four annotations of a ticket.
#[derive(Debug, Clone, Copy, PartialEq, Eq, Structural)]
pub enum Field {
    Language,
    Sentiment,
    Category,
    Priority,
}

/// A set of annotation fields.
#[derive(Debug, Clone, Copy, PartialEq, Eq, Structural)]
pub struct FieldMask {
    pub language: bool,
    pub sentiment: bool,
    pub category: bool,
    pub priority: bool,
}

impl View for FieldMask {
    type V = Set<Field>;

    open spec fn view(&self) -> Set<Field> {
        Set::new(|field: Field| self.has(field))
    }
}

impl FieldMask {
    /// The set that holds the language field alone.
    pub fn language() -> (mask: FieldMask)
        ensures
            mask@ == set![Field::Language],
            mask == (FieldMask { language: true, sentiment: false, category: false, priority: false }),
    {
        let mask = FieldMask { language: true, sentiment: false, category: false, priority: false };
        assert(mask@ =~= set![Field::Language]);
        mask
    }

    /// The set that holds the sentiment field alone.
    pub fn sentiment() -> (mask: FieldMask)
        ensures
            mask@ == set![Field::Sentiment],
            mask == (FieldMask { language: false, sentiment: true, category: false, priority: false }),
    {
        let mask = FieldMask { language: false, sentiment: true, category: false, priority: false };
        assert(mask@ =~= set![Field::Sentiment]);
        mask
    }

    /// The set that holds the category field alone.
    pub fn category() -> (mask: FieldMask)
        ensures
            mask@ == set![Field::Category],
            mask == (FieldMask { language: false, sentiment: false, category: true, priority: false }),
    {
        let mask = FieldMask { language: false, sentiment: false, category: true, priority: false };
        assert(mask@ =~= set![Field::Category]);
        mask
    }

    /// The set that holds the priority field alone.
    pub fn priority() -> (mask: FieldMask)
        ensures
            mask@ == set![Field::Priority],
            mask == (FieldMask { language: false, sentiment: false, category: false, priority: true }),
    {
        let mask = FieldMask { language: false, sentiment: false, category: false, priority: true };
        assert(mask@ =~= set![Field::Priority]);
        mask
    }

    /// Whether the field is in the set.
    pub open spec fn has(self, field: Field) -> bool {
        match field {
            Field::Language => self.language,
            Field::Sentiment => self.sentiment,
            Field::Category => self.category,
            Field::Priority => self.priority,
        }
    }

    /// The set of the fields that the record has completed.
    pub open spec fn of_record(record: ProcessedTicket) -> FieldMask {
        FieldMask {
            language: record.language.completed(),
            sentiment: record.sentiment.completed(),
            category: record.category.completed(),
            priority: record.priority.completed(),
        }
    }

    /// Two masks are the same value exactly when they are the same set.
    pub proof fn lemma_view_injective(self, other: FieldMask)
        ensures
            (self@ == other@) <==> (self == other),
    {
        if self@ == other@ {
            assert(self@.contains(Field::Language) == other@.contains(Field::Language));
            assert(self@.contains(Field::Sentiment) == other@.contains(Field::Sentiment));
            assert(self@.contains(Field::Category) == other@.contains(Field::Category));
            assert(self@.contains(Field::Priority) == other@.contains(Field::Priority));
        }
    }

    pub fn empty() -> (mask: FieldMask)
        ensures
            mask@ == Set::<Field>::empty(),
            mask == (FieldMask {
                language: false,
                sentiment: false,
                category: false,
                priority: false,
            }),
    {
        let mask = FieldMask { language: false, sentiment: false, category: false, priority: false };
        assert(mask@ =~= Set::<Field>::empty());
        mask
    }

    pub fn all() -> (mask: FieldMask)
        ensures
            mask@ == Set::<Field>::full(),
            mask == (FieldMask { language: true, sentiment: true, category: true, priority: true }),
    {
        let mask = FieldMask { language: true, sentiment: true, category: true, priority: true };
        assert(mask@ =~= Set::<Field>::full());
        mask
    }

    pub fn is_empty(&self) -> (none: bool)
        ensures
            none == (self@ == Set::<Field>::empty()),
    {
        proof {
            self.lemma_view_injective(
                FieldMask { language: false, sentiment: false, category: false, priority: false },
            );
            assert((FieldMask {
                language: false,
                sentiment: false,
                category: false,
                priority: false,
            })@ =~= Set::<Field>::empty());
        }
        !self.language && !self.sentiment && !self.category && !self.priority
    }

    pub fn is_all(&self) -> (every: bool)
        ensures
            every == (self@ == Set::<Field>::full()),
    {
        proof {
            self.lemma_view_injective(
                FieldMask { language: true, sentiment: true, category: true, priority: true },
            );
            assert((FieldMask { language: true, sentiment: true, category: true, priority: true })@
                =~= Set::<Field>::full());
        }
        self.language && self.sentiment && self.category && self.priority
    }

    pub fn union(self, other: FieldMask) -> (mask: FieldMask)
        ensures
            mask@ == self@.union(other@),
    {
        let mask = FieldMask {
            language: self.language || other.language,
            sentiment: self.sentiment || other.sentiment,
            category: self.category || other.category,
            priority: self.priority || other.priority,
        };
        assert(mask@ =~= self@.union(other@));
        mask
    }

    pub fn intersection(self, other: FieldMask) -> (mask: FieldMask)
        ensures
            mask@ == self@.intersect(other@),
    {
        let mask = FieldMask {
            language: self.language && other.language,
            sentiment: self.sentiment && other.sentiment,
            category: self.category && other.category,
            priority: self.priority && other.priority,
        };
        assert(mask@ =~= self@.intersect(other@));
        mask
    }

    /// Adds the fields of `other` to the set.
    pub fn insert(&mut self, other: FieldMask)
        ensures
            final(self)@ == old(self)@.union(other@),
    {
        let mask = self.union(other);
        *self = mask;
    }

    /// Whether every field of `other` is in the set.
    pub fn contains(&self, other: FieldMask) -> (holds: bool)
        ensures
            holds == other@.subset_of(self@),
    {
        let holds = (!other.language || self.language) && (!other.sentiment || self.sentiment) && (
        !other.category || self.category) && (!other.priority || self.priority);
        proof {
            if !holds {
                let witness = if other.language && !self.language {
                    Field::Language
                } else if other.sentiment && !self.sentiment {
                    Field::Sentiment
                } else if other.category && !self.category {
                    Field::Category
                } else {
                    Field::Priority
                };
                assert(other@.contains(witness) && !self@.contains(witness));
            }
        }
        holds
    }

    /// Whether the two sets share a field.
    pub fn intersects(&self, other: FieldMask) -> (holds: bool)
        ensures
            holds == !self@.disjoint(other@),
    {
        let holds = (other.language && self.language) || (other.sentiment && self.sentiment) || (
        other.category && self.category) || (other.priority && self.priority);
        proof {
            if holds {
                let witness = if other.language && self.language {
                    Field::Language
                } else if other.sentiment && self.sentiment {
                    Field::Sentiment
                } else if other.category && self.category {
                    Field::Category
                } else {
                    Field::Priority
                };
                assert(other@.contains(witness) && self@.contains(witness));
            }
        }
        holds
    }
}

impl From<&ProcessedTicket> for FieldMask {
    /// The set of the fields that the record has completed.
    fn from(ticket: &ProcessedTicket) -> (mask: FieldMask) {
        FieldMask {
            language: ticket.language.is_completed(),
            sentiment: ticket.sentiment.is_completed(),
            category: ticket.category.is_completed(),
            priority: ticket.priority.is_completed(),
        }
    }
}

impl vstd::std_specs::convert::FromSpecImpl<&ProcessedTicket> for FieldMask {
    open spec fn obeys_from_spec() -> bool {
        true
    }

    open spec fn from_spec(ticket: &ProcessedTicket) -> FieldMask {
        FieldMask::of_record(*ticket)
    }
}

impl ProcessedTicket {
    /// Whether the record has completed the field.
    pub open spec fn completed_field(self, field: Field) -> bool {
        match field {
            Field::Language => self.language.completed(),
            Field::Sentiment => self.sentiment.completed(),
            Field::Category => self.category.completed(),
            Field::Priority => self.priority.completed(),
        }
    }

    /// The mask of a record holds a field exactly when the record has
    /// completed that field.
    pub proof fn lemma_mask_is_completed_fields(self)
        ensures
            forall|field: Field| #[trigger]
                FieldMask::of_record(self)@.contains(field) <==> self.completed_field(field),
            FieldMask::of_record(self)@ == Set::new(|field: Field| self.completed_field(field)),
    {
        assert(FieldMask::of_record(self)@ =~= Set::new(|field: Field| self.completed_field(field)));
    }

    /// A merge completes what either side had completed and nothing else:
    /// no field ever goes back to pending.
    pub proof fn lemma_mask_of_merged(self, update: ProcessedTicket)
        ensures
            FieldMask::of_record(self.merged(update))@ == FieldMask::of_record(self)@.union(
                FieldMask::of_record(update)@,
            ),
            FieldMask::of_record(self)@.subset_of(FieldMask::of_record(self.merged(update))@),
    {
        assert(FieldMask::of_record(self.merged(update))@ =~= FieldMask::of_record(self)@.union(
            FieldMask::of_record(update)@,
        ));
    }

    /// A record has converged exactly when its mask holds every field.
    pub proof fn lemma_converged_is_full_mask(self)
        ensures
            self.converged() <==> FieldMask::of_record(self)@ == Set::<Field>::full(),
    {
        let mask = FieldMask::of_record(self);
        let full = FieldMask { language: true, sentiment: true, category: true, priority: true };
        assert(full@ =~= Set::<Field>::full());
        mask.lemma_view_injective(full);
    }
}

/// What a processor declares about itself: the fields that must be
/// completed before it may run, and the fields that it alone fills in.
#[derive(Debug, Clone, Copy, PartialEq, Eq, Structural)]
pub struct ProcessorFields {
    pub required: FieldMask,
    pub output: FieldMask,
}

impl ProcessorFields {
    /// Whether a processor with this declaration is due on a record whose
    /// completed fields are `current`: everything it requires is there, and
    /// nothing of what it produces is.
    pub open spec fn due(self, current: FieldMask) -> bool {
        self.required@.subset_of(current@) && current@.disjoint(self.output@)
    }

    pub fn is_due(&self, current: FieldMask) -> (due: bool)
        ensures
            due == self.due(current),
    {
        current.contains(self.required) && !current.intersects(self.output)
    }

    /// Once a record has completed one of the processor's output fields, the
    /// processor is not due on that record, and it never becomes due on it
    /// again, whatever is merged into the record later.
    pub proof fn lemma_not_due_again(self, record: ProcessedTicket, later: ProcessedTicket)
        requires
            !FieldMask::of_record(record)@.disjoint(self.output@),
        ensures
            !self.due(FieldMask::of_record(record)),
            !self.due(FieldMask::of_record(record.merged(later))),
    {
        let field = choose|field: Field|
            FieldMask::of_record(record)@.contains(field) && self.output@.contains(field);
        record.lemma_mask_of_merged(later);
        assert(FieldMask::of_record(record.merged(later))@.contains(field));
    }

    /// A processor is never due on a record that lacks one of the fields it
    /// requires.
    pub proof fn lemma_not_due_before(self, record: ProcessedTicket, field: Field)
        requires
            self.required@.contains(field),
            !record.completed_field(field),
        ensures
            !self.due(FieldMask::of_record(record)),
    {
        record.lemma_mask_is_completed_fields();
    }
}

/// The capability of an enrichment unit, as far as scheduling goes. The
/// work itself may wait on the outside world and is run by the host between
/// `TicketPipeline::on_event` and `TicketPipeline::complete`.
pub trait TicketProcessor {
    /// The fields that must be completed before the processor may run.
    spec fn required(&self) -> FieldMask;

    /// The fields that the processor alone fills in.
    spec fn output(&self) -> FieldMask;

    fn required_fields(&self) -> (mask: FieldMask)
        ensures
            mask == self.required(),
    ;

    fn output_fields(&self) -> (mask: FieldMask)
        ensures
            mask == self.output(),
    ;
}

/// The message on the bus: the record with this id now has these fields
/// completed.
#[derive(Debug, PartialEq, Eq)]
pub struct TicketUpdateEvent {
    pub ticket_id: String,
    pub completed_fields: FieldMask,
}

impl Clone for TicketUpdateEvent {
    fn clone(&self) -> (res: Self)
        ensures
            res == *self,
    {
        TicketUpdateEvent {
            ticket_id: self.ticket_id.clone(),
            completed_fields: self.completed_fields,
        }
    }
}

/// What a caller that waits for a ticket does after an event.
#[derive(Debug, PartialEq)]
pub enum WaitStep {
    /// The event was not the one waited for: receive the next.
    Continue,
    /// The wait is over, with the converged record or with the failure.
    Finished(Result<ProcessedTicket, ProcessingError>),
}

/// The decisions of the enrichment pipeline.
///
/// The pipeline owns the records and knows what each processor declared. The
/// host owns the bus and the tasks: it hands every received event to
/// `on_event`, runs the processor on the snapshot that comes back, and hands
/// the result to `complete`, whose event it publishes.
#[derive(Debug)]
pub struct TicketPipeline {
    processors: Vec<ProcessorFields>,
    ticket_store: TicketStore,
}

impl TicketPipeline {
    /// The declarations of the configured processors, in the order in which
    /// they were added.
    pub closed spec fn processors(self) -> Seq<ProcessorFields> {
        self.processors@
    }

    /// The records in flight, by ticket id.
    pub closed spec fn tickets(self) -> Map<Seq<char>, ProcessedTicket> {
        self.ticket_store@
    }

    /// Adds a processor to the pipeline.
    pub fn with_processor<P: TicketProcessor>(self, processor: &P) -> (pipeline: Self)
        ensures
            pipeline.tickets() == self.tickets(),
            pipeline.processors() == self.processors().push(
                ProcessorFields { required: processor.required(), output: processor.output() },
            ),
    {
        let mut pipeline = self;
        let fields = ProcessorFields {
            required: processor.required_fields(),
            output: processor.output_fields(),
        };
        pipeline.processors.push(fields);
        pipeline
    }

    /// Starts the pipeline: hands back the declarations for which the host
    /// starts one task each. Without any processor there is nothing to
    /// start, and that is an error.
    pub fn run(&self) -> (started: Result<Vec<ProcessorFields>, ProcessingError>)
        ensures
            started.is_err() <==> self.processors().len() == 0,
            started matches Ok(units) ==> units@ == self.processors(),
            started matches Err(err) ==> err matches ProcessingError::TicketProcessingError(text)
                && text@ == "No processors configured"@,
    {
        if self.processors.len() == 0 {
            return Err(ProcessingError::TicketProcessingError("No processors configured".to_owned()));
        }
        Ok(self.processors.clone())
    }

    /// Takes a ticket in: stores a record of it on which nothing is
    /// completed, and hands back the event that announces it, with an empty
    /// mask. The host publishes that event and then waits with
    /// `wait_for_processing`.
    pub fn process_ticket(&mut self, ticket: SupportTicket) -> (seed: TicketUpdateEvent)
        ensures
            final(self).processors() == old(self).processors(),
            final(self).tickets() == old(self).tickets().insert(
                ticket.id@,
                ProcessedTicket::fresh(ticket),
            ),
            seed.ticket_id@ == ticket.id@,
            seed.completed_fields@ == Set::<Field>::empty(),
    {
        let ticket_id = ticket.id.clone();
        self.ticket_store.add_ticket(ProcessedTicket::new(ticket));
        TicketUpdateEvent { ticket_id, completed_fields: FieldMask::empty() }
    }

    /// What has become of the event that announces a ticket: it counts as
    /// sent when somebody was there to receive it.
    pub fn confirm_seed(delivered: bool) -> (sent: Result<(), ProcessingError>)
        ensures
            sent.is_ok() <==> delivered,
            sent matches Err(err) ==> err matches ProcessingError::TicketProcessingError(text)
                && text@ == "Failed to send event"@,
    {
        if delivered {
            Ok(())
        } else {
            Err(ProcessingError::TicketProcessingError("Failed to send event".to_owned()))
        }
    }

    /// The decision of one processor's task on one event: the snapshot on
    /// which the processor is to run now, or nothing.
    ///
    /// The processor runs exactly when the record that the event names is
    /// still stored and the processor is due on it as it is stored now; the
    /// mask in the event itself decides nothing.
    pub fn on_event(&self, unit: &ProcessorFields, event: &TicketUpdateEvent) -> (snapshot: Option<
        ProcessedTicket,
    >)
        ensures
            snapshot.is_some() <==> {
                &&& self.tickets().contains_key(event.ticket_id@)
                &&& unit.due(FieldMask::of_record(self.tickets()[event.ticket_id@]))
            },
            snapshot matches Some(record) ==> record == self.tickets()[event.ticket_id@]
                && record.ticket.id@ == event.ticket_id@,
    {
        match self.ticket_store.get_ticket(event.ticket_id.as_str()) {
            Some(record) => {
                let current = FieldMask::from(&record);
                if unit.is_due(current) {
                    Some(record)
                } else {
                    None
                }
            },
            None => None,
        }
    }

    /// Takes in what a processor returned for a ticket: merges it into the
    /// stored record and hands back the event to publish, which carries the
    /// completed fields of the record as it is stored now. When the record
    /// is gone nothing changes and there is nothing to publish. No other
    /// record is touched, and no record loses a completed field.
    pub fn complete(&mut self, ticket_id: &str, result: ProcessedTicket) -> (event: Option<
        TicketUpdateEvent,
    >)
        ensures
            final(self).processors() == old(self).processors(),
            event.is_some() <==> old(self).tickets().contains_key(ticket_id@),
            event matches Some(published) ==> {
                &&& published.ticket_id@ == ticket_id@
                &&& published.completed_fields == FieldMask::of_record(
                    old(self).tickets()[ticket_id@].merged(result),
                )
                &&& final(self).tickets() == old(self).tickets().insert(
                    ticket_id@,
                    old(self).tickets()[ticket_id@].merged(result),
                )
            },
            event.is_none() ==> final(self).tickets() == old(self).tickets(),
            forall|other: Seq<char>|
                other != ticket_id@ ==> (#[trigger] final(self).tickets().contains_key(other))
                    == old(self).tickets().contains_key(other) && final(self).tickets()[other]
                    == old(self).tickets()[other],
            forall|id: Seq<char>| #[trigger]
                old(self).tickets().contains_key(id) ==> final(self).tickets().contains_key(id)
                    && FieldMask::of_record(old(self).tickets()[id])@.subset_of(
                    FieldMask::of_record(final(self).tickets()[id])@,
                ),
    {
        proof {
            if self.tickets().contains_key(ticket_id@) {
                self.tickets()[ticket_id@].lemma_mask_of_merged(result);
            }
        }
        match self.ticket_store.update_ticket(ticket_id, result) {
            Some(updated) => Some(
                TicketUpdateEvent {
                    ticket_id: ticket_id.to_owned(),
                    completed_fields: FieldMask::from(&updated),
                },
            ),
            None => None,
        }
    }

    /// Whether an event tells the caller that waits for `ticket_id` that its
    /// ticket has converged.
    pub open spec fn announces_convergence(ticket_id: Seq<char>, event: TicketUpdateEvent) -> bool {
        event.ticket_id@ == ticket_id && event.completed_fields@ == Set::<Field>::full()
    }

    /// The decision of a caller that waits for a ticket, on what its
    /// subscription handed it: an event, or nothing when the subscription
    /// has failed.
    ///
    /// The wait ends with a record only on an event for this very ticket
    /// whose mask holds every field; the record is then the one that is
    /// stored now. Any other event is passed over.
    pub fn wait_for_processing(&self, ticket_id: &str, received: Option<&TicketUpdateEvent>) -> (step:
        WaitStep)
        ensures
            match received {
                None => step matches WaitStep::Finished(Err(err))
                    && err matches ProcessingError::TicketProcessingError(text) && text@
                    == "Event channel closed"@,
                Some(event) => if !Self::announces_convergence(ticket_id@, *event) {
                    step == WaitStep::Continue
                } else if self.tickets().contains_key(ticket_id@) {
                    step == WaitStep::Finished(Ok(self.tickets()[ticket_id@]))
                } else {
                    step matches WaitStep::Finished(Err(err))
                        && err matches ProcessingError::TicketProcessingError(text) && text@
                        == "Ticket not found"@
                },
            },
    {
        match received {
            None => WaitStep::Finished(
                Err(ProcessingError::TicketProcessingError("Event channel closed".to_owned())),
            ),
            Some(event) => {
                if str_eq(event.ticket_id.as_str(), ticket_id) && event.completed_fields.is_all() {
                    match self.ticket_store.get_ticket(ticket_id) {
                        Some(record) => WaitStep::Finished(Ok(record)),
                        None => WaitStep::Finished(
                            Err(ProcessingError::TicketProcessingError("Ticket not found".to_owned())),
                        ),
                    }
                } else {
                    WaitStep::Continue
                }
            },
        }
    }

    /// An event that carries the completed fields of a record, as the events
    /// of `complete` do, announces convergence to the caller that waits for
    /// that ticket exactly when the record has converged.
    pub proof fn lemma_announced_is_converged(event: TicketUpdateEvent, record: ProcessedTicket)
        requires
            event.completed_fields == FieldMask::of_record(record),
        ensures
            Self::announces_convergence(event.ticket_id@, event) <==> record.converged(),
    {
        record.lemma_converged_is_full_mask();
    }
}

impl Default for TicketPipeline {
    /// A pipeline without processors and without records.
    fn default() -> (pipeline: Self)
        ensures
            pipeline.processors() == Seq::<ProcessorFields>::empty(),
            pipeline.tickets() == Map::<Seq<char>, ProcessedTicket>::empty(),
    {
        TicketPipeline { processors: Vec::new(), ticket_store: TicketStore::new() }
    }
}

} // verus!
