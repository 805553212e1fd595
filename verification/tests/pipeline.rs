use chrono::Utc;
use ticket_triage::error::ProcessingError;
use ticket_triage::pipeline::{
    FieldMask, ProcessorFields, TicketPipeline, TicketProcessor, TicketUpdateEvent, WaitStep,
    EVENT_BUS_CAPACITY,
};
use ticket_triage::processors::classification::{ClassificationProcessor, ClassificationReply};
use ticket_triage::processors::language::LanguageProcessor;
use ticket_triage::processors::priority::PriorityProcessor;
use ticket_triage::processors::sentiment::{
    HuggingFaceResponse, SentimentProcessor, SentimentReply,
};
use ticket_triage::ticket::{
    Language, ProcessedTicket, ProcessingResult, SentimentLabel, SentimentScore, SupportTicket,
    TicketCategory, TicketPriority, Timestamp,
};
use ticket_triage::ticket_store::TicketStore;

fn create_test_ticket() -> SupportTicket {
    let now = Utc::now();
    SupportTicket::new(
        "test-1".to_string(),
        "Test ticket content".to_string(),
        Timestamp { seconds: now.timestamp(), nanoseconds: now.timestamp_subsec_nanos() },
        "customer1".to_string(),
    )
}

fn ticket(id: &str, content: &str) -> SupportTicket {
    SupportTicket::new(
        id.to_string(),
        content.to_string(),
        Timestamp { seconds: 1_700_000_000, nanoseconds: 250 },
        "customer1".to_string(),
    )
}

fn event(id: &str, completed_fields: FieldMask) -> TicketUpdateEvent {
    TicketUpdateEvent { ticket_id: id.to_string(), completed_fields }
}

fn full_pipeline() -> TicketPipeline {
    TicketPipeline::default()
        .with_processor(&LanguageProcessor)
        .with_processor(&SentimentProcessor::new(Some("SECRET-REDACTED".to_string())).unwrap())
        .with_processor(&ClassificationProcessor::new().unwrap())
        .with_processor(&PriorityProcessor::new().unwrap())
}

fn rankings(label: &str, score: f32) -> SentimentReply {
    SentimentReply::Rankings(vec![vec![HuggingFaceResponse {
        label: label.to_string(),
        score: score.to_bits(),
    }]])
}

#[test]
fn test_field_mask_from_processed_ticket() {
    let ticket = create_test_ticket();
    let mut processed = ProcessedTicket::new(ticket);

    // Initially all fields are pending, so the mask is empty.
    let mask = FieldMask::from(&processed);
    assert_eq!(mask, FieldMask::empty());

    processed.language = ProcessingResult::Success(Language::English);
    let mask = FieldMask::from(&processed);
    assert!(mask.contains(FieldMask::language()));
    assert!(!mask.contains(FieldMask::sentiment()));

    processed.sentiment =
        ProcessingResult::Error(ProcessingError::InvalidTicketData("test".to_string()));
    let mask = FieldMask::from(&processed);
    assert!(mask.contains(FieldMask::language()));
    assert!(mask.contains(FieldMask::sentiment()));
    assert!(!mask.contains(FieldMask::category()));
}

#[test]
fn field_mask_is_exactly_the_completed_fields() {
    for bits in 0u8..16 {
        let mut record = ProcessedTicket::new(ticket("m", "x"));
        let mut expected = FieldMask::empty();
        if bits & 1 != 0 {
            record.language = ProcessingResult::Success(Language::Thai);
            expected.insert(FieldMask::language());
        }
        if bits & 2 != 0 {
            record.sentiment =
                ProcessingResult::Error(ProcessingError::UnknownError("u".to_string()));
            expected.insert(FieldMask::sentiment());
        }
        if bits & 4 != 0 {
            record.category = ProcessingResult::Success(TicketCategory::General);
            expected.insert(FieldMask::category());
        }
        if bits & 8 != 0 {
            record.priority = ProcessingResult::Success(TicketPriority::Medium);
            expected.insert(FieldMask::priority());
        }
        assert_eq!(FieldMask::from(&record), expected);
        assert_eq!(FieldMask::from(&record).is_all(), bits == 15);
        assert_eq!(FieldMask::from(&record).is_empty(), bits == 0);
    }
}

#[test]
fn field_mask_set_operations() {
    let language = FieldMask::language();
    let sentiment = FieldMask::sentiment();
    let both = language.union(sentiment);
    assert!(both.contains(language));
    assert!(both.contains(sentiment));
    assert!(both.contains(both));
    assert!(both.contains(FieldMask::empty()));
    assert!(!language.contains(both));
    assert!(both.intersects(language));
    assert!(!language.intersects(sentiment));
    assert!(!language.intersects(FieldMask::empty()));
    assert_eq!(both.intersection(language), language);
    assert_eq!(language.intersection(sentiment), FieldMask::empty());
    assert_eq!(
        both.union(FieldMask::category()).union(FieldMask::priority()),
        FieldMask::all()
    );
    assert!(FieldMask::all().is_all());
    assert!(FieldMask::empty().is_empty());
    assert!(!both.is_all());
    assert!(!both.is_empty());
    assert_ne!(FieldMask::category(), FieldMask::priority());
}

#[test]
fn store_add_get_remove() {
    let mut store = TicketStore::new();
    assert_eq!(store.get_ticket("a"), None);
    let a = ProcessedTicket::new(ticket("a", "first"));
    let b = ProcessedTicket::new(ticket("b", "second"));
    store.add_ticket(a.clone());
    store.add_ticket(b.clone());
    assert_eq!(store.get_ticket("a"), Some(a.clone()));
    assert_eq!(store.get_ticket("b"), Some(b.clone()));
    assert_eq!(store.get_ticket("c"), None);

    // Adding under an id that is taken replaces the record.
    let replacement = ProcessedTicket::new(ticket("a", "again"))
        .with_category(ProcessingResult::Success(TicketCategory::Sales));
    store.add_ticket(replacement.clone());
    assert_eq!(store.get_ticket("a"), Some(replacement));
    assert_eq!(store.get_ticket("b"), Some(b.clone()));

    store.remove_ticket("a");
    assert_eq!(store.get_ticket("a"), None);
    assert_eq!(store.get_ticket("b"), Some(b.clone()));
    store.remove_ticket("missing");
    assert_eq!(store.get_ticket("b"), Some(b));
    assert_eq!(TicketStore::default().get_ticket("b"), None);
}

#[test]
fn store_update_merges_into_one_record_only() {
    let mut store = TicketStore::new();
    let a = ProcessedTicket::new(ticket("a", "first"));
    let b = ProcessedTicket::new(ticket("b", "second"));
    store.add_ticket(a.clone());
    store.add_ticket(b.clone());

    let update = ProcessedTicket::new(ticket("a", "first"))
        .with_language(ProcessingResult::Success(Language::French));
    let updated = store.update_ticket("a", update.clone());
    let expected = a.with_language(ProcessingResult::Success(Language::French));
    assert_eq!(updated, Some(expected.clone()));
    assert_eq!(store.get_ticket("a"), Some(expected));
    assert_eq!(store.get_ticket("b"), Some(b.clone()));

    assert_eq!(store.update_ticket("zzz", update), None);
    assert_eq!(store.get_ticket("b"), Some(b));
    assert_eq!(store.get_ticket("zzz"), None);
}

#[test]
fn run_without_processors_is_an_error() {
    let pipeline = TicketPipeline::default();
    assert_eq!(
        pipeline.run(),
        Err(ProcessingError::TicketProcessingError("No processors configured".to_string()))
    );
}

#[test]
fn run_hands_back_one_unit_per_processor() {
    let units = full_pipeline().run().unwrap();
    assert_eq!(
        units,
        vec![
            ProcessorFields { required: FieldMask::empty(), output: FieldMask::language() },
            ProcessorFields { required: FieldMask::empty(), output: FieldMask::sentiment() },
            ProcessorFields { required: FieldMask::empty(), output: FieldMask::category() },
            ProcessorFields {
                required: FieldMask::sentiment().union(FieldMask::category()),
                output: FieldMask::priority(),
            },
        ]
    );
}

#[test]
fn processors_declare_disjoint_outputs() {
    let sentiment = SentimentProcessor::new(Some("SECRET-REDACTED".to_string())).unwrap();
    let classification = ClassificationProcessor::new().unwrap();
    assert_eq!(LanguageProcessor.required_fields(), FieldMask::empty());
    assert_eq!(LanguageProcessor.output_fields(), FieldMask::language());
    assert_eq!(sentiment.required_fields(), FieldMask::empty());
    assert_eq!(sentiment.output_fields(), FieldMask::sentiment());
    assert_eq!(classification.required_fields(), FieldMask::empty());
    assert_eq!(classification.output_fields(), FieldMask::category());
}

#[test]
fn gate_needs_the_required_fields_and_runs_once() {
    let unit = ProcessorFields {
        required: FieldMask::sentiment().union(FieldMask::category()),
        output: FieldMask::priority(),
    };
    assert!(!unit.is_due(FieldMask::empty()));
    assert!(!unit.is_due(FieldMask::sentiment()));
    assert!(!unit.is_due(FieldMask::category().union(FieldMask::language())));
    assert!(unit.is_due(FieldMask::sentiment().union(FieldMask::category())));
    assert!(unit.is_due(
        FieldMask::sentiment().union(FieldMask::category()).union(FieldMask::language())
    ));
    assert!(!unit.is_due(FieldMask::all()));
    assert!(!unit.is_due(FieldMask::priority()));

    let free = ProcessorFields { required: FieldMask::empty(), output: FieldMask::language() };
    assert!(free.is_due(FieldMask::empty()));
    assert!(free.is_due(FieldMask::sentiment()));
    assert!(!free.is_due(FieldMask::language()));
}

#[test]
fn submit_stores_a_fresh_record_and_seeds_an_empty_event() {
    let mut pipeline = full_pipeline();
    let seed = pipeline.process_ticket(ticket("t1", "Hello there"));
    assert_eq!(seed, event("t1", FieldMask::empty()));
    let units = pipeline.run().unwrap();
    assert_eq!(
        pipeline.on_event(&units[0], &seed),
        Some(ProcessedTicket::new(ticket("t1", "Hello there")))
    );
    // The priority processor has to wait for sentiment and category.
    assert_eq!(pipeline.on_event(&units[3], &seed), None);
    // An event for a record that is not stored is passed over.
    assert_eq!(pipeline.on_event(&units[0], &event("nope", FieldMask::empty())), None);
}

#[test]
fn bus_holds_sixteen_events() {
    assert_eq!(EVENT_BUS_CAPACITY, 16);
}

#[test]
fn seed_must_have_been_delivered() {
    assert_eq!(TicketPipeline::confirm_seed(true), Ok(()));
    assert_eq!(
        TicketPipeline::confirm_seed(false),
        Err(ProcessingError::TicketProcessingError("Failed to send event".to_string()))
    );
}

#[test]
fn a_processor_runs_once_per_record() {
    let mut pipeline = full_pipeline();
    let seed = pipeline.process_ticket(ticket("t1", "Hello there"));
    let units = pipeline.run().unwrap();
    let snapshot = pipeline.on_event(&units[2], &seed).unwrap();
    let result = ClassificationProcessor::new()
        .unwrap()
        .process(snapshot, ClassificationReply::Answer(Some(TicketCategory::Account)));
    let published = pipeline.complete("t1", result.clone()).unwrap();
    assert_eq!(published, event("t1", FieldMask::category()));
    // Neither the old event nor the new one makes the processor run again.
    assert_eq!(pipeline.on_event(&units[2], &seed), None);
    assert_eq!(pipeline.on_event(&units[2], &published), None);
    // Handing the same result in twice changes nothing.
    let again = pipeline.complete("t1", result).unwrap();
    assert_eq!(again, published);
}

#[test]
fn complete_for_a_vanished_record_publishes_nothing() {
    let mut pipeline = full_pipeline();
    let result = ProcessedTicket::new(ticket("gone", "x"))
        .with_language(ProcessingResult::Success(Language::Dutch));
    assert_eq!(pipeline.complete("gone", result), None);
    assert_eq!(
        pipeline.wait_for_processing("gone", Some(&event("gone", FieldMask::all()))),
        WaitStep::Finished(Err(ProcessingError::TicketProcessingError(
            "Ticket not found".to_string()
        )))
    );
}

#[test]
fn records_are_processed_independently() {
    let mut pipeline = full_pipeline();
    let seed_a = pipeline.process_ticket(ticket("a", "first"));
    let seed_b = pipeline.process_ticket(ticket("b", "second"));
    let units = pipeline.run().unwrap();
    let snapshot_a = pipeline.on_event(&units[2], &seed_a).unwrap();
    let result_a = ClassificationProcessor::new()
        .unwrap()
        .process(snapshot_a, ClassificationReply::Answer(Some(TicketCategory::Billing)));
    assert_eq!(pipeline.complete("a", result_a), Some(event("a", FieldMask::category())));
    // The other record is as it was, and the processor is still due on it.
    assert_eq!(
        pipeline.on_event(&units[2], &seed_b),
        Some(ProcessedTicket::new(ticket("b", "second")))
    );
    assert_eq!(pipeline.on_event(&units[2], &seed_a), None);
}

#[test]
fn wait_ends_only_on_the_full_mask_of_its_own_ticket() {
    let mut pipeline = full_pipeline();
    let seed = pipeline.process_ticket(ticket("t1", "Hello there"));
    assert_eq!(pipeline.wait_for_processing("t1", Some(&seed)), WaitStep::Continue);
    let partial = FieldMask::language().union(FieldMask::sentiment()).union(FieldMask::category());
    assert_eq!(
        pipeline.wait_for_processing("t1", Some(&event("t1", partial))),
        WaitStep::Continue
    );
    assert_eq!(
        pipeline.wait_for_processing("t1", Some(&event("t2", FieldMask::all()))),
        WaitStep::Continue
    );
    assert_eq!(
        pipeline.wait_for_processing("t1", None),
        WaitStep::Finished(Err(ProcessingError::TicketProcessingError(
            "Event channel closed".to_string()
        )))
    );
    assert_eq!(
        pipeline.wait_for_processing("t1", Some(&event("t1", FieldMask::all()))),
        WaitStep::Finished(Ok(ProcessedTicket::new(ticket("t1", "Hello there"))))
    );
}

fn drive(pipeline: &mut TicketPipeline, id: &str, sentiment: SentimentReply,
    category: ClassificationReply) -> ProcessedTicket {
    let units = pipeline.run().unwrap();
    let sentiment_processor =
        SentimentProcessor::new(Some("SECRET-REDACTED".to_string())).unwrap();
    let mut sentiment = Some(sentiment);
    let mut category = Some(category);
    let mut queue = vec![event(id, FieldMask::empty())];
    let mut finished = None;
    while !queue.is_empty() {
        let current = queue.remove(0);
        for (index, unit) in units.iter().enumerate() {
            if let Some(snapshot) = pipeline.on_event(unit, &current) {
                let result = match index {
                    0 => LanguageProcessor.process(snapshot),
                    1 => sentiment_processor.process(snapshot, sentiment.take().unwrap()),
                    2 => ClassificationProcessor.process(snapshot, category.take().unwrap()),
                    _ => PriorityProcessor.process(snapshot),
                };
                if let Some(published) = pipeline.complete(id, result) {
                    queue.push(published);
                }
            }
        }
        if let WaitStep::Finished(outcome) = pipeline.wait_for_processing(id, Some(&current)) {
            finished = Some(outcome.unwrap());
        }
    }
    finished.unwrap()
}

#[test]
fn a_ticket_converges_with_every_field_settled() {
    let mut pipeline = full_pipeline();
    let text = "My payment failed twice yesterday and nobody has answered my messages since then.";
    let seed = pipeline.process_ticket(ticket("t1", text));
    assert_eq!(seed.completed_fields, FieldMask::empty());
    let record = drive(
        &mut pipeline,
        "t1",
        rankings("Very Negative", 0.93),
        ClassificationReply::Answer(Some(TicketCategory::Billing)),
    );
    assert_eq!(record.ticket, ticket("t1", text));
    assert_eq!(record.language, ProcessingResult::Success(Language::English));
    assert_eq!(
        record.sentiment,
        ProcessingResult::Success(SentimentScore::new(
            SentimentLabel::VeryNegative,
            0.93f32.to_bits()
        ))
    );
    assert_eq!(record.category, ProcessingResult::Success(TicketCategory::Billing));
    // 7 * 1.5 * 1.2 = 12.6
    assert_eq!(record.priority, ProcessingResult::Success(TicketPriority::Critical));
    assert_eq!(FieldMask::from(&record), FieldMask::all());
}

#[test]
fn a_failed_field_still_lets_the_ticket_converge() {
    let mut pipeline = full_pipeline();
    pipeline.process_ticket(ticket("t1", "The application crashes whenever I open the settings page."));
    let record = drive(
        &mut pipeline,
        "t1",
        SentimentReply::HttpFailure("503 Service Unavailable".to_string()),
        ClassificationReply::Answer(Some(TicketCategory::Technical)),
    );
    assert_eq!(
        record.sentiment,
        ProcessingResult::Error(ProcessingError::SentimentAnalysis(
            "HTTP error: 503 Service Unavailable".to_string()
        ))
    );
    assert_eq!(record.category, ProcessingResult::Success(TicketCategory::Technical));
    assert_eq!(
        record.priority,
        ProcessingResult::Error(ProcessingError::PriorityCalculationError(
            "Insufficient data to calculate priority - both sentiment and category are required"
                .to_string()
        ))
    );
    assert_eq!(FieldMask::from(&record), FieldMask::all());
}
