use ticket_triage::error::ProcessingError;
use ticket_triage::pipeline::{FieldMask, TicketProcessor};
use ticket_triage::processors::priority::{
    calculate_priority_from_sentiment_and_category, get_category_priority_weight,
    get_sentiment_priority_multiplier, PriorityProcessor,
};
use ticket_triage::ticket::{
    ProcessedTicket, ProcessingResult, SentimentLabel, SentimentScore, SupportTicket,
    TicketCategory, TicketPriority, Timestamp,
};

fn multiplier(label: SentimentLabel) -> f32 {
    f32::from(get_sentiment_priority_multiplier(&label)) / 10.0
}

fn record() -> ProcessedTicket {
    ProcessedTicket::new(SupportTicket::new(
        "p-1".to_string(),
        "content".to_string(),
        Timestamp { seconds: 1_700_000_000, nanoseconds: 0 },
        "customer1".to_string(),
    ))
}

#[test]
fn test_priority_calculation_critical() {
    let sentiment = SentimentScore::new(SentimentLabel::VeryNegative, 0.9f32.to_bits());
    let category = TicketCategory::Technical;

    let priority = calculate_priority_from_sentiment_and_category(&sentiment, &category);
    assert_eq!(priority, TicketPriority::Critical);
}

#[test]
fn test_priority_calculation_high() {
    let sentiment = SentimentScore::new(SentimentLabel::Negative, 0.8f32.to_bits());
    let category = TicketCategory::Billing;

    let priority = calculate_priority_from_sentiment_and_category(&sentiment, &category);
    assert_eq!(priority, TicketPriority::High);
}

#[test]
fn test_priority_calculation_medium() {
    let sentiment = SentimentScore::new(SentimentLabel::Neutral, 0.7f32.to_bits());
    let category = TicketCategory::Account;

    let priority = calculate_priority_from_sentiment_and_category(&sentiment, &category);
    assert_eq!(priority, TicketPriority::Medium);
}

#[test]
fn test_priority_calculation_low() {
    let sentiment = SentimentScore::new(SentimentLabel::Positive, 0.8f32.to_bits());
    let category = TicketCategory::Feedback;

    let priority = calculate_priority_from_sentiment_and_category(&sentiment, &category);
    assert_eq!(priority, TicketPriority::Low);
}

#[test]
fn test_confidence_boost() {
    let high_conf_sentiment = SentimentScore::new(SentimentLabel::Negative, 0.95f32.to_bits());
    let low_conf_sentiment = SentimentScore::new(SentimentLabel::Negative, 0.6f32.to_bits());
    let category = TicketCategory::General;

    let high_priority =
        calculate_priority_from_sentiment_and_category(&high_conf_sentiment, &category);
    let low_priority =
        calculate_priority_from_sentiment_and_category(&low_conf_sentiment, &category);

    assert!(matches!(high_priority, TicketPriority::Medium | TicketPriority::High));
    assert!(matches!(low_priority, TicketPriority::Low | TicketPriority::Medium));
}

#[test]
fn test_category_priority_weights() {
    assert_eq!(get_category_priority_weight(&TicketCategory::Technical), 8);
    assert_eq!(get_category_priority_weight(&TicketCategory::Billing), 7);
    assert_eq!(get_category_priority_weight(&TicketCategory::Account), 6);
    assert_eq!(get_category_priority_weight(&TicketCategory::Sales), 4);
    assert_eq!(get_category_priority_weight(&TicketCategory::General), 3);
    assert_eq!(get_category_priority_weight(&TicketCategory::Other), 3);
    assert_eq!(get_category_priority_weight(&TicketCategory::Feedback), 2);
}

#[test]
fn test_sentiment_priority_multipliers() {
    assert_eq!(multiplier(SentimentLabel::VeryNegative), 1.5);
    assert_eq!(multiplier(SentimentLabel::Negative), 1.3);
    assert_eq!(multiplier(SentimentLabel::Neutral), 1.0);
    assert_eq!(multiplier(SentimentLabel::Positive), 0.8);
    assert_eq!(multiplier(SentimentLabel::VeryPositive), 0.6);
}

fn reference(label: SentimentLabel, confidence: f32, category: TicketCategory) -> TicketPriority {
    let weight = f32::from(get_category_priority_weight(&category));
    let factor: f32 = match label {
        SentimentLabel::VeryNegative => 1.5,
        SentimentLabel::Negative => 1.3,
        SentimentLabel::Neutral => 1.0,
        SentimentLabel::Positive => 0.8,
        SentimentLabel::VeryPositive => 0.6,
    };
    let negative = matches!(label, SentimentLabel::Negative | SentimentLabel::VeryNegative);
    let boost: f32 = if negative && confidence > 0.8 { 1.2 } else { 1.0 };
    let score = weight * factor * boost;
    if score >= 10.0 {
        TicketPriority::Critical
    } else if score >= 7.0 {
        TicketPriority::High
    } else if score >= 4.0 {
        TicketPriority::Medium
    } else {
        TicketPriority::Low
    }
}

#[test]
fn priority_agrees_with_the_scores_in_single_precision() {
    let labels = [
        SentimentLabel::VeryPositive,
        SentimentLabel::Positive,
        SentimentLabel::Neutral,
        SentimentLabel::Negative,
        SentimentLabel::VeryNegative,
    ];
    let categories = [
        TicketCategory::Billing,
        TicketCategory::Account,
        TicketCategory::General,
        TicketCategory::Technical,
        TicketCategory::Sales,
        TicketCategory::Feedback,
        TicketCategory::Other,
    ];
    let above = f32::from_bits(0.8f32.to_bits() + 1);
    let confidences =
        [0.0f32, -0.0, 0.5, 0.8, above, 0.95, 1.0, 2.0, -0.9, f32::INFINITY, f32::NAN, -f32::NAN];
    for label in labels {
        for category in categories {
            for confidence in confidences {
                let score = SentimentScore::new(label, confidence.to_bits());
                assert_eq!(
                    calculate_priority_from_sentiment_and_category(&score, &category),
                    reference(label, confidence, category)
                );
            }
        }
    }
}

#[test]
fn boost_begins_just_above_the_threshold() {
    let at = SentimentScore::new(SentimentLabel::Negative, 0.8f32.to_bits());
    let above = SentimentScore::new(SentimentLabel::Negative, 0.8f32.to_bits() + 1);
    // 7 * 1.3 = 9.1 is high; 7 * 1.3 * 1.2 = 10.92 is critical.
    assert_eq!(
        calculate_priority_from_sentiment_and_category(&at, &TicketCategory::Billing),
        TicketPriority::High
    );
    assert_eq!(
        calculate_priority_from_sentiment_and_category(&above, &TicketCategory::Billing),
        TicketPriority::Critical
    );
    // A positive sentiment gets no boost however confident it is.
    let positive = SentimentScore::new(SentimentLabel::Positive, 1.0f32.to_bits());
    assert_eq!(
        calculate_priority_from_sentiment_and_category(&positive, &TicketCategory::Technical),
        TicketPriority::Medium
    );
}

#[test]
fn exact_thresholds() {
    // Neutral keeps the weight: 7 is high, 4 is medium, 3 is low.
    let neutral = SentimentScore::new(SentimentLabel::Neutral, 0.5f32.to_bits());
    assert_eq!(
        calculate_priority_from_sentiment_and_category(&neutral, &TicketCategory::Billing),
        TicketPriority::High
    );
    assert_eq!(
        calculate_priority_from_sentiment_and_category(&neutral, &TicketCategory::Sales),
        TicketPriority::Medium
    );
    assert_eq!(
        calculate_priority_from_sentiment_and_category(&neutral, &TicketCategory::General),
        TicketPriority::Low
    );
}

#[test]
fn priority_processor_declares_its_fields() {
    let processor = PriorityProcessor::new().unwrap();
    assert_eq!(
        processor.required_fields(),
        FieldMask::sentiment().union(FieldMask::category())
    );
    assert_eq!(processor.output_fields(), FieldMask::priority());
}

#[test]
fn priority_processor_derives_the_priority() {
    let processor = PriorityProcessor::new().unwrap();
    let snapshot = record()
        .with_sentiment(ProcessingResult::Success(SentimentScore::new(
            SentimentLabel::VeryNegative,
            0.9f32.to_bits(),
        )))
        .with_category(ProcessingResult::Success(TicketCategory::Technical));
    let result = processor.process(snapshot.clone());
    assert_eq!(result.ticket, snapshot.ticket);
    assert_eq!(result.priority, ProcessingResult::Success(TicketPriority::Critical));
    assert_eq!(result.sentiment, ProcessingResult::Processing);
    assert_eq!(result.category, ProcessingResult::Processing);
    assert_eq!(result.language, ProcessingResult::Processing);
}

#[test]
fn priority_is_an_error_when_an_input_failed() {
    let processor = PriorityProcessor::new().unwrap();
    let expected = ProcessingResult::Error(ProcessingError::PriorityCalculationError(
        "Insufficient data to calculate priority - both sentiment and category are required"
            .to_string(),
    ));
    let failed_sentiment = record()
        .with_sentiment(ProcessingResult::Error(ProcessingError::SentimentAnalysis(
            "HTTP error: 503".to_string(),
        )))
        .with_category(ProcessingResult::Success(TicketCategory::Billing));
    assert_eq!(processor.calculate_priority(&failed_sentiment), expected);
    assert_eq!(processor.process(failed_sentiment).priority, expected);

    let failed_category = record()
        .with_sentiment(ProcessingResult::Success(SentimentScore::new(
            SentimentLabel::Neutral,
            0.5f32.to_bits(),
        )))
        .with_category(ProcessingResult::Error(ProcessingError::ClassificationError(
            "Failed to parse classification response".to_string(),
        )));
    assert_eq!(processor.calculate_priority(&failed_category), expected);

    assert_eq!(processor.calculate_priority(&record()), expected);
}
