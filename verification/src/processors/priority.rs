use vstd::prelude::*;
use crate::error::ProcessingError;
use crate::pipeline::{Field, FieldMask, ProcessorFields, TicketProcessor};
use crate::ticket::{
    ProcessedTicket, ProcessingResult, SentimentLabel, SentimentScore, TicketCategory,
    TicketPriority,
};

verus! {

/// The bit pattern of the single-precision number nearest to 0.8. A negative
/// sentiment weighs more when its confidence lies above that number.
pub const CONFIDENCE_BOOST_THRESHOLD: u32 = 0x3F4C_CCCD;

/// The bit pattern of positive infinity, the largest single-precision bit
/// pattern that is a number and not negative.
pub const LARGEST_POSITIVE_NUMBER: u32 = 0x7F80_0000;

/// The weight of a category on a scale from 0 to 10: how much is at stake
/// for the customer.
pub open spec fn category_weight(category: TicketCategory) -> int {
    match category {
        TicketCategory::Technical => 8,
        TicketCategory::Billing => 7,
        TicketCategory::Account => 6,
        TicketCategory::Sales => 4,
        TicketCategory::General => 3,
        TicketCategory::Other => 3,
        TicketCategory::Feedback => 2,
    }
}

/// The factor of a sentiment, in tenths: the more negative, the larger.
pub open spec fn sentiment_multiplier_tenths(label: SentimentLabel) -> int {
    match label {
        SentimentLabel::VeryNegative => 15,
        SentimentLabel::Negative => 13,
        SentimentLabel::Neutral => 10,
        SentimentLabel::Positive => 8,
        SentimentLabel::VeryPositive => 6,
    }
}

/// Whether a confidence, given as a single-precision bit pattern, is a
/// number greater than 0.8. Negative numbers and patterns that are no
/// number are not.
pub open spec fn exceeds_boost_threshold(confidence: u32) -> bool {
    CONFIDENCE_BOOST_THRESHOLD < confidence <= LARGEST_POSITIVE_NUMBER
}

/// The extra factor of a confident negative sentiment, in tenths.
pub open spec fn confidence_boost_tenths(sentiment: SentimentScore) -> int {
    if (sentiment.label == SentimentLabel::Negative || sentiment.label
        == SentimentLabel::VeryNegative) && exceeds_boost_threshold(sentiment.confidence) {
        12
    } else {
        10
    }
}

/// The urgency score of a ticket, in hundredths: weight times factor times
/// boost.
pub open spec fn urgency_hundredths(sentiment: SentimentScore, category: TicketCategory) -> int {
    category_weight(category) * sentiment_multiplier_tenths(sentiment.label)
        * confidence_boost_tenths(sentiment)
}

/// The priority that belongs to an urgency score in hundredths: critical
/// from 10, high from 7, medium from 4.
pub open spec fn priority_for(score: int) -> TicketPriority {
    if score >= 1000 {
        TicketPriority::Critical
    } else if score >= 700 {
        TicketPriority::High
    } else if score >= 400 {
        TicketPriority::Medium
    } else {
        TicketPriority::Low
    }
}

/// What the priority of a record is once sentiment and category are known.
pub open spec fn derived_priority(sentiment: SentimentScore, category: TicketCategory)
    -> TicketPriority {
    priority_for(urgency_hundredths(sentiment, category))
}

pub fn get_category_priority_weight(category: &TicketCategory) -> (weight: u8)
    ensures
        weight == category_weight(*category),
{
    match category {
        TicketCategory::Billing => 7,
        TicketCategory::Account => 6,
        TicketCategory::Technical => 8,
        TicketCategory::Sales => 4,
        TicketCategory::Feedback => 2,
        TicketCategory::General => 3,
        TicketCategory::Other => 3,
    }
}

/// The factor of a sentiment in tenths: 15 stands for 1.5.
pub fn get_sentiment_priority_multiplier(sentiment_label: &SentimentLabel) -> (tenths: u8)
    ensures
        tenths == sentiment_multiplier_tenths(*sentiment_label),
{
    match sentiment_label {
        SentimentLabel::VeryNegative => 15,
        SentimentLabel::Negative => 13,
        SentimentLabel::Neutral => 10,
        SentimentLabel::Positive => 8,
        SentimentLabel::VeryPositive => 6,
    }
}

/// The priority of a ticket, from how its customer feels and what it is
/// about.
pub fn calculate_priority_from_sentiment_and_category(
    sentiment: &SentimentScore,
    category: &TicketCategory,
) -> (priority: TicketPriority)
    ensures
        priority == derived_priority(*sentiment, *category),
{
    let weight: u32 = get_category_priority_weight(category) as u32;
    let multiplier: u32 = get_sentiment_priority_multiplier(&sentiment.label) as u32;
    let negative = match sentiment.label {
        SentimentLabel::Negative => true,
        SentimentLabel::VeryNegative => true,
        _ => false,
    };
    let boost: u32 = if negative && sentiment.confidence > CONFIDENCE_BOOST_THRESHOLD
        && sentiment.confidence <= LARGEST_POSITIVE_NUMBER {
        12
    } else {
        10
    };
    assert(weight * multiplier <= 120) by (nonlinear_arith)
        requires
            weight <= 8,
            multiplier <= 15,
    ;
    assert(weight * multiplier * boost <= 1440) by (nonlinear_arith)
        requires
            weight * multiplier <= 120,
            boost <= 12,
    ;
    let score: u32 = weight * multiplier * boost;
    if score >= 1000 {
        TicketPriority::Critical
    } else if score >= 700 {
        TicketPriority::High
    } else if score >= 400 {
        TicketPriority::Medium
    } else {
        TicketPriority::Low
    }
}

/// The processor that derives the priority of a ticket from its sentiment
/// and its category.
#[derive(Debug, Clone, Copy)]
pub struct PriorityProcessor;

impl PriorityProcessor {
    /// What the processor enters as the priority of a record: the derived
    /// priority where sentiment and category are both there, an error in
    /// every other case.
    pub open spec fn settles(record: ProcessedTicket, priority: ProcessingResult<TicketPriority>)
        -> bool {
        match (record.sentiment, record.category) {
            (ProcessingResult::Success(sentiment), ProcessingResult::Success(category)) => priority
                == ProcessingResult::Success(derived_priority(sentiment, category)),
            _ => priority matches ProcessingResult::Error(err)
                && err matches ProcessingError::PriorityCalculationError(text) && text@
                == "Insufficient data to calculate priority - both sentiment and category are required"@,
        }
    }

    /// The declaration of the processor: it needs sentiment and category
    /// and fills in the priority.
    pub open spec fn fields() -> ProcessorFields {
        ProcessorFields {
            required: FieldMask { language: false, sentiment: true, category: true, priority: false },
            output: FieldMask { language: false, sentiment: false, category: false, priority: true },
        }
    }

    pub fn new() -> (made: Result<Self, ProcessingError>)
        ensures
            made.is_ok(),
    {
        Ok(PriorityProcessor)
    }

    pub fn calculate_priority(&self, ticket: &ProcessedTicket) -> (priority: ProcessingResult<
        TicketPriority,
    >)
        ensures
            Self::settles(*ticket, priority),
            priority.completed(),
    {
        match (&ticket.sentiment, &ticket.category) {
            (ProcessingResult::Success(sentiment), ProcessingResult::Success(category)) => {
                ProcessingResult::Success(
                    calculate_priority_from_sentiment_and_category(sentiment, category),
                )
            },
            _ => ProcessingResult::Error(
                ProcessingError::PriorityCalculationError(
                    "Insufficient data to calculate priority - both sentiment and category are required".to_owned(),
                ),
            ),
        }
    }

    /// Runs the processor on a snapshot. The result names the same ticket,
    /// carries the priority, and leaves every other field pending, so that a
    /// merge takes the priority from it and nothing else.
    pub fn process(&self, ticket: ProcessedTicket) -> (result: ProcessedTicket)
        ensures
            result.ticket == ticket.ticket,
            result.language is Processing,
            result.sentiment is Processing,
            result.category is Processing,
            Self::settles(ticket, result.priority),
            FieldMask::of_record(result) == Self::fields().output,
    {
        let priority = self.calculate_priority(&ticket);
        ProcessedTicket::new(ticket.ticket).with_priority(priority)
    }

    /// A record whose sentiment and category have both come to an end, be it
    /// with an error, makes the processor due as long as the priority is
    /// pending, and whatever the processor then enters completes the
    /// priority: with an error if either of the two is one.
    pub proof fn lemma_priority_settles(record: ProcessedTicket, result: ProcessedTicket)
        requires
            record.sentiment.completed(),
            record.category.completed(),
            !record.priority.completed(),
            Self::settles(record, result.priority),
        ensures
            Self::fields().due(FieldMask::of_record(record)),
            record.merged(result).priority.completed(),
            (record.sentiment is Error || record.category is Error) ==> record.merged(
                result,
            ).priority is Error,
            !Self::fields().due(FieldMask::of_record(record.merged(result))),
    {
        let after = FieldMask::of_record(record.merged(result));
        assert(after@.contains(Field::Priority));
        assert(Self::fields().output@.contains(Field::Priority));
    }
}

impl TicketProcessor for PriorityProcessor {
    open spec fn required(&self) -> FieldMask {
        Self::fields().required
    }

    open spec fn output(&self) -> FieldMask {
        Self::fields().output
    }

    fn required_fields(&self) -> (mask: FieldMask) {
        let mask = FieldMask::sentiment().union(FieldMask::category());
        proof {
            assert(mask@ =~= Self::fields().required@);
            mask.lemma_view_injective(Self::fields().required);
        }
        mask
    }

    fn output_fields(&self) -> (mask: FieldMask) {
        FieldMask::priority()
    }
}

} // verus!
