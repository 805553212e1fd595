//! The enrichment units: what each declares, and what each computes.

use vstd::prelude::*;
use crate::pipeline::{Field, FieldMask};
use crate::processors::classification::ClassificationProcessor;
use crate::processors::language::LanguageProcessor;
use crate::processors::priority::PriorityProcessor;
use crate::processors::sentiment::SentimentProcessor;
use crate::ticket::ProcessedTicket;

pub mod classification;
pub mod language;
pub mod priority;
pub mod sentiment;

verus! {

/// No two of the four processors fill in the same field, and together they
/// fill in every field.
pub proof fn lemma_outputs_partition_the_fields()
    ensures
        LanguageProcessor::fields().output@ == set![Field::Language],
        SentimentProcessor::fields().output@ == set![Field::Sentiment],
        ClassificationProcessor::fields().output@ == set![Field::Category],
        PriorityProcessor::fields().output@ == set![Field::Priority],
{
    assert(LanguageProcessor::fields().output@ =~= set![Field::Language]);
    assert(SentimentProcessor::fields().output@ =~= set![Field::Sentiment]);
    assert(ClassificationProcessor::fields().output@ =~= set![Field::Category]);
    assert(PriorityProcessor::fields().output@ =~= set![Field::Priority]);
}

/// With the four processors configured, a record that has not converged
/// always has a processor that is due on it: no record is left waiting for
/// a processor that will never run. In particular the priority processor is
/// due as soon as sentiment and category have come to an end, whether they
/// succeeded or failed.
pub proof fn lemma_some_processor_is_due(record: ProcessedTicket)
    requires
        !record.converged(),
    ensures
        ({
            let current = FieldMask::of_record(record);
            ||| LanguageProcessor::fields().due(current)
            ||| SentimentProcessor::fields().due(current)
            ||| ClassificationProcessor::fields().due(current)
            ||| PriorityProcessor::fields().due(current)
        }),
        !record.language.completed() ==> LanguageProcessor::fields().due(
            FieldMask::of_record(record),
        ),
        !record.sentiment.completed() ==> SentimentProcessor::fields().due(
            FieldMask::of_record(record),
        ),
        !record.category.completed() ==> ClassificationProcessor::fields().due(
            FieldMask::of_record(record),
        ),
        !record.priority.completed() && record.sentiment.completed()
            && record.category.completed() ==> PriorityProcessor::fields().due(
            FieldMask::of_record(record),
        ),
{
}

/// On a record that has converged no processor is due.
pub proof fn lemma_nothing_is_due_after_convergence(record: ProcessedTicket)
    requires
        record.converged(),
    ensures
        !LanguageProcessor::fields().due(FieldMask::of_record(record)),
        !SentimentProcessor::fields().due(FieldMask::of_record(record)),
        !ClassificationProcessor::fields().due(FieldMask::of_record(record)),
        !PriorityProcessor::fields().due(FieldMask::of_record(record)),
{
    let current = FieldMask::of_record(record);
    assert(current@.contains(Field::Language) && LanguageProcessor::fields().output@.contains(
        Field::Language,
    ));
    assert(current@.contains(Field::Sentiment) && SentimentProcessor::fields().output@.contains(
        Field::Sentiment,
    ));
    assert(current@.contains(Field::Category)
        && ClassificationProcessor::fields().output@.contains(Field::Category));
    assert(current@.contains(Field::Priority) && PriorityProcessor::fields().output@.contains(
        Field::Priority,
    ));
}

} // verus!
