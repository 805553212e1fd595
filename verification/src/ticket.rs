use vstd::prelude::*;
use crate::error::ProcessingError;
use crate::text::str_eq;

verus! {

/// A point in time on the UTC time line: whole seconds since the Unix epoch
/// and the nanoseconds within that second.
#[derive(Debug, Clone, Copy, PartialEq, Eq, Structural)]
pub struct Timestamp {
    pub seconds: i64,
    pub nanoseconds: u32,
}

/// The ticket as the customer sent it. It is never changed after creation.
#[derive(Debug, PartialEq)]
pub struct SupportTicket {
    pub id: String,
    pub content: String,
    pub timestamp: Timestamp,
    pub customer_id: String,
}

impl SupportTicket {
    pub fn new(id: String, content: String, timestamp: Timestamp, customer_id: String) -> (ticket:
        Self)
        ensures
            ticket == (SupportTicket { id, content, timestamp, customer_id }),
    {
        SupportTicket { id, content, timestamp, customer_id }
    }
}

impl Clone for SupportTicket {
    fn clone(&self) -> (res: Self)
        ensures
            res == *self,
    {
        SupportTicket {
            id: self.id.clone(),
            content: self.content.clone(),
            timestamp: self.timestamp,
            customer_id: self.customer_id.clone(),
        }
    }
}

/// The state of one annotation: not there yet, there, or failed for good.
#[derive(Debug, PartialEq)]
pub enum ProcessingResult<T> {
    Processing,
    Success(T),
    Error(ProcessingError),
}

impl<T> ProcessingResult<T> {
    /// An annotation is completed once it is a success or an error.
    pub open spec fn completed(self) -> bool {
        !(self is Processing)
    }

    pub fn is_completed(&self) -> (done: bool)
        ensures
            done == self.completed(),
    {
        match self {
            ProcessingResult::Processing => false,
            _ => true,
        }
    }

    /// What a field holds after an update has been merged into it: the
    /// update where it is completed, the field's own value otherwise.
    pub open spec fn merged(self, incoming: Self) -> Self {
        if incoming.completed() {
            incoming
        } else {
            self
        }
    }
}

impl<T: Clone> Clone for ProcessingResult<T> {
    fn clone(&self) -> (res: Self)
        ensures
            match (*self, res) {
                (ProcessingResult::Processing, ProcessingResult::Processing) => true,
                (ProcessingResult::Success(a), ProcessingResult::Success(b)) => cloned::<T>(a, b),
                (ProcessingResult::Error(a), ProcessingResult::Error(b)) => a == b,
                _ => false,
            },
    {
        match self {
            ProcessingResult::Processing => ProcessingResult::Processing,
            ProcessingResult::Success(value) => ProcessingResult::Success(value.clone()),
            ProcessingResult::Error(err) => ProcessingResult::Error(err.clone()),
        }
    }
}

#[derive(Debug, Clone, Copy, PartialEq, Eq, Structural)]
pub enum SentimentLabel {
    VeryPositive,
    Positive,
    Neutral,
    Negative,
    VeryNegative,
}

impl SentimentLabel {
    /// The label that a name stands for; a name that is none of the five
    /// known ones counts as neutral.
    pub open spec fn of_name(name: Seq<char>) -> SentimentLabel {
        if name == "Very Positive"@ {
            SentimentLabel::VeryPositive
        } else if name == "Positive"@ {
            SentimentLabel::Positive
        } else if name == "Neutral"@ {
            SentimentLabel::Neutral
        } else if name == "Negative"@ {
            SentimentLabel::Negative
        } else if name == "Very Negative"@ {
            SentimentLabel::VeryNegative
        } else {
            SentimentLabel::Neutral
        }
    }
}

impl From<&str> for SentimentLabel {
    fn from(label: &str) -> (res: Self) {
        if str_eq(label, "Very Positive") {
            SentimentLabel::VeryPositive
        } else if str_eq(label, "Positive") {
            SentimentLabel::Positive
        } else if str_eq(label, "Neutral") {
            SentimentLabel::Neutral
        } else if str_eq(label, "Negative") {
            SentimentLabel::Negative
        } else if str_eq(label, "Very Negative") {
            SentimentLabel::VeryNegative
        } else {
            SentimentLabel::Neutral
        }
    }
}

impl vstd::std_specs::convert::FromSpecImpl<&str> for SentimentLabel {
    open spec fn obeys_from_spec() -> bool {
        true
    }

    open spec fn from_spec(label: &str) -> Self {
        SentimentLabel::of_name(label@)
    }
}

/// A sentiment together with the model's confidence in it.
///
/// The confidence is a single-precision number between zero and one, held
/// as its IEEE 754 bit pattern so that it is carried without loss.
#[derive(Debug, Clone, Copy, PartialEq, Eq, Structural)]
pub struct SentimentScore {
    pub label: SentimentLabel,
    pub confidence: u32,
}

impl SentimentScore {
    pub fn new(label: SentimentLabel, confidence: u32) -> (score: Self)
        ensures
            score == (SentimentScore { label, confidence }),
    {
        SentimentScore { label, confidence }
    }
}

#[derive(Debug, Clone, Copy, PartialEq, Eq, Structural)]
pub enum TicketCategory {
    Billing,
    Account,
    General,
    Technical,
    Sales,
    Feedback,
    Other,
}

#[derive(Debug, Clone, Copy, PartialEq, Eq, Structural)]
pub enum TicketPriority {
    Low,
    Medium,
    High,
    Critical,
}

/// The languages a ticket can be found to be written in. A language without
/// a variant of its own is named by `Other`.
#[derive(Debug, PartialEq, Eq)]
pub enum Language {
    Afrikaans,
    Amharic,
    Arabic,
    Armenian,
    Azeri,
    Belarusian,
    Bengali,
    Bulgarian,
    Burmese,
    Catalan,
    Croatian,
    Czech,
    Danish,
    Dutch,
    English,
    Estonian,
    Farsi,
    Finnish,
    French,
    Georgian,
    German,
    Greek,
    Gujarati,
    Hebrew,
    Hindi,
    Hungarian,
    Indonesian,
    Italian,
    Japanese,
    Javanese,
    Kannada,
    Khmer,
    Korean,
    Latin,
    Latvian,
    Lithuanian,
    Macedonian,
    Malayalam,
    Mandarin,
    Marathi,
    Nepali,
    Norwegian,
    Oriya,
    Polish,
    Portuguese,
    Punjabi,
    Romanian,
    Russian,
    Serbian,
    Shona,
    Sinhala,
    Slovak,
    Slovenian,
    Spanish,
    Swedish,
    Tagalog,
    Tamil,
    Telugu,
    Thai,
    Turkish,
    Turkmen,
    Ukrainian,
    Urdu,
    Uzbek,
    Vietnamese,
    Zulu,
    Other(String),
}

impl Language {
    /// A language that has no variant of its own.
    pub fn other(name: &str) -> (language: Self)
        ensures
            language matches Language::Other(n) && n@ == name@,
    {
        Language::Other(name.to_owned())
    }
}

impl Clone for Language {
    fn clone(&self) -> (res: Self)
        ensures
            res == *self,
    {
        match self {
            Language::Afrikaans => Language::Afrikaans,
            Language::Amharic => Language::Amharic,
            Language::Arabic => Language::Arabic,
            Language::Armenian => Language::Armenian,
            Language::Azeri => Language::Azeri,
            Language::Belarusian => Language::Belarusian,
            Language::Bengali => Language::Bengali,
            Language::Bulgarian => Language::Bulgarian,
            Language::Burmese => Language::Burmese,
            Language::Catalan => Language::Catalan,
            Language::Croatian => Language::Croatian,
            Language::Czech => Language::Czech,
            Language::Danish => Language::Danish,
            Language::Dutch => Language::Dutch,
            Language::English => Language::English,
            Language::Estonian => Language::Estonian,
            Language::Farsi => Language::Farsi,
            Language::Finnish => Language::Finnish,
            Language::French => Language::French,
            Language::Georgian => Language::Georgian,
            Language::German => Language::German,
            Language::Greek => Language::Greek,
            Language::Gujarati => Language::Gujarati,
            Language::Hebrew => Language::Hebrew,
            Language::Hindi => Language::Hindi,
            Language::Hungarian => Language::Hungarian,
            Language::Indonesian => Language::Indonesian,
            Language::Italian => Language::Italian,
            Language::Japanese => Language::Japanese,
            Language::Javanese => Language::Javanese,
            Language::Kannada => Language::Kannada,
            Language::Khmer => Language::Khmer,
            Language::Korean => Language::Korean,
            Language::Latin => Language::Latin,
            Language::Latvian => Language::Latvian,
            Language::Lithuanian => Language::Lithuanian,
            Language::Macedonian => Language::Macedonian,
            Language::Malayalam => Language::Malayalam,
            Language::Mandarin => Language::Mandarin,
            Language::Marathi => Language::Marathi,
            Language::Nepali => Language::Nepali,
            Language::Norwegian => Language::Norwegian,
            Language::Oriya => Language::Oriya,
            Language::Polish => Language::Polish,
            Language::Portuguese => Language::Portuguese,
            Language::Punjabi => Language::Punjabi,
            Language::Romanian => Language::Romanian,
            Language::Russian => Language::Russian,
            Language::Serbian => Language::Serbian,
            Language::Shona => Language::Shona,
            Language::Sinhala => Language::Sinhala,
            Language::Slovak => Language::Slovak,
            Language::Slovenian => Language::Slovenian,
            Language::Spanish => Language::Spanish,
            Language::Swedish => Language::Swedish,
            Language::Tagalog => Language::Tagalog,
            Language::Tamil => Language::Tamil,
            Language::Telugu => Language::Telugu,
            Language::Thai => Language::Thai,
            Language::Turkish => Language::Turkish,
            Language::Turkmen => Language::Turkmen,
            Language::Ukrainian => Language::Ukrainian,
            Language::Urdu => Language::Urdu,
            Language::Uzbek => Language::Uzbek,
            Language::Vietnamese => Language::Vietnamese,
            Language::Zulu => Language::Zulu,
            Language::Other(name) => Language::Other(name.clone()),
        }
    }
}

/// A ticket together with its annotations: the unit of work of the pipeline.
#[derive(Debug, PartialEq)]
pub struct ProcessedTicket {
    pub ticket: SupportTicket,
    pub language: ProcessingResult<Language>,
    pub sentiment: ProcessingResult<SentimentScore>,
    pub category: ProcessingResult<TicketCategory>,
    pub priority: ProcessingResult<TicketPriority>,
}

impl Clone for ProcessedTicket {
    fn clone(&self) -> (res: Self)
        ensures
            res == *self,
    {
        ProcessedTicket {
            ticket: self.ticket.clone(),
            language: self.language.clone(),
            sentiment: self.sentiment.clone(),
            category: self.category.clone(),
            priority: self.priority.clone(),
        }
    }
}

impl ProcessedTicket {
    /// The record of a ticket on which no processor has worked yet.
    pub open spec fn fresh(ticket: SupportTicket) -> Self {
        ProcessedTicket {
            ticket,
            language: ProcessingResult::Processing,
            sentiment: ProcessingResult::Processing,
            category: ProcessingResult::Processing,
            priority: ProcessingResult::Processing,
        }
    }

    /// The record after `other` has been merged into it: each annotation is
    /// taken from `other` where `other` has completed it and is kept
    /// otherwise. The ticket itself is kept.
    pub open spec fn merged(self, other: Self) -> Self {
        ProcessedTicket {
            ticket: self.ticket,
            language: self.language.merged(other.language),
            sentiment: self.sentiment.merged(other.sentiment),
            category: self.category.merged(other.category),
            priority: self.priority.merged(other.priority),
        }
    }

    /// Every annotation is completed.
    pub open spec fn converged(self) -> bool {
        &&& self.language.completed()
        &&& self.sentiment.completed()
        &&& self.category.completed()
        &&& self.priority.completed()
    }

    pub fn new(ticket: SupportTicket) -> (record: Self)
        ensures
            record == Self::fresh(ticket),
    {
        ProcessedTicket {
            ticket,
            language: ProcessingResult::Processing,
            sentiment: ProcessingResult::Processing,
            category: ProcessingResult::Processing,
            priority: ProcessingResult::Processing,
        }
    }

    pub fn with_language(self, language: ProcessingResult<Language>) -> (record: Self)
        ensures
            record == (ProcessedTicket { language, ..self }),
    {
        let mut record = self;
        record.language = language;
        record
    }

    pub fn with_sentiment(self, sentiment: ProcessingResult<SentimentScore>) -> (record: Self)
        ensures
            record == (ProcessedTicket { sentiment, ..self }),
    {
        let mut record = self;
        record.sentiment = sentiment;
        record
    }

    pub fn with_category(self, category: ProcessingResult<TicketCategory>) -> (record: Self)
        ensures
            record == (ProcessedTicket { category, ..self }),
    {
        let mut record = self;
        record.category = category;
        record
    }

    pub fn with_priority(self, priority: ProcessingResult<TicketPriority>) -> (record: Self)
        ensures
            record == (ProcessedTicket { priority, ..self }),
    {
        let mut record = self;
        record.priority = priority;
        record
    }

    /// Merges an update into the record. This is the only way a stored
    /// record is changed.
    pub fn merge_from(&mut self, other: Self)
        ensures
            *final(self) == old(self).merged(other),
    {
        let ProcessedTicket { ticket: _, language, sentiment, category, priority } = other;
        if language.is_completed() {
            self.language = language;
        }
        if sentiment.is_completed() {
            self.sentiment = sentiment;
        }
        if category.is_completed() {
            self.category = category;
        }
        if priority.is_completed() {
            self.priority = priority;
        }
    }

    /// Merging the same update a second time changes nothing.
    pub proof fn lemma_merge_idempotent(self, update: Self)
        ensures
            self.merged(update).merged(update) == self.merged(update),
    {
    }

    /// An update in which nothing is completed leaves every annotation of
    /// the record as it was; in particular a pending field of an update never
    /// replaces a completed one.
    pub proof fn lemma_merge_pending_keeps(self, update: Self)
        ensures
            !update.language.completed() ==> self.merged(update).language == self.language,
            !update.sentiment.completed() ==> self.merged(update).sentiment == self.sentiment,
            !update.category.completed() ==> self.merged(update).category == self.category,
            !update.priority.completed() ==> self.merged(update).priority == self.priority,
            update.language.completed() ==> self.merged(update).language == update.language,
            update.sentiment.completed() ==> self.merged(update).sentiment == update.sentiment,
            update.category.completed() ==> self.merged(update).category == update.category,
            update.priority.completed() ==> self.merged(update).priority == update.priority,
            self.merged(update).ticket == self.ticket,
    {
    }

    /// Merging a record into itself changes nothing.
    pub proof fn lemma_merge_self(self)
        ensures
            self.merged(self) == self,
    {
    }

    /// A record that has converged stays converged whatever is merged into
    /// it, and a merge never takes a completed field back to pending.
    pub proof fn lemma_converged_stays(self, update: Self)
        ensures
            self.converged() ==> self.merged(update).converged(),
            self.language.completed() ==> self.merged(update).language.completed(),
            self.sentiment.completed() ==> self.merged(update).sentiment.completed(),
            self.category.completed() ==> self.merged(update).category.completed(),
            self.priority.completed() ==> self.merged(update).priority.completed(),
    {
    }
}

} // verus!
