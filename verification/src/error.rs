use vstd::prelude::*;

verus! {

/// Everything that can go wrong while a ticket is enriched.
///
/// The first variant is the only one that surfaces from the pipeline
/// itself; the others are recorded inside the field they belong to.
#[derive(Debug, PartialEq)]
pub enum ProcessingError {
    TicketProcessingError(String),
    InvalidTicketData(String),
    NetworkError(String),
    LanguageDetectionError(),
    SentimentAnalysis(String),
    ClassificationError(String),
    PriorityCalculationError(String),
    UnknownError(String),
}

impl Clone for ProcessingError {
    fn clone(&self) -> (res: Self)
        ensures
            res == *self,
    {
        match self {
            ProcessingError::TicketProcessingError(m) => ProcessingError::TicketProcessingError(
                m.clone(),
            ),
            ProcessingError::InvalidTicketData(m) => ProcessingError::InvalidTicketData(m.clone()),
            ProcessingError::NetworkError(m) => ProcessingError::NetworkError(m.clone()),
            ProcessingError::LanguageDetectionError() => ProcessingError::LanguageDetectionError(),
            ProcessingError::SentimentAnalysis(m) => ProcessingError::SentimentAnalysis(m.clone()),
            ProcessingError::ClassificationError(m) => ProcessingError::ClassificationError(
                m.clone(),
            ),
            ProcessingError::PriorityCalculationError(m) => {
                ProcessingError::PriorityCalculationError(m.clone())
            },
            ProcessingError::UnknownError(m) => ProcessingError::UnknownError(m.clone()),
        }
    }
}

impl ProcessingError {
    /// The text that accompanies the error, empty for the one variant that
    /// carries none.
    pub open spec fn detail(self) -> Seq<char> {
        match self {
            ProcessingError::TicketProcessingError(m) => m@,
            ProcessingError::InvalidTicketData(m) => m@,
            ProcessingError::NetworkError(m) => m@,
            ProcessingError::LanguageDetectionError() => Seq::empty(),
            ProcessingError::SentimentAnalysis(m) => m@,
            ProcessingError::ClassificationError(m) => m@,
            ProcessingError::PriorityCalculationError(m) => m@,
            ProcessingError::UnknownError(m) => m@,
        }
    }

    /// The sentence that introduces the detail in `message`.
    pub open spec fn prefix(self) -> Seq<char> {
        match self {
            ProcessingError::TicketProcessingError(_) => "Failed to process the ticket: "@,
            ProcessingError::InvalidTicketData(_) => "Invalid ticket data: "@,
            ProcessingError::NetworkError(_) => "Network error occurred: "@,
            ProcessingError::LanguageDetectionError() => "Failed to detect language"@,
            ProcessingError::SentimentAnalysis(_) => "Sentiment analysis failed: "@,
            ProcessingError::ClassificationError(_) => "Classification error: "@,
            ProcessingError::PriorityCalculationError(_) => "Priority calculation failed: "@,
            ProcessingError::UnknownError(_) => "Unknown error occurred: "@,
        }
    }

    /// A human-readable rendering: the variant's sentence followed by its
    /// detail.
    pub fn message(&self) -> (text: String)
        ensures
            text@ == self.prefix() + self.detail(),
    {
        match self {
            ProcessingError::TicketProcessingError(m) => "Failed to process the ticket: ".to_owned().concat(
                m.as_str(),
            ),
            ProcessingError::InvalidTicketData(m) => "Invalid ticket data: ".to_owned().concat(
                m.as_str(),
            ),
            ProcessingError::NetworkError(m) => "Network error occurred: ".to_owned().concat(
                m.as_str(),
            ),
            ProcessingError::LanguageDetectionError() => "Failed to detect language".to_owned(),
            ProcessingError::SentimentAnalysis(m) => "Sentiment analysis failed: ".to_owned().concat(
                m.as_str(),
            ),
            ProcessingError::ClassificationError(m) => "Classification error: ".to_owned().concat(
                m.as_str(),
            ),
            ProcessingError::PriorityCalculationError(m) => "Priority calculation failed: ".to_owned().concat(
                m.as_str(),
            ),
            ProcessingError::UnknownError(m) => "Unknown error occurred: ".to_owned().concat(
                m.as_str(),
            ),
        }
    }

    /// Turns the rendering of a transport failure into the error that
    /// records it.
    pub fn from_network_failure(description: String) -> (err: Self)
        ensures
            err == ProcessingError::NetworkError(description),
    {
        ProcessingError::NetworkError(description)
    }
}

} // verus!
