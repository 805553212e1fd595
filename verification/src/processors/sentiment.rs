use vstd::prelude::*;
use crate::error::ProcessingError;
use crate::pipeline::{FieldMask, ProcessorFields, TicketProcessor};
use crate::ticket::{ProcessedTicket, ProcessingResult, SentimentLabel, SentimentScore};

verus! {

/// One entry of the inference service's ranking: a label and its score, a
/// single-precision number held as its bit pattern.
#[derive(Debug, PartialEq, Eq)]
pub struct HuggingFaceResponse {
    pub label: String,
    pub score: u32,
}

/// What came of the request to the inference service.
#[derive(Debug, PartialEq, Eq)]
pub enum SentimentReply {
    /// The request could not be sent or no response came.
    TransportFailure(String),
    /// The service answered with an error status.
    HttpFailure(String),
    /// The body of the response could not be read as a list of rankings.
    Malformed(String),
    /// The rankings, one per input, each with its best entry first.
    Rankings(Vec<Vec<HuggingFaceResponse>>),
}

/// The processor that asks a remote inference service how the customer
/// feels.
#[derive(Debug)]
pub struct SentimentProcessor {
    api_token: String,
}

impl SentimentProcessor {
    /// The token that the processor shows to the service.
    pub closed spec fn token(self) -> Seq<char> {
        self.api_token@
    }

    /// The declaration of the processor: it needs nothing and fills in the
    /// sentiment.
    pub open spec fn fields() -> ProcessorFields {
        ProcessorFields {
            required: FieldMask {
                language: false,
                sentiment: false,
                category: false,
                priority: false,
            },
            output: FieldMask { language: false, sentiment: true, category: false, priority: false },
        }
    }

    /// The sentiment that a reply amounts to: the first entry of the first
    /// ranking, or the failure that stands in its way.
    pub open spec fn outcome(reply: SentimentReply, found: Result<SentimentScore, ProcessingError>)
        -> bool {
        match reply {
            SentimentReply::TransportFailure(text) => found matches Err(
                ProcessingError::SentimentAnalysis(detail),
            ) && detail@ == text@,
            SentimentReply::HttpFailure(text) => found matches Err(
                ProcessingError::SentimentAnalysis(detail),
            ) && detail@ == "HTTP error: "@ + text@,
            SentimentReply::Malformed(text) => found matches Err(
                ProcessingError::SentimentAnalysis(detail),
            ) && detail@ == text@,
            SentimentReply::Rankings(rankings) => if rankings@.len() > 0 && rankings@[0]@.len()
                > 0 {
                found == Ok::<SentimentScore, ProcessingError>(
                    SentimentScore {
                        label: SentimentLabel::of_name(rankings@[0]@[0].label@),
                        confidence: rankings@[0]@[0].score,
                    },
                )
            } else {
                found matches Err(ProcessingError::SentimentAnalysis(detail)) && detail@
                    == "Invalid response format"@
            },
        }
    }

    /// What the processor enters as the sentiment of a ticket for which the
    /// service gave `reply`: the sentiment read off the reply, or the failure.
    pub open spec fn settles(reply: SentimentReply, sentiment: ProcessingResult<SentimentScore>)
        -> bool {
        match sentiment {
            ProcessingResult::Success(score) => Self::outcome(reply, Ok(score)),
            ProcessingResult::Error(err) => Self::outcome(reply, Err(err)),
            ProcessingResult::Processing => false,
        }
    }

    /// Makes the processor from the token found in the environment, if one
    /// was found.
    pub fn new(api_token: Option<String>) -> (made: Result<Self, ProcessingError>)
        ensures
            made.is_ok() <==> api_token.is_some(),
            made matches Ok(processor) ==> processor.token() == api_token.unwrap()@,
            made matches Err(err) ==> err matches ProcessingError::SentimentAnalysis(text) && text@
                == "HUGGING_FACE_API_TOKEN not set"@,
    {
        match api_token {
            Some(api_token) => Ok(SentimentProcessor { api_token }),
            None => Err(
                ProcessingError::SentimentAnalysis("HUGGING_FACE_API_TOKEN not set".to_owned()),
            ),
        }
    }

    /// The address of the inference service.
    pub fn endpoint() -> (url: &'static str)
        ensures
            url@
                == "https://router.huggingface.co/hf-inference/models/tabularisai/multilingual-sentiment-analysis"@,
    {
        "https://router.huggingface.co/hf-inference/models/tabularisai/multilingual-sentiment-analysis"
    }

    /// The value of the authorization header of a request.
    pub fn authorization(&self) -> (header: String)
        ensures
            header@ == "Bearer "@ + self.token(),
    {
        "Bearer ".to_owned().concat(self.api_token.as_str())
    }

    /// Reads the sentiment off a reply of the service.
    pub fn analyze_sentiment(reply: SentimentReply) -> (found: Result<
        SentimentScore,
        ProcessingError,
    >)
        ensures
            Self::outcome(reply, found),
    {
        match reply {
            SentimentReply::TransportFailure(text) => Err(ProcessingError::SentimentAnalysis(text)),
            SentimentReply::HttpFailure(text) => Err(
                ProcessingError::SentimentAnalysis("HTTP error: ".to_owned().concat(text.as_str())),
            ),
            SentimentReply::Malformed(text) => Err(ProcessingError::SentimentAnalysis(text)),
            SentimentReply::Rankings(rankings) => {
                if rankings.len() > 0 && rankings[0].len() > 0 {
                    let best = &rankings[0][0];
                    Ok(
                        SentimentScore {
                            label: SentimentLabel::from(best.label.as_str()),
                            confidence: best.score,
                        },
                    )
                } else {
                    Err(ProcessingError::SentimentAnalysis("Invalid response format".to_owned()))
                }
            },
        }
    }

    /// Completes the processor's run on a snapshot with the reply that the
    /// service gave for the ticket's content. The result names the same
    /// ticket, carries the sentiment or the failure, and leaves every other
    /// field pending.
    pub fn process(&self, ticket: ProcessedTicket, reply: SentimentReply) -> (result:
        ProcessedTicket)
        ensures
            result.ticket == ticket.ticket,
            result.language is Processing,
            result.category is Processing,
            result.priority is Processing,
            Self::settles(reply, result.sentiment),
            FieldMask::of_record(result) == Self::fields().output,
    {
        let sentiment = match Self::analyze_sentiment(reply) {
            Ok(score) => ProcessingResult::Success(score),
            Err(err) => ProcessingResult::Error(err),
        };
        ProcessedTicket::new(ticket.ticket).with_sentiment(sentiment)
    }
}

impl TicketProcessor for SentimentProcessor {
    open spec fn required(&self) -> FieldMask {
        Self::fields().required
    }

    open spec fn output(&self) -> FieldMask {
        Self::fields().output
    }

    fn required_fields(&self) -> (mask: FieldMask) {
        FieldMask::empty()
    }

    fn output_fields(&self) -> (mask: FieldMask) {
        FieldMask::sentiment()
    }
}

} // verus!
