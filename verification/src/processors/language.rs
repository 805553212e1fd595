use vstd::prelude::*;
use crate::error::ProcessingError;
use crate::pipeline::{FieldMask, ProcessorFields, TicketProcessor};
use crate::text::str_eq;
use crate::ticket::{Language, ProcessedTicket, ProcessingResult};

verus! {

/// The ISO 639-3 code of the language that the detector finds a text to be
/// written in, or nothing where it cannot tell.
pub uninterp spec fn detected_language_code(text: Seq<char>) -> Option<Seq<char>>;

/// Runs `whatlang::detect` on the text and hands back the ISO 639-3 code of
/// the language it reports (`Info::lang`, then `Lang::code`). Detection
/// looks at the text alone, so the same text always gives the same answer;
/// which answer that is remains the detector's business.
#[verifier::external_body]
fn detect_language_code(text: &str) -> (code: Option<String>)
    ensures
        detected_language_code(text@) == (match code {
            Some(found) => Some(found@),
            None => None,
        }),
{
    whatlang::detect(text).map(|info| info.lang().code().to_owned())
}

/// The language that an ISO 639-3 code stands for, where that language has
/// a variant of its own.
pub open spec fn language_with_variant(code: Seq<char>) -> Option<Language> {
    if code == "afr"@ {
        Some(Language::Afrikaans)
    } else if code == "amh"@ {
        Some(Language::Amharic)
    } else if code == "ara"@ {
        Some(Language::Arabic)
    } else if code == "aze"@ {
        Some(Language::Azeri)
    } else if code == "bel"@ {
        Some(Language::Belarusian)
    } else if code == "ben"@ {
        Some(Language::Bengali)
    } else if code == "bul"@ {
        Some(Language::Bulgarian)
    } else if code == "cat"@ {
        Some(Language::Catalan)
    } else if code == "ces"@ {
        Some(Language::Czech)
    } else if code == "cmn"@ {
        Some(Language::Mandarin)
    } else if code == "dan"@ {
        Some(Language::Danish)
    } else if code == "deu"@ {
        Some(Language::German)
    } else if code == "ell"@ {
        Some(Language::Greek)
    } else if code == "eng"@ {
        Some(Language::English)
    } else if code == "est"@ {
        Some(Language::Estonian)
    } else if code == "fin"@ {
        Some(Language::Finnish)
    } else if code == "fra"@ {
        Some(Language::French)
    } else if code == "guj"@ {
        Some(Language::Gujarati)
    } else if code == "heb"@ {
        Some(Language::Hebrew)
    } else if code == "hin"@ {
        Some(Language::Hindi)
    } else if code == "hrv"@ {
        Some(Language::Croatian)
    } else if code == "hun"@ {
        Some(Language::Hungarian)
    } else if code == "hye"@ {
        Some(Language::Armenian)
    } else if code == "ind"@ {
        Some(Language::Indonesian)
    } else if code == "ita"@ {
        Some(Language::Italian)
    } else if code == "jav"@ {
        Some(Language::Javanese)
    } else if code == "jpn"@ {
        Some(Language::Japanese)
    } else if code == "kan"@ {
        Some(Language::Kannada)
    } else if code == "kat"@ {
        Some(Language::Georgian)
    } else if code == "khm"@ {
        Some(Language::Khmer)
    } else if code == "kor"@ {
        Some(Language::Korean)
    } else if code == "lat"@ {
        Some(Language::Latin)
    } else if code == "lav"@ {
        Some(Language::Latvian)
    } else if code == "lit"@ {
        Some(Language::Lithuanian)
    } else if code == "mal"@ {
        Some(Language::Malayalam)
    } else if code == "mar"@ {
        Some(Language::Marathi)
    } else if code == "mkd"@ {
        Some(Language::Macedonian)
    } else if code == "mya"@ {
        Some(Language::Burmese)
    } else if code == "nep"@ {
        Some(Language::Nepali)
    } else if code == "nld"@ {
        Some(Language::Dutch)
    } else if code == "nob"@ {
        Some(Language::Norwegian)
    } else if code == "ori"@ {
        Some(Language::Oriya)
    } else if code == "pan"@ {
        Some(Language::Punjabi)
    } else if code == "pes"@ {
        Some(Language::Farsi)
    } else if code == "pol"@ {
        Some(Language::Polish)
    } else if code == "por"@ {
        Some(Language::Portuguese)
    } else if code == "ron"@ {
        Some(Language::Romanian)
    } else if code == "rus"@ {
        Some(Language::Russian)
    } else if code == "sin"@ {
        Some(Language::Sinhala)
    } else if code == "slk"@ {
        Some(Language::Slovak)
    } else if code == "slv"@ {
        Some(Language::Slovenian)
    } else if code == "sna"@ {
        Some(Language::Shona)
    } else if code == "spa"@ {
        Some(Language::Spanish)
    } else if code == "srp"@ {
        Some(Language::Serbian)
    } else if code == "swe"@ {
        Some(Language::Swedish)
    } else if code == "tam"@ {
        Some(Language::Tamil)
    } else if code == "tel"@ {
        Some(Language::Telugu)
    } else if code == "tgl"@ {
        Some(Language::Tagalog)
    } else if code == "tha"@ {
        Some(Language::Thai)
    } else if code == "tuk"@ {
        Some(Language::Turkmen)
    } else if code == "tur"@ {
        Some(Language::Turkish)
    } else if code == "ukr"@ {
        Some(Language::Ukrainian)
    } else if code == "urd"@ {
        Some(Language::Urdu)
    } else if code == "uzb"@ {
        Some(Language::Uzbek)
    } else if code == "vie"@ {
        Some(Language::Vietnamese)
    } else if code == "zul"@ {
        Some(Language::Zulu)
    } else {
        None
    }
}

/// The name under which a language without a variant of its own is kept:
/// its English name where one is known, the code itself otherwise.
pub open spec fn name_without_variant(code: Seq<char>) -> Seq<char> {
    if code == "aka"@ {
        "Akan"@
    } else if code == "epo"@ {
        "Esperanto"@
    } else if code == "yid"@ {
        "Yiddish"@
    } else {
        code
    }
}

/// Whether `language` is the language that the code stands for.
pub open spec fn is_language_of(code: Seq<char>, language: Language) -> bool {
    match language_with_variant(code) {
        Some(known) => language == known,
        None => language matches Language::Other(name) && name@ == name_without_variant(code),
    }
}

/// The language that an ISO 639-3 code stands for.
pub fn to_language_enum(code: &str) -> (language: Language)
    ensures
        is_language_of(code@, language),
{
    if str_eq(code, "afr") {
        Language::Afrikaans
    } else if str_eq(code, "amh") {
        Language::Amharic
    } else if str_eq(code, "ara") {
        Language::Arabic
    } else if str_eq(code, "aze") {
        Language::Azeri
    } else if str_eq(code, "bel") {
        Language::Belarusian
    } else if str_eq(code, "ben") {
        Language::Bengali
    } else if str_eq(code, "bul") {
        Language::Bulgarian
    } else if str_eq(code, "cat") {
        Language::Catalan
    } else if str_eq(code, "ces") {
        Language::Czech
    } else if str_eq(code, "cmn") {
        Language::Mandarin
    } else if str_eq(code, "dan") {
        Language::Danish
    } else if str_eq(code, "deu") {
        Language::German
    } else if str_eq(code, "ell") {
        Language::Greek
    } else if str_eq(code, "eng") {
        Language::English
    } else if str_eq(code, "est") {
        Language::Estonian
    } else if str_eq(code, "fin") {
        Language::Finnish
    } else if str_eq(code, "fra") {
        Language::French
    } else if str_eq(code, "guj") {
        Language::Gujarati
    } else if str_eq(code, "heb") {
        Language::Hebrew
    } else if str_eq(code, "hin") {
        Language::Hindi
    } else if str_eq(code, "hrv") {
        Language::Croatian
    } else if str_eq(code, "hun") {
        Language::Hungarian
    } else if str_eq(code, "hye") {
        Language::Armenian
    } else if str_eq(code, "ind") {
        Language::Indonesian
    } else if str_eq(code, "ita") {
        Language::Italian
    } else if str_eq(code, "jav") {
        Language::Javanese
    } else if str_eq(code, "jpn") {
        Language::Japanese
    } else if str_eq(code, "kan") {
        Language::Kannada
    } else if str_eq(code, "kat") {
        Language::Georgian
    } else if str_eq(code, "khm") {
        Language::Khmer
    } else if str_eq(code, "kor") {
        Language::Korean
    } else if str_eq(code, "lat") {
        Language::Latin
    } else if str_eq(code, "lav") {
        Language::Latvian
    } else if str_eq(code, "lit") {
        Language::Lithuanian
    } else if str_eq(code, "mal") {
        Language::Malayalam
    } else if str_eq(code, "mar") {
        Language::Marathi
    } else if str_eq(code, "mkd") {
        Language::Macedonian
    } else if str_eq(code, "mya") {
        Language::Burmese
    } else if str_eq(code, "nep") {
        Language::Nepali
    } else if str_eq(code, "nld") {
        Language::Dutch
    } else if str_eq(code, "nob") {
        Language::Norwegian
    } else if str_eq(code, "ori") {
        Language::Oriya
    } else if str_eq(code, "pan") {
        Language::Punjabi
    } else if str_eq(code, "pes") {
        Language::Farsi
    } else if str_eq(code, "pol") {
        Language::Polish
    } else if str_eq(code, "por") {
        Language::Portuguese
    } else if str_eq(code, "ron") {
        Language::Romanian
    } else if str_eq(code, "rus") {
        Language::Russian
    } else if str_eq(code, "sin") {
        Language::Sinhala
    } else if str_eq(code, "slk") {
        Language::Slovak
    } else if str_eq(code, "slv") {
        Language::Slovenian
    } else if str_eq(code, "sna") {
        Language::Shona
    } else if str_eq(code, "spa") {
        Language::Spanish
    } else if str_eq(code, "srp") {
        Language::Serbian
    } else if str_eq(code, "swe") {
        Language::Swedish
    } else if str_eq(code, "tam") {
        Language::Tamil
    } else if str_eq(code, "tel") {
        Language::Telugu
    } else if str_eq(code, "tgl") {
        Language::Tagalog
    } else if str_eq(code, "tha") {
        Language::Thai
    } else if str_eq(code, "tuk") {
        Language::Turkmen
    } else if str_eq(code, "tur") {
        Language::Turkish
    } else if str_eq(code, "ukr") {
        Language::Ukrainian
    } else if str_eq(code, "urd") {
        Language::Urdu
    } else if str_eq(code, "uzb") {
        Language::Uzbek
    } else if str_eq(code, "vie") {
        Language::Vietnamese
    } else if str_eq(code, "zul") {
        Language::Zulu
    } else if str_eq(code, "aka") {
        Language::other("Akan")
    } else if str_eq(code, "epo") {
        Language::other("Esperanto")
    } else if str_eq(code, "yid") {
        Language::other("Yiddish")
    } else {
        Language::other(code)
    }
}

/// The processor that finds out in which language a ticket is written.
#[derive(Debug, Clone, Copy)]
pub struct LanguageProcessor;

impl LanguageProcessor {
    /// The declaration of the processor: it needs nothing and fills in the
    /// language.
    pub open spec fn fields() -> ProcessorFields {
        ProcessorFields {
            required: FieldMask {
                language: false,
                sentiment: false,
                category: false,
                priority: false,
            },
            output: FieldMask { language: true, sentiment: false, category: false, priority: false },
        }
    }

    /// What the processor enters as the language of a ticket for which the
    /// detector gave `detected`: the language of the code, or the detection
    /// error where there is none.
    pub open spec fn settles(detected: Option<Seq<char>>, language: ProcessingResult<Language>)
        -> bool {
        match detected {
            Some(code) => language matches ProcessingResult::Success(found) && is_language_of(
                code,
                found,
            ),
            None => language == ProcessingResult::<Language>::Error(
                ProcessingError::LanguageDetectionError(),
            ),
        }
    }

    /// Turns the detector's answer into the annotation.
    pub fn language_result(detected: Option<String>) -> (language: ProcessingResult<Language>)
        ensures
            Self::settles(
                match detected {
                    Some(code) => Some(code@),
                    None => None,
                },
                language,
            ),
    {
        match detected {
            Some(code) => ProcessingResult::Success(to_language_enum(code.as_str())),
            None => ProcessingResult::Error(ProcessingError::LanguageDetectionError()),
        }
    }

    /// Runs the processor on a snapshot. The result names the same ticket,
    /// carries the language found for its content, and leaves every other
    /// field pending.
    pub fn process(&self, ticket: ProcessedTicket) -> (result: ProcessedTicket)
        ensures
            result.ticket == ticket.ticket,
            Self::settles(detected_language_code(ticket.ticket.content@), result.language),
            result.sentiment is Processing,
            result.category is Processing,
            result.priority is Processing,
            FieldMask::of_record(result) == Self::fields().output,
    {
        let detected = detect_language_code(ticket.ticket.content.as_str());
        let language = Self::language_result(detected);
        ProcessedTicket::new(ticket.ticket).with_language(language)
    }
}

impl TicketProcessor for LanguageProcessor {
    open spec fn required(&self) -> FieldMask {
        Self::fields().required
    }

    open spec fn output(&self) -> FieldMask {
        Self::fields().output
    }

    fn required_fields(&self) -> (mask: FieldMask) {
        FieldMask::empty()
    }

    fn output_fields(&self) -> (mask: FieldMask) {
        FieldMask::language()
    }
}

} // verus!
