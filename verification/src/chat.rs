//! The chat pipeline around the generation job: what happens to a question
//! before a model is asked, and how the answer is wrapped up afterwards.
//!
//! Before: the question is trimmed and refused if nothing is left, its
//! language is detected, a question in Hindi or Marathi is annotated with
//! English hints, and context is retrieved for it. After: the answer goes
//! out with its sources and a confidence that depends on how many sources
//! there are.

use crate::knowledge_base::corpus;
use crate::language::{detect, detected, Language, ENGLISH_CODE};
use crate::reply::opt_text;
use crate::retriever::{retrieve, retrieved_passages, retrieved_sources, string_views, TOP_K};
use crate::text::{is_blank, trim, trimmed};
use crate::translator::{annotated_query, translate_to_english};
use vstd::prelude::*;
use vstd::string::StringExecFns;

verus! {

pub const EMPTY_QUERY_MESSAGE: &'static str = "Query cannot be empty";

pub const GENERATION_FAILED_MESSAGE: &'static str = "Failed to generate response";

/// What separates the passages of a context.
pub const CONTEXT_SEPARATOR: &'static str = "\n\n";

pub const CONFIDENCE_LOW: &'static str = "low";

pub const CONFIDENCE_MEDIUM: &'static str = "medium";

pub const CONFIDENCE_HIGH: &'static str = "high";

/// The status code for a request that cannot be served as it is.
pub const STATUS_BAD_REQUEST: u16 = 400;

/// The status code for a failure on the server's side.
pub const STATUS_SERVER_ERROR: u16 = 500;

/// A question as it comes in.
#[derive(Clone, Debug)]
pub struct ChatRequest {
    pub query: String,
    /// The code of the language to answer in: `en`, `hi` or `mr`.
    pub language: Option<String>,
    /// An image, encoded or as an address.
    pub image: Option<String>,
}

/// An answer as it goes out.
#[derive(Clone, Debug)]
pub struct ChatResponse {
    pub answer: String,
    pub sources: Vec<String>,
    /// `low`, `medium` or `high`.
    pub confidence: String,
    pub detected_language: String,
}

/// The body of an error reply.
#[derive(Clone, Debug)]
pub struct ErrorResponse {
    pub error: String,
}

/// A failure to be reported to the client: a status code and a body.
#[derive(Clone, Debug)]
pub struct ChatFailure {
    pub status: u16,
    pub body: ErrorResponse,
}

/// How well an answer is grounded.
#[derive(Clone, Copy, Debug, PartialEq, Eq, Structural)]
pub enum Confidence {
    Low,
    Medium,
    High,
}

/// The confidence that a number of sources gives: low without any, high
/// from three on, medium in between.
pub open spec fn confidence_for(sources: nat) -> Confidence {
    if sources >= 3 {
        Confidence::High
    } else if sources >= 1 {
        Confidence::Medium
    } else {
        Confidence::Low
    }
}

impl Confidence {
    /// The word for a confidence.
    pub open spec fn label_text(self) -> Seq<char> {
        match self {
            Confidence::Low => CONFIDENCE_LOW@,
            Confidence::Medium => CONFIDENCE_MEDIUM@,
            Confidence::High => CONFIDENCE_HIGH@,
        }
    }

    pub fn label(&self) -> (word: &'static str)
        ensures
            word@ == self.label_text(),
    {
        match self {
            Confidence::Low => CONFIDENCE_LOW,
            Confidence::Medium => CONFIDENCE_MEDIUM,
            Confidence::High => CONFIDENCE_HIGH,
        }
    }
}

/// Derives the confidence from the number of sources.
pub fn confidence_of(sources: usize) -> (confidence: Confidence)
    ensures
        confidence == confidence_for(sources as nat),
        sources == 0 <==> confidence == Confidence::Low,
        1 <= sources <= 2 <==> confidence == Confidence::Medium,
        sources >= 3 <==> confidence == Confidence::High,
{
    if sources >= 3 {
        Confidence::High
    } else if sources >= 1 {
        Confidence::Medium
    } else {
        Confidence::Low
    }
}

/// The parts joined with a separator between each two.
pub open spec fn joined(parts: Seq<Seq<char>>, separator: Seq<char>) -> Seq<char>
    decreases parts.len(),
{
    if parts.len() == 0 {
        Seq::empty()
    } else if parts.len() == 1 {
        parts[0]
    } else {
        joined(parts.drop_last(), separator) + separator + parts.last()
    }
}

/// Joins strings with a separator between each two.
pub fn join(parts: &Vec<String>, separator: &str) -> (whole: String)
    ensures
        whole@ == joined(string_views(parts@), separator@),
{
    let ghost all = string_views(parts@);
    let mut whole = String::new();
    let mut i: usize = 0;
    assert(all.take(0) =~= Seq::<Seq<char>>::empty());
    while i < parts.len()
        invariant
            i <= parts@.len(),
            all == string_views(parts@),
            whole@ == joined(all.take(i as int), separator@),
        decreases parts@.len() - i,
    {
        assert(all.take(i + 1).drop_last() =~= all.take(i as int));
        assert(all.take(i + 1).last() == parts@[i as int]@);
        if i > 0 {
            whole.append(separator);
        } else {
            assert(all.take(1)[0] == parts@[0]@);
            assert(whole@ + parts@[0]@ =~= parts@[0]@);
        }
        whole.append(parts[i].as_str());
        i += 1;
    }
    assert(all.take(parts@.len() as int) =~= all);
    whole
}

/// What is known of a question once it is ready for generation.
#[derive(Clone, Debug)]
pub struct ChatPlan {
    /// The question as the model gets it: trimmed, and annotated if it is
    /// not in English.
    pub query: String,
    /// The retrieved passages, joined.
    pub context: String,
    /// The sources of the passages.
    pub sources: Vec<String>,
    /// The code of the language the question is in.
    pub detected_language: String,
    /// The code of the language to answer in.
    pub target_lang: String,
    pub image: Option<String>,
}

/// The question as the model gets it.
pub open spec fn model_query(query: Seq<char>) -> Seq<char> {
    if detected(trimmed(query)) == Language::English {
        trimmed(query)
    } else {
        annotated_query(trimmed(query))
    }
}

/// The language to answer in: the one asked for, English if none is.
pub open spec fn target_language(language: Option<Seq<char>>) -> Seq<char> {
    match language {
        Some(code) => code,
        None => ENGLISH_CODE@,
    }
}

/// Whether `plan` is the plan for `request`.
pub open spec fn is_plan_for(plan: ChatPlan, request: ChatRequest) -> bool {
    let query = model_query(request.query@);
    &&& plan.query@ == query
    &&& plan.context@ == joined(retrieved_passages(corpus(), query), CONTEXT_SEPARATOR@)
    &&& string_views(plan.sources@) == retrieved_sources(corpus(), query)
    &&& plan.sources@.len() <= TOP_K
    &&& plan.detected_language@ == detected(trimmed(request.query@)).code_text()
    &&& plan.target_lang@ == target_language(opt_text(request.language))
    &&& opt_text(plan.image) == opt_text(request.image)
}

/// Prepares a question for generation. A question that is empty or all
/// white space is refused with status 400 before anything else is done;
/// every other question gets its plan.
pub fn plan_chat(request: ChatRequest) -> (planned: Result<ChatPlan, ChatFailure>)
    ensures
        match planned {
            Ok(plan) => !is_blank(request.query@) && is_plan_for(plan, request),
            Err(failure) => is_blank(request.query@) && failure.status == STATUS_BAD_REQUEST
                && failure.body.error@ == EMPTY_QUERY_MESSAGE@,
        },
{
    let question = trim(request.query.as_str());
    if question.as_str().is_empty() {
        return Err(
            ChatFailure {
                status: STATUS_BAD_REQUEST,
                body: ErrorResponse { error: String::from_str(EMPTY_QUERY_MESSAGE) },
            },
        );
    }
    let language = detect(question.as_str());
    let query = match language {
        Language::English => question,
        _ => translate_to_english(question.as_str(), language.code()),
    };
    let (passages, sources) = retrieve(query.as_str());
    let context = join(&passages, CONTEXT_SEPARATOR);
    let target_lang = match request.language {
        Some(code) => code,
        None => String::from_str(ENGLISH_CODE),
    };
    Ok(
        ChatPlan {
            query,
            context,
            sources,
            detected_language: String::from_str(language.code()),
            target_lang,
            image: request.image,
        },
    )
}

/// Wraps up an answer: with the sources of the plan, the confidence they
/// give and the language the question was in.
pub fn finish_chat(plan: ChatPlan, answer: String) -> (response: ChatResponse)
    ensures
        response.answer == answer,
        response.sources == plan.sources,
        response.detected_language == plan.detected_language,
        response.confidence@ == confidence_for(plan.sources@.len()).label_text(),
{
    let confidence = confidence_of(plan.sources.len());
    ChatResponse {
        answer,
        sources: plan.sources,
        confidence: String::from_str(confidence.label()),
        detected_language: plan.detected_language,
    }
}

/// The failure reported when no generation request could be made.
pub fn generation_failure() -> (failure: ChatFailure)
    ensures
        failure.status == STATUS_SERVER_ERROR,
        failure.body.error@ == GENERATION_FAILED_MESSAGE@,
{
    ChatFailure {
        status: STATUS_SERVER_ERROR,
        body: ErrorResponse { error: String::from_str(GENERATION_FAILED_MESSAGE) },
    }
}

} // verus!
