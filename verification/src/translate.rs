//! Translation on request, done by the same model as the chat: the text is
//! wrapped in an instruction to translate it and sent without any context.

use crate::language::Language;
use vstd::prelude::*;
use vstd::string::StringExecFns;

verus! {

pub const TRANSLATE_OPENING: &'static str = "Translate the following text to ";

pub const TRANSLATE_MIDDLE: &'static str = ". Return ONLY the translated text, no explanations.\n\nText: ";

pub const NAME_ENGLISH: &'static str = "English";

pub const NAME_HINDI: &'static str = "Hindi";

pub const NAME_MARATHI: &'static str = "Marathi";

pub const TRANSLATION_FAILED_MESSAGE: &'static str = "Translation failed";

/// A request to translate a text.
#[derive(Clone, Debug)]
pub struct TranslateRequest {
    pub text: String,
    /// The code of the language to translate into.
    pub target_lang: String,
}

/// A translated text.
#[derive(Clone, Debug)]
pub struct TranslateResponse {
    pub translated_text: String,
}

/// The body of an error reply.
#[derive(Clone, Debug)]
pub struct ErrorResponse {
    pub error: String,
}

/// The English name of a language.
pub open spec fn language_name(language: Language) -> Seq<char> {
    match language {
        Language::English => NAME_ENGLISH@,
        Language::Hindi => NAME_HINDI@,
        Language::Marathi => NAME_MARATHI@,
    }
}

/// The instruction to translate `text` into the language that `target_lang`
/// names.
pub open spec fn translation_query(text: Seq<char>, target_lang: Seq<char>) -> Seq<char> {
    TRANSLATE_OPENING@ + language_name(Language::of_code(target_lang)) + TRANSLATE_MIDDLE@ + text
}

/// Builds the instruction for a translation request; it is sent as a
/// question without context or image. Any code but `hi` and `mr` asks for
/// English.
pub fn translation_prompt(request: &TranslateRequest) -> (query: String)
    ensures
        query@ == translation_query(request.text@, request.target_lang@),
{
    let name = match Language::from_code(request.target_lang.as_str()) {
        Language::English => NAME_ENGLISH,
        Language::Hindi => NAME_HINDI,
        Language::Marathi => NAME_MARATHI,
    };
    let mut query = String::from_str(TRANSLATE_OPENING);
    query.append(name);
    query.append(TRANSLATE_MIDDLE);
    query.append(request.text.as_str());
    query
}

/// The body of the error reply for a translation that could not be made.
pub fn translation_failure() -> (body: ErrorResponse)
    ensures
        body.error@ == TRANSLATION_FAILED_MESSAGE@,
{
    ErrorResponse { error: String::from_str(TRANSLATION_FAILED_MESSAGE) }
}

} // verus!
