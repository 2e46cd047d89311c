//! Answers composed locally when the generation service gives none.
//!
//! Every message exists in English, Hindi and Marathi. A query that is just a
//! greeting is always answered with the greeting line; any other query gets
//! the retrieved context verbatim, or an acknowledgement when nothing was
//! retrieved, followed by where to find human help.

use crate::language::{texts_of, Language};
use crate::text::{lowercase_of, occurs_at, occurs_in, same_text, to_lowercase, trim, trimmed};
use vstd::prelude::*;
use vstd::string::StringExecFns;

verus! {

/// The phrases that count as a greeting once trimmed and lower-cased.
pub const GREETING_PHRASES: [&'static str; 8] = [
    "hello", "hi", "hey", "namaste", "namaskar", "ram ram", "sat sri akal", "greetings",
];

/// What separates the parts of a composed message.
pub const PARAGRAPH_BREAK: &'static str = "\n\n";

pub const GREETING_EN: &'static str = "Hello! I am KisanAI. How can I help you with your farming today?";

pub const GREETING_HI: &'static str = "नमस्ते! मैं किसानAI हूँ। मैं आपकी खेती में कैसे सहायता कर सकता हूँ?";

pub const GREETING_MR: &'static str = "नमस्कार! मी किसानAI आहे. मी तुम्हाला शेतीत कशी मदत करू शकतो?";

pub const INTRO_EN: &'static str = "Based on available information from our knowledge base:";

pub const INTRO_HI: &'static str = "हमारे ज्ञान के आधार पर:";

pub const INTRO_MR: &'static str = "आमच्या माहितीनुसार:";

pub const CONTACT_EN: &'static str = "For more detailed and personalized advice:\n• Contact Kisan Call Center: 1551 (Free, 24x7)\n• Visit your nearest Krishi Vigyan Kendra";

pub const CONTACT_HI: &'static str = "अधिक विस्तृत जानकारी के लिए:\n• किसान कॉल सेंटर: 1551 (निःशुल्क)\n• अपने नजदीकी कृषि विज्ञान केंद्र पर जाएं";

pub const CONTACT_MR: &'static str = "अधिक सविस्तर माहितीसाठी:\n• किसान कॉल सेंटर: 1551 (मोफत)\n• आपल्या जवळच्या कृषी विज्ञान केंद्रास भेट द्या";

pub const UNAVAILABLE_EN: &'static str = "I'm currently unable to provide a detailed AI response. Please try again later.";

pub const UNAVAILABLE_HI: &'static str = "मुझे क्षमा करें, मैं अभी विस्तृत उत्तर देने में असमर्थ हूं। कृपया बाद में प्रयास करें।";

pub const UNAVAILABLE_MR: &'static str = "क्षमस्व, मी आता सविस्तर उत्तर देऊ शकत नाही. कृपया नंतर पुन्हा प्रयत्न करा.";

pub const ACKNOWLEDGE_EN: &'static str = "I understand you're asking about:";

pub const ACKNOWLEDGE_HI: &'static str = "मैं समझता हूं कि आप इसके बारे में पूछ रहे हैं:";

pub const ACKNOWLEDGE_MR: &'static str = "मला समजले की आपण याबद्दल विचारत आहात:";

pub const TIMEOUT_EN: &'static str = "I apologize, but the response is taking too long. Please try again.";

pub const TIMEOUT_HI: &'static str = "क्षमा करें, प्रतिक्रिया में बहुत समय लग रहा है। कृपया पुनः प्रयास करें।";

pub const TIMEOUT_MR: &'static str = "क्षमस्व, प्रतिसादास खूप वेळ लागत आहे. कृपया पुन्हा प्रयत्न करा.";

/// Picks the variant of a message for a language.
pub open spec fn localized(
    language: Language,
    english: Seq<char>,
    hindi: Seq<char>,
    marathi: Seq<char>,
) -> Seq<char> {
    match language {
        Language::English => english,
        Language::Hindi => hindi,
        Language::Marathi => marathi,
    }
}

fn pick(
    language: Language,
    english: &'static str,
    hindi: &'static str,
    marathi: &'static str,
) -> (text: &'static str)
    ensures
        text@ == localized(language, english@, hindi@, marathi@),
{
    match language {
        Language::English => english,
        Language::Hindi => hindi,
        Language::Marathi => marathi,
    }
}

/// The greeting and self-introduction.
pub open spec fn greeting_line(language: Language) -> Seq<char> {
    localized(language, GREETING_EN@, GREETING_HI@, GREETING_MR@)
}

/// The line that introduces retrieved context.
pub open spec fn intro_line(language: Language) -> Seq<char> {
    localized(language, INTRO_EN@, INTRO_HI@, INTRO_MR@)
}

/// Where to find human help: the farmer call centre and the local extension
/// office.
pub open spec fn contact_lines(language: Language) -> Seq<char> {
    localized(language, CONTACT_EN@, CONTACT_HI@, CONTACT_MR@)
}

/// The apology for having no detailed answer.
pub open spec fn unavailable_line(language: Language) -> Seq<char> {
    localized(language, UNAVAILABLE_EN@, UNAVAILABLE_HI@, UNAVAILABLE_MR@)
}

/// The line that repeats what the user asked about.
pub open spec fn acknowledge_line(language: Language) -> Seq<char> {
    localized(language, ACKNOWLEDGE_EN@, ACKNOWLEDGE_HI@, ACKNOWLEDGE_MR@)
}

/// The message for a generation that took too long.
pub open spec fn timeout_line(language: Language) -> Seq<char> {
    localized(language, TIMEOUT_EN@, TIMEOUT_HI@, TIMEOUT_MR@)
}

/// A text is a greeting when, trimmed and lower-cased, it is one of the
/// greeting phrases.
pub open spec fn is_greeting_text(text: Seq<char>) -> bool {
    texts_of(GREETING_PHRASES@).contains(lowercase_of(trimmed(text)))
}

/// The locally composed answer to a query.
pub open spec fn fallback_text(query: Seq<char>, context: Seq<char>, language: Language) -> Seq<
    char,
> {
    if is_greeting_text(query) {
        greeting_line(language)
    } else if context.len() == 0 {
        acknowledge_line(language) + PARAGRAPH_BREAK@ + query + PARAGRAPH_BREAK@ + contact_lines(
            language,
        ) + PARAGRAPH_BREAK@ + unavailable_line(language)
    } else {
        intro_line(language) + PARAGRAPH_BREAK@ + context + PARAGRAPH_BREAK@ + contact_lines(
            language,
        )
    }
}

/// Decides `is_greeting_text`.
pub fn is_greeting(text: &str) -> (greeting: bool)
    ensures
        greeting == is_greeting_text(text@),
{
    let core = trim(text);
    let lower = to_lowercase(core.as_str());
    let ghost phrases = texts_of(GREETING_PHRASES@);
    let mut i: usize = 0;
    while i < 8
        invariant
            i <= 8,
            phrases == texts_of(GREETING_PHRASES@),
            lower@ == lowercase_of(trimmed(text@)),
            forall|j: int| 0 <= j < i ==> phrases[j] != lower@,
        decreases 8 - i,
    {
        if same_text(lower.as_str(), GREETING_PHRASES[i]) {
            assert(phrases[i as int] == lower@);
            return true;
        }
        i += 1;
    }
    false
}

/// The greeting in the language that `lang` names.
pub fn get_greeting(lang: &str) -> (line: String)
    ensures
        line@ == greeting_line(Language::of_code(lang@)),
{
    String::from_str(pick(Language::from_code(lang), GREETING_EN, GREETING_HI, GREETING_MR))
}

/// The message for a generation that took too long, in the language that
/// `lang` names.
pub fn get_timeout_message(lang: &str) -> (line: String)
    ensures
        line@ == timeout_line(Language::of_code(lang@)),
{
    String::from_str(pick(Language::from_code(lang), TIMEOUT_EN, TIMEOUT_HI, TIMEOUT_MR))
}

/// Composes the local answer to `query` from the retrieved `context`, in the
/// language that `target_lang` names.
pub fn get_fallback_response(query: &str, context: &str, target_lang: &str) -> (answer: String)
    ensures
        answer@ == fallback_text(query@, context@, Language::of_code(target_lang@)),
{
    if is_greeting(query) {
        return get_greeting(target_lang);
    }
    let language = Language::from_code(target_lang);
    let contact = pick(language, CONTACT_EN, CONTACT_HI, CONTACT_MR);
    if context.is_empty() {
        let mut answer = String::from_str(
            pick(language, ACKNOWLEDGE_EN, ACKNOWLEDGE_HI, ACKNOWLEDGE_MR),
        );
        answer.append(PARAGRAPH_BREAK);
        answer.append(query);
        answer.append(PARAGRAPH_BREAK);
        answer.append(contact);
        answer.append(PARAGRAPH_BREAK);
        answer.append(pick(language, UNAVAILABLE_EN, UNAVAILABLE_HI, UNAVAILABLE_MR));
        answer
    } else {
        let mut answer = String::from_str(pick(language, INTRO_EN, INTRO_HI, INTRO_MR));
        answer.append(PARAGRAPH_BREAK);
        answer.append(context);
        answer.append(PARAGRAPH_BREAK);
        answer.append(contact);
        answer
    }
}

/// A greeting is answered with the greeting line whatever was retrieved.
pub proof fn lemma_greeting_ignores_context(
    query: Seq<char>,
    context: Seq<char>,
    language: Language,
)
    requires
        is_greeting_text(query),
    ensures
        fallback_text(query, context, language) == greeting_line(language),
{
}

/// For a query that is no greeting, retrieved context stands verbatim inside
/// the composed answer.
pub proof fn lemma_fallback_quotes_context(
    query: Seq<char>,
    context: Seq<char>,
    language: Language,
)
    requires
        !is_greeting_text(query),
        context.len() > 0,
    ensures
        occurs_in(fallback_text(query, context, language), context),
{
    let start = (intro_line(language) + PARAGRAPH_BREAK@).len() as int;
    let whole = fallback_text(query, context, language);
    assert(whole.subrange(start, start + context.len()) =~= context);
    assert(occurs_at(whole, context, start));
}

} // verus!
