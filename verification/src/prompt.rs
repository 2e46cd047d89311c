//! Assembly of the instruction text sent to the generation provider, and the
//! plan of the request that carries it.
//!
//! Two templates exist. The instruct template, for the text model, wraps
//! context, question and language directive in a `User:` turn and leaves an
//! open `Assistant:` turn. The vision template, used when an image comes with
//! the question, is one continuous text without turn markers.

use crate::language::Language;
use crate::text::{chars_of, contains, occurs_in};
use vstd::prelude::*;
use vstd::string::StringExecFns;

verus! {

/// The persona, the guidelines and the format rules that open every prompt.
pub const SYSTEM_PROMPT: &'static str = r#"You are KisanAI, a helpful and knowledgeable AI assistant.

Your primary goal is to help users with accurate and practical information. While you have a special focus on agriculture and helping farmers, you can answer questions on a wide range of topics including general knowledge, science, history, and daily life.

GUIDELINES:
1. **Be Helpful & Accurate**: Provide clear, correct, and useful answers.
2. **Context Matters**: Use the provided context from the knowledge base to answer properly. If the context is relevant, prioritize it.
3. **General Knowledge**: If the query is not about farming, answer it using your general knowledge.
4. **Farming Persona**: When answering agricultural questions, use simple, farmer-friendly language and consider the Indian context (seasons, mandis, crops).
5. **Safety**: Do not generate harmful, illegal, or biased content.

FORMAT:
- Use bullet points for lists.
- Be concise and direct.
- For farming advice, include actionable steps."#;

pub const DIRECTIVE_EN: &'static str = "IMPORTANT: Respond in English.";

pub const DIRECTIVE_HI: &'static str = "IMPORTANT: Respond in Hindi (Devanagari script).";

pub const DIRECTIVE_MR: &'static str = "IMPORTANT: Respond in Marathi (Devanagari script).";

pub const CONTEXT_HEADER: &'static str = "CONTEXT FROM KNOWLEDGE BASE:\n";

pub const CONTEXT_FOOTER: &'static str = "\n\n---\n\n";

pub const USER_TURN: &'static str = "User: ";

pub const ASSISTANT_TURN: &'static str = "Assistant:";

pub const LINE_BREAK: &'static str = "\n";

pub const BLANK_LINE: &'static str = "\n\n";

/// The text model used when none is configured, and in place of a retired one.
pub const DEFAULT_TEXT_MODEL: &'static str = "ibm-granite/granite-3.3-8b-instruct";

/// The vision model used when none is configured.
pub const DEFAULT_VISION_MODEL: &'static str = "yorickvp/llava-13b";

/// Model names that contain one of these are retired.
pub const RETIRED_MODELS: [&'static str; 2] = ["granite-3.0-8b-instruct", "granite-34b-code-instruct"];

pub const ENDPOINT_PREFIX: &'static str = "https://api.replicate.com/v1/models/";

pub const ENDPOINT_SUFFIX: &'static str = "/predictions";

pub const BEARER_PREFIX: &'static str = "Bearer ";

/// The value of the `Prefer` header: answer once the job is done, if that
/// does not take too long.
pub const PREFER_WAIT: &'static str = "wait";

/// Where the text model is told to stop.
pub const STOP_SEQUENCES: &'static str = "User:,\n\nUser";

/// The most tokens a generation may produce.
pub const MAX_TOKENS: u32 = 500;

/// The sampling temperature, in hundredths.
pub const TEMPERATURE_PERCENT: u32 = 70;

/// The nucleus sampling threshold, in hundredths.
pub const TOP_P_PERCENT: u32 = 90;

/// The instruction to answer in a language.
pub open spec fn directive(language: Language) -> Seq<char> {
    match language {
        Language::English => DIRECTIVE_EN@,
        Language::Hindi => DIRECTIVE_HI@,
        Language::Marathi => DIRECTIVE_MR@,
    }
}

/// The delimited block that carries retrieved context; nothing at all when
/// there is no context.
pub open spec fn context_block(context: Seq<char>) -> Seq<char> {
    if context.len() == 0 {
        Seq::empty()
    } else {
        CONTEXT_HEADER@ + context + CONTEXT_FOOTER@
    }
}

/// The prompt of the vision template.
pub open spec fn vision_prompt(query: Seq<char>, context: Seq<char>, language: Language) -> Seq<
    char,
> {
    SYSTEM_PROMPT@ + BLANK_LINE@ + directive(language) + LINE_BREAK@ + context_block(context)
        + LINE_BREAK@ + query
}

/// The prompt of the instruct template.
pub open spec fn instruct_prompt(query: Seq<char>, context: Seq<char>, language: Language) -> Seq<
    char,
> {
    SYSTEM_PROMPT@ + BLANK_LINE@ + USER_TURN@ + context_block(context) + LINE_BREAK@ + query
        + LINE_BREAK@ + directive(language) + LINE_BREAK@ + ASSISTANT_TURN@
}

/// The prompt for a question: the vision template when an image comes with
/// it, the instruct template otherwise.
pub open spec fn prompt_text(
    query: Seq<char>,
    context: Seq<char>,
    language: Language,
    has_image: bool,
) -> Seq<char> {
    if has_image {
        vision_prompt(query, context, language)
    } else {
        instruct_prompt(query, context, language)
    }
}

fn directive_for(language: Language) -> (line: &'static str)
    ensures
        line@ == directive(language),
{
    match language {
        Language::English => DIRECTIVE_EN,
        Language::Hindi => DIRECTIVE_HI,
        Language::Marathi => DIRECTIVE_MR,
    }
}

fn append_context_block(prompt: &mut String, context: &str)
    ensures
        final(prompt)@ == old(prompt)@ + context_block(context@),
{
    if !context.is_empty() {
        prompt.append(CONTEXT_HEADER);
        prompt.append(context);
        prompt.append(CONTEXT_FOOTER);
        assert(prompt@ =~= old(prompt)@ + (CONTEXT_HEADER@ + context@ + CONTEXT_FOOTER@));
    } else {
        assert(prompt@ =~= old(prompt)@ + Seq::<char>::empty());
    }
}

/// Builds the prompt for a question. `target_lang` is a language code; any
/// code but `hi` and `mr` asks for English.
pub fn build(query: &str, context: &str, target_lang: &str, has_image: bool) -> (prompt: String)
    ensures
        prompt@ == prompt_text(query@, context@, Language::of_code(target_lang@), has_image),
{
    let language = Language::from_code(target_lang);
    let mut prompt = String::from_str(SYSTEM_PROMPT);
    prompt.append(BLANK_LINE);
    if has_image {
        prompt.append(directive_for(language));
        prompt.append(LINE_BREAK);
        append_context_block(&mut prompt, context);
        prompt.append(LINE_BREAK);
        prompt.append(query);
    } else {
        prompt.append(USER_TURN);
        append_context_block(&mut prompt, context);
        prompt.append(LINE_BREAK);
        prompt.append(query);
        prompt.append(LINE_BREAK);
        prompt.append(directive_for(language));
        prompt.append(LINE_BREAK);
        prompt.append(ASSISTANT_TURN);
    }
    prompt
}

/// A model name is retired when it contains one of the retired names.
pub open spec fn is_retired(model: Seq<char>) -> bool {
    occurs_in(model, RETIRED_MODELS@[0]@) || occurs_in(model, RETIRED_MODELS@[1]@)
}

/// The model that serves a request. With an image it is the configured
/// vision model, or the default one. Without, it is the configured text
/// model, unless none is configured or the configured one is retired: then
/// it is the default text model.
pub open spec fn selected_model(
    has_image: bool,
    vision_model: Option<Seq<char>>,
    text_model: Option<Seq<char>>,
) -> Seq<char> {
    if has_image {
        match vision_model {
            Some(model) => model,
            None => DEFAULT_VISION_MODEL@,
        }
    } else {
        match text_model {
            Some(model) => if is_retired(model) {
                DEFAULT_TEXT_MODEL@
            } else {
                model
            },
            None => DEFAULT_TEXT_MODEL@,
        }
    }
}

/// The address that takes generation jobs for a model.
pub open spec fn endpoint(model: Seq<char>) -> Seq<char> {
    ENDPOINT_PREFIX@ + model + ENDPOINT_SUFFIX@
}

/// Decides `is_retired`.
pub fn retired(model: &str) -> (is: bool)
    ensures
        is == is_retired(model@),
{
    let name = chars_of(model);
    let first = chars_of(RETIRED_MODELS[0]);
    let second = chars_of(RETIRED_MODELS[1]);
    contains(&name, &first) || contains(&name, &second)
}

/// Selects the model for a request.
pub fn select_model(has_image: bool, vision_model: Option<&str>, text_model: Option<&str>) -> (model:
    String)
    ensures
        model@ == selected_model(
            has_image,
            match vision_model {
                Some(name) => Some(name@),
                None => None,
            },
            match text_model {
                Some(name) => Some(name@),
                None => None,
            },
        ),
{
    if has_image {
        match vision_model {
            Some(name) => String::from_str(name),
            None => String::from_str(DEFAULT_VISION_MODEL),
        }
    } else {
        match text_model {
            Some(name) => {
                if retired(name) {
                    String::from_str(DEFAULT_TEXT_MODEL)
                } else {
                    String::from_str(name)
                }
            },
            None => String::from_str(DEFAULT_TEXT_MODEL),
        }
    }
}

/// The address that takes generation jobs for a model.
pub fn endpoint_for(model: &str) -> (url: String)
    ensures
        url@ == endpoint(model@),
{
    let mut url = String::from_str(ENDPOINT_PREFIX);
    url.append(model);
    url.append(ENDPOINT_SUFFIX);
    url
}

} // verus!
