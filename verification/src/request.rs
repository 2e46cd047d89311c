//! The plan of a generation request: where it goes, what it carries and
//! with which sampling parameters. Sending it is left to the caller.

use crate::language::Language;
use crate::prompt::{
    build, endpoint, endpoint_for, prompt_text, select_model, selected_model, BEARER_PREFIX,
    MAX_TOKENS, PREFER_WAIT, STOP_SEQUENCES, TEMPERATURE_PERCENT, TOP_P_PERCENT,
};
use crate::reply::opt_text;
use vstd::prelude::*;
use vstd::string::StringExecFns;

verus! {

pub const MISSING_CREDENTIAL_MESSAGE: &'static str = "REPLICATE_API_TOKEN not set";

/// Why no request could be planned.
#[derive(Clone, Copy, Debug, PartialEq, Eq, Structural)]
pub enum GenerationError {
    /// The provider's API token is not configured.
    MissingCredential,
}

impl GenerationError {
    /// What to tell the operator.
    pub fn message(&self) -> (text: String)
        ensures
            text@ == MISSING_CREDENTIAL_MESSAGE@,
    {
        match self {
            GenerationError::MissingCredential => String::from_str(MISSING_CREDENTIAL_MESSAGE),
        }
    }
}

/// What is configured for the provider.
#[derive(Clone, Debug)]
pub struct ProviderConfig {
    /// The API token; without it nothing can be sent.
    pub api_token: Option<String>,
    /// The vision model to use in place of the default one.
    pub vision_model: Option<String>,
    /// The text model to use in place of the default one.
    pub text_model: Option<String>,
}

/// A generation request, ready to be sent.
#[derive(Clone, Debug)]
pub struct GenerationRequest {
    /// The address to post to.
    pub url: String,
    /// The value of the `Authorization` header.
    pub authorization: String,
    /// The value of the `Prefer` header, which asks for the finished job
    /// rather than a job in progress.
    pub prefer: String,
    /// The model that will serve the request.
    pub model: String,
    /// Whether that is the vision model.
    pub vision: bool,
    pub prompt: String,
    pub max_tokens: u32,
    /// The sampling temperature, in hundredths.
    pub temperature_percent: u32,
    /// The nucleus sampling threshold, in hundredths.
    pub top_p_percent: u32,
    /// The image that comes with the question.
    pub image: Option<String>,
    /// Where generation stops; only the text model is given any.
    pub stop_sequences: Option<String>,
}

/// Whether `request` is the request for a question under a configuration
/// that holds the token `token`.
pub open spec fn is_request_for(
    request: GenerationRequest,
    token: Seq<char>,
    config: ProviderConfig,
    query: Seq<char>,
    context: Seq<char>,
    image: Option<Seq<char>>,
    target_lang: Seq<char>,
) -> bool {
    let vision = image is Some;
    let model = selected_model(vision, opt_text(config.vision_model), opt_text(config.text_model));
    &&& request.model@ == model
    &&& request.url@ == endpoint(model)
    &&& request.authorization@ == BEARER_PREFIX@ + token
    &&& request.prefer@ == PREFER_WAIT@
    &&& request.vision == vision
    &&& request.prompt@ == prompt_text(query, context, Language::of_code(target_lang), vision)
    &&& request.max_tokens == MAX_TOKENS
    &&& request.temperature_percent == TEMPERATURE_PERCENT
    &&& request.top_p_percent == TOP_P_PERCENT
    &&& opt_text(request.image) == image
    &&& opt_text(request.stop_sequences) == if vision {
        None
    } else {
        Some(STOP_SEQUENCES@)
    }
}

fn as_text(value: &Option<String>) -> (text: Option<&str>)
    ensures
        match text {
            Some(held) => opt_text(*value) == Some(held@),
            None => value is None,
        },
{
    match value {
        Some(held) => Some(held.as_str()),
        None => None,
    }
}

/// Plans the request for a question. Without an API token there is no
/// request, whatever else is given; with one there always is.
pub fn plan_request(
    config: &ProviderConfig,
    query: &str,
    context: &str,
    image: Option<String>,
    target_lang: &str,
) -> (planned: Result<GenerationRequest, GenerationError>)
    ensures
        match planned {
            Ok(request) => config.api_token is Some && is_request_for(
                request,
                config.api_token->0@,
                *config,
                query@,
                context@,
                opt_text(image),
                target_lang@,
            ),
            Err(error) => config.api_token is None && error == GenerationError::MissingCredential,
        },
{
    let token = match &config.api_token {
        Some(token) => token,
        None => {
            return Err(GenerationError::MissingCredential);
        },
    };
    let vision = image.is_some();
    let model = select_model(vision, as_text(&config.vision_model), as_text(&config.text_model));
    let url = endpoint_for(model.as_str());
    let mut authorization = String::from_str(BEARER_PREFIX);
    authorization.append(token.as_str());
    let prompt = build(query, context, target_lang, vision);
    let stop_sequences = if vision {
        None
    } else {
        Some(String::from_str(STOP_SEQUENCES))
    };
    Ok(
        GenerationRequest {
            url,
            authorization,
            prefer: String::from_str(PREFER_WAIT),
            model,
            vision,
            prompt,
            max_tokens: MAX_TOKENS,
            temperature_percent: TEMPERATURE_PERCENT,
            top_p_percent: TOP_P_PERCENT,
            image,
            stop_sequences,
        },
    )
}

} // verus!
