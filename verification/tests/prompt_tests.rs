use kisan_ai::prompt::{build, endpoint_for, retired, select_model, SYSTEM_PROMPT};
use kisan_ai::request::{plan_request, GenerationError, ProviderConfig};

fn config(token: Option<&str>, vision: Option<&str>, text: Option<&str>) -> ProviderConfig {
    ProviderConfig {
        api_token: token.map(String::from),
        vision_model: vision.map(String::from),
        text_model: text.map(String::from),
    }
}

#[test]
fn persona_opens_every_prompt() {
    assert!(SYSTEM_PROMPT.starts_with("You are KisanAI, a helpful and knowledgeable AI assistant.\n\n"));
    assert!(SYSTEM_PROMPT.ends_with("- For farming advice, include actionable steps."));
    for has_image in [false, true] {
        for context in ["", "ctx"] {
            assert!(build("q", context, "en", has_image).starts_with(SYSTEM_PROMPT));
        }
    }
}

#[test]
fn instruct_prompt_without_context() {
    assert_eq!(
        build("How to grow rice?", "", "en", false),
        format!("{SYSTEM_PROMPT}\n\nUser: \nHow to grow rice?\nIMPORTANT: Respond in English.\nAssistant:")
    );
}

#[test]
fn instruct_prompt_with_context() {
    assert_eq!(
        build("भाव?", "[A] b", "hi", false),
        format!("{SYSTEM_PROMPT}\n\nUser: CONTEXT FROM KNOWLEDGE BASE:\n[A] b\n\n---\n\n\nभाव?\nIMPORTANT: Respond in Hindi (Devanagari script).\nAssistant:")
    );
}

#[test]
fn vision_prompt_has_no_turn_markers() {
    assert_eq!(
        build("What is this?", "", "mr", true),
        format!("{SYSTEM_PROMPT}\n\nIMPORTANT: Respond in Marathi (Devanagari script).\n\nWhat is this?")
    );
    assert_eq!(
        build("What is this?", "[A] b", "en", true),
        format!("{SYSTEM_PROMPT}\n\nIMPORTANT: Respond in English.\nCONTEXT FROM KNOWLEDGE BASE:\n[A] b\n\n---\n\n\nWhat is this?")
    );
    let prompt = build("q", "c", "en", true);
    assert!(!prompt.contains("User:") && !prompt.contains("Assistant:"));
}

#[test]
fn unknown_language_asks_for_english() {
    assert_eq!(build("q", "", "fr", false), build("q", "", "en", false));
    assert_eq!(build("q", "", "", true), build("q", "", "en", true));
    assert!(build("q", "", "fr", false).contains("IMPORTANT: Respond in English."));
}

#[test]
fn empty_context_leaves_no_block() {
    assert!(!build("q", "", "en", false).contains("CONTEXT FROM KNOWLEDGE BASE"));
    assert!(!build("q", "", "en", true).contains("CONTEXT FROM KNOWLEDGE BASE"));
}

#[test]
fn model_selection() {
    assert_eq!(select_model(false, None, None), "ibm-granite/granite-3.3-8b-instruct");
    assert_eq!(select_model(true, None, None), "yorickvp/llava-13b");
    assert_eq!(select_model(true, Some("me/eyes"), Some("me/words")), "me/eyes");
    assert_eq!(select_model(false, Some("me/eyes"), Some("me/words")), "me/words");
    assert_eq!(select_model(false, None, Some("ibm-granite/granite-3.0-8b-instruct")), "ibm-granite/granite-3.3-8b-instruct");
    assert_eq!(select_model(false, None, Some("x/granite-34b-code-instruct:v2")), "ibm-granite/granite-3.3-8b-instruct");
    // The vision model is never rewritten.
    assert_eq!(select_model(true, Some("granite-3.0-8b-instruct"), None), "granite-3.0-8b-instruct");
}

#[test]
fn retired_models_are_recognised() {
    assert!(retired("ibm-granite/granite-3.0-8b-instruct"));
    assert!(retired("granite-34b-code-instruct"));
    assert!(!retired("ibm-granite/granite-3.3-8b-instruct"));
    assert!(!retired(""));
}

#[test]
fn endpoint_names_the_model() {
    assert_eq!(endpoint_for("a/b"), "https://api.replicate.com/v1/models/a/b/predictions");
}

#[test]
fn missing_token_gives_no_request() {
    let planned = plan_request(&config(None, Some("v"), Some("t")), "q", "c", None, "en");
    assert_eq!(planned.err(), Some(GenerationError::MissingCredential));
    assert_eq!(GenerationError::MissingCredential.message(), "REPLICATE_API_TOKEN not set");
}

#[test]
fn text_request_is_planned() {
    let request = plan_request(&config(Some("test-token"), None, None), "rice?", "[A] b", None, "hi").unwrap();
    assert_eq!(request.url, "https://api.replicate.com/v1/models/ibm-granite/granite-3.3-8b-instruct/predictions");
    assert_eq!(request.authorization, "Bearer test-token");
    assert_eq!(request.prefer, "wait");
    assert_eq!(request.model, "ibm-granite/granite-3.3-8b-instruct");
    assert!(!request.vision);
    assert_eq!(request.prompt, build("rice?", "[A] b", "hi", false));
    assert_eq!(request.max_tokens, 500);
    assert_eq!(request.temperature_percent, 70);
    assert_eq!(request.top_p_percent, 90);
    assert_eq!(request.image, None);
    assert_eq!(request.stop_sequences.as_deref(), Some("User:,\n\nUser"));
}

#[test]
fn vision_request_is_planned() {
    let image = Some(String::from("data:image/png;base64,AAAA"));
    let request = plan_request(&config(Some("k"), None, Some("t/t")), "what?", "", image.clone(), "en").unwrap();
    assert_eq!(request.url, "https://api.replicate.com/v1/models/yorickvp/llava-13b/predictions");
    assert!(request.vision);
    assert_eq!(request.model, "yorickvp/llava-13b");
    assert_eq!(request.prompt, build("what?", "", "en", true));
    assert_eq!(request.image, image);
    assert_eq!(request.stop_sequences, None);
}
