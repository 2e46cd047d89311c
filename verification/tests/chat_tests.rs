use kisan_ai::chat::{
    confidence_of, finish_chat, generation_failure, join, plan_chat, ChatPlan, ChatRequest, Confidence,
};
use kisan_ai::retriever::retrieve;
use kisan_ai::translator::translate_to_english;

fn request(query: &str, language: Option<&str>, image: Option<&str>) -> ChatRequest {
    ChatRequest { query: query.into(), language: language.map(String::from), image: image.map(String::from) }
}

fn plan_with(sources: &[&str]) -> ChatPlan {
    ChatPlan {
        query: "q".into(),
        context: "c".into(),
        sources: sources.iter().map(|source| source.to_string()).collect(),
        detected_language: "en".into(),
        target_lang: "hi".into(),
        image: None,
    }
}

#[test]
fn confidence_follows_the_number_of_sources() {
    assert_eq!(confidence_of(0), Confidence::Low);
    assert_eq!(confidence_of(1), Confidence::Medium);
    assert_eq!(confidence_of(2), Confidence::Medium);
    assert_eq!(confidence_of(3), Confidence::High);
    assert_eq!(confidence_of(4), Confidence::High);
    assert_eq!(confidence_of(usize::MAX), Confidence::High);
    assert_eq!(Confidence::Low.label(), "low");
    assert_eq!(Confidence::Medium.label(), "medium");
    assert_eq!(Confidence::High.label(), "high");
}

#[test]
fn empty_query_is_refused() {
    for query in ["", "   ", "\n\t ", "\u{a0}\u{2003}"] {
        let failure = plan_chat(request(query, Some("hi"), Some("image"))).unwrap_err();
        assert_eq!(failure.status, 400, "{query:?}");
        assert_eq!(failure.body.error, "Query cannot be empty");
    }
}

#[test]
fn english_question_is_planned() {
    let plan = plan_chat(request("  tomato \n", None, None)).unwrap();
    let (passages, sources) = retrieve("tomato");
    assert_eq!(plan.query, "tomato");
    assert_eq!(plan.detected_language, "en");
    assert_eq!(plan.target_lang, "en");
    assert_eq!(plan.image, None);
    assert_eq!(plan.sources, vec!["TNAU Agritech Portal", "AgriMarket Portal"]);
    assert_eq!(plan.sources, sources);
    assert_eq!(plan.context, format!("{}\n\n{}", passages[0], passages[1]));
    assert!(plan.context.starts_with("[Tomato Farming] Tomatoes can be grown year-round"));
}

#[test]
fn hindi_question_is_annotated_before_retrieval() {
    let question = "आज टमाटर का भाव क्या है?";
    let plan = plan_chat(request(question, Some("hi"), Some("img"))).unwrap();
    assert_eq!(plan.detected_language, "hi");
    assert_eq!(plan.target_lang, "hi");
    assert_eq!(plan.image.as_deref(), Some("img"));
    assert_eq!(plan.query, translate_to_english(question, "hi"));
    assert_eq!(plan.query, "आज टमाटर का भाव क्या है? [टमाटर=tomato] [भाव=price]");
    let (passages, sources) = retrieve(&plan.query);
    assert_eq!(plan.sources, sources);
    assert_eq!(plan.context, passages.join("\n\n"));
}

#[test]
fn question_without_farming_term_is_handed_on_unchanged() {
    let plan = plan_chat(request(" नमस्ते ", Some("hi"), None)).unwrap();
    assert_eq!(plan.detected_language, "hi");
    assert_eq!(plan.query, "नमस्ते");
    assert_eq!(plan.context, "");
    assert!(plan.sources.is_empty());
}

#[test]
fn question_without_match_has_empty_context() {
    let plan = plan_chat(request("zzzz", Some("mr"), None)).unwrap();
    assert_eq!(plan.context, "");
    assert!(plan.sources.is_empty());
    assert_eq!(plan.target_lang, "mr");
    assert_eq!(plan.detected_language, "en");
}

#[test]
fn join_puts_the_separator_between_parts() {
    let parts = |items: &[&str]| -> Vec<String> { items.iter().map(|item| item.to_string()).collect() };
    assert_eq!(join(&parts(&[]), "\n\n"), "");
    assert_eq!(join(&parts(&["a"]), "\n\n"), "a");
    assert_eq!(join(&parts(&["a", "b", "c"]), "\n\n"), "a\n\nb\n\nc");
    assert_eq!(join(&parts(&["", ""]), "-"), "-");
}

#[test]
fn answer_is_wrapped_up_with_confidence() {
    let cases: [(&[&str], &str); 4] =
        [(&[], "low"), (&["one"], "medium"), (&["one", "two"], "medium"), (&["one", "two", "three"], "high")];
    for (sources, confidence) in cases {
        let response = finish_chat(plan_with(sources), String::from("the answer"));
        assert_eq!(response.answer, "the answer");
        assert_eq!(response.sources, sources);
        assert_eq!(response.confidence, confidence);
        assert_eq!(response.detected_language, "en");
    }
}

#[test]
fn credential_failure_is_a_server_error() {
    let failure = generation_failure();
    assert_eq!(failure.status, 500);
    assert_eq!(failure.body.error, "Failed to generate response");
}
