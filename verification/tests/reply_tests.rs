use kisan_ai::reply::{decode_reply, parse_status, ProviderReply, ReplyStatus};

fn decoded(body: &str) -> (ReplyStatus, Option<String>, Option<String>, Option<String>) {
    let ProviderReply { status, output, poll_url, error } = decode_reply(body);
    (status, output, poll_url, error)
}

#[test]
fn status_words() {
    assert_eq!(parse_status(Some("succeeded")), ReplyStatus::Succeeded);
    assert_eq!(parse_status(Some("processing")), ReplyStatus::Processing);
    assert_eq!(parse_status(Some("starting")), ReplyStatus::Starting);
    assert_eq!(parse_status(Some("failed")), ReplyStatus::Failed);
    assert_eq!(parse_status(Some("canceled")), ReplyStatus::Canceled);
    assert_eq!(parse_status(Some("Succeeded")), ReplyStatus::Unknown);
    assert_eq!(parse_status(Some("")), ReplyStatus::Unknown);
    assert_eq!(parse_status(None), ReplyStatus::Unknown);
}

#[test]
fn output_as_one_string() {
    assert_eq!(
        decoded(r#"{"status":"succeeded","output":" Grow rice in June. "}"#),
        (ReplyStatus::Succeeded, Some(String::from(" Grow rice in June. ")), None, None)
    );
}

#[test]
fn output_as_fragments_is_joined_in_order() {
    assert_eq!(
        decoded(r#"{"status":"succeeded","output":["Grow ","rice"," in June."]}"#).1,
        Some(String::from("Grow rice in June."))
    );
    // Fragments that are not strings are passed over.
    assert_eq!(
        decoded(r#"{"status":"succeeded","output":["a",1,null,"b",["c"],{"d":"e"},"f"]}"#).1,
        Some(String::from("abf"))
    );
    assert_eq!(decoded(r#"{"status":"succeeded","output":[]}"#).1, Some(String::new()));
}

#[test]
fn output_of_another_kind_is_absent() {
    for body in [
        r#"{"status":"succeeded"}"#,
        r#"{"status":"succeeded","output":null}"#,
        r#"{"status":"succeeded","output":42}"#,
        r#"{"status":"succeeded","output":{"text":"x"}}"#,
    ] {
        assert_eq!(decoded(body), (ReplyStatus::Succeeded, None, None, None), "{body}");
    }
}

#[test]
fn poll_url_is_read_from_urls_get() {
    assert_eq!(
        decoded(r#"{"status":"processing","urls":{"get":"https://example.test/p/1","cancel":"x"}}"#),
        (ReplyStatus::Processing, None, Some(String::from("https://example.test/p/1")), None)
    );
    assert_eq!(decoded(r#"{"status":"starting","urls":{}}"#), (ReplyStatus::Starting, None, None, None));
    assert_eq!(decoded(r#"{"status":"starting","urls":"https://x"}"#).2, None);
    assert_eq!(decoded(r#"{"status":"starting","urls":{"get":7}}"#).2, None);
    assert_eq!(decoded(r#"{"status":"starting","get":"https://x"}"#).2, None);
}

#[test]
fn error_is_read() {
    assert_eq!(
        decoded(r#"{"status":"failed","error":"out of memory"}"#),
        (ReplyStatus::Failed, None, None, Some(String::from("out of memory")))
    );
    assert_eq!(decoded(r#"{"status":"canceled","error":null}"#), (ReplyStatus::Canceled, None, None, None));
}

#[test]
fn unknown_or_missing_status() {
    assert_eq!(decoded(r#"{"status":"queued","output":"x"}"#).0, ReplyStatus::Unknown);
    assert_eq!(decoded(r#"{"output":"x"}"#), (ReplyStatus::Unknown, Some(String::from("x")), None, None));
    assert_eq!(decoded(r#"{"status":3}"#).0, ReplyStatus::Unknown);
}

#[test]
fn a_body_that_is_not_json_says_nothing() {
    for body in ["", "not json", "{", r#"{"status":"succeeded""#, "<html></html>"] {
        assert_eq!(decoded(body), (ReplyStatus::Unknown, None, None, None), "{body:?}");
    }
}

#[test]
fn a_body_that_is_no_object_says_nothing() {
    for body in ["[]", "\"succeeded\"", "12", "null", r#"["status","succeeded"]"#] {
        assert_eq!(decoded(body), (ReplyStatus::Unknown, None, None, None), "{body:?}");
    }
}

#[test]
fn text_is_decoded_not_copied() {
    assert_eq!(
        decoded(r#"{"status":"succeeded","output":"line\nbreak \"quoted\" क"}"#).1,
        Some(String::from("line\nbreak \"quoted\" क"))
    );
}
