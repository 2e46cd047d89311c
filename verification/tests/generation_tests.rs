use kisan_ai::fallback::{get_fallback_response, get_greeting, get_timeout_message};
use kisan_ai::generation::{
    read_exchange, Action, Exchange, GenerationJob, JobStatus, MAX_POLLS, POLL_INTERVAL_SECS,
};
use kisan_ai::reply::{ProviderReply, ReplyStatus};

fn reply(status: ReplyStatus, output: Option<&str>, poll_url: Option<&str>) -> Exchange {
    Exchange::Answered {
        reply: ProviderReply {
            status,
            output: output.map(String::from),
            poll_url: poll_url.map(String::from),
            error: None,
        },
    }
}

fn answer_of(job: &GenerationJob) -> String {
    match job.next_action() {
        Action::Deliver { answer } => answer,
        other => panic!("job has not settled: {other:?}"),
    }
}

fn polling_job(query: &str, context: &str, lang: &str) -> GenerationJob {
    GenerationJob::new(query, context, lang)
        .on_submit(reply(ReplyStatus::Processing, None, Some("https://example.test/p/1")))
}

#[test]
fn new_job_asks_to_be_submitted() {
    let job = GenerationJob::new("rice?", "ctx", "en");
    assert_eq!(job.status(), JobStatus::Submitted);
    assert_eq!(job.polls(), 0);
    assert_eq!(job.answer(), None);
    assert!(matches!(job.next_action(), Action::Submit));
}

#[test]
fn immediate_success_returns_trimmed_output() {
    let job = GenerationJob::new("rice?", "ctx", "en")
        .on_submit(reply(ReplyStatus::Succeeded, Some("  Sow in June.\n"), None));
    assert_eq!(job.status(), JobStatus::Succeeded);
    assert_eq!(answer_of(&job), "Sow in June.");
    assert_eq!(job.answer(), Some(&String::from("Sow in June.")));
}

#[test]
fn immediate_success_without_output_falls_back() {
    let job = GenerationJob::new("rice?", "ctx", "hi").on_submit(reply(ReplyStatus::Succeeded, None, None));
    assert_eq!(job.status(), JobStatus::Succeeded);
    assert_eq!(answer_of(&job), get_fallback_response("rice?", "ctx", "hi"));
}

#[test]
fn immediate_failure_falls_back() {
    for (status, settled) in [
        (ReplyStatus::Failed, JobStatus::Failed),
        (ReplyStatus::Canceled, JobStatus::Canceled),
        (ReplyStatus::Unknown, JobStatus::Failed),
    ] {
        let job = GenerationJob::new("rice?", "ctx", "en").on_submit(reply(status, Some("ignored"), Some("https://x")));
        assert_eq!(job.status(), settled);
        assert_eq!(answer_of(&job), get_fallback_response("rice?", "ctx", "en"));
    }
}

#[test]
fn transport_failure_on_submission_falls_back() {
    for exchange in [Exchange::Unreachable, Exchange::Refused { code: 503 }, Exchange::Refused { code: 401 }] {
        let job = GenerationJob::new("rice?", "", "mr").on_submit(exchange);
        assert_eq!(job.status(), JobStatus::Failed);
        assert_eq!(answer_of(&job), get_fallback_response("rice?", "", "mr"));
    }
}

#[test]
fn job_in_progress_without_poll_url_falls_back() {
    for status in [ReplyStatus::Processing, ReplyStatus::Starting] {
        let job = GenerationJob::new("rice?", "ctx", "en").on_submit(reply(status, None, None));
        assert_eq!(job.status(), JobStatus::Failed);
        assert_eq!(answer_of(&job), get_fallback_response("rice?", "ctx", "en"));
    }
}

#[test]
fn job_in_progress_is_polled_after_one_second() {
    for status in [ReplyStatus::Processing, ReplyStatus::Starting] {
        let job = GenerationJob::new("rice?", "ctx", "en").on_submit(reply(status, None, Some("https://example.test/p/1")));
        assert_eq!(job.status(), JobStatus::Processing);
        assert_eq!(job.polls(), 0);
        assert_eq!(job.answer(), None);
        match job.next_action() {
            Action::PollAfter { url, delay_secs } => {
                assert_eq!(url, "https://example.test/p/1");
                assert_eq!(delay_secs, 1);
                assert_eq!(delay_secs, POLL_INTERVAL_SECS);
            }
            other => panic!("expected a poll, got {other:?}"),
        }
    }
}

#[test]
fn poll_success_returns_trimmed_output() {
    let job = polling_job("rice?", "ctx", "en")
        .on_poll(reply(ReplyStatus::Processing, None, None))
        .on_poll(reply(ReplyStatus::Succeeded, Some("\n Sow in June. "), None));
    assert_eq!(job.status(), JobStatus::Succeeded);
    assert_eq!(job.polls(), 2);
    assert_eq!(answer_of(&job), "Sow in June.");
}

#[test]
fn poll_success_without_output_falls_back() {
    let job = polling_job("rice?", "ctx", "en").on_poll(reply(ReplyStatus::Succeeded, None, None));
    assert_eq!(job.status(), JobStatus::Succeeded);
    assert_eq!(job.polls(), 1);
    assert_eq!(answer_of(&job), get_fallback_response("rice?", "ctx", "en"));
    let job = polling_job("rice?", "", "mr").on_poll(reply(ReplyStatus::Succeeded, None, None));
    assert_eq!(answer_of(&job), get_fallback_response("rice?", "", "mr"));
    let job = polling_job(" Hello ", "ctx", "hi").on_poll(reply(ReplyStatus::Succeeded, None, None));
    assert_eq!(answer_of(&job), get_greeting("hi"));
}

#[test]
fn poll_failure_falls_back() {
    for (status, settled) in [(ReplyStatus::Failed, JobStatus::Failed), (ReplyStatus::Canceled, JobStatus::Canceled)] {
        let job = polling_job("rice?", "[Rice] Sow in June.", "mr").on_poll(reply(status, None, None));
        assert_eq!(job.status(), settled);
        assert_eq!(job.polls(), 1);
        assert_eq!(answer_of(&job), get_fallback_response("rice?", "[Rice] Sow in June.", "mr"));
        assert!(answer_of(&job).contains("[Rice] Sow in June."));
        assert_ne!(answer_of(&job), get_timeout_message("mr"));
        let job = polling_job("namaste", "ctx", "en").on_poll(reply(status, Some("ignored"), None));
        assert_eq!(answer_of(&job), get_greeting("en"));
    }
}

#[test]
fn poll_failure_after_many_polls_falls_back() {
    let mut job = polling_job("rice?", "", "en");
    for _ in 0..89 {
        job = job.on_poll(Exchange::Unreachable);
    }
    job = job.on_poll(reply(ReplyStatus::Failed, None, None));
    assert_eq!(job.status(), JobStatus::Failed);
    assert_eq!(job.polls(), 90);
    assert_eq!(answer_of(&job), get_fallback_response("rice?", "", "en"));
}

#[test]
fn failed_polls_do_not_end_the_job() {
    let mut job = polling_job("rice?", "ctx", "en");
    for exchange in [Exchange::Unreachable, Exchange::Refused { code: 500 }, reply(ReplyStatus::Unknown, Some("x"), None)] {
        job = job.on_poll(exchange);
        assert_eq!(job.status(), JobStatus::Processing);
    }
    assert_eq!(job.polls(), 3);
    assert!(matches!(job.next_action(), Action::PollAfter { .. }));
}

#[test]
fn polling_stops_after_ninety_polls() {
    assert_eq!(MAX_POLLS, 90);
    let mut job = polling_job("rice?", "ctx", "en");
    let mut polls = 0;
    while let Action::PollAfter { .. } = job.next_action() {
        job = job.on_poll(if polls % 2 == 0 { reply(ReplyStatus::Processing, None, None) } else { Exchange::Unreachable });
        polls += 1;
        assert!(polls <= 90);
    }
    assert_eq!(polls, 90);
    assert_eq!(job.polls(), 90);
    assert_eq!(job.status(), JobStatus::TimedOut);
    assert_eq!(answer_of(&job), "I apologize, but the response is taking too long. Please try again.");
    assert_eq!(answer_of(&job), get_timeout_message("en"));
}

#[test]
fn the_ninetieth_poll_may_still_succeed() {
    let mut job = polling_job("rice?", "ctx", "en");
    for _ in 0..89 {
        job = job.on_poll(reply(ReplyStatus::Starting, None, None));
    }
    assert_eq!(job.status(), JobStatus::Processing);
    job = job.on_poll(reply(ReplyStatus::Succeeded, Some("late"), None));
    assert_eq!(job.status(), JobStatus::Succeeded);
    assert_eq!(answer_of(&job), "late");
}

#[test]
fn a_settled_job_takes_nothing_in() {
    let job = GenerationJob::new("rice?", "ctx", "en").on_submit(reply(ReplyStatus::Succeeded, Some("done"), None));
    let job = job.on_poll(reply(ReplyStatus::Succeeded, Some("other"), None));
    let job = job.on_submit(reply(ReplyStatus::Succeeded, Some("third"), None));
    assert_eq!(answer_of(&job), "done");
    assert_eq!(job.polls(), 0);
}

#[test]
fn a_new_job_is_not_polled() {
    let job = GenerationJob::new("rice?", "ctx", "en").on_poll(reply(ReplyStatus::Succeeded, Some("x"), None));
    assert_eq!(job.status(), JobStatus::Submitted);
    assert!(matches!(job.next_action(), Action::Submit));
}

#[test]
fn responses_are_classified_by_status_code() {
    match read_exchange(201, r#"{"status":"processing","urls":{"get":"https://example.test/p/1"}}"#) {
        Exchange::Answered { reply } => {
            assert_eq!(reply.status, ReplyStatus::Processing);
            assert_eq!(reply.poll_url.as_deref(), Some("https://example.test/p/1"));
        }
        other => panic!("{other:?}"),
    }
    assert!(matches!(read_exchange(200, "oops"), Exchange::Answered { reply } if reply.status == ReplyStatus::Unknown));
    assert!(matches!(read_exchange(299, "{}"), Exchange::Answered { .. }));
    for code in [199, 300, 404, 500, 0] {
        assert!(matches!(read_exchange(code, r#"{"status":"succeeded"}"#), Exchange::Refused { code: got } if got == code));
    }
}

#[test]
fn a_whole_exchange_from_bodies() {
    let job = GenerationJob::new("rice?", "ctx", "en")
        .on_submit(read_exchange(201, r#"{"status":"starting","urls":{"get":"https://example.test/p/9"}}"#))
        .on_poll(read_exchange(200, r#"{"status":"processing"}"#))
        .on_poll(read_exchange(502, "bad gateway"))
        .on_poll(read_exchange(200, r#"{"status":"succeeded","output":["Sow ","in June. "]}"#));
    assert_eq!(job.status(), JobStatus::Succeeded);
    assert_eq!(job.polls(), 3);
    assert_eq!(answer_of(&job), "Sow in June.");
}
