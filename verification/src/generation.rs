//! The life of one generation job: submit, poll until it settles or time
//! runs out, and always end with a text to show.
//!
//! Nothing here talks to the network. The caller performs each `Action` and
//! hands the outcome back as an `Exchange`; the job decides what follows.
//! A job never fails: when the provider cannot help, the answer is composed
//! locally.

use crate::fallback::{fallback_text, get_fallback_response, get_timeout_message, timeout_line};
use crate::language::Language;
use crate::reply::{decode_reply, decoded, opt_text, ProviderReply, ProviderReplyView, ReplyStatus};
use crate::text::{trim, trimmed};
use vstd::prelude::*;

verus! {

/// The number of polls after which a job is given up.
pub const MAX_POLLS: u32 = 90;

/// The pause before each poll, in seconds.
pub const POLL_INTERVAL_SECS: u64 = 1;

/// Where a job stands.
#[derive(Clone, Copy, Debug, PartialEq, Eq, Structural)]
pub enum JobStatus {
    /// Created, not yet sent.
    Submitted,
    /// Accepted by the provider and being polled.
    Processing,
    Succeeded,
    Failed,
    Canceled,
    TimedOut,
}

/// What came of one request to the provider.
#[derive(Clone, Debug)]
pub enum Exchange {
    /// The request did not get through.
    Unreachable,
    /// The provider answered with a status code outside 200..=299.
    Refused { code: u16 },
    /// The provider answered with a success code and this body.
    Answered { reply: ProviderReply },
}

/// The mathematical value of an `Exchange`.
pub enum ExchangeView {
    Unreachable,
    Refused { code: u16 },
    Answered { reply: ProviderReplyView },
}

impl View for Exchange {
    type V = ExchangeView;

    open spec fn view(&self) -> ExchangeView {
        match self {
            Exchange::Unreachable => ExchangeView::Unreachable,
            Exchange::Refused { code } => ExchangeView::Refused { code: *code },
            Exchange::Answered { reply } => ExchangeView::Answered { reply: reply@ },
        }
    }
}

/// The mathematical value of a `GenerationJob`.
pub struct JobView {
    pub query: Seq<char>,
    pub context: Seq<char>,
    pub target_lang: Seq<char>,
    pub status: JobStatus,
    pub poll_url: Option<Seq<char>>,
    pub polls: nat,
    pub answer: Option<Seq<char>>,
}

impl JobView {
    /// The language the answer is wanted in.
    pub open spec fn language(self) -> Language {
        Language::of_code(self.target_lang)
    }

    /// A job has settled when it reached one of the four final states.
    pub open spec fn is_terminal(self) -> bool {
        self.status != JobStatus::Submitted && self.status != JobStatus::Processing
    }

    /// What holds of every job: one that is still open has no answer, one
    /// that is being polled knows where to poll and has polls left, and one
    /// that has settled has its answer.
    pub open spec fn well_formed(self) -> bool {
        match self.status {
            JobStatus::Submitted => self.answer is None && self.poll_url is None && self.polls == 0,
            JobStatus::Processing => self.answer is None && self.poll_url is Some && self.polls
                < MAX_POLLS,
            _ => self.answer is Some && self.polls <= MAX_POLLS,
        }
    }

    /// The job settled in `status` with `answer`.
    pub open spec fn settled(self, status: JobStatus, answer: Seq<char>) -> JobView {
        JobView { status, answer: Some(answer), ..self }
    }

    /// The job settled with the locally composed answer.
    pub open spec fn fallen_back(self, status: JobStatus) -> JobView {
        self.settled(status, fallback_text(self.query, self.context, self.language()))
    }
}

/// The job that a query starts.
pub open spec fn new_job(query: Seq<char>, context: Seq<char>, target_lang: Seq<char>) -> JobView {
    JobView {
        query,
        context,
        target_lang,
        status: JobStatus::Submitted,
        poll_url: None,
        polls: 0,
        answer: None,
    }
}

/// The job after the outcome of its submission. A reported success settles
/// it with the trimmed output; a job in progress with a poll URL goes on to
/// polling; everything else settles it with the local answer. A job that is
/// not waiting for its submission stays as it is.
pub open spec fn after_submit(job: JobView, exchange: ExchangeView) -> JobView {
    if job.status != JobStatus::Submitted {
        job
    } else {
        match exchange {
            ExchangeView::Answered { reply } => match reply.status {
                ReplyStatus::Succeeded => match reply.output {
                    Some(output) => job.settled(JobStatus::Succeeded, trimmed(output)),
                    None => job.fallen_back(JobStatus::Succeeded),
                },
                ReplyStatus::Processing | ReplyStatus::Starting => match reply.poll_url {
                    Some(url) => JobView {
                        status: JobStatus::Processing,
                        poll_url: Some(url),
                        ..job
                    },
                    None => job.fallen_back(JobStatus::Failed),
                },
                ReplyStatus::Canceled => job.fallen_back(JobStatus::Canceled),
                _ => job.fallen_back(JobStatus::Failed),
            },
            _ => job.fallen_back(JobStatus::Failed),
        }
    }
}

/// The job after a poll that brought no final news: it waits on, unless
/// that was the last poll allowed.
pub open spec fn after_idle_poll(job: JobView) -> JobView {
    if job.polls + 1 >= MAX_POLLS {
        JobView { polls: job.polls + 1, ..job }.settled(
            JobStatus::TimedOut,
            timeout_line(job.language()),
        )
    } else {
        JobView { polls: job.polls + 1, ..job }
    }
}

/// Whether a poll outcome is final news: a reply that reports success,
/// failure or cancellation.
pub open spec fn is_final_news(exchange: ExchangeView) -> bool {
    match exchange {
        ExchangeView::Answered { reply } => reply.status == ReplyStatus::Succeeded || reply.status
            == ReplyStatus::Failed || reply.status == ReplyStatus::Canceled,
        _ => false,
    }
}

/// The job after the outcome of one poll. Success settles it with the
/// trimmed output. Success without output, failure and cancellation settle
/// it with the locally composed answer. Anything else, a failed request
/// included, counts as a poll without news. A job that is not being polled
/// stays as it is.
pub open spec fn after_poll(job: JobView, exchange: ExchangeView) -> JobView {
    if job.status != JobStatus::Processing {
        job
    } else {
        let polled = JobView { polls: job.polls + 1, ..job };
        match exchange {
            ExchangeView::Answered { reply } => match reply.status {
                ReplyStatus::Succeeded => match reply.output {
                    Some(output) => polled.settled(JobStatus::Succeeded, trimmed(output)),
                    None => polled.fallen_back(JobStatus::Succeeded),
                },
                ReplyStatus::Failed => polled.fallen_back(JobStatus::Failed),
                ReplyStatus::Canceled => polled.fallen_back(JobStatus::Canceled),
                _ => after_idle_poll(job),
            },
            _ => after_idle_poll(job),
        }
    }
}

/// The job after a series of poll outcomes, taken in order. Outcomes that
/// arrive after the job has settled change nothing.
pub open spec fn after_polls(job: JobView, exchanges: Seq<ExchangeView>) -> JobView
    decreases exchanges.len(),
{
    if exchanges.len() == 0 {
        job
    } else {
        after_polls(after_poll(job, exchanges.first()), exchanges.drop_first())
    }
}

/// What a response with a status code and a body amounts to.
pub open spec fn exchange_of(code: u16, body: Seq<char>) -> ExchangeView {
    if 200 <= code && code <= 299 {
        ExchangeView::Answered { reply: decoded(body) }
    } else {
        ExchangeView::Refused { code }
    }
}

/// Classifies a response of the provider by its status code and decodes the
/// body of a successful one.
pub fn read_exchange(code: u16, body: &str) -> (exchange: Exchange)
    ensures
        exchange@ == exchange_of(code, body@),
{
    if 200 <= code && code <= 299 {
        Exchange::Answered { reply: decode_reply(body) }
    } else {
        Exchange::Refused { code }
    }
}

/// What the caller has to do next for a job.
#[derive(Clone, Debug)]
pub enum Action {
    /// Send the generation request.
    Submit,
    /// Wait `delay_secs` seconds, then ask `url` for the job's state.
    PollAfter { url: String, delay_secs: u64 },
    /// Hand `answer` to the user; the job is over.
    Deliver { answer: String },
}

/// One generation job. Its fields are private so that every job in
/// existence is well formed.
#[derive(Debug)]
pub struct GenerationJob {
    query: String,
    context: String,
    target_lang: String,
    status: JobStatus,
    poll_url: Option<String>,
    polls: u32,
    answer: Option<String>,
}

impl View for GenerationJob {
    type V = JobView;

    closed spec fn view(&self) -> JobView {
        JobView {
            query: self.query@,
            context: self.context@,
            target_lang: self.target_lang@,
            status: self.status,
            poll_url: opt_text(self.poll_url),
            polls: self.polls as nat,
            answer: opt_text(self.answer),
        }
    }
}

impl GenerationJob {
    #[verifier::type_invariant]
    spec fn valid(&self) -> bool {
        self@.well_formed()
    }

    /// Starts a job for a query, the context retrieved for it and the code of
    /// the language the answer is wanted in.
    pub fn new(query: &str, context: &str, target_lang: &str) -> (job: GenerationJob)
        ensures
            job@ == new_job(query@, context@, target_lang@),
            job@.well_formed(),
    {
        GenerationJob {
            query: String::from_str(query),
            context: String::from_str(context),
            target_lang: String::from_str(target_lang),
            status: JobStatus::Submitted,
            poll_url: None,
            polls: 0,
            answer: None,
        }
    }

    pub fn status(&self) -> (status: JobStatus)
        ensures
            status == self@.status,
            self@.well_formed(),
    {
        proof {
            use_type_invariant(self);
        }
        self.status
    }

    /// The number of polls made so far.
    pub fn polls(&self) -> (polls: u32)
        ensures
            polls == self@.polls,
            polls <= MAX_POLLS,
    {
        proof {
            use_type_invariant(self);
        }
        self.polls
    }

    /// The answer, once the job has settled.
    pub fn answer(&self) -> (answer: Option<&String>)
        ensures
            answer is Some <==> self@.is_terminal(),
            match answer {
                Some(text) => self@.answer == Some(text@),
                None => self@.answer is None,
            },
    {
        proof {
            use_type_invariant(self);
        }
        self.answer.as_ref()
    }

    fn settle(self, status: JobStatus, polls: u32, answer: String) -> (job: GenerationJob)
        requires
            status != JobStatus::Submitted,
            status != JobStatus::Processing,
            polls <= MAX_POLLS,
        ensures
            job@ == (JobView { polls: polls as nat, ..self@ }).settled(status, answer@),
    {
        GenerationJob {
            query: self.query,
            context: self.context,
            target_lang: self.target_lang,
            status,
            poll_url: self.poll_url,
            polls,
            answer: Some(answer),
        }
    }

    fn fall_back(self, status: JobStatus, polls: u32) -> (job: GenerationJob)
        requires
            status != JobStatus::Submitted,
            status != JobStatus::Processing,
            polls <= MAX_POLLS,
        ensures
            job@ == (JobView { polls: polls as nat, ..self@ }).fallen_back(status),
    {
        let answer = get_fallback_response(
            self.query.as_str(),
            self.context.as_str(),
            self.target_lang.as_str(),
        );
        self.settle(status, polls, answer)
    }

    /// Takes in the outcome of the submission.
    pub fn on_submit(self, exchange: Exchange) -> (job: GenerationJob)
        ensures
            job@ == after_submit(self@, exchange@),
    {
        proof {
            use_type_invariant(&self);
        }
        if !matches!(self.status, JobStatus::Submitted) {
            return self;
        }
        match exchange {
            Exchange::Answered { reply } => match reply.status {
                ReplyStatus::Succeeded => match reply.output {
                    Some(output) => {
                        let answer = trim(output.as_str());
                        self.settle(JobStatus::Succeeded, 0, answer)
                    },
                    None => self.fall_back(JobStatus::Succeeded, 0),
                },
                ReplyStatus::Processing | ReplyStatus::Starting => match reply.poll_url {
                    Some(url) => GenerationJob {
                        query: self.query,
                        context: self.context,
                        target_lang: self.target_lang,
                        status: JobStatus::Processing,
                        poll_url: Some(url),
                        polls: 0,
                        answer: None,
                    },
                    None => self.fall_back(JobStatus::Failed, 0),
                },
                ReplyStatus::Canceled => self.fall_back(JobStatus::Canceled, 0),
                _ => self.fall_back(JobStatus::Failed, 0),
            },
            _ => self.fall_back(JobStatus::Failed, 0),
        }
    }

    fn idle_poll(self) -> (job: GenerationJob)
        requires
            self@.status == JobStatus::Processing,
        ensures
            job@ == after_idle_poll(self@),
    {
        proof {
            use_type_invariant(&self);
        }
        let polls = self.polls + 1;
        if polls >= MAX_POLLS {
            let answer = get_timeout_message(self.target_lang.as_str());
            self.settle(JobStatus::TimedOut, polls, answer)
        } else {
            GenerationJob {
                query: self.query,
                context: self.context,
                target_lang: self.target_lang,
                status: JobStatus::Processing,
                poll_url: self.poll_url,
                polls,
                answer: None,
            }
        }
    }

    /// Takes in the outcome of one poll.
    pub fn on_poll(self, exchange: Exchange) -> (job: GenerationJob)
        ensures
            job@ == after_poll(self@, exchange@),
    {
        proof {
            use_type_invariant(&self);
        }
        if !matches!(self.status, JobStatus::Processing) {
            return self;
        }
        let polls = self.polls + 1;
        match exchange {
            Exchange::Answered { reply } => match reply.status {
                ReplyStatus::Succeeded => match reply.output {
                    Some(output) => {
                        let answer = trim(output.as_str());
                        self.settle(JobStatus::Succeeded, polls, answer)
                    },
                    None => self.fall_back(JobStatus::Succeeded, polls),
                },
                ReplyStatus::Failed => self.fall_back(JobStatus::Failed, polls),
                ReplyStatus::Canceled => self.fall_back(JobStatus::Canceled, polls),
                _ => self.idle_poll(),
            },
            _ => self.idle_poll(),
        }
    }

    /// What to do next: submit a new job, poll one in progress after the
    /// pause, deliver the answer of one that has settled.
    pub fn next_action(&self) -> (action: Action)
        ensures
            match action {
                Action::Submit => self@.status == JobStatus::Submitted,
                Action::PollAfter { url, delay_secs } => self@.status == JobStatus::Processing
                    && self@.poll_url == Some(url@) && delay_secs == POLL_INTERVAL_SECS,
                Action::Deliver { answer } => self@.is_terminal() && self@.answer == Some(
                    answer@,
                ),
            },
    {
        proof {
            use_type_invariant(self);
        }
        match self.status {
            JobStatus::Submitted => Action::Submit,
            JobStatus::Processing => match &self.poll_url {
                Some(url) => Action::PollAfter { url: url.clone(), delay_secs: POLL_INTERVAL_SECS },
                None => unreached(),
            },
            _ => match &self.answer {
                Some(answer) => Action::Deliver { answer: answer.clone() },
                None => unreached(),
            },
        }
    }
}

/// Submission and polling keep a job well formed.
pub proof fn lemma_steps_keep_well_formed(job: JobView, exchange: ExchangeView)
    requires
        job.well_formed(),
    ensures
        after_submit(job, exchange).well_formed(),
        after_poll(job, exchange).well_formed(),
{
}

/// A settled job stays as it is, whatever arrives for it.
pub proof fn lemma_settled_job_is_final(job: JobView, exchanges: Seq<ExchangeView>)
    requires
        job.is_terminal(),
    ensures
        after_polls(job, exchanges) == job,
    decreases exchanges.len(),
{
    if exchanges.len() > 0 {
        lemma_settled_job_is_final(job, exchanges.drop_first());
    }
}

/// Polling ends. A job that is being polled has settled once as many
/// outcomes have come in as it had polls left, whatever they were; no job
/// is ever polled more than `MAX_POLLS` times.
pub proof fn lemma_polling_is_bounded(job: JobView, exchanges: Seq<ExchangeView>)
    requires
        job.well_formed(),
        job.status == JobStatus::Processing,
        exchanges.len() >= MAX_POLLS - job.polls,
    ensures
        after_polls(job, exchanges).is_terminal(),
        after_polls(job, exchanges).polls <= MAX_POLLS,
    decreases exchanges.len(),
{
    let next = after_poll(job, exchanges.first());
    lemma_steps_keep_well_formed(job, exchanges.first());
    if next.is_terminal() {
        lemma_settled_job_is_final(next, exchanges.drop_first());
    } else {
        lemma_polling_is_bounded(next, exchanges.drop_first());
    }
}

/// A provider that never brings final news is given up with the timeout
/// message after exactly `MAX_POLLS` polls.
pub proof fn lemma_silent_provider_times_out(job: JobView, exchanges: Seq<ExchangeView>)
    requires
        job.well_formed(),
        job.status == JobStatus::Processing,
        exchanges.len() >= MAX_POLLS - job.polls,
        forall|i: int| 0 <= i < exchanges.len() ==> !is_final_news(#[trigger] exchanges[i]),
    ensures
        after_polls(job, exchanges).status == JobStatus::TimedOut,
        after_polls(job, exchanges).answer == Some(timeout_line(job.language())),
        after_polls(job, exchanges).polls == MAX_POLLS,
    decreases exchanges.len(),
{
    let first = exchanges.first();
    let rest = exchanges.drop_first();
    assert(!is_final_news(exchanges[0]));
    let next = after_poll(job, first);
    assert(next == after_idle_poll(job));
    if next.is_terminal() {
        lemma_settled_job_is_final(next, rest);
    } else {
        assert forall|i: int| 0 <= i < rest.len() implies !is_final_news(#[trigger] rest[i]) by {
            assert(rest[i] == exchanges[i + 1]);
        }
        lemma_silent_provider_times_out(next, rest);
    }
}

/// A job whose poll reports failure, cancellation or success without
/// output has settled, and its answer is the locally composed one.
pub proof fn lemma_polled_failure_falls_back(job: JobView, reply: ProviderReplyView)
    requires
        job.status == JobStatus::Processing,
        reply.status == ReplyStatus::Failed || reply.status == ReplyStatus::Canceled || (
        reply.status == ReplyStatus::Succeeded && reply.output is None),
    ensures
        after_poll(job, ExchangeView::Answered { reply }).is_terminal(),
        after_poll(job, ExchangeView::Answered { reply }).answer == Some(
            fallback_text(job.query, job.context, job.language()),
        ),
{
}

} // verus!
