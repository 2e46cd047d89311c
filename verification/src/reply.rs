//! What the generation provider answers, decoded once at the boundary.
//!
//! A response body is a JSON object with a `status`, an optional `output`
//! (one string, or an array of fragments to join in order), an optional poll
//! URL under `urls.get` and an optional `error`. Everything the rest of the
//! crate reads of it is held in `ProviderReply`.

use crate::json::{
    get_text, items_of, json_document, json_items, json_member, json_text, member, parse_document,
    text_member, text_of,
};
use crate::text::same_text;
use serde_json::Value;
use vstd::prelude::*;
use vstd::string::StringExecFns;

verus! {

pub const STATUS_STARTING: &'static str = "starting";

pub const STATUS_PROCESSING: &'static str = "processing";

pub const STATUS_SUCCEEDED: &'static str = "succeeded";

pub const STATUS_FAILED: &'static str = "failed";

pub const STATUS_CANCELED: &'static str = "canceled";

pub const KEY_STATUS: &'static str = "status";

pub const KEY_OUTPUT: &'static str = "output";

pub const KEY_URLS: &'static str = "urls";

pub const KEY_GET: &'static str = "get";

pub const KEY_ERROR: &'static str = "error";

/// The state of a job as the provider reports it.
#[derive(Clone, Copy, Debug, PartialEq, Eq, Structural)]
pub enum ReplyStatus {
    Starting,
    Processing,
    Succeeded,
    Failed,
    Canceled,
    /// No status was given, or none that is known.
    Unknown,
}

/// A decoded response of the provider.
#[derive(Clone, Debug)]
pub struct ProviderReply {
    pub status: ReplyStatus,
    /// The generated text, fragments already joined.
    pub output: Option<String>,
    /// Where to ask for the job's state again.
    pub poll_url: Option<String>,
    /// The provider's account of a failure.
    pub error: Option<String>,
}

/// The mathematical value of a `ProviderReply`.
pub struct ProviderReplyView {
    pub status: ReplyStatus,
    pub output: Option<Seq<char>>,
    pub poll_url: Option<Seq<char>>,
    pub error: Option<Seq<char>>,
}

/// The value of an optional string.
pub open spec fn opt_text(text: Option<String>) -> Option<Seq<char>> {
    match text {
        Some(held) => Some(held@),
        None => None,
    }
}

impl View for ProviderReply {
    type V = ProviderReplyView;

    open spec fn view(&self) -> ProviderReplyView {
        ProviderReplyView {
            status: self.status,
            output: opt_text(self.output),
            poll_url: opt_text(self.poll_url),
            error: opt_text(self.error),
        }
    }
}

/// The reply that stands for a body that tells nothing.
pub open spec fn silent_reply() -> ProviderReplyView {
    ProviderReplyView { status: ReplyStatus::Unknown, output: None, poll_url: None, error: None }
}

/// The status that a status word stands for.
pub open spec fn status_named(word: Option<Seq<char>>) -> ReplyStatus {
    match word {
        Some(name) => if name == STATUS_SUCCEEDED@ {
            ReplyStatus::Succeeded
        } else if name == STATUS_PROCESSING@ {
            ReplyStatus::Processing
        } else if name == STATUS_STARTING@ {
            ReplyStatus::Starting
        } else if name == STATUS_FAILED@ {
            ReplyStatus::Failed
        } else if name == STATUS_CANCELED@ {
            ReplyStatus::Canceled
        } else {
            ReplyStatus::Unknown
        },
        None => ReplyStatus::Unknown,
    }
}

/// The texts among `items`, joined in order with nothing between them. Items
/// that are not strings are passed over.
pub open spec fn joined_texts(items: Seq<Value>) -> Seq<char>
    decreases items.len(),
{
    if items.len() == 0 {
        Seq::empty()
    } else {
        joined_texts(items.drop_last()) + match json_text(items.last()) {
            Some(text) => text,
            None => Seq::empty(),
        }
    }
}

/// The output a document carries: the joined fragments of an array, the text
/// of a string, and nothing for anything else.
pub open spec fn output_of(document: Value) -> Option<Seq<char>> {
    match json_member(document, KEY_OUTPUT@) {
        Some(output) => match json_items(output) {
            Some(items) => Some(joined_texts(items)),
            None => json_text(output),
        },
        None => None,
    }
}

/// The poll URL a document carries under `urls.get`.
pub open spec fn poll_url_of(document: Value) -> Option<Seq<char>> {
    match json_member(document, KEY_URLS@) {
        Some(urls) => text_member(urls, KEY_GET@),
        None => None,
    }
}

/// What a response body says. A body that is not JSON says nothing.
pub open spec fn decoded(body: Seq<char>) -> ProviderReplyView {
    match json_document(body) {
        Some(document) => ProviderReplyView {
            status: status_named(text_member(document, KEY_STATUS@)),
            output: output_of(document),
            poll_url: poll_url_of(document),
            error: text_member(document, KEY_ERROR@),
        },
        None => silent_reply(),
    }
}

/// Reads a status word.
pub fn parse_status(word: Option<&str>) -> (status: ReplyStatus)
    ensures
        status == status_named(
            match word {
                Some(name) => Some(name@),
                None => None,
            },
        ),
{
    match word {
        Some(name) => {
            if same_text(name, STATUS_SUCCEEDED) {
                ReplyStatus::Succeeded
            } else if same_text(name, STATUS_PROCESSING) {
                ReplyStatus::Processing
            } else if same_text(name, STATUS_STARTING) {
                ReplyStatus::Starting
            } else if same_text(name, STATUS_FAILED) {
                ReplyStatus::Failed
            } else if same_text(name, STATUS_CANCELED) {
                ReplyStatus::Canceled
            } else {
                ReplyStatus::Unknown
            }
        },
        None => ReplyStatus::Unknown,
    }
}

/// Joins the string items of an array.
fn join_texts(items: &Vec<Value>) -> (joined: String)
    ensures
        joined@ == joined_texts(items@),
{
    let mut joined = String::new();
    let mut i: usize = 0;
    while i < items.len()
        invariant
            i <= items@.len(),
            joined@ == joined_texts(items@.take(i as int)),
        decreases items@.len() - i,
    {
        assert(items@.take(i + 1).drop_last() =~= items@.take(i as int));
        match text_of(&items[i]) {
            Some(text) => {
                joined.append(text.as_str());
            },
            None => {
                assert(joined@ + Seq::<char>::empty() =~= joined@);
            },
        }
        i += 1;
    }
    assert(items@.take(items@.len() as int) =~= items@);
    joined
}

fn read_output(document: &Value) -> (output: Option<String>)
    ensures
        opt_text(output) == output_of(*document),
{
    match member(document, KEY_OUTPUT) {
        Some(output) => match items_of(output) {
            Some(items) => Some(join_texts(items)),
            None => text_of(output),
        },
        None => None,
    }
}

fn read_poll_url(document: &Value) -> (url: Option<String>)
    ensures
        opt_text(url) == poll_url_of(*document),
{
    match member(document, KEY_URLS) {
        Some(urls) => get_text(urls, KEY_GET),
        None => None,
    }
}

/// Decodes a response body.
pub fn decode_reply(body: &str) -> (reply: ProviderReply)
    ensures
        reply@ == decoded(body@),
{
    match parse_document(body) {
        Ok(document) => {
            let word = get_text(&document, KEY_STATUS);
            let status = match &word {
                Some(name) => parse_status(Some(name.as_str())),
                None => parse_status(None),
            };
            ProviderReply {
                status,
                output: read_output(&document),
                poll_url: read_poll_url(&document),
                error: get_text(&document, KEY_ERROR),
            }
        },
        Err(_) => ProviderReply {
            status: ReplyStatus::Unknown,
            output: None,
            poll_url: None,
            error: None,
        },
    }
}

} // verus!
