//! A farming assistant that answers questions from a small corpus of
//! advisory documents and a remote text-generation service.
//!
//! The crate holds everything that is decided on the way from a question to
//! an answer: language detection, keyword retrieval, prompt assembly, the
//! submit-and-poll life of a generation job with its local fallbacks, and
//! the confidence attached to an answer. It performs no input or output of
//! its own: the caller sends what is planned here and hands back what came of
//! it.

pub mod chat;
pub mod fallback;
pub mod generation;
pub mod json;
pub mod knowledge_base;
pub mod language;
pub mod prompt;
pub mod reply;
pub mod request;
pub mod retriever;
pub mod score;
pub mod text;
pub mod token;
pub mod translate;
pub mod translator;
