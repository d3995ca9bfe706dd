//! The error type shared by every part of the watchdog.

use vstd::prelude::*;

verus! {

/// `reqwest::Error`, the failure of an HTTP exchange; it is carried through
/// as an opaque value.
#[verifier::external_type_specification]
#[verifier::external_body]
pub struct ExReqwestError(reqwest::Error);

/// Every error the watchdog reports, one variant per source.
#[derive(Debug)]
pub enum SentinelError {
    /// A required environment variable is missing, or a numeric one is not
    /// a number; the text says which.
    Config(String),
    /// Querying a Solana RPC node failed; the text names the node.
    Rpc(String),
    /// An HTTP exchange with the LLM or Telegram service failed.
    Http(reqwest::Error),
    /// The LLM answered without the expected text field.
    Llm(String),
    /// Telegram answered `ok: false`; the text is its description.
    Telegram(String),
}

/// The contents of a [`SentinelError`], with texts as character sequences.
pub enum SentinelErrorView {
    Config(Seq<char>),
    Rpc(Seq<char>),
    Http,
    Llm(Seq<char>),
    Telegram(Seq<char>),
}

impl View for SentinelError {
    type V = SentinelErrorView;

    open spec fn view(&self) -> SentinelErrorView {
        match self {
            SentinelError::Config(s) => SentinelErrorView::Config(s@),
            SentinelError::Rpc(s) => SentinelErrorView::Rpc(s@),
            SentinelError::Http(_) => SentinelErrorView::Http,
            SentinelError::Llm(s) => SentinelErrorView::Llm(s@),
            SentinelError::Telegram(s) => SentinelErrorView::Telegram(s@),
        }
    }
}

/// A result with both sides taken by their views.
pub open spec fn view_result<T: View, E: View>(r: Result<T, E>) -> Result<T::V, E::V> {
    match r {
        Ok(t) => Ok(t@),
        Err(e) => Err(e@),
    }
}

} // verus!
