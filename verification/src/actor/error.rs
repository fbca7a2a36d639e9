//! What a browser command produces, and how it fails.
use vstd::prelude::*;

use crate::text::{decimal, push_decimal, push_str};

verus! {

/// How many commands may wait behind the one that runs.
pub const COMMAND_QUEUE_CAPACITY: usize = 64;

/// The output of a successful browser command.
#[derive(Debug, PartialEq, Eq)]
pub enum BrowserOutput {
    Text(String),
    Png(Vec<u8>),
}

/// Why a browser command did not produce an output.
#[derive(Debug, PartialEq, Eq)]
pub enum BrowserError {
    /// The command queue was full.
    Busy,
    /// The command was cancelled.
    Cancelled,
    /// The command's deadline passed; carries the timeout in milliseconds.
    Timeout(u64),
    /// The actor has shut down.
    Stopped,
    Message(String),
}

/// The mathematical form of a [`BrowserError`].
pub enum ErrorView {
    Busy,
    Cancelled,
    Timeout(u64),
    Stopped,
    Message(Seq<char>),
}

impl View for BrowserError {
    type V = ErrorView;

    open spec fn view(&self) -> ErrorView {
        match self {
            BrowserError::Busy => ErrorView::Busy,
            BrowserError::Cancelled => ErrorView::Cancelled,
            BrowserError::Timeout(ms) => ErrorView::Timeout(*ms),
            BrowserError::Stopped => ErrorView::Stopped,
            BrowserError::Message(m) => ErrorView::Message(m@),
        }
    }
}

/// The text of an error, as the server reports it to the client.
pub open spec fn error_text(e: ErrorView) -> Seq<char> {
    match e {
        ErrorView::Busy => "browser actor is busy (queue capacity "@ + decimal(
            COMMAND_QUEUE_CAPACITY as nat,
        ) + ")"@,
        ErrorView::Cancelled => "browser command cancelled"@,
        ErrorView::Timeout(ms) => "browser command timed out after "@ + decimal(ms as nat)
            + " ms"@,
        ErrorView::Stopped => "browser actor stopped"@,
        ErrorView::Message(m) => m,
    }
}

pub fn owned(s: &str) -> (r: String)
    ensures
        r@ == s@,
{
    s.to_owned()
}

impl BrowserError {
    /// The text of this error.
    pub fn message(&self) -> (s: String)
        ensures
            s@ == error_text(self@),
    {
        match self {
            BrowserError::Busy => {
                let mut s = owned("browser actor is busy (queue capacity ");
                push_decimal(&mut s, COMMAND_QUEUE_CAPACITY as u64);
                push_str(&mut s, ")");
                s
            },
            BrowserError::Cancelled => owned("browser command cancelled"),
            BrowserError::Timeout(ms) => {
                let mut s = owned("browser command timed out after ");
                push_decimal(&mut s, *ms);
                push_str(&mut s, " ms");
                s
            },
            BrowserError::Stopped => owned("browser actor stopped"),
            BrowserError::Message(m) => m.clone(),
        }
    }

    /// A copy of this error.
    pub fn duplicate(&self) -> (e: BrowserError)
        ensures
            e@ == self@,
    {
        match self {
            BrowserError::Busy => BrowserError::Busy,
            BrowserError::Cancelled => BrowserError::Cancelled,
            BrowserError::Timeout(ms) => BrowserError::Timeout(*ms),
            BrowserError::Stopped => BrowserError::Stopped,
            BrowserError::Message(m) => BrowserError::Message(m.clone()),
        }
    }
}

/// Whether `output` is the text `text`.
pub fn output_is_text(output: &BrowserOutput, text: &String) -> (r: bool)
    ensures
        r == (match output {
            BrowserOutput::Text(t) => t@ == text@,
            BrowserOutput::Png(_) => false,
        }),
{
    match output {
        BrowserOutput::Text(t) => *t == *text,
        BrowserOutput::Png(_) => false,
    }
}

} // verus!
