//! The response model: the continue/block/inject decision unit that both
//! per-rule execution and the aggregator produce and merge.

use vstd::prelude::*;
use vstd::string::*;
use crate::rules::clone_opt_string;

verus! {

/// Performance metrics attached to a final response.
#[derive(Debug, Clone, Copy, PartialEq, Eq, Structural)]
pub struct Timing {
    /// Total processing time in milliseconds.
    pub processing_ms: u64,
    /// Number of rules checked.
    pub rules_evaluated: usize,
}

/// The outcome of evaluating rules against one event.
///
/// `continue_ == false` represents a block; `context` present with
/// `continue_ == true` represents an injection; both absent is a plain allow.
#[derive(Debug)]
pub struct Response {
    /// Whether the operation should proceed.
    pub continue_: bool,
    /// Additional context to inject.
    pub context: Option<String>,
    /// Explanation for blocking or context injection.
    pub reason: Option<String>,
    /// Performance metrics.
    pub timing: Option<Timing>,
}

/// The mathematical model of a `Response`: strings as character sequences.
pub struct ResponseView {
    pub continue_: bool,
    pub context: Option<Seq<char>>,
    pub reason: Option<Seq<char>>,
    pub timing: Option<Timing>,
}

impl View for Response {
    type V = ResponseView;

    open spec fn view(&self) -> ResponseView {
        ResponseView {
            continue_: self.continue_,
            context: match self.context {
                Some(c) => Some(c@),
                None => None,
            },
            reason: match self.reason {
                Some(m) => Some(m@),
                None => None,
            },
            timing: self.timing,
        }
    }
}

impl Clone for Response {
    /// The copy equals the original.
    fn clone(&self) -> (r: Self)
        ensures
            r == *self,
    {
        Response {
            continue_: self.continue_,
            context: clone_opt_string(&self.context),
            reason: clone_opt_string(&self.reason),
            timing: self.timing,
        }
    }
}

/// The model of a plain allow: proceed, nothing injected, no reason.
pub open spec fn allow_view() -> ResponseView {
    ResponseView { continue_: true, context: None, reason: None, timing: None }
}

/// The model of a block with the given reason.
pub open spec fn block_view(reason: Seq<char>) -> ResponseView {
    ResponseView { continue_: false, context: None, reason: Some(reason), timing: None }
}

/// The model of a context injection.
pub open spec fn inject_view(context: Seq<char>) -> ResponseView {
    ResponseView { continue_: true, context: Some(context), reason: None, timing: None }
}

impl Response {
    /// A response allowing the operation.
    pub fn allow() -> (r: Response)
        ensures
            r@ == allow_view(),
    {
        Response { continue_: true, context: None, reason: None, timing: None }
    }

    /// A response blocking the operation, with the reason for the block.
    pub fn block(reason: &str) -> (r: Response)
        ensures
            r@ == block_view(reason@),
    {
        Response { continue_: false, context: None, reason: Some(reason.to_owned()), timing: None }
    }

    /// A response injecting context while allowing the operation.
    pub fn inject(context: &str) -> (r: Response)
        ensures
            r@ == inject_view(context@),
    {
        Response { continue_: true, context: Some(context.to_owned()), reason: None, timing: None }
    }

    /// The same response carrying the given performance metrics.
    pub fn with_timing(self, processing_ms: u64, rules_evaluated: usize) -> (r: Response)
        ensures
            r.continue_ == self.continue_,
            r.context == self.context,
            r.reason == self.reason,
            r.timing == Some(Timing { processing_ms, rules_evaluated }),
    {
        Response {
            continue_: self.continue_,
            context: self.context,
            reason: self.reason,
            timing: Some(Timing { processing_ms, rules_evaluated }),
        }
    }
}

/// Summary of a response, as recorded in the audit log.
#[derive(Debug)]
pub struct ResponseSummary {
    /// Whether the operation was allowed to continue.
    pub continue_: bool,
    /// Explanation for blocking or context injection.
    pub reason: Option<String>,
    /// Length in characters of the injected context, if any.
    pub context_length: Option<usize>,
}

impl Clone for ResponseSummary {
    /// The copy equals the original.
    fn clone(&self) -> (r: Self)
        ensures
            r == *self,
    {
        ResponseSummary {
            continue_: self.continue_,
            reason: clone_opt_string(&self.reason),
            context_length: self.context_length,
        }
    }
}

impl ResponseSummary {
    /// Summarise a response: keep the verdict and the reason, and record the
    /// injected context only by its length.
    pub fn from_response(response: &Response) -> (r: ResponseSummary)
        ensures
            r.continue_ == response.continue_,
            r.reason == response.reason,
            r.context_length is Some <==> response.context is Some,
            response.context matches Some(c) ==> r.context_length == Some(c@.len() as usize),
    {
        let context_length = match &response.context {
            Some(c) => Some(c.as_str().unicode_len()),
            None => None,
        };
        ResponseSummary {
            continue_: response.continue_,
            reason: clone_opt_string(&response.reason),
            context_length,
        }
    }
}

} // verus!
