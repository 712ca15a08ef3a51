//! Diagnostics of failed attempts, and the final word on a search that
//! made several.

use vstd::prelude::*;
use crate::reply::ClassifiedReply;
use crate::text::{join, joined, texts};
use crate::types::{ErrorView, ResolutionError};

verus! {

/// What a failed reply contributes to a diagnostic. A shape mismatch is
/// named by the text that the call site gives for it; a soft rate limit and
/// a transport failure speak for themselves.
pub open spec fn failure_detail<T>(mismatch: Seq<char>, reply: ClassifiedReply<T>) -> Option<
    Seq<char>,
> {
    match reply {
        ClassifiedReply::Success(_) => None,
        ClassifiedReply::ShapeMismatch => Some(mismatch),
        ClassifiedReply::Throttled(d) => Some(d@),
        ClassifiedReply::Governed(_, _) => Some("governed"@),
        ClassifiedReply::TransportFailure(d) => Some(d@),
    }
}

/// The diagnostic of a reply at the call site that `prefix` names; a
/// successful reply has none.
pub open spec fn failure_text<T>(prefix: Seq<char>, mismatch: Seq<char>, reply: ClassifiedReply<T>)
    -> Option<Seq<char>> {
    match failure_detail(mismatch, reply) {
        Some(detail) => Some(prefix + detail),
        None => None,
    }
}

/// Parts a reply into its payload, if it is a success, and its diagnostic
/// at the call site that `prefix` names, if it is not.
pub fn payload_or_diagnostic<T>(prefix: &str, mismatch: &str, reply: ClassifiedReply<T>) -> (out:
    Result<T, String>)
    ensures
        match reply {
            ClassifiedReply::Success(payload) => out == Ok::<T, String>(payload),
            _ => out matches Err(text) && failure_text(prefix@, mismatch@, reply) == Some(text@),
        },
{
    let mut text = String::from_str(prefix);
    match reply {
        ClassifiedReply::Success(payload) => {
            return Ok(payload);
        },
        ClassifiedReply::ShapeMismatch => {
            text.append(mismatch);
        },
        ClassifiedReply::Throttled(d) => {
            text.append(d.as_str());
        },
        ClassifiedReply::Governed(_, _) => {
            text.append("governed");
        },
        ClassifiedReply::TransportFailure(d) => {
            text.append(d.as_str());
        },
    }
    Err(text)
}

/// The error of a search in which every attempt failed with one of
/// `diagnostics`. Without any attempt the message says that there were no
/// usages.
pub open spec fn exhausted(diagnostics: Seq<Seq<char>>) -> ErrorView {
    ErrorView {
        message: if diagnostics.len() == 0 {
            "0 Usages"@
        } else {
            joined(diagnostics, "\n"@)
        },
        attempts: diagnostics.len(),
    }
}

/// Gathers the diagnostics of the attempts that failed.
#[derive(Clone, Debug, PartialEq, Eq)]
pub struct ErrorAggregator {
    pub diagnostics: Vec<String>,
}

impl View for ErrorAggregator {
    type V = Seq<Seq<char>>;

    open spec fn view(&self) -> Seq<Seq<char>> {
        texts(self.diagnostics@)
    }
}

impl ErrorAggregator {
    /// An aggregator without diagnostics.
    pub fn new() -> (out: ErrorAggregator)
        ensures
            out@ == Seq::<Seq<char>>::empty(),
    {
        let out = ErrorAggregator { diagnostics: Vec::new() };
        assert(out@ =~= Seq::<Seq<char>>::empty());
        out
    }

    /// Adds the diagnostic of one more failed attempt.
    pub fn record(&mut self, diagnostic: String)
        ensures
            final(self)@ == old(self)@.push(diagnostic@),
    {
        self.diagnostics.push(diagnostic);
        assert(self@ =~= old(self)@.push(diagnostic@));
    }

    /// How many attempts have failed.
    pub fn attempts(&self) -> (n: usize)
        ensures
            n == self@.len(),
    {
        self.diagnostics.len()
    }

    /// The error that stands for all failed attempts.
    pub fn exhaust(&self) -> (out: ResolutionError)
        ensures
            out@ == exhausted(self@),
    {
        let attempts: usize = self.diagnostics.len();
        let message = if attempts == 0 {
            String::from_str("0 Usages")
        } else {
            join(&self.diagnostics, "\n")
        };
        ResolutionError { message, attempts }
    }

    /// Decides the final value of the search. A name that was found wins
    /// over every diagnostic gathered before it.
    pub fn settle(&self, found: Option<String>) -> (out: Result<String, ResolutionError>)
        ensures
            match found {
                Some(name) => out == Ok::<String, ResolutionError>(name),
                None => out matches Err(e) && e@ == exhausted(self@),
            },
    {
        match found {
            Some(name) => Ok(name),
            None => Err(self.exhaust()),
        }
    }
}

} // verus!
