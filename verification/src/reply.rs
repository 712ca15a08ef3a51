//! Classification of provider replies.
//!
//! A raw reply says how the exchange with the provider went and, where it
//! went through, what payload came back. Classification sorts it into the
//! outcomes that a resolution tells apart; it has no side effects.

use vstd::prelude::*;
use crate::usage::{usage_views, UsageRecord, UsageView};

verus! {

/// The payload of a reply that went through.
#[derive(Clone, Debug, PartialEq, Eq)]
pub enum Payload {
    /// A list of generated names.
    NameList(Vec<String>),
    /// The entries of a name lookup, each with the usages of one name.
    NameDetails(Vec<Vec<UsageRecord>>),
}

/// A provider reply before classification.
#[derive(Clone, Debug, PartialEq, Eq)]
pub enum RawReply {
    /// The provider answered with a payload.
    Allowed(Payload),
    /// The provider answered with an error of its own, such as a rate limit.
    Failed(String),
    /// The local quota held the request back: the quota's scope and a detail.
    Governed(String, String),
    /// The request did not reach the provider, or its answer did not arrive.
    Transport(String),
}

/// A classified reply, with the payload that the call site expects.
#[derive(Clone, Debug, PartialEq, Eq)]
pub enum ClassifiedReply<T> {
    /// Well formed and of the expected shape.
    Success(T),
    /// A payload came back, but not of the expected shape.
    ShapeMismatch,
    /// The provider signalled a soft rate limit.
    Throttled(String),
    /// A hard quota block: its scope and a detail.
    Governed(String, String),
    /// A failure of the network or the transport.
    TransportFailure(String),
}

/// The classification of a raw reply, whatever its payload.
pub open spec fn classified(raw: RawReply) -> ClassifiedReply<Payload> {
    match raw {
        RawReply::Allowed(p) => ClassifiedReply::Success(p),
        RawReply::Failed(d) => ClassifiedReply::Throttled(d),
        RawReply::Governed(s, d) => ClassifiedReply::Governed(s, d),
        RawReply::Transport(d) => ClassifiedReply::TransportFailure(d),
    }
}

/// A classified reply narrowed to what `extract` finds in its payload; a
/// payload in which it finds nothing is a shape mismatch.
pub open spec fn narrowed<T, U>(c: ClassifiedReply<T>, extract: spec_fn(T) -> Option<U>)
    -> ClassifiedReply<U> {
    match c {
        ClassifiedReply::Success(p) => match extract(p) {
            Some(u) => ClassifiedReply::Success(u),
            None => ClassifiedReply::ShapeMismatch,
        },
        ClassifiedReply::ShapeMismatch => ClassifiedReply::ShapeMismatch,
        ClassifiedReply::Throttled(d) => ClassifiedReply::Throttled(d),
        ClassifiedReply::Governed(s, d) => ClassifiedReply::Governed(s, d),
        ClassifiedReply::TransportFailure(d) => ClassifiedReply::TransportFailure(d),
    }
}

/// The name list of a payload, if it is one.
pub open spec fn names_in(p: Payload) -> Option<Vec<String>> {
    match p {
        Payload::NameList(names) => Some(names),
        Payload::NameDetails(_) => None,
    }
}

/// The lookup entries of a payload, if it holds them.
pub open spec fn details_in(p: Payload) -> Option<Vec<Vec<UsageRecord>>> {
    match p {
        Payload::NameDetails(details) => Some(details),
        Payload::NameList(_) => None,
    }
}

/// The first name of a name list, if the list has one and it is not empty.
pub open spec fn first_in(p: Payload) -> Option<String> {
    match p {
        Payload::NameList(names) => if names@.len() > 0 && names@[0]@.len() > 0 {
            Some(names@[0])
        } else {
            None
        },
        Payload::NameDetails(_) => None,
    }
}

/// The last name of a name list, if the list has one and it is not empty.
pub open spec fn last_in(p: Payload) -> Option<String> {
    match p {
        Payload::NameList(names) => if names@.len() > 0 && names@.last()@.len() > 0 {
            Some(names@.last())
        } else {
            None
        },
        Payload::NameDetails(_) => None,
    }
}

/// The reply to a request for names.
pub open spec fn names_class(raw: RawReply) -> ClassifiedReply<Vec<String>> {
    narrowed(classified(raw), |p: Payload| names_in(p))
}

/// The reply to a usage lookup.
pub open spec fn details_class(raw: RawReply) -> ClassifiedReply<Vec<Vec<UsageRecord>>> {
    narrowed(classified(raw), |p: Payload| details_in(p))
}

/// The reply to a request of which the first name counts.
pub open spec fn first_class(raw: RawReply) -> ClassifiedReply<String> {
    narrowed(classified(raw), |p: Payload| first_in(p))
}

/// The reply to a request of which the last name counts.
pub open spec fn last_class(raw: RawReply) -> ClassifiedReply<String> {
    narrowed(classified(raw), |p: Payload| last_in(p))
}

/// The usages of all entries of a lookup, entry after entry.
pub open spec fn flat_usages(details: Seq<Vec<UsageRecord>>) -> Seq<UsageView>
    decreases details.len(),
{
    if details.len() == 0 {
        Seq::empty()
    } else {
        flat_usages(details.drop_last()) + usage_views(details.last()@)
    }
}

/// Classifies a raw reply, whatever its payload.
pub fn classify(raw: RawReply) -> (out: ClassifiedReply<Payload>)
    ensures
        out == classified(raw),
{
    match raw {
        RawReply::Allowed(p) => ClassifiedReply::Success(p),
        RawReply::Failed(d) => ClassifiedReply::Throttled(d),
        RawReply::Governed(s, d) => ClassifiedReply::Governed(s, d),
        RawReply::Transport(d) => ClassifiedReply::TransportFailure(d),
    }
}

/// Classifies the reply to a request for names.
pub fn classify_names(raw: RawReply) -> (out: ClassifiedReply<Vec<String>>)
    ensures
        out == names_class(raw),
{
    match classify(raw) {
        ClassifiedReply::Success(Payload::NameList(names)) => ClassifiedReply::Success(names),
        ClassifiedReply::Success(Payload::NameDetails(_)) => ClassifiedReply::ShapeMismatch,
        ClassifiedReply::ShapeMismatch => ClassifiedReply::ShapeMismatch,
        ClassifiedReply::Throttled(d) => ClassifiedReply::Throttled(d),
        ClassifiedReply::Governed(s, d) => ClassifiedReply::Governed(s, d),
        ClassifiedReply::TransportFailure(d) => ClassifiedReply::TransportFailure(d),
    }
}

/// Classifies the reply to a usage lookup.
pub fn classify_details(raw: RawReply) -> (out: ClassifiedReply<Vec<Vec<UsageRecord>>>)
    ensures
        out == details_class(raw),
{
    match classify(raw) {
        ClassifiedReply::Success(Payload::NameDetails(details)) => ClassifiedReply::Success(
            details,
        ),
        ClassifiedReply::Success(Payload::NameList(_)) => ClassifiedReply::ShapeMismatch,
        ClassifiedReply::ShapeMismatch => ClassifiedReply::ShapeMismatch,
        ClassifiedReply::Throttled(d) => ClassifiedReply::Throttled(d),
        ClassifiedReply::Governed(s, d) => ClassifiedReply::Governed(s, d),
        ClassifiedReply::TransportFailure(d) => ClassifiedReply::TransportFailure(d),
    }
}

/// Classifies the reply to a request of which the first name counts.
pub fn classify_first(raw: RawReply) -> (out: ClassifiedReply<String>)
    ensures
        out == first_class(raw),
{
    match classify_names(raw) {
        ClassifiedReply::Success(names) => {
            if names.len() > 0 && !names[0].as_str().is_empty() {
                ClassifiedReply::Success(names[0].clone())
            } else {
                ClassifiedReply::ShapeMismatch
            }
        },
        ClassifiedReply::ShapeMismatch => ClassifiedReply::ShapeMismatch,
        ClassifiedReply::Throttled(d) => ClassifiedReply::Throttled(d),
        ClassifiedReply::Governed(s, d) => ClassifiedReply::Governed(s, d),
        ClassifiedReply::TransportFailure(d) => ClassifiedReply::TransportFailure(d),
    }
}

/// Classifies the reply to a request of which the last name counts.
pub fn classify_last(raw: RawReply) -> (out: ClassifiedReply<String>)
    ensures
        out == last_class(raw),
{
    match classify_names(raw) {
        ClassifiedReply::Success(names) => {
            let n: usize = names.len();
            if n > 0 && !names[n - 1].as_str().is_empty() {
                ClassifiedReply::Success(names[n - 1].clone())
            } else {
                ClassifiedReply::ShapeMismatch
            }
        },
        ClassifiedReply::ShapeMismatch => ClassifiedReply::ShapeMismatch,
        ClassifiedReply::Throttled(d) => ClassifiedReply::Throttled(d),
        ClassifiedReply::Governed(s, d) => ClassifiedReply::Governed(s, d),
        ClassifiedReply::TransportFailure(d) => ClassifiedReply::TransportFailure(d),
    }
}

/// Gathers the usages of all entries of a lookup, entry after entry.
pub fn flatten_usages(details: &Vec<Vec<UsageRecord>>) -> (out: Vec<UsageRecord>)
    ensures
        usage_views(out@) == flat_usages(details@),
{
    let mut out: Vec<UsageRecord> = Vec::new();
    let mut i: usize = 0;
    while i < details.len()
        invariant
            i <= details.len(),
            usage_views(out@) == flat_usages(details@.take(i as int)),
        decreases details.len() - i,
    {
        let entry = &details[i];
        let ghost before = usage_views(out@);
        let mut j: usize = 0;
        while j < entry.len()
            invariant
                j <= entry.len(),
                usage_views(out@) == before + usage_views(entry@.take(j as int)),
            decreases entry.len() - j,
        {
            let ghost so_far = usage_views(out@);
            out.push(entry[j].duplicate());
            proof {
                assert(entry@.take(j as int + 1) =~= entry@.take(j as int).push(entry@[j as int]));
                assert(usage_views(out@) =~= so_far.push(entry@[j as int]@));
                assert(usage_views(entry@.take(j as int + 1)) =~= usage_views(
                    entry@.take(j as int),
                ).push(entry@[j as int]@));
                assert(usage_views(out@) =~= before + usage_views(entry@.take(j as int + 1)));
            }
            j = j + 1;
        }
        proof {
            assert(entry@.take(entry.len() as int) =~= entry@);
            assert(details@.take(i as int + 1).drop_last() =~= details@.take(i as int));
            assert(details@.take(i as int + 1).last() == *entry);
        }
        i = i + 1;
    }
    proof {
        assert(details@.take(details.len() as int) =~= details@);
    }
    out
}

} // verus!
