//! Usage records: the cultural or linguistic contexts that a name belongs to.

use vstd::prelude::*;
use crate::types::GenderTag;

verus! {

/// One usage of a first name, as the provider reports it.
#[derive(Clone, Debug, PartialEq, Eq, Hash)]
pub struct UsageRecord {
    /// The usage code, such as `gmc-myth`.
    pub code: String,
    /// The gender under which the name has this usage.
    pub gender: GenderTag,
    /// The provider's free-text name of the usage.
    pub description: String,
}

/// A usage record as a mathematical value.
pub ghost struct UsageView {
    pub code: Seq<char>,
    pub gender: GenderTag,
    pub description: Seq<char>,
}

impl View for UsageRecord {
    type V = UsageView;

    open spec fn view(&self) -> UsageView {
        UsageView { code: self.code@, gender: self.gender, description: self.description@ }
    }
}

/// The mathematical values of a sequence of usage records.
pub open spec fn usage_views(records: Seq<UsageRecord>) -> Seq<UsageView> {
    records.map_values(|r: UsageRecord| r@)
}

impl UsageRecord {
    /// A record of the given parts.
    pub fn new(code: &str, gender: GenderTag, description: &str) -> (out: UsageRecord)
        ensures
            out@ == (UsageView { code: code@, gender, description: description@ }),
    {
        UsageRecord {
            code: String::from_str(code),
            gender,
            description: String::from_str(description),
        }
    }

    /// A copy of this record.
    pub fn duplicate(&self) -> (out: UsageRecord)
        ensures
            out == *self,
    {
        UsageRecord {
            code: self.code.clone(),
            gender: self.gender,
            description: self.description.clone(),
        }
    }

    /// The pair that tells two records of one lookup apart.
    pub fn key(&self) -> (out: (String, String))
        ensures
            out.0@ == self.code@,
            out.1@ == self.description@,
    {
        (self.code.clone(), self.description.clone())
    }

    /// This record under another usage code.
    pub fn with_code(&self, code: String) -> (out: UsageRecord)
        ensures
            out@ == (UsageView { code: code@, ..self@ }),
    {
        UsageRecord { code, gender: self.gender, description: self.description.clone() }
    }
}

} // verus!
