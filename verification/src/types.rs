//! The values that a resolution works on.

use vstd::prelude::*;
use crate::text::text_eq;

verus! {

/// The gender facet of a request or of a usage record.
#[derive(Clone, Copy, Debug, PartialEq, Eq, Hash)]
pub enum GenderTag {
    Male,
    Female,
    Unisex,
    /// No restriction. Meaningful as a request filter only.
    Any,
}

/// The strategy of one resolution.
#[derive(Clone, Copy, Debug, PartialEq, Eq, Hash)]
pub enum GenerationMode {
    /// The last name shares a usage with the first name.
    Coherent,
    /// Both names are drawn independently.
    Chaotic,
}

/// An error that ends a resolution at once, with a single message.
#[derive(Clone, Debug, PartialEq, Eq)]
pub enum FatalError {
    /// An input that is rejected before any provider call is made.
    Input(String),
    /// A provider call failed for which there is no fallback.
    Provider(String),
}

/// A fatal error as a mathematical value.
pub ghost enum FatalView {
    Input(Seq<char>),
    Provider(Seq<char>),
}

impl View for FatalError {
    type V = FatalView;

    open spec fn view(&self) -> FatalView {
        match *self {
            FatalError::Input(m) => FatalView::Input(m@),
            FatalError::Provider(m) => FatalView::Provider(m@),
        }
    }
}

/// Why a resolution found no last name.
#[derive(Clone, Debug, PartialEq, Eq)]
pub struct ResolutionError {
    /// The diagnostics of the failed attempts, one per line.
    pub message: String,
    /// How many attempts failed; zero where there was no usage to try.
    pub attempts: usize,
}

/// A resolution error as a mathematical value.
pub ghost struct ErrorView {
    pub message: Seq<char>,
    pub attempts: nat,
}

impl View for ResolutionError {
    type V = ErrorView;

    open spec fn view(&self) -> ErrorView {
        ErrorView { message: self.message@, attempts: self.attempts as nat }
    }
}

/// The outcome of a resolution: a first name, and a last name or the reason
/// why there is none. A name without a last name is a mononym, not a crash.
#[derive(Debug, PartialEq, Eq)]
pub struct ResolvedName {
    pub first: String,
    pub last: Result<String, ResolutionError>,
}

/// A resolved name as a mathematical value.
pub ghost struct NameView {
    pub first: Seq<char>,
    pub last: Result<Seq<char>, ErrorView>,
}

impl View for ResolvedName {
    type V = NameView;

    open spec fn view(&self) -> NameView {
        NameView {
            first: self.first@,
            last: match self.last {
                Ok(name) => Ok(name@),
                Err(e) => Err(e@),
            },
        }
    }
}

/// What a gender filter string stands for, if anything.
pub open spec fn gender_of_text(s: Seq<char>) -> Option<GenderTag> {
    if s == "m"@ {
        Some(GenderTag::Male)
    } else if s == "f"@ {
        Some(GenderTag::Female)
    } else if s == "u"@ || s == "mf"@ || s == "fm"@ {
        Some(GenderTag::Unisex)
    } else if s == "Any"@ {
        Some(GenderTag::Any)
    } else {
        None
    }
}

/// The message of the error for an unreadable gender filter.
pub open spec fn bad_gender_text(s: Seq<char>) -> Seq<char> {
    "Unknown gender filter: "@ + s
}

/// Reads a gender filter. An absent filter means `Any`; a filter that is
/// none of `m`, `f`, `u`, `mf`, `fm`, `Any` is rejected.
pub fn parse_gender(filter: Option<&str>) -> (out: Result<GenderTag, FatalError>)
    ensures
        filter is None ==> out == Ok::<GenderTag, FatalError>(GenderTag::Any),
        filter matches Some(s) ==> match gender_of_text(s@) {
            Some(g) => out == Ok::<GenderTag, FatalError>(g),
            None => out matches Err(e) && e@ == FatalView::Input(bad_gender_text(s@)),
        },
{
    match filter {
        None => Ok(GenderTag::Any),
        Some(s) => {
            if text_eq(s, "m") {
                Ok(GenderTag::Male)
            } else if text_eq(s, "f") {
                Ok(GenderTag::Female)
            } else if text_eq(s, "u") || text_eq(s, "mf") || text_eq(s, "fm") {
                Ok(GenderTag::Unisex)
            } else if text_eq(s, "Any") {
                Ok(GenderTag::Any)
            } else {
                let mut message = String::from_str("Unknown gender filter: ");
                message.append(s);
                Err(FatalError::Input(message))
            }
        },
    }
}

/// What a mode string stands for, if anything.
pub open spec fn mode_of_text(s: Seq<char>) -> Option<GenerationMode> {
    if s == "coherent"@ {
        Some(GenerationMode::Coherent)
    } else if s == "chaotic"@ {
        Some(GenerationMode::Chaotic)
    } else {
        None
    }
}

/// The message of the error for an unreadable mode.
pub open spec fn bad_mode_text(s: Seq<char>) -> Seq<char> {
    "Unknown generation mode: "@ + s
}

/// Reads a generation mode. An absent mode means `Coherent`; a mode that is
/// neither `coherent` nor `chaotic` is rejected.
pub fn parse_mode(mode: Option<&str>) -> (out: Result<GenerationMode, FatalError>)
    ensures
        mode is None ==> out == Ok::<GenerationMode, FatalError>(GenerationMode::Coherent),
        mode matches Some(s) ==> match mode_of_text(s@) {
            Some(m) => out == Ok::<GenerationMode, FatalError>(m),
            None => out matches Err(e) && e@ == FatalView::Input(bad_mode_text(s@)),
        },
{
    match mode {
        None => Ok(GenerationMode::Coherent),
        Some(s) => {
            if text_eq(s, "coherent") {
                Ok(GenerationMode::Coherent)
            } else if text_eq(s, "chaotic") {
                Ok(GenerationMode::Chaotic)
            } else {
                let mut message = String::from_str("Unknown generation mode: ");
                message.append(s);
                Err(FatalError::Input(message))
            }
        },
    }
}

} // verus!
