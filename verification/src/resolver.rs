//! The resolver as a state machine.
//!
//! The machine decides; its caller acts. Each step either names the next
//! provider call, together with the state that waits for its reply, or ends
//! the resolution. The caller waits for the call's delay, performs the call,
//! and hands the raw reply to `advance`. Calls are made one at a time.
//!
//! A caller that gives up between two steps drops the waiting state: no
//! name has been handed out by then, so nothing half done can be seen.

use vstd::prelude::*;
use rand::rngs::StdRng;
use crate::aggregator::{exhausted, failure_text, payload_or_diagnostic, ErrorAggregator};
use crate::catalog::{build_catalog, is_catalog};
use crate::reply::{
    classify_details,
    classify_first,
    classify_last,
    classify_names,
    details_class,
    first_class,
    flat_usages,
    flatten_usages,
    last_class,
    names_class,
    ClassifiedReply,
    RawReply,
};
use crate::rewrite::RewriteTable;
use crate::text::texts;
use crate::types::{
    bad_gender_text,
    bad_mode_text,
    gender_of_text,
    mode_of_text,
    parse_gender,
    parse_mode,
    ErrorView,
    FatalError,
    FatalView,
    GenderTag,
    GenerationMode,
    NameView,
    ResolutionError,
    ResolvedName,
};
use crate::usage::{usage_views, UsageRecord, UsageView};

verus! {

/// The delay, in milliseconds, that comes before every provider call.
pub const PACING_MS: u64 = 550;

/// A request to the provider.
#[derive(Debug, PartialEq, Eq)]
pub enum ProviderRequest {
    /// One random first name under a gender filter.
    RandomByGender { gender: GenderTag },
    /// The usages of a name.
    Usages { name: String },
    /// Random names under a gender filter and, if given, of one usage.
    RandomByUsage {
        gender: GenderTag,
        /// The usage that the names are to have; none means any usage.
        usage: Option<String>,
        /// How many names are asked for, all counted.
        count: Option<u8>,
        /// Whether the usage is to be matched exactly.
        exact_usage: bool,
        /// Whether the last of the names asked for is to be a surname.
        surname: bool,
    },
}

/// A request as a mathematical value.
pub ghost enum RequestView {
    RandomByGender { gender: GenderTag },
    Usages { name: Seq<char> },
    RandomByUsage {
        gender: GenderTag,
        usage: Option<Seq<char>>,
        count: Option<u8>,
        exact_usage: bool,
        surname: bool,
    },
}

impl View for ProviderRequest {
    type V = RequestView;

    open spec fn view(&self) -> RequestView {
        match *self {
            ProviderRequest::RandomByGender { gender } => RequestView::RandomByGender { gender },
            ProviderRequest::Usages { name } => RequestView::Usages { name: name@ },
            ProviderRequest::RandomByUsage { gender, usage, count, exact_usage, surname } => {
                RequestView::RandomByUsage {
                    gender,
                    usage: match usage {
                        Some(code) => Some(code@),
                        None => None,
                    },
                    count,
                    exact_usage,
                    surname,
                }
            },
        }
    }
}

/// A provider call that is due: the request, and the delay before it.
#[derive(Debug, PartialEq, Eq)]
pub struct ProviderCall {
    pub delay_ms: u64,
    pub request: ProviderRequest,
}

/// A due call as a mathematical value.
pub ghost struct CallView {
    pub delay_ms: u64,
    pub request: RequestView,
}

impl View for ProviderCall {
    type V = CallView;

    open spec fn view(&self) -> CallView {
        CallView { delay_ms: self.delay_ms, request: self.request@ }
    }
}

/// A resolution that waits for the reply to a provider call.
#[derive(Debug, PartialEq, Eq)]
pub enum Pending {
    /// Waits for the random first name.
    FirstName { gender: GenderTag },
    /// Waits for both names at once.
    Pair { gender: GenderTag },
    /// Waits for the usages of the first name.
    Usages { gender: GenderTag, first: String },
    /// Waits for a last name of the candidate that follows the failed ones.
    Probe { gender: GenderTag, first: String, catalog: Vec<UsageRecord>, failures: ErrorAggregator },
}

/// A waiting resolution as a mathematical value.
pub ghost enum PendingView {
    FirstName { gender: GenderTag },
    Pair { gender: GenderTag },
    Usages { gender: GenderTag, first: Seq<char> },
    Probe { gender: GenderTag, first: Seq<char>, catalog: Seq<UsageView>, failures: Seq<Seq<char>> },
}

impl View for Pending {
    type V = PendingView;

    open spec fn view(&self) -> PendingView {
        match *self {
            Pending::FirstName { gender } => PendingView::FirstName { gender },
            Pending::Pair { gender } => PendingView::Pair { gender },
            Pending::Usages { gender, first } => PendingView::Usages { gender, first: first@ },
            Pending::Probe { gender, first, catalog, failures } => PendingView::Probe {
                gender,
                first: first@,
                catalog: usage_views(catalog@),
                failures: failures@,
            },
        }
    }
}

/// What the machine decided: a call to make, or the end of the resolution.
#[derive(Debug, PartialEq, Eq)]
pub enum Step {
    /// A call is due; `pending` waits for its reply.
    Call { pending: Pending, call: ProviderCall },
    /// The resolution has ended. `discarded` holds the diagnostics that the
    /// outcome does not carry: those of the attempts that failed before a
    /// last name was found. They are of use for a log only.
    Done { outcome: Result<ResolvedName, FatalError>, discarded: Vec<String> },
}

/// A decision as a mathematical value.
pub ghost enum StepView {
    Call { pending: PendingView, call: CallView },
    Done { outcome: Result<NameView, FatalView>, discarded: Seq<Seq<char>> },
}

impl View for Step {
    type V = StepView;

    open spec fn view(&self) -> StepView {
        match *self {
            Step::Call { pending, call } => StepView::Call { pending: pending@, call: call@ },
            Step::Done { outcome, discarded } => StepView::Done {
                outcome: match outcome {
                    Ok(name) => Ok(name@),
                    Err(e) => Err(e@),
                },
                discarded: texts(discarded@),
            },
        }
    }
}

/// The gender that a last name is asked for: the requested one, or the
/// usage's own where any gender was requested.
pub open spec fn effective_gender(requested: GenderTag, own: GenderTag) -> GenderTag {
    match requested {
        GenderTag::Any => own,
        _ => requested,
    }
}

/// A request with the pacing delay before it.
pub open spec fn paced(request: RequestView) -> CallView {
    CallView { delay_ms: PACING_MS, request }
}

/// The request for a last name of one candidate usage: one name, a surname,
/// of exactly that usage.
pub open spec fn probe_request(requested: GenderTag, usage: UsageView) -> RequestView {
    RequestView::RandomByUsage {
        gender: effective_gender(requested, usage.gender),
        usage: Some(usage.code),
        count: Some(1u8),
        exact_usage: true,
        surname: true,
    }
}

/// The request for both names at once: two names of any usage, the second
/// of them a surname.
pub open spec fn pair_request(gender: GenderTag) -> RequestView {
    RequestView::RandomByUsage {
        gender,
        usage: None,
        count: Some(2u8),
        exact_usage: true,
        surname: true,
    }
}

/// How many given names a request asks for, where `count` names are asked
/// for in all and `surname` says whether the last of them is a surname. A
/// surname comes with at least one given name: a request for one name that
/// is a surname asks for one given name too, and the reply ends with the
/// surname.
pub open spec fn given_names_of(count: Option<u8>, surname: bool) -> Option<u8> {
    match count {
        Some(n) => if surname && n > 1 {
            Some((n - 1) as u8)
        } else {
            Some(n)
        },
        None => None,
    }
}

/// A resolution that ended with `outcome` and nothing set aside.
pub open spec fn ended(outcome: Result<NameView, FatalView>) -> StepView {
    StepView::Done { outcome, discarded: Seq::empty() }
}

/// A resolution that ended with a first name and no last name.
pub open spec fn mononym(first: Seq<char>, error: ErrorView) -> StepView {
    ended(Ok(NameView { first, last: Err(error) }))
}

/// A resolution that ended with both names, after the attempts with the
/// diagnostics `discarded` had failed.
pub open spec fn full_name(first: Seq<char>, last: Seq<char>, discarded: Seq<Seq<char>>)
    -> StepView {
    StepView::Done { outcome: Ok(NameView { first, last: Ok(last) }), discarded }
}

/// A resolution that ended with a fatal provider error.
pub open spec fn provider_failure(message: Seq<char>) -> StepView {
    ended(Err(FatalView::Provider(message)))
}

/// The first step of a resolution in the given mode.
pub open spec fn begin_step(mode: GenerationMode, gender: GenderTag) -> StepView {
    match mode {
        GenerationMode::Coherent => StepView::Call {
            pending: PendingView::FirstName { gender },
            call: paced(RequestView::RandomByGender { gender }),
        },
        GenerationMode::Chaotic => StepView::Call {
            pending: PendingView::Pair { gender },
            call: paced(pair_request(gender)),
        },
    }
}

/// The step that looks up the usages of a first name. An empty first name
/// is refused.
pub open spec fn lookup_step(gender: GenderTag, first: Seq<char>) -> StepView {
    if first.len() == 0 {
        ended(Err(FatalView::Input("Empty first name"@)))
    } else {
        StepView::Call {
            pending: PendingView::Usages { gender, first },
            call: paced(RequestView::Usages { name: first }),
        }
    }
}

/// The step after `failures` attempts have failed: the probe of the next
/// candidate, or the end if there is none.
pub open spec fn probe_step(
    gender: GenderTag,
    first: Seq<char>,
    catalog: Seq<UsageView>,
    failures: Seq<Seq<char>>,
) -> StepView {
    if failures.len() < catalog.len() {
        StepView::Call {
            pending: PendingView::Probe { gender, first, catalog, failures },
            call: paced(probe_request(gender, catalog[failures.len() as int])),
        }
    } else {
        mononym(first, exhausted(failures))
    }
}

/// The step after the reply to the first-name request. Without a first
/// name there is nothing to fall back on.
pub open spec fn first_name_step(gender: GenderTag, raw: RawReply) -> StepView {
    match first_class(raw) {
        ClassifiedReply::Success(first) => lookup_step(gender, first@),
        _ => provider_failure(
            failure_text("At first name request: "@, "parsing issue"@, first_class(raw)).unwrap(),
        ),
    }
}

/// What a list of one given name and one surname resolves to.
pub open spec fn pair_outcome(names: Seq<Seq<char>>) -> StepView {
    if names.len() == 0 || names[0].len() == 0 {
        provider_failure("No name fetched"@)
    } else if names.len() > 2 {
        provider_failure("Too many names fetched"@)
    } else if names.len() == 1 || names[1].len() == 0 {
        mononym(names[0], ErrorView { message: "no last name found"@, attempts: 1 })
    } else {
        full_name(names[0], names[1], Seq::empty())
    }
}

/// The step after the reply to the request for both names.
pub open spec fn pair_step(raw: RawReply) -> StepView {
    match names_class(raw) {
        ClassifiedReply::Success(names) => pair_outcome(texts(names@)),
        _ => provider_failure(
            failure_text("At first name request: "@, "parsing issue"@, names_class(raw)).unwrap(),
        ),
    }
}

/// The step after the reply to the usage lookup, where `catalog` is the
/// catalog built from a successful reply.
pub open spec fn usages_step(
    gender: GenderTag,
    first: Seq<char>,
    raw: RawReply,
    catalog: Seq<UsageView>,
) -> StepView {
    match details_class(raw) {
        ClassifiedReply::Success(_) => probe_step(gender, first, catalog, Seq::empty()),
        _ => mononym(
            first,
            ErrorView {
                message: failure_text(
                    "At usage request: "@,
                    "parsing issue"@,
                    details_class(raw),
                ).unwrap(),
                attempts: 0,
            },
        ),
    }
}

/// How the diagnostic of a failed probe begins.
pub open spec fn probe_prefix(code: Seq<char>) -> Seq<char> {
    "At last name request for usage "@ + code + ": "@
}

/// The diagnostic of a failed probe of the usage `code`.
pub open spec fn probe_diagnostic(code: Seq<char>, raw: RawReply) -> Seq<char> {
    failure_text(probe_prefix(code), "parsing error"@, last_class(raw)).unwrap()
}

/// The step after the reply to the probe of the candidate that follows the
/// failed ones. A success ends the resolution; anything else is noted and
/// the next candidate is tried.
pub open spec fn probe_reply_step(
    gender: GenderTag,
    first: Seq<char>,
    catalog: Seq<UsageView>,
    failures: Seq<Seq<char>>,
    raw: RawReply,
) -> StepView {
    if failures.len() >= catalog.len() {
        probe_step(gender, first, catalog, failures)
    } else {
        match last_class(raw) {
            ClassifiedReply::Success(last) => full_name(first, last@, failures),
            _ => probe_step(
                gender,
                first,
                catalog,
                failures.push(probe_diagnostic(catalog[failures.len() as int].code, raw)),
            ),
        }
    }
}

/// The usages that a reply brings to a waiting resolution, if it waits for
/// usages and the reply holds them.
pub open spec fn lookup_result(pending: PendingView, raw: RawReply) -> Option<Seq<UsageView>> {
    match pending {
        PendingView::Usages { .. } => match details_class(raw) {
            ClassifiedReply::Success(details) => Some(flat_usages(details@)),
            _ => None,
        },
        _ => None,
    }
}

/// The step that a reply leads to. `catalog` counts only where the reply
/// brings usages: it is the catalog built from them.
pub open spec fn reply_step(pending: PendingView, raw: RawReply, catalog: Seq<UsageView>)
    -> StepView {
    match pending {
        PendingView::FirstName { gender } => first_name_step(gender, raw),
        PendingView::Pair { gender } => pair_step(raw),
        PendingView::Usages { gender, first } => usages_step(gender, first, raw, catalog),
        PendingView::Probe { gender, first, catalog: candidates, failures } => probe_reply_step(
            gender,
            first,
            candidates,
            failures,
            raw,
        ),
    }
}

/// Ends a resolution with nothing set aside.
pub fn finish(outcome: Result<ResolvedName, FatalError>) -> (out: Step)
    ensures
        out@ == ended(
            match outcome {
                Ok(name) => Ok(name@),
                Err(e) => Err(e@),
            },
        ),
{
    let out = Step::Done { outcome, discarded: Vec::new() };
    assert(out@->discarded =~= Seq::<Seq<char>>::empty());
    out
}

/// Counts the given names that a request asks for, for a provider that
/// takes the number of given names and a switch for the surname.
pub fn given_names(count: Option<u8>, surname: bool) -> (out: Option<u8>)
    ensures
        out == given_names_of(count, surname),
{
    match count {
        Some(n) => if surname && n > 1 {
            Some(n - 1)
        } else {
            Some(n)
        },
        None => None,
    }
}

/// Resolves the effective gender of a probe.
pub fn resolve_gender(requested: GenderTag, own: GenderTag) -> (out: GenderTag)
    ensures
        out == effective_gender(requested, own),
{
    match requested {
        GenderTag::Any => own,
        _ => requested,
    }
}

/// Starts a resolution. In coherent mode the first call asks for a first
/// name under exactly the requested gender; in chaotic mode the only call
/// asks for two names under that gender, with no usage filter.
pub fn begin(mode: GenerationMode, gender: GenderTag) -> (out: Step)
    ensures
        out@ == begin_step(mode, gender),
{
    match mode {
        GenerationMode::Coherent => Step::Call {
            pending: Pending::FirstName { gender },
            call: ProviderCall {
                delay_ms: PACING_MS,
                request: ProviderRequest::RandomByGender { gender },
            },
        },
        GenerationMode::Chaotic => Step::Call {
            pending: Pending::Pair { gender },
            call: ProviderCall {
                delay_ms: PACING_MS,
                request: ProviderRequest::RandomByUsage {
                    gender,
                    usage: None,
                    count: Some(2),
                    exact_usage: true,
                    surname: true,
                },
            },
        },
    }
}

/// Starts a resolution from the texts of its options. A text that cannot
/// be read is refused, and no call is named.
pub fn begin_from_text(gender: Option<&str>, mode: Option<&str>) -> (out: Result<Step, FatalError>)
    ensures
        match (parse_gender_text(gender), parse_mode_text(mode)) {
            (Some(g), Some(m)) => out matches Ok(step) && step@ == begin_step(m, g),
            (None, _) => out matches Err(e) && e@ == FatalView::Input(
                bad_gender_text(gender.unwrap()@),
            ),
            (Some(_), None) => out matches Err(e) && e@ == FatalView::Input(
                bad_mode_text(mode.unwrap()@),
            ),
        },
{
    let g = match parse_gender(gender) {
        Ok(g) => g,
        Err(e) => {
            return Err(e);
        },
    };
    let m = match parse_mode(mode) {
        Ok(m) => m,
        Err(e) => {
            return Err(e);
        },
    };
    Ok(begin(m, g))
}

/// The gender that an optional filter text stands for, if it can be read.
pub open spec fn parse_gender_text(filter: Option<&str>) -> Option<GenderTag> {
    match filter {
        None => Some(GenderTag::Any),
        Some(s) => gender_of_text(s@),
    }
}

/// The mode that an optional text stands for, if it can be read.
pub open spec fn parse_mode_text(mode: Option<&str>) -> Option<GenerationMode> {
    match mode {
        None => Some(GenerationMode::Coherent),
        Some(s) => mode_of_text(s@),
    }
}

/// Starts a resolution for a first name that is already known.
pub fn begin_with_name(first: String, gender: GenderTag) -> (out: Step)
    ensures
        out@ == lookup_step(gender, first@),
{
    if first.as_str().is_empty() {
        finish(Err(FatalError::Input(String::from_str("Empty first name"))))
    } else {
        let name = first.clone();
        Step::Call {
            pending: Pending::Usages { gender, first },
            call: ProviderCall { delay_ms: PACING_MS, request: ProviderRequest::Usages { name } },
        }
    }
}

/// Decides what follows `failures`: the probe of the next candidate of the
/// catalog, or the end of the resolution with the gathered diagnostics.
pub fn continue_probing(
    gender: GenderTag,
    first: String,
    catalog: Vec<UsageRecord>,
    failures: ErrorAggregator,
) -> (out: Step)
    ensures
        out@ == probe_step(gender, first@, usage_views(catalog@), failures@),
{
    let tried: usize = failures.attempts();
    if tried < catalog.len() {
        let candidate = &catalog[tried];
        assert(usage_views(catalog@)[tried as int] == candidate@);
        let request = ProviderRequest::RandomByUsage {
            gender: resolve_gender(gender, candidate.gender),
            usage: Some(candidate.code.clone()),
            count: Some(1),
            exact_usage: true,
            surname: true,
        };
        Step::Call {
            pending: Pending::Probe { gender, first, catalog, failures },
            call: ProviderCall { delay_ms: PACING_MS, request },
        }
    } else {
        finish(Ok(ResolvedName { first, last: failures.settle(None) }))
    }
}

/// Starts probing the candidates of a catalog, with no attempt made yet.
pub fn start_probing(gender: GenderTag, first: String, catalog: Vec<UsageRecord>) -> (out: Step)
    ensures
        out@ == probe_step(gender, first@, usage_views(catalog@), Seq::empty()),
{
    continue_probing(gender, first, catalog, ErrorAggregator::new())
}

/// Takes the reply to the first-name request.
pub fn after_first_name(gender: GenderTag, raw: RawReply) -> (out: Step)
    ensures
        out@ == first_name_step(gender, raw),
{
    match payload_or_diagnostic("At first name request: ", "parsing issue", classify_first(raw)) {
        Ok(first) => begin_with_name(first, gender),
        Err(message) => finish(Err(FatalError::Provider(message))),
    }
}

/// Takes the reply to the request for both names.
pub fn after_pair(raw: RawReply) -> (out: Step)
    ensures
        out@ == pair_step(raw),
{
    match payload_or_diagnostic("At first name request: ", "parsing issue", classify_names(raw)) {
        Ok(names) => {
            let n: usize = names.len();
            assert(n > 0 ==> texts(names@)[0] == names@[0]@);
            assert(n > 1 ==> texts(names@)[1] == names@[1]@);
            if n == 0 || names[0].as_str().is_empty() {
                finish(Err(FatalError::Provider(String::from_str("No name fetched"))))
            } else if n > 2 {
                finish(Err(FatalError::Provider(String::from_str("Too many names fetched"))))
            } else if n == 1 || names[1].as_str().is_empty() {
                finish(
                    Ok(
                        ResolvedName {
                            first: names[0].clone(),
                            last: Err(
                                ResolutionError {
                                    message: String::from_str("no last name found"),
                                    attempts: 1,
                                },
                            ),
                        },
                    ),
                )
            } else {
                finish(Ok(ResolvedName { first: names[0].clone(), last: Ok(names[1].clone()) }))
            }
        },
        Err(message) => finish(Err(FatalError::Provider(message))),
    }
}

/// Takes the reply to the usage lookup. A reply with usages is made into a
/// catalog, whose shuffled order is the generator's choice, and probing
/// starts; any other reply ends the resolution as a mononym.
pub fn after_usages(
    gender: GenderTag,
    first: String,
    raw: RawReply,
    table: &RewriteTable,
    rng: &mut StdRng,
) -> (out: Step)
    ensures
        exists|catalog: Seq<UsageView>|
            (details_class(raw) matches ClassifiedReply::Success(details) ==> is_catalog(
                catalog,
                flat_usages(details@),
                table@,
            )) && out@ == #[trigger] usages_step(gender, first@, raw, catalog),
{
    match payload_or_diagnostic("At usage request: ", "parsing issue", classify_details(raw)) {
        Ok(details) => {
            let records = flatten_usages(&details);
            let catalog = build_catalog(records, table, rng);
            let ghost chosen = usage_views(catalog@);
            let out = start_probing(gender, first, catalog);
            assert(out@ == usages_step(gender, first@, raw, chosen));
            out
        },
        Err(message) => {
            let out = finish(
                Ok(ResolvedName { first, last: Err(ResolutionError { message, attempts: 0 }) }),
            );
            assert(out@ == usages_step(gender, first@, raw, Seq::empty()));
            out
        },
    }
}

/// Takes the reply to the probe of the candidate that follows the failed
/// ones.
pub fn after_probe(
    gender: GenderTag,
    first: String,
    catalog: Vec<UsageRecord>,
    failures: ErrorAggregator,
    raw: RawReply,
) -> (out: Step)
    ensures
        out@ == probe_reply_step(gender, first@, usage_views(catalog@), failures@, raw),
{
    let tried: usize = failures.attempts();
    if tried >= catalog.len() {
        return continue_probing(gender, first, catalog, failures);
    }
    assert(usage_views(catalog@)[tried as int] == catalog@[tried as int]@);
    let mut prefix = String::from_str("At last name request for usage ");
    prefix.append(catalog[tried].code.as_str());
    prefix.append(": ");
    match payload_or_diagnostic(prefix.as_str(), "parsing error", classify_last(raw)) {
        Ok(last) => Step::Done {
            outcome: Ok(ResolvedName { first, last: failures.settle(Some(last)) }),
            discarded: failures.diagnostics,
        },
        Err(diagnostic) => {
            let mut failures = failures;
            failures.record(diagnostic);
            continue_probing(gender, first, catalog, failures)
        },
    }
}

/// Takes the reply to the call that `pending` waits for, and decides the
/// next step. Everything but the shuffled order of a new catalog is fixed
/// by the state and the reply.
pub fn advance(pending: Pending, raw: RawReply, table: &RewriteTable, rng: &mut StdRng) -> (out:
    Step)
    ensures
        exists|catalog: Seq<UsageView>|
            (lookup_result(pending@, raw) matches Some(records) ==> is_catalog(
                catalog,
                records,
                table@,
            )) && out@ == #[trigger] reply_step(pending@, raw, catalog),
{
    match pending {
        Pending::FirstName { gender } => {
            let out = after_first_name(gender, raw);
            assert(out@ == reply_step(pending@, raw, Seq::empty()));
            out
        },
        Pending::Pair { gender } => {
            let out = after_pair(raw);
            assert(out@ == reply_step(pending@, raw, Seq::empty()));
            out
        },
        Pending::Usages { gender, first } => {
            let out = after_usages(gender, first, raw, table, rng);
            proof {
                let catalog = choose|catalog: Seq<UsageView>|
                    (details_class(raw) matches ClassifiedReply::Success(details) ==> is_catalog(
                        catalog,
                        flat_usages(details@),
                        table@,
                    )) && out@ == #[trigger] usages_step(gender, first@, raw, catalog);
                assert(out@ == reply_step(pending@, raw, catalog));
            }
            out
        },
        Pending::Probe { gender, first, catalog, failures } => {
            let out = after_probe(gender, first, catalog, failures, raw);
            assert(out@ == reply_step(pending@, raw, Seq::empty()));
            out
        },
    }
}

/// Whether the first name that a waiting resolution has found is not empty.
pub open spec fn pending_named(pending: PendingView) -> bool {
    match pending {
        PendingView::Usages { first, .. } => first.len() > 0,
        PendingView::Probe { first, .. } => first.len() > 0,
        _ => true,
    }
}

/// Whether no name that a step holds or hands out is empty.
pub open spec fn step_named(step: StepView) -> bool {
    match step {
        StepView::Call { pending, .. } => pending_named(pending),
        StepView::Done { outcome: Ok(name), .. } => name.first.len() > 0 && (name.last matches Ok(
            last,
        ) ==> last.len() > 0),
        StepView::Done { outcome: Err(_), .. } => true,
    }
}

/// A resolution never holds or hands out an empty name: not at its start,
/// and not after any reply.
pub proof fn lemma_names_are_never_empty(
    mode: GenerationMode,
    gender: GenderTag,
    first: Seq<char>,
    pending: PendingView,
    raw: RawReply,
    catalog: Seq<UsageView>,
)
    ensures
        step_named(begin_step(mode, gender)),
        step_named(lookup_step(gender, first)),
        pending_named(pending) ==> step_named(reply_step(pending, raw, catalog)),
{
}

/// Every call that a step names comes after the pacing delay, whether the
/// call before it succeeded or not.
pub proof fn lemma_every_call_is_paced(
    mode: GenerationMode,
    gender: GenderTag,
    first: Seq<char>,
    pending: PendingView,
    raw: RawReply,
    catalog: Seq<UsageView>,
)
    ensures
        begin_step(mode, gender) matches StepView::Call { call, .. } ==> call.delay_ms
            == PACING_MS,
        lookup_step(gender, first) matches StepView::Call { call, .. } ==> call.delay_ms
            == PACING_MS,
        reply_step(pending, raw, catalog) matches StepView::Call { call, .. } ==> call.delay_ms
            == PACING_MS,
{
}

} // verus!
