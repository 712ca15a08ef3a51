//! What holds of every probing run.
//!
//! A run is the state machine's steps from the start of probing to the end
//! of the resolution, with the provider's behaviour given as the reply that
//! it makes to the probe of each candidate.

use vstd::prelude::*;
use crate::aggregator::exhausted;
use crate::reply::{details_class, first_class, last_class, RawReply};
use crate::resolver::{
    begin_step,
    full_name,
    mononym,
    paced,
    pair_step,
    probe_diagnostic,
    probe_reply_step,
    probe_request,
    probe_step,
    reply_step,
    usages_step,
    PendingView,
    RequestView,
    StepView,
};
use crate::types::{GenderTag, GenerationMode};
use crate::usage::UsageView;

verus! {

/// A run: the step it ended with, and the requests it made, in order.
pub ghost struct ProbeRun {
    pub end: StepView,
    pub requests: Seq<RequestView>,
}

/// The run from `step` on, in which the probe of candidate `k` is answered
/// with `answers(k)`, cut off after `fuel` calls.
pub open spec fn run_probes(step: StepView, answers: spec_fn(int) -> RawReply, fuel: nat) -> ProbeRun
    decreases fuel,
{
    match step {
        StepView::Call { pending: PendingView::Probe { gender, first, catalog, failures }, call } => {
            if fuel == 0 {
                ProbeRun { end: step, requests: Seq::empty() }
            } else {
                let next = reply_step(
                    step->pending,
                    answer_to(answers, failures.len() as int),
                    Seq::empty(),
                );
                let rest = run_probes(next, answers, (fuel - 1) as nat);
                ProbeRun { end: rest.end, requests: seq![call.request] + rest.requests }
            }
        },
        _ => ProbeRun { end: step, requests: Seq::empty() },
    }
}

/// The reply that the probe of candidate `k` is answered with.
pub open spec fn answer_to(answers: spec_fn(int) -> RawReply, k: int) -> RawReply {
    answers(k)
}

/// Whether the probe of candidate `k` is answered with a last name.
pub open spec fn succeeds(answers: spec_fn(int) -> RawReply, k: int) -> bool {
    last_class(answer_to(answers, k)) is Success
}

/// The last name that the probe of candidate `k` is answered with.
pub open spec fn found_name(answers: spec_fn(int) -> RawReply, k: int) -> Seq<char> {
    last_class(answer_to(answers, k))->Success_0@
}

/// The diagnostics of the first `n` candidates, all of whose probes failed.
pub open spec fn diagnostics_upto(
    catalog: Seq<UsageView>,
    answers: spec_fn(int) -> RawReply,
    n: nat,
) -> Seq<Seq<char>> {
    Seq::new(n, |k: int| probe_diagnostic(catalog[k].code, answer_to(answers, k)))
}

/// The requests for the first `n` candidates, in catalog order.
pub open spec fn requests_upto(gender: GenderTag, catalog: Seq<UsageView>, n: nat) -> Seq<
    RequestView,
> {
    Seq::new(n, |k: int| probe_request(gender, catalog[k]))
}

/// A coherent resolution first asks for a first name under exactly the
/// requested gender, whichever it is: `Any` goes to the provider as it is.
pub proof fn lemma_first_call_keeps_filter(gender: GenderTag)
    ensures
        begin_step(GenerationMode::Coherent, gender) == (StepView::Call {
            pending: PendingView::FirstName { gender },
            call: paced(RequestView::RandomByGender { gender }),
        }),
{
}

/// A chaotic resolution makes one call: it asks for two names under
/// exactly the requested gender, with no usage filter, the second of them a
/// surname.
pub proof fn lemma_chaotic_asks_for_two_names(gender: GenderTag)
    ensures
        begin_step(GenerationMode::Chaotic, gender) == (StepView::Call {
            pending: PendingView::Pair { gender },
            call: paced(
                RequestView::RandomByUsage {
                    gender,
                    usage: None,
                    count: Some(2u8),
                    exact_usage: true,
                    surname: true,
                },
            ),
        }),
        forall|raw: RawReply, catalog: Seq<UsageView>|
            #[trigger] reply_step(PendingView::Pair { gender }, raw, catalog) is Done,
{
    assert forall|raw: RawReply, catalog: Seq<UsageView>|
        #[trigger] reply_step(PendingView::Pair { gender }, raw, catalog) is Done by {
        assert(reply_step(PendingView::Pair { gender }, raw, catalog) == pair_step(raw));
    }
}

/// A coherent resolution whose first-name request and usage lookup both
/// succeed arrives at the start of probing: it looks up the name it got,
/// and then probes the catalog made from the lookup, from its first
/// candidate on.
pub proof fn lemma_coherent_reaches_probing(
    gender: GenderTag,
    first_reply: RawReply,
    lookup_reply: RawReply,
    catalog: Seq<UsageView>,
)
    requires
        first_class(first_reply) is Success,
        details_class(lookup_reply) is Success,
    ensures
        ({
            let first = first_class(first_reply)->Success_0@;
            let waiting = PendingView::Usages { gender, first };
            &&& reply_step(PendingView::FirstName { gender }, first_reply, Seq::empty())
                == (StepView::Call { pending: waiting, call: paced(RequestView::Usages { name: first }) })
            &&& reply_step(waiting, lookup_reply, catalog) == probe_step(
                gender,
                first,
                catalog,
                Seq::empty(),
            )
        }),
{
}

/// With an empty catalog the resolution ends at once, without a single
/// probe, in an error of zero attempts.
pub proof fn lemma_empty_catalog_ends(
    gender: GenderTag,
    first: Seq<char>,
    raw: RawReply,
    answers: spec_fn(int) -> RawReply,
    fuel: nat,
)
    requires
        details_class(raw) is Success,
    ensures
        usages_step(gender, first, raw, Seq::empty()) == mononym(first, exhausted(Seq::empty())),
        exhausted(Seq::empty()).attempts == 0,
        run_probes(usages_step(gender, first, raw, Seq::empty()), answers, fuel).requests.len()
            == 0,
{
}

/// The run from the middle of probing: the candidates before `failures.len()`
/// have failed with the diagnostics that `failures` holds.
proof fn lemma_run_from(
    gender: GenderTag,
    first: Seq<char>,
    catalog: Seq<UsageView>,
    failures: Seq<Seq<char>>,
    answers: spec_fn(int) -> RawReply,
    fuel: nat,
    stop: int,
)
    requires
        failures.len() <= stop <= catalog.len(),
        fuel >= catalog.len() - failures.len(),
        failures == diagnostics_upto(catalog, answers, failures.len()),
        forall|k: int| failures.len() <= k < stop ==> !succeeds(answers, k),
        stop < catalog.len() ==> succeeds(answers, stop),
    ensures
        ({
            let run = run_probes(probe_step(gender, first, catalog, failures), answers, fuel);
            &&& failures + diagnostics_upto(catalog, answers, stop as nat).skip(
                failures.len() as int,
            ) == diagnostics_upto(catalog, answers, stop as nat)
            &&& stop < catalog.len() ==> run.end == full_name(
                first,
                found_name(answers, stop),
                diagnostics_upto(catalog, answers, stop as nat),
            ) && failures.len() + run.requests.len() == stop + 1
            &&& stop == catalog.len() ==> run.end == mononym(
                first,
                exhausted(diagnostics_upto(catalog, answers, catalog.len())),
            ) && failures.len() + run.requests.len() == catalog.len()
            &&& forall|j: int|
                0 <= j < run.requests.len() ==> run.requests[j] == probe_request(
                    gender,
                    catalog[failures.len() + j],
                )
        }),
    decreases catalog.len() - failures.len(),
{
    let done = failures.len();
    let step = probe_step(gender, first, catalog, failures);
    assert(failures + diagnostics_upto(catalog, answers, stop as nat).skip(done as int)
        =~= diagnostics_upto(catalog, answers, stop as nat));
    if done < catalog.len() {
        let raw = answer_to(answers, done as int);
        let next = probe_reply_step(gender, first, catalog, failures, raw);
        assert(reply_step(step->pending, raw, Seq::empty()) == next);
        if done == stop {
            assert(succeeds(answers, stop));
            assert(run_probes(next, answers, (fuel - 1) as nat).requests.len() == 0);
        } else {
            assert(!succeeds(answers, done as int));
            let more = failures.push(probe_diagnostic(catalog[done as int].code, raw));
            assert(more =~= diagnostics_upto(catalog, answers, done + 1));
            assert(next == probe_step(gender, first, catalog, more));
            lemma_run_from(gender, first, catalog, more, answers, (fuel - 1) as nat, stop);
            let rest = run_probes(next, answers, (fuel - 1) as nat);
            let run = run_probes(step, answers, fuel);
            assert(run.requests == seq![paced(probe_request(gender, catalog[done as int])).request]
                + rest.requests);
            assert forall|j: int| 0 <= j < run.requests.len() implies run.requests[j]
                == probe_request(gender, catalog[done + j]) by {
                if j > 0 {
                    assert(run.requests[j] == rest.requests[j - 1]);
                }
            }
        }
    }
}

/// Probing stops at the first success. If the probe of candidate `k` is the
/// first that succeeds, the resolution ends with the name it brought, after
/// exactly `k + 1` calls, however the probes before it failed. Their
/// diagnostics are set aside.
pub proof fn lemma_stops_at_first_success(
    gender: GenderTag,
    first: Seq<char>,
    catalog: Seq<UsageView>,
    answers: spec_fn(int) -> RawReply,
    k: int,
)
    requires
        0 <= k < catalog.len(),
        succeeds(answers, k),
        forall|j: int| 0 <= j < k ==> !succeeds(answers, j),
    ensures
        ({
            let run = run_probes(
                probe_step(gender, first, catalog, Seq::empty()),
                answers,
                catalog.len(),
            );
            &&& run.end == full_name(
                first,
                found_name(answers, k),
                diagnostics_upto(catalog, answers, k as nat),
            )
            &&& run.requests == requests_upto(gender, catalog, (k + 1) as nat)
        }),
{
    assert(Seq::<Seq<char>>::empty() =~= diagnostics_upto(catalog, answers, 0));
    lemma_run_from(gender, first, catalog, Seq::empty(), answers, catalog.len(), k);
    let run = run_probes(probe_step(gender, first, catalog, Seq::empty()), answers, catalog.len());
    assert(run.requests =~= requests_upto(gender, catalog, (k + 1) as nat));
}

/// If every probe fails, the resolution ends as a mononym after one call
/// per candidate, with as many attempts as the catalog is long and the
/// diagnostics of all of them.
pub proof fn lemma_exhausts_catalog(
    gender: GenderTag,
    first: Seq<char>,
    catalog: Seq<UsageView>,
    answers: spec_fn(int) -> RawReply,
)
    requires
        forall|j: int| 0 <= j < catalog.len() ==> !succeeds(answers, j),
    ensures
        ({
            let run = run_probes(
                probe_step(gender, first, catalog, Seq::empty()),
                answers,
                catalog.len(),
            );
            let error = exhausted(diagnostics_upto(catalog, answers, catalog.len()));
            &&& run.end == mononym(first, error)
            &&& error.attempts == catalog.len()
            &&& run.requests == requests_upto(gender, catalog, catalog.len())
        }),
{
    assert(Seq::<Seq<char>>::empty() =~= diagnostics_upto(catalog, answers, 0));
    lemma_run_from(
        gender,
        first,
        catalog,
        Seq::empty(),
        answers,
        catalog.len(),
        catalog.len() as int,
    );
    let run = run_probes(probe_step(gender, first, catalog, Seq::empty()), answers, catalog.len());
    assert(run.requests =~= requests_upto(gender, catalog, catalog.len()));
}

/// The index of the first candidate from `from` on whose probe succeeds,
/// or the length of the catalog if there is none.
pub open spec fn first_success(n: nat, answers: spec_fn(int) -> RawReply, from: int) -> int
    decreases n - from,
{
    if from < 0 || from >= n {
        n as int
    } else if succeeds(answers, from) {
        from
    } else {
        first_success(n, answers, from + 1)
    }
}

proof fn lemma_first_success(n: nat, answers: spec_fn(int) -> RawReply, from: int)
    requires
        0 <= from <= n,
    ensures
        from <= first_success(n, answers, from) <= n,
        first_success(n, answers, from) < n ==> succeeds(answers, first_success(n, answers, from)),
        forall|j: int| from <= j < first_success(n, answers, from) ==> !succeeds(answers, j),
    decreases n - from,
{
    if from < n && !succeeds(answers, from) {
        lemma_first_success(n, answers, from + 1);
    }
}

/// Whatever the provider answers, a probing run ends the resolution, makes
/// at most one call per candidate, and asks for the candidates in catalog
/// order without leaving one out.
pub proof fn lemma_run_is_bounded(
    gender: GenderTag,
    first: Seq<char>,
    catalog: Seq<UsageView>,
    answers: spec_fn(int) -> RawReply,
)
    ensures
        ({
            let run = run_probes(
                probe_step(gender, first, catalog, Seq::empty()),
                answers,
                catalog.len(),
            );
            &&& run.end is Done
            &&& run.requests.len() <= catalog.len()
            &&& run.requests == requests_upto(gender, catalog, run.requests.len())
        }),
{
    let stop = first_success(catalog.len(), answers, 0);
    lemma_first_success(catalog.len(), answers, 0);
    if stop < catalog.len() {
        lemma_stops_at_first_success(gender, first, catalog, answers, stop);
    } else {
        lemma_exhausts_catalog(gender, first, catalog, answers);
    }
}

/// One success is enough. If the probe of any candidate would succeed, the
/// resolution ends with a last name, however many probes before it fail
/// and in whichever way.
pub proof fn lemma_success_is_found(
    gender: GenderTag,
    first: Seq<char>,
    catalog: Seq<UsageView>,
    answers: spec_fn(int) -> RawReply,
    k: int,
)
    requires
        0 <= k < catalog.len(),
        succeeds(answers, k),
    ensures
        ({
            let run = run_probes(
                probe_step(gender, first, catalog, Seq::empty()),
                answers,
                catalog.len(),
            );
            &&& run.end matches StepView::Done { outcome: Ok(name), .. }
            &&& name.first == first
            &&& name.last is Ok
            &&& run.requests.len() <= k + 1
        }),
{
    let stop = first_success(catalog.len(), answers, 0);
    lemma_first_success(catalog.len(), answers, 0);
    assert(stop <= k);
    lemma_stops_at_first_success(gender, first, catalog, answers, stop);
}

/// The probe order is fixed by the catalog. Two runs over the same catalog
/// whose providers answer alike, probe for probe, make the same requests in
/// the same order and end alike.
pub proof fn lemma_runs_agree(
    gender: GenderTag,
    first: Seq<char>,
    catalog: Seq<UsageView>,
    answers_a: spec_fn(int) -> RawReply,
    answers_b: spec_fn(int) -> RawReply,
)
    requires
        forall|k: int|
            0 <= k < catalog.len() ==> #[trigger] answer_to(answers_a, k) == answer_to(answers_b, k),
    ensures
        run_probes(probe_step(gender, first, catalog, Seq::empty()), answers_a, catalog.len())
            == run_probes(probe_step(gender, first, catalog, Seq::empty()), answers_b, catalog.len()),
{
    let stop = first_success(catalog.len(), answers_a, 0);
    lemma_first_success(catalog.len(), answers_a, 0);
    assert forall|k: int| 0 <= k < catalog.len() implies #[trigger] succeeds(answers_a, k)
        == succeeds(answers_b, k) by {
        assert(answer_to(answers_a, k) == answer_to(answers_b, k));
    }
    assert forall|k: int| 0 <= k < catalog.len() implies #[trigger] succeeds(answers_b, k)
        == succeeds(answers_a, k) by {
        assert(answer_to(answers_a, k) == answer_to(answers_b, k));
    }
    if stop < catalog.len() {
        assert(answer_to(answers_a, stop) == answer_to(answers_b, stop));
    }
    assert(diagnostics_upto(catalog, answers_a, catalog.len()) =~= diagnostics_upto(
        catalog,
        answers_b,
        catalog.len(),
    ));
    if stop < catalog.len() {
        assert(diagnostics_upto(catalog, answers_a, stop as nat) =~= diagnostics_upto(
            catalog,
            answers_b,
            stop as nat,
        ));
        lemma_stops_at_first_success(gender, first, catalog, answers_a, stop);
        lemma_stops_at_first_success(gender, first, catalog, answers_b, stop);
    } else {
        lemma_exhausts_catalog(gender, first, catalog, answers_a);
        lemma_exhausts_catalog(gender, first, catalog, answers_b);
    }
}

} // verus!
