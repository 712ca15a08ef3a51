use rand::rngs::StdRng;
use rand::SeedableRng;
use randomnamecord::aggregator::ErrorAggregator;
use randomnamecord::reply::{Payload, RawReply};
use randomnamecord::resolver::{
    advance, after_first_name, after_pair, after_probe, begin, begin_with_name, continue_probing,
    finish, given_names, resolve_gender, start_probing, Pending, ProviderCall, ProviderRequest, Step, PACING_MS,
};
use randomnamecord::rewrite::RewriteTable;
use randomnamecord::types::{FatalError, GenderTag, GenerationMode, ResolutionError, ResolvedName};
use randomnamecord::usage::UsageRecord;

fn names(list: &[&str]) -> RawReply {
    RawReply::Allowed(Payload::NameList(list.iter().map(|s| s.to_string()).collect()))
}

fn lookup(usages: Vec<UsageRecord>) -> RawReply {
    RawReply::Allowed(Payload::NameDetails(vec![usages]))
}

fn usage(code: &str, gender: GenderTag) -> UsageRecord {
    UsageRecord::new(code, gender, code)
}

fn done(outcome: Result<ResolvedName, FatalError>) -> Step {
    Step::Done { outcome, discarded: vec![] }
}

fn usage_of(request: &ProviderRequest) -> String {
    match request {
        ProviderRequest::RandomByUsage { usage: Some(code), .. } => code.clone(),
        other => panic!("not a probe: {:?}", other),
    }
}

/// Runs a resolution to its end against a provider given as a function,
/// and returns the outcome with the requests that were made.
fn drive(
    start: Step,
    provider: &mut dyn FnMut(&ProviderRequest) -> RawReply,
    seed: u64,
) -> (Result<ResolvedName, FatalError>, Vec<ProviderRequest>) {
    let (outcome, requests, _) = drive_all(start, provider, seed);
    (outcome, requests)
}

/// As `drive`, with the diagnostics that the final step set aside.
fn drive_all(
    start: Step,
    provider: &mut dyn FnMut(&ProviderRequest) -> RawReply,
    seed: u64,
) -> (Result<ResolvedName, FatalError>, Vec<ProviderRequest>, Vec<String>) {
    let table = RewriteTable::canonical();
    let mut rng = StdRng::seed_from_u64(seed);
    let mut requests = vec![];
    let mut step = start;
    loop {
        match step {
            Step::Done { outcome, discarded } => return (outcome, requests, discarded),
            Step::Call { pending, call } => {
                assert_eq!(call.delay_ms, 550);
                let reply = provider(&call.request);
                requests.push(call.request);
                step = advance(pending, reply, &table, &mut rng);
            }
        }
    }
}

#[test]
fn finish_sets_nothing_aside() {
    let outcome = Err(FatalError::Provider("x".to_string()));
    assert_eq!(
        finish(outcome),
        Step::Done { outcome: Err(FatalError::Provider("x".to_string())), discarded: vec![] }
    );
}

#[test]
fn surname_counts_among_the_names_asked_for() {
    assert_eq!(given_names(Some(2), true), Some(1));
    assert_eq!(given_names(Some(3), true), Some(2));
    assert_eq!(given_names(Some(1), true), Some(1));
    assert_eq!(given_names(Some(0), true), Some(0));
    assert_eq!(given_names(Some(2), false), Some(2));
    assert_eq!(given_names(Some(1), false), Some(1));
    assert_eq!(given_names(Some(255), true), Some(254));
    assert_eq!(given_names(None, true), None);
    assert_eq!(given_names(None, false), None);
}

#[test]
fn pacing_delay_is_550_ms() {
    assert_eq!(PACING_MS, 550);
}

#[test]
fn first_name_call_carries_the_requested_gender() {
    for gender in [GenderTag::Male, GenderTag::Female, GenderTag::Unisex, GenderTag::Any] {
        assert_eq!(
            begin(GenerationMode::Coherent, gender),
            Step::Call {
                pending: Pending::FirstName { gender },
                call: ProviderCall {
                    delay_ms: 550,
                    request: ProviderRequest::RandomByGender { gender },
                },
            }
        );
    }
}

#[test]
fn chaotic_mode_asks_for_both_names_at_once() {
    for gender in [GenderTag::Male, GenderTag::Female, GenderTag::Unisex, GenderTag::Any] {
        assert_eq!(
            begin(GenerationMode::Chaotic, gender),
            Step::Call {
                pending: Pending::Pair { gender },
                call: ProviderCall {
                    delay_ms: 550,
                    request: ProviderRequest::RandomByUsage {
                        gender,
                        usage: None,
                        count: Some(2),
                        exact_usage: true,
                surname: true,
                    },
                },
            }
        );
    }
}

#[test]
fn effective_gender_prefers_the_request() {
    assert_eq!(resolve_gender(GenderTag::Any, GenderTag::Female), GenderTag::Female);
    assert_eq!(resolve_gender(GenderTag::Any, GenderTag::Any), GenderTag::Any);
    assert_eq!(resolve_gender(GenderTag::Male, GenderTag::Female), GenderTag::Male);
    assert_eq!(resolve_gender(GenderTag::Unisex, GenderTag::Male), GenderTag::Unisex);
    assert_eq!(resolve_gender(GenderTag::Female, GenderTag::Any), GenderTag::Female);
}

#[test]
fn known_first_name_goes_straight_to_the_lookup() {
    assert_eq!(
        begin_with_name("Kazimir".to_string(), GenderTag::Male),
        Step::Call {
            pending: Pending::Usages { gender: GenderTag::Male, first: "Kazimir".to_string() },
            call: ProviderCall {
                delay_ms: 550,
                request: ProviderRequest::Usages { name: "Kazimir".to_string() },
            },
        }
    );
}

#[test]
fn empty_first_name_is_refused() {
    assert_eq!(
        begin_with_name(String::new(), GenderTag::Any),
        done(Err(FatalError::Input("Empty first name".to_string())))
    );
}

#[test]
fn first_name_reply_leads_to_the_lookup() {
    assert_eq!(
        after_first_name(GenderTag::Any, names(&["Ann", "Bea"])),
        Step::Call {
            pending: Pending::Usages { gender: GenderTag::Any, first: "Ann".to_string() },
            call: ProviderCall {
                delay_ms: 550,
                request: ProviderRequest::Usages { name: "Ann".to_string() },
            },
        }
    );
}

#[test]
fn failed_first_name_fetch_is_fatal() {
    let fatal = |m: &str| done(Err(FatalError::Provider(m.to_string())));
    assert_eq!(
        after_first_name(GenderTag::Male, lookup(vec![])),
        fatal("At first name request: parsing issue")
    );
    assert_eq!(
        after_first_name(GenderTag::Male, names(&[])),
        fatal("At first name request: parsing issue")
    );
    assert_eq!(
        after_first_name(GenderTag::Male, RawReply::Failed("limit".to_string())),
        fatal("At first name request: limit")
    );
    assert_eq!(
        after_first_name(
            GenderTag::Male,
            RawReply::Governed("Second".to_string(), "wait".to_string())
        ),
        fatal("At first name request: governed")
    );
    assert_eq!(
        after_first_name(GenderTag::Male, RawReply::Transport("no route".to_string())),
        fatal("At first name request: no route")
    );
}

#[test]
fn failed_first_name_fetch_makes_no_further_call() {
    let mut provider = |_: &ProviderRequest| RawReply::Failed("limit".to_string());
    let (outcome, requests) =
        drive(begin(GenerationMode::Coherent, GenderTag::Female), &mut provider, 1);
    assert_eq!(outcome, Err(FatalError::Provider("At first name request: limit".to_string())));
    assert_eq!(requests, vec![ProviderRequest::RandomByGender { gender: GenderTag::Female }]);
}

#[test]
fn governed_usage_is_skipped_and_the_next_succeeds() {
    let mut provider = |request: &ProviderRequest| match request {
        ProviderRequest::Usages { name } => {
            assert_eq!(name, "Kazimir");
            lookup(vec![usage("pol", GenderTag::Male), usage("rus", GenderTag::Male)])
        }
        ProviderRequest::RandomByUsage { usage: Some(code), .. } if code == "rus" => {
            names(&["Ivanov"])
        }
        _ => RawReply::Governed("Second".to_string(), "wait".to_string()),
    };
    for seed in 0..8 {
        let (outcome, requests) =
            drive(begin_with_name("Kazimir".to_string(), GenderTag::Male), &mut provider, seed);
        assert_eq!(
            outcome,
            Ok(ResolvedName { first: "Kazimir".to_string(), last: Ok("Ivanov".to_string()) })
        );
        assert!(requests.len() == 2 || requests.len() == 3);
        assert_eq!(usage_of(requests.last().unwrap()), "rus");
    }
}

#[test]
fn failing_both_candidates_joins_both_diagnostics() {
    let mut provider = |request: &ProviderRequest| match request {
        ProviderRequest::RandomByGender { .. } => names(&["Sigrid"]),
        ProviderRequest::Usages { .. } => lookup(vec![usage("gmc-x", GenderTag::Female)]),
        ProviderRequest::RandomByUsage { usage: Some(code), .. } if code == "ger" => {
            RawReply::Transport("no route".to_string())
        }
        _ => RawReply::Failed("limit".to_string()),
    };
    let (outcome, requests) =
        drive(begin(GenerationMode::Coherent, GenderTag::Any), &mut provider, 3);
    assert_eq!(
        outcome,
        Ok(ResolvedName {
            first: "Sigrid".to_string(),
            last: Err(ResolutionError {
                message: "At last name request for usage gmc-x: limit\nAt last name request for usage ger: no route"
                    .to_string(),
                attempts: 2,
            }),
        })
    );
    assert_eq!(
        requests,
        vec![
            ProviderRequest::RandomByGender { gender: GenderTag::Any },
            ProviderRequest::Usages { name: "Sigrid".to_string() },
            ProviderRequest::RandomByUsage {
                gender: GenderTag::Female,
                usage: Some("gmc-x".to_string()),
                count: Some(1),
                exact_usage: true,
                surname: true,
            },
            ProviderRequest::RandomByUsage {
                gender: GenderTag::Female,
                usage: Some("ger".to_string()),
                count: Some(1),
                exact_usage: true,
                surname: true,
            },
        ]
    );
}

#[test]
fn empty_lookup_ends_without_a_probe() {
    let mut provider = |request: &ProviderRequest| match request {
        ProviderRequest::RandomByGender { .. } => names(&["Ann"]),
        ProviderRequest::Usages { .. } => lookup(vec![]),
        other => panic!("unexpected call: {:?}", other),
    };
    let (outcome, requests) =
        drive(begin(GenerationMode::Coherent, GenderTag::Male), &mut provider, 3);
    assert_eq!(
        outcome,
        Ok(ResolvedName {
            first: "Ann".to_string(),
            last: Err(ResolutionError { message: "0 Usages".to_string(), attempts: 0 }),
        })
    );
    assert_eq!(requests.len(), 2);
}

#[test]
fn failed_lookup_ends_as_a_mononym_without_attempts() {
    let mut provider = |request: &ProviderRequest| match request {
        ProviderRequest::Usages { .. } => RawReply::Failed("limit".to_string()),
        other => panic!("unexpected call: {:?}", other),
    };
    let (outcome, requests) =
        drive(begin_with_name("Ann".to_string(), GenderTag::Male), &mut provider, 3);
    assert_eq!(
        outcome,
        Ok(ResolvedName {
            first: "Ann".to_string(),
            last: Err(ResolutionError {
                message: "At usage request: limit".to_string(),
                attempts: 0
            }),
        })
    );
    assert_eq!(requests.len(), 1);
    let mut mismatching = |_: &ProviderRequest| names(&["Ann"]);
    let (outcome, _) =
        drive(begin_with_name("Ann".to_string(), GenderTag::Male), &mut mismatching, 3);
    assert_eq!(
        outcome,
        Ok(ResolvedName {
            first: "Ann".to_string(),
            last: Err(ResolutionError {
                message: "At usage request: parsing issue".to_string(),
                attempts: 0
            }),
        })
    );
}

#[test]
fn probing_stops_at_the_first_success() {
    let catalog = vec![
        usage("a", GenderTag::Male),
        usage("b", GenderTag::Female),
        usage("c", GenderTag::Male),
        usage("d", GenderTag::Male),
    ];
    let mut provider = |request: &ProviderRequest| match usage_of(request).as_str() {
        "a" => RawReply::Failed("limit".to_string()),
        "b" => lookup(vec![]),
        "c" => names(&["Given", "Family"]),
        other => panic!("probed past the success: {}", other),
    };
    let (outcome, requests) =
        drive(start_probing(GenderTag::Any, "Ann".to_string(), catalog), &mut provider, 0);
    assert_eq!(
        outcome,
        Ok(ResolvedName { first: "Ann".to_string(), last: Ok("Family".to_string()) })
    );
    assert_eq!(
        requests,
        vec![
            ProviderRequest::RandomByUsage {
                gender: GenderTag::Male,
                usage: Some("a".to_string()),
                count: Some(1),
                exact_usage: true,
                surname: true,
            },
            ProviderRequest::RandomByUsage {
                gender: GenderTag::Female,
                usage: Some("b".to_string()),
                count: Some(1),
                exact_usage: true,
                surname: true,
            },
            ProviderRequest::RandomByUsage {
                gender: GenderTag::Male,
                usage: Some("c".to_string()),
                count: Some(1),
                exact_usage: true,
                surname: true,
            },
        ]
    );
}

#[test]
fn probing_makes_at_most_one_call_per_candidate() {
    let catalog: Vec<UsageRecord> =
        (0..6).map(|i| usage(&format!("u{}", i), GenderTag::Male)).collect();
    let mut provider = |_: &ProviderRequest| RawReply::Transport("down".to_string());
    let (outcome, requests) =
        drive(start_probing(GenderTag::Female, "Ann".to_string(), catalog), &mut provider, 0);
    assert_eq!(requests.len(), 6);
    for (i, request) in requests.iter().enumerate() {
        assert_eq!(
            *request,
            ProviderRequest::RandomByUsage {
                gender: GenderTag::Female,
                usage: Some(format!("u{}", i)),
                count: Some(1),
                exact_usage: true,
                surname: true,
            }
        );
    }
    match outcome {
        Ok(ResolvedName { first, last: Err(e) }) => {
            assert_eq!(first, "Ann");
            assert_eq!(e.attempts, 6);
            assert_eq!(e.message.lines().count(), 6);
            assert_eq!(e.message.lines().next(), Some("At last name request for usage u0: down"));
        }
        other => panic!("unexpected: {:?}", other),
    }
}

#[test]
fn diagnostics_before_a_success_are_set_aside() {
    let catalog = vec![usage("a", GenderTag::Male), usage("b", GenderTag::Male)];
    let mut provider = |request: &ProviderRequest| match usage_of(request).as_str() {
        "a" => RawReply::Failed("limit".to_string()),
        _ => names(&["Last"]),
    };
    let (outcome, requests, discarded) =
        drive_all(start_probing(GenderTag::Male, "Ann".to_string(), catalog), &mut provider, 0);
    assert_eq!(outcome, Ok(ResolvedName { first: "Ann".to_string(), last: Ok("Last".to_string()) }));
    assert_eq!(requests.len(), 2);
    assert_eq!(discarded, vec!["At last name request for usage a: limit".to_string()]);
}

#[test]
fn exhausted_probing_sets_nothing_aside() {
    let catalog = vec![usage("a", GenderTag::Male)];
    let mut provider = |_: &ProviderRequest| RawReply::Failed("limit".to_string());
    let (outcome, _, discarded) =
        drive_all(start_probing(GenderTag::Male, "Ann".to_string(), catalog), &mut provider, 0);
    assert!(matches!(outcome, Ok(ResolvedName { last: Err(_), .. })));
    assert_eq!(discarded, Vec::<String>::new());
}

#[test]
fn one_success_is_found_behind_any_failures() {
    let catalog: Vec<UsageRecord> =
        (0..5).map(|i| usage(&format!("u{}", i), GenderTag::Male)).collect();
    let mut provider = |request: &ProviderRequest| match usage_of(request).as_str() {
        "u0" => lookup(vec![]),
        "u1" => RawReply::Failed("limit".to_string()),
        "u2" => RawReply::Governed("Hour".to_string(), "later".to_string()),
        "u3" => RawReply::Transport("down".to_string()),
        _ => names(&["Last"]),
    };
    let (outcome, requests) =
        drive(start_probing(GenderTag::Male, "Ann".to_string(), catalog), &mut provider, 0);
    assert_eq!(outcome, Ok(ResolvedName { first: "Ann".to_string(), last: Ok("Last".to_string()) }));
    assert_eq!(requests.len(), 5);
}

#[test]
fn same_seed_and_same_provider_give_the_same_probe_order() {
    let usages: Vec<UsageRecord> =
        (0..10).map(|i| usage(&format!("u{}", i), GenderTag::Male)).collect();
    let run = |seed: u64| {
        let list = usages.clone();
        let mut provider = move |request: &ProviderRequest| match request {
            ProviderRequest::Usages { .. } => lookup(list.clone()),
            _ => RawReply::Failed("limit".to_string()),
        };
        drive(begin_with_name("Ann".to_string(), GenderTag::Male), &mut provider, seed)
    };
    let (first_outcome, first_requests) = run(5);
    let (second_outcome, second_requests) = run(5);
    assert_eq!(first_requests, second_requests);
    assert_eq!(first_outcome, second_outcome);
    assert_eq!(first_requests.len(), 11);
}

#[test]
fn diagnostics_of_each_failure_kind_at_a_probe() {
    let catalog = || vec![usage("pol", GenderTag::Male)];
    let probe = |raw: RawReply| {
        after_probe(GenderTag::Male, "Ann".to_string(), catalog(), ErrorAggregator::new(), raw)
    };
    let failed = |m: &str| {
        done(Ok(ResolvedName {
            first: "Ann".to_string(),
            last: Err(ResolutionError { message: m.to_string(), attempts: 1 }),
        }))
    };
    assert_eq!(probe(lookup(vec![])), failed("At last name request for usage pol: parsing error"));
    assert_eq!(probe(names(&[])), failed("At last name request for usage pol: parsing error"));
    assert_eq!(
        probe(RawReply::Failed("limit".to_string())),
        failed("At last name request for usage pol: limit")
    );
    assert_eq!(
        probe(RawReply::Governed("Day".to_string(), "later".to_string())),
        failed("At last name request for usage pol: governed")
    );
    assert_eq!(
        probe(RawReply::Transport("down".to_string())),
        failed("At last name request for usage pol: down")
    );
    assert_eq!(
        probe(names(&["Nowak"])),
        done(Ok(ResolvedName { first: "Ann".to_string(), last: Ok("Nowak".to_string()) }))
    );
}

#[test]
fn reply_without_a_pending_candidate_ends_the_resolution() {
    let mut failures = ErrorAggregator::new();
    failures.record("one".to_string());
    let out = after_probe(
        GenderTag::Male,
        "Ann".to_string(),
        vec![usage("pol", GenderTag::Male)],
        failures,
        names(&["Nowak"]),
    );
    assert_eq!(
        out,
        done(Ok(ResolvedName {
            first: "Ann".to_string(),
            last: Err(ResolutionError { message: "one".to_string(), attempts: 1 }),
        }))
    );
}

#[test]
fn continue_probing_names_the_next_candidate() {
    let catalog = vec![usage("a", GenderTag::Male), usage("b", GenderTag::Female)];
    let mut failures = ErrorAggregator::new();
    failures.record("one".to_string());
    match continue_probing(GenderTag::Any, "Ann".to_string(), catalog, failures) {
        Step::Call { call, .. } => assert_eq!(
            call.request,
            ProviderRequest::RandomByUsage {
                gender: GenderTag::Female,
                usage: Some("b".to_string()),
                count: Some(1),
                exact_usage: true,
                surname: true,
            }
        ),
        other => panic!("unexpected: {:?}", other),
    }
}

#[test]
fn chaotic_pair_yields_both_names() {
    assert_eq!(
        after_pair(names(&["Ann", "Lee"])),
        done(Ok(ResolvedName { first: "Ann".to_string(), last: Ok("Lee".to_string()) }))
    );
    let mut provider = |_: &ProviderRequest| names(&["Ann", "Lee"]);
    let (outcome, requests) =
        drive(begin(GenerationMode::Chaotic, GenderTag::Unisex), &mut provider, 0);
    assert_eq!(outcome, Ok(ResolvedName { first: "Ann".to_string(), last: Ok("Lee".to_string()) }));
    assert_eq!(requests.len(), 1);
}

#[test]
fn chaotic_single_name_is_a_mononym() {
    assert_eq!(
        after_pair(names(&["Cher"])),
        done(Ok(ResolvedName {
            first: "Cher".to_string(),
            last: Err(ResolutionError {
                message: "no last name found".to_string(),
                attempts: 1
            }),
        }))
    );
}

#[test]
fn chaotic_wrong_count_is_fatal() {
    assert_eq!(
        after_pair(names(&[])),
        done(Err(FatalError::Provider("No name fetched".to_string())))
    );
    assert_eq!(
        after_pair(names(&["a", "b", "c"])),
        done(Err(FatalError::Provider("Too many names fetched".to_string())))
    );
    assert_eq!(
        after_pair(names(&["", "b"])),
        done(Err(FatalError::Provider("No name fetched".to_string())))
    );
}

#[test]
fn chaotic_failure_is_fatal() {
    assert_eq!(
        after_pair(RawReply::Failed("limit".to_string())),
        done(Err(FatalError::Provider("At first name request: limit".to_string())))
    );
    assert_eq!(
        after_pair(lookup(vec![])),
        done(Err(FatalError::Provider("At first name request: parsing issue".to_string())))
    );
    assert_eq!(
        after_pair(RawReply::Governed("Second".to_string(), "wait".to_string())),
        done(Err(FatalError::Provider("At first name request: governed".to_string())))
    );
}
