use randomnamecord::resolver::{begin_from_text, ProviderRequest, Step, PACING_MS};
use randomnamecord::text::{join, text_eq};
use randomnamecord::types::{parse_gender, parse_mode, FatalError, GenderTag, GenerationMode};

#[test]
fn gender_filter_texts_are_read() {
    assert_eq!(parse_gender(Some("m")), Ok(GenderTag::Male));
    assert_eq!(parse_gender(Some("f")), Ok(GenderTag::Female));
    assert_eq!(parse_gender(Some("u")), Ok(GenderTag::Unisex));
    assert_eq!(parse_gender(Some("mf")), Ok(GenderTag::Unisex));
    assert_eq!(parse_gender(Some("fm")), Ok(GenderTag::Unisex));
    assert_eq!(parse_gender(Some("Any")), Ok(GenderTag::Any));
}

#[test]
fn absent_gender_filter_means_any() {
    assert_eq!(parse_gender(None), Ok(GenderTag::Any));
}

#[test]
fn malformed_gender_filter_is_rejected() {
    assert_eq!(
        parse_gender(Some("x")),
        Err(FatalError::Input("Unknown gender filter: x".to_string()))
    );
    assert_eq!(
        parse_gender(Some("")),
        Err(FatalError::Input("Unknown gender filter: ".to_string()))
    );
    assert_eq!(
        parse_gender(Some("M")),
        Err(FatalError::Input("Unknown gender filter: M".to_string()))
    );
    assert_eq!(
        parse_gender(Some("male")),
        Err(FatalError::Input("Unknown gender filter: male".to_string()))
    );
}

#[test]
fn mode_texts_are_read() {
    assert_eq!(parse_mode(Some("coherent")), Ok(GenerationMode::Coherent));
    assert_eq!(parse_mode(Some("chaotic")), Ok(GenerationMode::Chaotic));
    assert_eq!(parse_mode(None), Ok(GenerationMode::Coherent));
}

#[test]
fn malformed_mode_is_rejected() {
    assert_eq!(
        parse_mode(Some("Coherent")),
        Err(FatalError::Input("Unknown generation mode: Coherent".to_string()))
    );
    assert_eq!(
        parse_mode(Some("random")),
        Err(FatalError::Input("Unknown generation mode: random".to_string()))
    );
}

#[test]
fn malformed_gender_filter_names_no_call() {
    let out = begin_from_text(Some("q"), Some("coherent"));
    assert_eq!(out, Err(FatalError::Input("Unknown gender filter: q".to_string())));
    let out = begin_from_text(Some("q"), Some("chaotic"));
    assert!(matches!(out, Err(FatalError::Input(_))));
}

#[test]
fn malformed_mode_names_no_call() {
    let out = begin_from_text(Some("m"), Some("orderly"));
    assert_eq!(out, Err(FatalError::Input("Unknown generation mode: orderly".to_string())));
}

#[test]
fn well_formed_texts_start_a_resolution() {
    match begin_from_text(Some("f"), None) {
        Ok(Step::Call { call, .. }) => {
            assert_eq!(call.delay_ms, PACING_MS);
            assert_eq!(call.request, ProviderRequest::RandomByGender { gender: GenderTag::Female });
        }
        other => panic!("unexpected: {:?}", other),
    }
    match begin_from_text(None, Some("chaotic")) {
        Ok(Step::Call { call, .. }) => {
            assert_eq!(
                call.request,
                ProviderRequest::RandomByUsage {
                    gender: GenderTag::Any,
                    usage: None,
                    count: Some(2),
                    exact_usage: true,
                surname: true,
                }
            );
        }
        other => panic!("unexpected: {:?}", other),
    }
}

#[test]
fn text_eq_compares_characters() {
    assert!(text_eq("abc", "abc"));
    assert!(!text_eq("abc", "abd"));
    assert!(!text_eq("abc", "ab"));
    assert!(text_eq("", ""));
}

#[test]
fn join_puts_the_separator_between_items() {
    let none: Vec<String> = vec![];
    assert_eq!(join(&none, "\n"), "");
    assert_eq!(join(&vec!["a".to_string()], "\n"), "a");
    assert_eq!(join(&vec!["a".to_string(), "b".to_string(), "c".to_string()], ", "), "a, b, c");
    assert_eq!(join(&vec!["".to_string(), "".to_string()], "-"), "-");
}
