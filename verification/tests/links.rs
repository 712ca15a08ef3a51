use randomnamecord::links::{
    first_name_hyperlink, first_name_page, first_name_url, hyperlink, last_name_hyperlink,
    last_name_page, last_name_url, lower_normalize, table_is_usable, NormPair,
};

fn table() -> Vec<NormPair> {
    vec![
        NormPair { target: "\u{e9}".to_string(), code: "e10".to_string() },
        NormPair { target: " ".to_string(), code: "00".to_string() },
        NormPair { target: "\u{f8}".to_string(), code: "o13".to_string() },
    ]
}

#[test]
fn hyperlink_wraps_title_and_address() {
    assert_eq!(hyperlink("Ann", "https://x/ann"), "[Ann](https://x/ann)");
    assert_eq!(hyperlink("", ""), "[]()");
}

#[test]
fn normalizing_lowers_the_case() {
    assert_eq!(lower_normalize("ANN", &vec![]), "ann");
    assert_eq!(lower_normalize("\u{c9}va", &vec![]), "\u{e9}va");
}

#[test]
fn normalizing_composes_characters() {
    assert_eq!(lower_normalize("e\u{301}va", &vec![]), "\u{e9}va");
    assert_eq!(lower_normalize("E\u{301}va", &vec![]), "\u{e9}va");
}

#[test]
fn normalizing_replaces_targets_by_codes() {
    assert_eq!(lower_normalize("\u{c9}va", &table()), "e10va");
    assert_eq!(lower_normalize("E\u{301}va", &table()), "e10va");
    assert_eq!(lower_normalize("Mary Ann", &table()), "mary00ann");
    assert_eq!(lower_normalize("S\u{d8}ren", &table()), "so13ren");
    assert_eq!(lower_normalize("ann", &table()), "ann");
    assert_eq!(lower_normalize("", &table()), "");
}

#[test]
fn first_name_address_is_on_the_main_site() {
    assert_eq!(first_name_url("Ann", &table()), "https://www.behindthename.com/name/ann");
    assert_eq!(first_name_url("\u{c9}va", &table()), "https://www.behindthename.com/name/e10va");
}

#[test]
fn last_name_address_is_on_the_surname_site() {
    assert_eq!(last_name_url("Lee", &table()), "https://surnames.behindthename.com/name/lee");
    assert_eq!(
        last_name_url("Van Buren", &table()),
        "https://surnames.behindthename.com/name/van00buren"
    );
}

#[test]
fn name_hyperlinks_keep_the_name_as_title() {
    assert_eq!(
        first_name_hyperlink("\u{c9}va", &table()),
        "[\u{c9}va](https://www.behindthename.com/name/e10va)"
    );
    assert_eq!(
        last_name_hyperlink("Lee", &table()),
        "[Lee](https://surnames.behindthename.com/name/lee)"
    );
}

#[test]
fn pages_of_names_written_for_a_link() {
    assert_eq!(first_name_page("e10va"), "https://www.behindthename.com/name/e10va");
    assert_eq!(last_name_page("van00buren"), "https://surnames.behindthename.com/name/van00buren");
    assert_eq!(first_name_page(""), "https://www.behindthename.com/name/");
}

#[test]
fn table_without_empty_target_is_usable() {
    assert!(table_is_usable(&vec![]));
    assert!(table_is_usable(&table()));
    assert!(table_is_usable(&vec![NormPair { target: "a".to_string(), code: "".to_string() }]));
}

#[test]
fn table_with_an_empty_target_is_not_usable() {
    assert!(!table_is_usable(&vec![NormPair { target: "".to_string(), code: "x".to_string() }]));
    assert!(!table_is_usable(&vec![
        NormPair { target: "a".to_string(), code: "b".to_string() },
        NormPair { target: "".to_string(), code: "x".to_string() },
    ]));
}
