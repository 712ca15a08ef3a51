use randomnamecord::links::NormPair;
use randomnamecord::message::{
    about_candidates, about_message, an_error_occurred, get_name_vector, linked_name_message,
    name_message, no_last_name, EmbedField, MessageContent, MessageEmbed,
};
use randomnamecord::types::{FatalError, ResolutionError, ResolvedName};

fn table() -> Vec<NormPair> {
    vec![NormPair { target: " ".to_string(), code: "00".to_string() }]
}

fn field(name: &str, value: &str) -> EmbedField {
    EmbedField { name: name.to_string(), value: value.to_string(), inline: true }
}

fn embed(fields: Vec<EmbedField>) -> Option<MessageEmbed> {
    Some(MessageEmbed { title: "BehindTheName".to_string(), fields })
}

fn strings(list: &[&str]) -> Vec<String> {
    list.iter().map(|s| s.to_string()).collect()
}

#[test]
fn mononym_text_hides_the_reason() {
    assert_eq!(
        no_last_name("0 Usages"),
        "\n\nThis name is a mononym. Pretend you're Cher. Or Zeus.\n\n||0 Usages||"
    );
}

#[test]
fn error_text_hides_the_reason() {
    assert_eq!(an_error_occurred("No name fetched"), "An error occurred.\n\n||No name fetched||");
}

#[test]
fn full_name_message_links_both_names() {
    let outcome = Ok(ResolvedName { first: "Kazimir".to_string(), last: Ok("Ivanov".to_string()) });
    assert_eq!(
        name_message(&outcome, &table()),
        MessageContent {
            content: "Kazimir Ivanov".to_string(),
            embed: embed(vec![
                field("First Name", "[Kazimir](https://www.behindthename.com/name/kazimir)"),
                field("Last Name", "[Ivanov](https://surnames.behindthename.com/name/ivanov)"),
            ]),
        }
    );
}

#[test]
fn mononym_message_links_the_first_name_only() {
    let outcome = Ok(ResolvedName {
        first: "Cher".to_string(),
        last: Err(ResolutionError { message: "no last name found".to_string(), attempts: 1 }),
    });
    assert_eq!(
        name_message(&outcome, &table()),
        MessageContent {
            content: "Cher \n\nThis name is a mononym. Pretend you're Cher. Or Zeus.\n\n||no last name found||"
                .to_string(),
            embed: embed(vec![field("First Name", "[Cher](https://www.behindthename.com/name/cher)")]),
        }
    );
}

#[test]
fn fatal_error_message_has_no_embed() {
    let provider = Err(FatalError::Provider("At first name request: governed".to_string()));
    assert_eq!(
        name_message(&provider, &table()),
        MessageContent {
            content: "An error occurred.\n\n||At first name request: governed||".to_string(),
            embed: None,
        }
    );
    let input = Err(FatalError::Input("Unknown gender filter: x".to_string()));
    assert_eq!(
        name_message(&input, &table()),
        MessageContent {
            content: "An error occurred.\n\n||Unknown gender filter: x||".to_string(),
            embed: None,
        }
    );
}

#[test]
fn given_name_wins_over_the_nickname() {
    assert_eq!(get_name_vector(Some("Mary Ann  Lee"), Some("Nick")), strings(&["Mary", "Ann", "Lee"]));
    assert_eq!(get_name_vector(None, Some(" Nick\tName\n")), strings(&["Nick", "Name"]));
    assert_eq!(get_name_vector(None, None), strings(&[]));
    assert_eq!(get_name_vector(Some("   "), Some("Nick")), strings(&[]));
}

#[test]
fn last_of_several_names_is_tried_as_a_last_name_first() {
    assert_eq!(about_candidates(&strings(&[]), &table()), Vec::<Vec<String>>::new());
    assert_eq!(
        about_candidates(&strings(&["Ann"]), &table()),
        vec![strings(&["https://www.behindthename.com/name/ann"])]
    );
    assert_eq!(
        about_candidates(&strings(&["Ann", "Bea", "Lee"]), &table()),
        vec![
            strings(&["https://www.behindthename.com/name/ann"]),
            strings(&["https://www.behindthename.com/name/bea"]),
            strings(&[
                "https://surnames.behindthename.com/name/lee",
                "https://www.behindthename.com/name/lee"
            ]),
        ]
    );
}

#[test]
fn about_nothing_says_so() {
    assert_eq!(
        about_message(&strings(&[]), &vec![]),
        MessageContent { content: "No name found".to_string(), embed: None }
    );
}

#[test]
fn about_one_name() {
    assert_eq!(
        about_message(&strings(&["Ann"]), &vec![Some("u".to_string())]),
        MessageContent {
            content: "Ann".to_string(),
            embed: embed(vec![field("First Name", "[Ann](u)")]),
        }
    );
    assert_eq!(
        about_message(&strings(&["Ann"]), &vec![None]),
        MessageContent { content: "Name Ann not found.".to_string(), embed: None }
    );
}

#[test]
fn about_several_names_labels_first_middle_and_last() {
    let names = strings(&["Ann", "Bea", "Cyd", "Lee"]);
    let all = vec![
        Some("a".to_string()),
        Some("b".to_string()),
        Some("c".to_string()),
        Some("l".to_string()),
    ];
    assert_eq!(
        about_message(&names, &all),
        MessageContent {
            content: "Ann Bea Cyd Lee".to_string(),
            embed: embed(vec![
                field("First Name", "[Ann](a)"),
                field("Middle Name", "[Bea](b)"),
                field("Middle Name", "[Cyd](c)"),
                field("Last Name", "[Lee](l)"),
            ]),
        }
    );
    let some = vec![None, Some("b".to_string()), None, Some("l".to_string())];
    assert_eq!(
        about_message(&names, &some),
        MessageContent {
            content: "Ann Bea Cyd Lee".to_string(),
            embed: embed(vec![field("First Name", "[Bea](b)"), field("Last Name", "[Lee](l)")]),
        }
    );
    let one = vec![None, None, Some("c".to_string()), None];
    assert_eq!(
        about_message(&names, &one),
        MessageContent {
            content: "Ann Bea Cyd Lee".to_string(),
            embed: embed(vec![field("First Name", "[Cyd](c)")]),
        }
    );
    let none = vec![None, None, None, None];
    assert_eq!(
        about_message(&names, &none),
        MessageContent { content: "No names found.".to_string(), embed: None }
    );
}

#[test]
fn about_ignores_what_goes_beyond_the_shorter_list() {
    let names = strings(&["Ann", "Lee"]);
    assert_eq!(
        about_message(&names, &vec![Some("a".to_string())]),
        MessageContent {
            content: "Ann Lee".to_string(),
            embed: embed(vec![field("First Name", "[Ann](a)")]),
        }
    );
    assert_eq!(
        about_message(&names, &vec![]),
        MessageContent { content: "No names found.".to_string(), embed: None }
    );
}

#[test]
fn message_with_given_addresses() {
    let full = Ok(ResolvedName { first: "Ann".to_string(), last: Ok("Lee".to_string()) });
    assert_eq!(
        linked_name_message(&full, "f", "l"),
        MessageContent {
            content: "Ann Lee".to_string(),
            embed: embed(vec![field("First Name", "[Ann](f)"), field("Last Name", "[Lee](l)")]),
        }
    );
    let mononym = Ok(ResolvedName {
        first: "Ann".to_string(),
        last: Err(ResolutionError { message: "0 Usages".to_string(), attempts: 0 }),
    });
    assert_eq!(
        linked_name_message(&mononym, "f", "l"),
        MessageContent {
            content: "Ann \n\nThis name is a mononym. Pretend you're Cher. Or Zeus.\n\n||0 Usages||"
                .to_string(),
            embed: embed(vec![field("First Name", "[Ann](f)")]),
        }
    );
    let fatal = Err(FatalError::Provider("No name fetched".to_string()));
    assert_eq!(
        linked_name_message(&fatal, "f", "l"),
        MessageContent {
            content: "An error occurred.\n\n||No name fetched||".to_string(),
            embed: None,
        }
    );
}
