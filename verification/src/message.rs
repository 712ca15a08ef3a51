//! The messages that report a resolution or the pages of a name.

use vstd::prelude::*;
use crate::links::{
    first_name_address,
    first_name_url,
    hyperlink,
    hyperlink_text,
    last_name_address,
    last_name_url,
    targets_usable,
    NormPair,
};
use crate::text::{join, joined, optional_texts, texts};
use crate::types::{FatalError, FatalView, NameView, ResolvedName};

verus! {

/// One titled entry of an embed.
#[derive(Clone, Debug, PartialEq, Eq)]
pub struct EmbedField {
    pub name: String,
    pub value: String,
    pub inline: bool,
}

/// An embed field as a mathematical value.
pub ghost struct FieldView {
    pub name: Seq<char>,
    pub value: Seq<char>,
    pub inline: bool,
}

impl View for EmbedField {
    type V = FieldView;

    open spec fn view(&self) -> FieldView {
        FieldView { name: self.name@, value: self.value@, inline: self.inline }
    }
}

/// The structured part of a message.
#[derive(Clone, Debug, PartialEq, Eq)]
pub struct MessageEmbed {
    pub title: String,
    pub fields: Vec<EmbedField>,
}

/// An embed as a mathematical value.
pub ghost struct EmbedView {
    pub title: Seq<char>,
    pub fields: Seq<FieldView>,
}

impl View for MessageEmbed {
    type V = EmbedView;

    open spec fn view(&self) -> EmbedView {
        EmbedView { title: self.title@, fields: self.fields@.map_values(|f: EmbedField| f@) }
    }
}

/// A message: its text and, if it has one, its embed.
#[derive(Debug, PartialEq, Eq)]
pub struct MessageContent {
    pub content: String,
    pub embed: Option<MessageEmbed>,
}

/// A message as a mathematical value.
pub ghost struct MessageView {
    pub content: Seq<char>,
    pub embed: Option<EmbedView>,
}

impl View for MessageContent {
    type V = MessageView;

    open spec fn view(&self) -> MessageView {
        MessageView {
            content: self.content@,
            embed: match self.embed {
                Some(e) => Some(e@),
                None => None,
            },
        }
    }
}

/// What `str::split_whitespace` cuts `text` into: its words, in order.
pub uninterp spec fn whitespace_words(text: Seq<char>) -> Seq<Seq<char>>;

/// Calls `str::split_whitespace` and collects the words as strings. Not
/// proved: the words are taken to be a function of the text alone, named
/// `whitespace_words`.
#[verifier::external_body]
fn split_words(text: &str) -> (out: Vec<String>)
    ensures
        texts(out@) == whitespace_words(text@),
{
    text.split_whitespace().map(|s| s.to_owned()).collect()
}

/// The text that stands in for a last name that was not found.
pub open spec fn no_last_name_text(err: Seq<char>) -> Seq<char> {
    "\n\nThis name is a mononym. Pretend you're Cher. Or Zeus.\n\n||"@ + err + "||"@
}

/// The text that reports a fatal error.
pub open spec fn error_text(err: Seq<char>) -> Seq<char> {
    "An error occurred.\n\n||"@ + err + "||"@
}

/// The text of a resolved name: first name, a space, and the last name or
/// what stands in for it.
pub open spec fn full_name_text(name: NameView) -> Seq<char> {
    name.first + " "@ + match name.last {
        Ok(last) => last,
        Err(e) => no_last_name_text(e.message),
    }
}

/// The title of every embed.
pub open spec fn embed_title() -> Seq<char> {
    "BehindTheName"@
}

/// A field that is shown inline.
pub open spec fn inline_field(name: Seq<char>, value: Seq<char>) -> FieldView {
    FieldView { name, value, inline: true }
}

/// The fields of a resolved name whose pages are at the given addresses: a
/// link for the first name and, if there is a last name, one for it.
pub open spec fn name_fields(name: NameView, first_url: Seq<char>, last_url: Seq<char>) -> Seq<
    FieldView,
> {
    let first = inline_field("First Name"@, hyperlink_text(name.first, first_url));
    match name.last {
        Ok(last) => seq![first, inline_field("Last Name"@, hyperlink_text(last, last_url))],
        Err(_) => seq![first],
    }
}

/// The message that reports the outcome of a resolution, with the pages of
/// the names at the given addresses.
pub open spec fn linked_message(
    outcome: Result<NameView, FatalView>,
    first_url: Seq<char>,
    last_url: Seq<char>,
) -> MessageView {
    match outcome {
        Ok(name) => MessageView {
            content: full_name_text(name),
            embed: Some(
                EmbedView { title: embed_title(), fields: name_fields(name, first_url, last_url) },
            ),
        },
        Err(FatalView::Input(m)) => MessageView { content: error_text(m), embed: None },
        Err(FatalView::Provider(m)) => MessageView { content: error_text(m), embed: None },
    }
}

/// The message that reports the outcome of a resolution.
pub open spec fn outcome_message(outcome: Result<NameView, FatalView>, table: Seq<NormPair>)
    -> MessageView {
    match outcome {
        Ok(name) => linked_message(
            outcome,
            first_name_address(name.first, table),
            match name.last {
                Ok(last) => last_name_address(last, table),
                Err(_) => Seq::empty(),
            },
        ),
        Err(_) => linked_message(outcome, Seq::empty(), Seq::empty()),
    }
}

/// The names to look up: the words of the given name or, without one, of
/// the nickname.
pub open spec fn chosen_words(name: Option<&str>, nick: Option<&str>) -> Seq<Seq<char>> {
    match (name, nick) {
        (Some(n), _) => whitespace_words(n@),
        (None, Some(n)) => whitespace_words(n@),
        (None, None) => Seq::empty(),
    }
}

/// The names with a page, each with the address of its page, among the
/// first `k` names: name `i` has a page if `urls[i]` holds its address.
pub open spec fn found_upto(names: Seq<Seq<char>>, urls: Seq<Option<Seq<char>>>, k: int) -> Seq<
    (Seq<char>, Seq<char>),
>
    decreases k,
{
    if k <= 0 || k > names.len() || k > urls.len() {
        Seq::empty()
    } else {
        let before = found_upto(names, urls, k - 1);
        match urls[k - 1] {
            Some(url) => before.push((names[k - 1], url)),
            None => before,
        }
    }
}

/// All names with a page, as far as both lists go.
pub open spec fn found_pages(names: Seq<Seq<char>>, urls: Seq<Option<Seq<char>>>) -> Seq<
    (Seq<char>, Seq<char>),
> {
    found_upto(names, urls, if names.len() <= urls.len() { names.len() as int } else {
        urls.len() as int
    })
}

/// The title of the field at place `i` of `n`: the first is the first name,
/// the last of several the last name, and the others are middle names.
pub open spec fn field_label(i: int, n: int) -> Seq<char> {
    if i == 0 {
        "First Name"@
    } else if i == n - 1 {
        "Last Name"@
    } else {
        "Middle Name"@
    }
}

/// The fields of the names with a page.
pub open spec fn page_fields(found: Seq<(Seq<char>, Seq<char>)>) -> Seq<FieldView> {
    Seq::new(
        found.len(),
        |i: int| inline_field(field_label(i, found.len() as int), hyperlink_text(found[i].0, found[i].1)),
    )
}

/// The message about the pages of `names`.
pub open spec fn about_text(names: Seq<Seq<char>>, urls: Seq<Option<Seq<char>>>) -> MessageView {
    let found = found_pages(names, urls);
    if names.len() == 0 {
        MessageView { content: "No name found"@, embed: None }
    } else if found.len() == 0 {
        if names.len() == 1 {
            MessageView { content: "Name "@ + names[0] + " not found."@, embed: None }
        } else {
            MessageView { content: "No names found."@, embed: None }
        }
    } else {
        MessageView {
            content: joined(names, " "@),
            embed: Some(EmbedView { title: embed_title(), fields: page_fields(found) }),
        }
    }
}

/// The addresses to try for name `i` of `names`, best first. The last of
/// several names is looked up as a last name and then as a first name; every
/// other name as a first name.
pub open spec fn page_candidates(names: Seq<Seq<char>>, i: int, table: Seq<NormPair>) -> Seq<
    Seq<char>,
> {
    if names.len() >= 2 && i == names.len() - 1 {
        seq![last_name_address(names[i], table), first_name_address(names[i], table)]
    } else {
        seq![first_name_address(names[i], table)]
    }
}

/// The text shown in place of a last name that was not found.
pub fn no_last_name(err: &str) -> (out: String)
    ensures
        out@ == no_last_name_text(err@),
{
    let mut out = String::from_str("\n\nThis name is a mononym. Pretend you're Cher. Or Zeus.\n\n||");
    out.append(err);
    out.append("||");
    out
}

/// The text that reports a fatal error.
pub fn an_error_occurred(err: &str) -> (out: String)
    ensures
        out@ == error_text(err@),
{
    let mut out = String::from_str("An error occurred.\n\n||");
    out.append(err);
    out.append("||");
    out
}

/// Writes the message that reports the outcome of a resolution, given
/// the addresses of the pages of the first and the last name. The address of
/// a name that the outcome does not hold is not looked at.
pub fn linked_name_message(
    outcome: &Result<ResolvedName, FatalError>,
    first_url: &str,
    last_url: &str,
) -> (out: MessageContent)
    ensures
        out@ == linked_message(
            match *outcome {
                Ok(name) => Ok(name@),
                Err(e) => Err(e@),
            },
            first_url@,
            last_url@,
        ),
{
    match outcome {
        Ok(name) => {
            let mut content = name.first.clone();
            content.append(" ");
            let mut fields: Vec<EmbedField> = Vec::new();
            fields.push(
                EmbedField {
                    name: String::from_str("First Name"),
                    value: hyperlink(name.first.as_str(), first_url),
                    inline: true,
                },
            );
            match &name.last {
                Ok(last) => {
                    content.append(last.as_str());
                    fields.push(
                        EmbedField {
                            name: String::from_str("Last Name"),
                            value: hyperlink(last.as_str(), last_url),
                            inline: true,
                        },
                    );
                },
                Err(e) => {
                    content.append(no_last_name(e.message.as_str()).as_str());
                },
            }
            let embed = MessageEmbed { title: String::from_str("BehindTheName"), fields };
            assert(embed@.fields =~= name_fields(name@, first_url@, last_url@));
            MessageContent { content, embed: Some(embed) }
        },
        Err(FatalError::Input(m)) => MessageContent {
            content: an_error_occurred(m.as_str()),
            embed: None,
        },
        Err(FatalError::Provider(m)) => MessageContent {
            content: an_error_occurred(m.as_str()),
            embed: None,
        },
    }
}

/// Writes the message that reports the outcome of a resolution. The
/// normalization table has no empty target.
pub fn name_message(outcome: &Result<ResolvedName, FatalError>, table: &Vec<NormPair>) -> (out:
    MessageContent)
    requires
        targets_usable(table@),
    ensures
        out@ == outcome_message(
            match *outcome {
                Ok(name) => Ok(name@),
                Err(e) => Err(e@),
            },
            table@,
        ),
{
    let first_url = match outcome {
        Ok(name) => first_name_url(name.first.as_str(), table),
        Err(_) => String::new(),
    };
    let last_url = match outcome {
        Ok(ResolvedName { last: Ok(last), .. }) => last_name_url(last.as_str(), table),
        _ => String::new(),
    };
    linked_name_message(outcome, first_url.as_str(), last_url.as_str())
}

/// Picks the names to look up: the words of `name` or, without one, the
/// words of the nickname.
pub fn get_name_vector(name: Option<&str>, nick: Option<&str>) -> (out: Vec<String>)
    ensures
        texts(out@) == chosen_words(name, nick),
{
    match name {
        Some(n) => split_words(n),
        None => match nick {
            Some(n) => split_words(n),
            None => {
                let out: Vec<String> = Vec::new();
                assert(texts(out@) =~= Seq::<Seq<char>>::empty());
                out
            },
        },
    }
}

/// Lists, for each name, the addresses to try, best first. The
/// normalization table has no empty target.
pub fn about_candidates(names: &Vec<String>, table: &Vec<NormPair>) -> (out: Vec<Vec<String>>)
    requires
        targets_usable(table@),
    ensures
        out@.len() == names@.len(),
        forall|i: int|
            0 <= i < names@.len() ==> texts(#[trigger] out@[i]@) == page_candidates(
                texts(names@),
                i,
                table@,
            ),
{
    let mut out: Vec<Vec<String>> = Vec::new();
    let n: usize = names.len();
    let mut i: usize = 0;
    while i < n
        invariant
            i <= n,
            n == names@.len(),
            targets_usable(table@),
            out@.len() == i,
            forall|j: int|
                0 <= j < i ==> texts(#[trigger] out@[j]@) == page_candidates(
                    texts(names@),
                    j,
                    table@,
                ),
        decreases n - i,
    {
        let name = names[i].as_str();
        assert(texts(names@)[i as int] == name@);
        let mut tries: Vec<String> = Vec::new();
        if n >= 2 && i == n - 1 {
            tries.push(last_name_url(name, table));
        }
        tries.push(first_name_url(name, table));
        assert(texts(tries@) =~= page_candidates(texts(names@), i as int, table@));
        out.push(tries);
        i = i + 1;
    }
    out
}

/// Writes the message about the pages of `names`, where `urls[i]` holds
/// the address of the page of name `i`, if it has one.
pub fn about_message(names: &Vec<String>, urls: &Vec<Option<String>>) -> (out: MessageContent)
    ensures
        out@ == about_text(texts(names@), optional_texts(urls@)),
{
    let ghost ns = texts(names@);
    let ghost us = optional_texts(urls@);
    if names.len() == 0 {
        return MessageContent { content: String::from_str("No name found"), embed: None };
    }
    let limit: usize = if names.len() <= urls.len() {
        names.len()
    } else {
        urls.len()
    };
    let mut found: Vec<(String, String)> = Vec::new();
    let mut i: usize = 0;
    while i < limit
        invariant
            i <= limit,
            limit <= names@.len(),
            limit <= urls@.len(),
            ns == texts(names@),
            us == optional_texts(urls@),
            found@.map_values(|p: (String, String)| (p.0@, p.1@)) == found_upto(ns, us, i as int),
        decreases limit - i,
    {
        let ghost before = found@.map_values(|p: (String, String)| (p.0@, p.1@));
        assert(ns[i as int] == names@[i as int]@);
        match &urls[i] {
            Some(url) => {
                found.push((names[i].clone(), url.clone()));
                assert(found@.map_values(|p: (String, String)| (p.0@, p.1@)) =~= before.push(
                    (ns[i as int], url@),
                ));
            },
            None => {},
        }
        i = i + 1;
    }
    let ghost pages = found@.map_values(|p: (String, String)| (p.0@, p.1@));
    assert(pages == found_pages(ns, us));
    let count: usize = found.len();
    if count == 0 {
        if names.len() == 1 {
            let mut content = String::from_str("Name ");
            content.append(names[0].as_str());
            content.append(" not found.");
            assert(ns[0] == names@[0]@);
            return MessageContent { content, embed: None };
        } else {
            return MessageContent { content: String::from_str("No names found."), embed: None };
        }
    }
    let mut fields: Vec<EmbedField> = Vec::new();
    let mut k: usize = 0;
    while k < count
        invariant
            k <= count,
            count == found@.len(),
            pages == found@.map_values(|p: (String, String)| (p.0@, p.1@)),
            fields@.len() == k,
            forall|j: int| 0 <= j < k ==> (#[trigger] fields@[j])@ == page_fields(pages)[j],
        decreases count - k,
    {
        let label = if k == 0 {
            "First Name"
        } else if k == count - 1 {
            "Last Name"
        } else {
            "Middle Name"
        };
        let pair = &found[k];
        assert(pages[k as int] == (pair.0@, pair.1@));
        fields.push(
            EmbedField {
                name: String::from_str(label),
                value: hyperlink(pair.0.as_str(), pair.1.as_str()),
                inline: true,
            },
        );
        k = k + 1;
    }
    let embed = MessageEmbed { title: String::from_str("BehindTheName"), fields };
    assert(embed@.fields =~= page_fields(pages));
    MessageContent { content: join(names, " "), embed: Some(embed) }
}

} // verus!
