//! Links to the pages of a name.
//!
//! A name is written into a link in lower case, composed, and with each
//! character sequence of a normalization table replaced by its code.

use vstd::prelude::*;
use aho_corasick::AhoCorasick;
use unicode_normalization::UnicodeNormalization;

verus! {

/// What `str::to_lowercase` makes of `text`.
pub uninterp spec fn lowercased(text: Seq<char>) -> Seq<char>;

/// What `unicode_normalization::UnicodeNormalization::nfc` makes of `text`:
/// its Unicode Normalization Form C.
pub uninterp spec fn nfc_form(text: Seq<char>) -> Seq<char>;

/// What `aho_corasick::AhoCorasick::replace_all` makes of `text` under the
/// automaton built from `targets` with default settings, with each match of
/// `targets[i]` replaced by `codes[i]`.
pub uninterp spec fn targets_replaced(
    text: Seq<char>,
    targets: Seq<Seq<char>>,
    codes: Seq<Seq<char>>,
) -> Seq<char>;

/// One entry of the normalization table.
#[derive(Clone, Debug, PartialEq, Eq)]
pub struct NormPair {
    /// The character sequence that is replaced.
    pub target: String,
    /// What replaces it.
    pub code: String,
}

/// The targets of a table, in order.
pub open spec fn table_targets(table: Seq<NormPair>) -> Seq<Seq<char>> {
    table.map_values(|p: NormPair| p.target@)
}

/// The codes of a table, in order.
pub open spec fn table_codes(table: Seq<NormPair>) -> Seq<Seq<char>> {
    table.map_values(|p: NormPair| p.code@)
}

/// Whether a table can be used: none of its targets is empty. An empty
/// target would match between any two bytes of a name, inside a character
/// too, and the replacement would cut the name there.
pub open spec fn targets_usable(table: Seq<NormPair>) -> bool {
    forall|i: int| 0 <= i < table.len() ==> (#[trigger] table[i]).target@.len() > 0
}

/// Tests whether a table can be used: whether none of its targets is empty.
pub fn table_is_usable(table: &Vec<NormPair>) -> (ok: bool)
    ensures
        ok == targets_usable(table@),
{
    let mut i: usize = 0;
    while i < table.len()
        invariant
            i <= table.len(),
            forall|j: int| 0 <= j < i ==> (#[trigger] table@[j]).target@.len() > 0,
        decreases table.len() - i,
    {
        if table[i].target.as_str().is_empty() {
            return false;
        }
        i = i + 1;
    }
    true
}

/// Calls `str::to_lowercase`. Not proved: the result is taken to be a
/// function of the text alone, named `lowercased`.
#[verifier::external_body]
fn lowercase(text: &str) -> (out: String)
    ensures
        out@ == lowercased(text@),
{
    text.to_lowercase()
}

/// Calls `UnicodeNormalization::nfc` of the crate unicode_normalization and
/// collects the characters. Not proved: the result is taken to be a function
/// of the text alone, named `nfc_form`.
#[verifier::external_body]
fn compose(text: &str) -> (out: String)
    ensures
        out@ == nfc_form(text@),
{
    text.nfc().collect()
}

/// Builds an automaton from the table's targets with
/// `aho_corasick::AhoCorasick::new` and calls `replace_all` with the table's
/// codes. There are as many codes as targets, as `replace_all` demands, and
/// no target is empty: on an empty target `replace_all` cuts the text
/// between bytes of one character and panics. Not proved: the result is
/// taken to be a function of the text and the table alone, named
/// `targets_replaced`.
#[verifier::external_body]
fn replace_targets(text: &str, table: &Vec<NormPair>) -> (out: String)
    requires
        targets_usable(table@),
    ensures
        out@ == targets_replaced(text@, table_targets(table@), table_codes(table@)),
{
    let targets: Vec<&str> = table.iter().map(|p| p.target.as_str()).collect();
    let codes: Vec<&str> = table.iter().map(|p| p.code.as_str()).collect();
    AhoCorasick::new(targets).replace_all(text, &codes)
}

/// A name as it is written into a link.
pub open spec fn normalized(name: Seq<char>, table: Seq<NormPair>) -> Seq<char> {
    targets_replaced(nfc_form(lowercased(name)), table_targets(table), table_codes(table))
}

/// `[title](url)`.
pub open spec fn hyperlink_text(title: Seq<char>, url: Seq<char>) -> Seq<char> {
    "["@ + title + "]("@ + url + ")"@
}

/// The address of the page of a first name, given the name as it is
/// written into a link.
pub open spec fn first_page_address(normalized: Seq<char>) -> Seq<char> {
    "https://www.behindthename.com/name/"@ + normalized
}

/// The address of the page of a last name, given the name as it is written
/// into a link.
pub open spec fn last_page_address(normalized: Seq<char>) -> Seq<char> {
    "https://surnames.behindthename.com/name/"@ + normalized
}

/// The address of the page of a first name.
pub open spec fn first_name_address(name: Seq<char>, table: Seq<NormPair>) -> Seq<char> {
    first_page_address(normalized(name, table))
}

/// The address of the page of a last name.
pub open spec fn last_name_address(name: Seq<char>, table: Seq<NormPair>) -> Seq<char> {
    last_page_address(normalized(name, table))
}

/// A link in the markup of a message.
pub fn hyperlink(title: &str, url: &str) -> (out: String)
    ensures
        out@ == hyperlink_text(title@, url@),
{
    let mut out = String::from_str("[");
    out.append(title);
    out.append("](");
    out.append(url);
    out.append(")");
    out
}

/// Writes a name as it stands in a link: in lower case, composed, and with
/// the table's targets replaced by their codes. The table has no empty
/// target; `table_is_usable` tests that.
pub fn lower_normalize(name: &str, table: &Vec<NormPair>) -> (out: String)
    requires
        targets_usable(table@),
    ensures
        out@ == normalized(name@, table@),
{
    let lower = lowercase(name);
    let composed = compose(lower.as_str());
    replace_targets(composed.as_str(), table)
}

/// The address of the page of a first name that is already written as it
/// stands in a link.
pub fn first_name_page(normalized: &str) -> (out: String)
    ensures
        out@ == first_page_address(normalized@),
{
    let mut out = String::from_str("https://www.behindthename.com/name/");
    out.append(normalized);
    out
}

/// The address of the page of a last name that is already written as it
/// stands in a link.
pub fn last_name_page(normalized: &str) -> (out: String)
    ensures
        out@ == last_page_address(normalized@),
{
    let mut out = String::from_str("https://surnames.behindthename.com/name/");
    out.append(normalized);
    out
}

/// The address of the page of a first name.
pub fn first_name_url(first_name: &str, table: &Vec<NormPair>) -> (out: String)
    requires
        targets_usable(table@),
    ensures
        out@ == first_name_address(first_name@, table@),
{
    first_name_page(lower_normalize(first_name, table).as_str())
}

/// The address of the page of a last name.
pub fn last_name_url(last_name: &str, table: &Vec<NormPair>) -> (out: String)
    requires
        targets_usable(table@),
    ensures
        out@ == last_name_address(last_name@, table@),
{
    last_name_page(lower_normalize(last_name, table).as_str())
}

/// A link to the page of a first name, titled with the name.
pub fn first_name_hyperlink(first_name: &str, table: &Vec<NormPair>) -> (out: String)
    requires
        targets_usable(table@),
    ensures
        out@ == hyperlink_text(first_name@, first_name_address(first_name@, table@)),
{
    hyperlink(first_name, first_name_url(first_name, table).as_str())
}

/// A link to the page of a last name, titled with the name.
pub fn last_name_hyperlink(last_name: &str, table: &Vec<NormPair>) -> (out: String)
    requires
        targets_usable(table@),
    ensures
        out@ == hyperlink_text(last_name@, last_name_address(last_name@, table@)),
{
    hyperlink(last_name, last_name_url(last_name, table).as_str())
}

} // verus!
