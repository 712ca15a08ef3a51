//! The rewrite table that widens a usage catalog: an ordered list of
//! patterns, each with the usage code that takes the place of a match.

use vstd::prelude::*;
use regex::Regex;

verus! {

/// What `regex::Regex::is_match` answers for `text` under the regular
/// expression compiled from `pattern`; `None` where `pattern` does not
/// compile.
pub uninterp spec fn regex_is_match(pattern: Seq<char>, text: Seq<char>) -> Option<bool>;

/// What `regex::Regex::replace` makes of `text` under the regular expression
/// compiled from `pattern`, with `replacement` put in place of the leftmost
/// match and its capture groups expanded; `None` where `pattern` does not
/// compile.
pub uninterp spec fn regex_replace(
    pattern: Seq<char>,
    text: Seq<char>,
    replacement: Seq<char>,
) -> Option<Seq<char>>;

/// Compiles `pattern` with `regex::Regex::new` and asks `Regex::is_match`
/// whether it matches anywhere in `text`. Not proved: the answer is taken to
/// be a function of the two strings alone, named `regex_is_match`.
#[verifier::external_body]
fn pattern_matches(pattern: &str, text: &str) -> (found: Option<bool>)
    ensures
        found == regex_is_match(pattern@, text@),
{
    match Regex::new(pattern) {
        Ok(re) => Some(re.is_match(text)),
        Err(_) => None,
    }
}

/// Compiles `pattern` with `regex::Regex::new` and calls `Regex::replace` on
/// `text`. Not proved: the outcome is taken to be a function of the three
/// strings alone, named `regex_replace`.
#[verifier::external_body]
fn pattern_replace(pattern: &str, text: &str, replacement: &str) -> (out: Option<String>)
    ensures
        match out {
            Some(s) => regex_replace(pattern@, text@, replacement@) == Some(s@),
            None => regex_replace(pattern@, text@, replacement@) is None,
        },
{
    match Regex::new(pattern) {
        Ok(re) => Some(re.replace(text, replacement).into_owned()),
        Err(_) => None,
    }
}

/// One rule: a regular expression and what replaces a code that matches it.
#[derive(Clone, Debug, PartialEq, Eq)]
pub struct RewriteRule {
    /// The regular expression that a usage code is held against.
    pub pattern: String,
    /// The replacement; `$1` stands for the first capture group.
    pub target: String,
}

/// A rule as a mathematical value.
pub ghost struct RuleView {
    pub pattern: Seq<char>,
    pub target: Seq<char>,
}

impl View for RewriteRule {
    type V = RuleView;

    open spec fn view(&self) -> RuleView {
        RuleView { pattern: self.pattern@, target: self.target@ }
    }
}

/// The ordered rules, fixed when a resolver is set up.
#[derive(Clone, Debug, PartialEq, Eq)]
pub struct RewriteTable {
    pub rules: Vec<RewriteRule>,
}

impl View for RewriteTable {
    type V = Seq<RuleView>;

    open spec fn view(&self) -> Seq<RuleView> {
        self.rules@.map_values(|r: RewriteRule| r@)
    }
}

/// Whether `rule` matches `code`.
pub open spec fn rule_matches(rule: RuleView, code: Seq<char>) -> bool {
    regex_is_match(rule.pattern, code) == Some(true)
}

/// What each rule, in order, answers to whether it matches `code`.
pub open spec fn rule_hits(rules: Seq<RuleView>, code: Seq<char>) -> Seq<Option<bool>> {
    rules.map_values(|r: RuleView| regex_is_match(r.pattern, code))
}

/// The place of the first answer at or after `from` that is a match.
pub open spec fn first_hit_from(hits: Seq<Option<bool>>, from: int) -> Option<int>
    decreases hits.len() - from,
{
    if from < 0 || from >= hits.len() {
        None
    } else if hits[from] == Some(true) {
        Some(from)
    } else {
        first_hit_from(hits, from + 1)
    }
}

/// The code that the table puts in place of `code`: the replacement made by
/// the first rule that matches, and nothing where no rule matches.
pub open spec fn rewritten_code(rules: Seq<RuleView>, code: Seq<char>) -> Option<Seq<char>> {
    match first_hit_from(rule_hits(rules, code), 0) {
        Some(i) => regex_replace(rules[i].pattern, code, rules[i].target),
        None => None,
    }
}

/// The canonical rules, in order: every Germanic sub-usage widens to `ger`,
/// and a mythological, biblical or medieval usage widens to its stem.
pub open spec fn canonical_rules() -> Seq<RuleView> {
    seq![
        RuleView { pattern: "^gmc-.+$"@, target: "ger"@ },
        RuleView { pattern: "^(.+)-(?:myth|bibl|medi)$"@, target: "$1"@ },
    ]
}

impl RewriteRule {
    /// A rule of the given pattern and replacement.
    pub fn new(pattern: &str, target: &str) -> (out: RewriteRule)
        ensures
            out@ == (RuleView { pattern: pattern@, target: target@ }),
    {
        RewriteRule { pattern: String::from_str(pattern), target: String::from_str(target) }
    }
}

impl RewriteTable {
    /// The table of the canonical rules.
    pub fn canonical() -> (out: RewriteTable)
        ensures
            out@ == canonical_rules(),
    {
        let mut rules: Vec<RewriteRule> = Vec::new();
        rules.push(RewriteRule::new("^gmc-.+$", "ger"));
        rules.push(RewriteRule::new("^(.+)-(?:myth|bibl|medi)$", "$1"));
        let out = RewriteTable { rules };
        assert(out@ =~= canonical_rules());
        out
    }

    /// Rewrites one usage code: every rule is asked whether it matches,
    /// and the first that does makes the replacement.
    pub fn rewrite(&self, code: &str) -> (out: Option<String>)
        ensures
            match out {
                Some(s) => rewritten_code(self@, code@) == Some(s@),
                None => rewritten_code(self@, code@) is None,
            },
    {
        let mut hits: Vec<Option<bool>> = Vec::new();
        let mut i: usize = 0;
        while i < self.rules.len()
            invariant
                i <= self.rules.len(),
                hits@ == rule_hits(self@, code@).take(i as int),
            decreases self.rules.len() - i,
        {
            let rule = &self.rules[i];
            assert(self@[i as int] == rule@);
            hits.push(pattern_matches(rule.pattern.as_str(), code));
            assert(hits@ =~= rule_hits(self@, code@).take(i as int + 1));
            i = i + 1;
        }
        assert(hits@ =~= rule_hits(self@, code@));
        match first_hit(&hits) {
            Some(k) => {
                let rule = &self.rules[k];
                assert(self@[k as int] == rule@);
                pattern_replace(rule.pattern.as_str(), code, rule.target.as_str())
            },
            None => None,
        }
    }
}

/// Finds the first match among the answers of the rules: the place of the
/// first answer that is a match, with no match before it.
pub fn first_hit(hits: &Vec<Option<bool>>) -> (out: Option<usize>)
    ensures
        match out {
            Some(k) => first_hit_from(hits@, 0) == Some(k as int) && k < hits@.len() && hits@[k as int]
                == Some(true) && forall|j: int| 0 <= j < k ==> hits@[j] != Some(true),
            None => first_hit_from(hits@, 0) is None && forall|j: int|
                0 <= j < hits@.len() ==> hits@[j] != Some(true),
        },
{
    let mut i: usize = 0;
    while i < hits.len()
        invariant
            i <= hits.len(),
            first_hit_from(hits@, 0) == first_hit_from(hits@, i as int),
            forall|j: int| 0 <= j < i ==> hits@[j] != Some(true),
        decreases hits.len() - i,
    {
        match hits[i] {
            Some(true) => {
                return Some(i);
            },
            _ => {},
        }
        i = i + 1;
    }
    None
}

/// The first rule that matches decides: rules behind it are never applied,
/// whether they match or not.
pub proof fn lemma_first_match_wins(rules: Seq<RuleView>, code: Seq<char>, i: int)
    requires
        0 <= i < rules.len(),
        rule_matches(rules[i], code),
        forall|k: int| 0 <= k < i ==> !rule_matches(#[trigger] rules[k], code),
    ensures
        first_hit_from(rule_hits(rules, code), 0) == Some(i),
        rewritten_code(rules, code) == regex_replace(rules[i].pattern, code, rules[i].target),
{
    lemma_first_hit_skips(rule_hits(rules, code), 0, i);
}

/// Answers that are no match are passed over.
proof fn lemma_first_hit_skips(hits: Seq<Option<bool>>, from: int, i: int)
    requires
        0 <= from <= i < hits.len(),
        hits[i] == Some(true),
        forall|k: int| from <= k < i ==> hits[k] != Some(true),
    ensures
        first_hit_from(hits, from) == Some(i),
    decreases i - from,
{
    if from < i {
        lemma_first_hit_skips(hits, from + 1, i);
    }
}

/// A code that no rule matches is left alone.
pub proof fn lemma_no_match_no_rewrite(rules: Seq<RuleView>, code: Seq<char>)
    requires
        forall|k: int| 0 <= k < rules.len() ==> !rule_matches(#[trigger] rules[k], code),
    ensures
        rewritten_code(rules, code) is None,
{
    lemma_no_hit_from(rule_hits(rules, code), 0);
}

proof fn lemma_no_hit_from(hits: Seq<Option<bool>>, from: int)
    requires
        0 <= from <= hits.len(),
        forall|k: int| from <= k < hits.len() ==> hits[k] != Some(true),
    ensures
        first_hit_from(hits, from) is None,
    decreases hits.len() - from,
{
    if from < hits.len() {
        lemma_no_hit_from(hits, from + 1);
    }
}

} // verus!
