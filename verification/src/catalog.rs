//! The usage catalog of a first name: the distinct usages of a lookup in a
//! shuffled order, followed by the usages that the rewrite table adds.

use vstd::prelude::*;
use itertools::Itertools;
use rand::rngs::StdRng;
use rand::seq::SliceRandom;
use crate::rewrite::{rewritten_code, RewriteTable, RuleView};
use crate::text::optional_texts;
use crate::usage::{usage_views, UsageRecord, UsageView};

verus! {

/// The random number generator that decides the order of a catalog.
#[verifier::external_type_specification]
#[verifier::external_body]
pub struct ExStdRng(StdRng);

/// Whether two usages count as one: same code, same description.
pub open spec fn same_key(a: UsageView, b: UsageView) -> bool {
    a.code == b.code && a.description == b.description
}

/// Whether some usage of `records` counts as one with `r`.
pub open spec fn key_seen(records: Seq<UsageView>, r: UsageView) -> bool {
    exists|j: int| 0 <= j < records.len() && same_key(#[trigger] records[j], r)
}

/// The usages of `records` without repetitions: of the usages that count as
/// one, the first stays, and what stays keeps its order.
pub open spec fn first_occurrences(records: Seq<UsageView>) -> Seq<UsageView>
    decreases records.len(),
{
    if records.len() == 0 {
        records
    } else {
        let earlier = records.drop_last();
        if key_seen(earlier, records.last()) {
            first_occurrences(earlier)
        } else {
            first_occurrences(earlier).push(records.last())
        }
    }
}

/// The usages that the table adds to `records`: for each usage whose code
/// the table rewrites, in order, the same usage under the rewritten code.
pub open spec fn rewritten_usages(records: Seq<UsageView>, rules: Seq<RuleView>) -> Seq<UsageView>
    decreases records.len(),
{
    if records.len() == 0 {
        Seq::empty()
    } else {
        let earlier = rewritten_usages(records.drop_last(), rules);
        match rewritten_code(rules, records.last().code) {
            Some(code) => earlier.push(UsageView { code, ..records.last() }),
            None => earlier,
        }
    }
}

/// The usages that given codes add to `records`: for each usage that has a
/// code at its place in `codes`, in order, the same usage under that code.
pub open spec fn added_usages(records: Seq<UsageView>, codes: Seq<Option<Seq<char>>>) -> Seq<
    UsageView,
>
    decreases records.len(),
{
    if records.len() == 0 {
        Seq::empty()
    } else {
        let earlier = added_usages(records.drop_last(), codes);
        let place = records.len() - 1;
        if place < codes.len() {
            match codes[place] {
                Some(code) => earlier.push(UsageView { code, ..records.last() }),
                None => earlier,
            }
        } else {
            earlier
        }
    }
}

/// What the table puts in place of the code of each usage, in order.
pub open spec fn rewritten_codes(records: Seq<UsageView>, rules: Seq<RuleView>) -> Seq<
    Option<Seq<char>>,
> {
    records.map_values(|u: UsageView| rewritten_code(rules, u.code))
}

/// The catalog of usages taken in the order `order`: these usages, then
/// what the table adds to them.
pub open spec fn catalog_of(order: Seq<UsageView>, rules: Seq<RuleView>) -> Seq<UsageView> {
    order + rewritten_usages(order, rules)
}

/// Whether `catalog` is a catalog of the lookup result `records`: the
/// catalog of some order of its distinct usages.
pub open spec fn is_catalog(
    catalog: Seq<UsageView>,
    records: Seq<UsageView>,
    rules: Seq<RuleView>,
) -> bool {
    exists|order: Seq<UsageView>|
        order.to_multiset() == first_occurrences(records).to_multiset() && #[trigger] catalog_of(
            order,
            rules,
        ) == catalog
}

/// Runs `itertools::Itertools::unique_by` over the records, keyed by
/// `UsageRecord::key`. Not proved: that it keeps, in their order, exactly the
/// records whose key no earlier record has.
#[verifier::external_body]
fn unique_records(records: Vec<UsageRecord>) -> (out: Vec<UsageRecord>)
    ensures
        usage_views(out@) == first_occurrences(usage_views(records@)),
{
    records.into_iter().unique_by(|r| r.key()).collect()
}

/// Runs `rand::seq::SliceRandom::shuffle` on the records. Not proved: that
/// the records afterwards are the same records in some order. Which order
/// is left open.
#[verifier::external_body]
fn shuffle_records(records: &mut Vec<UsageRecord>, rng: &mut StdRng)
    ensures
        usage_views(final(records)@).to_multiset() == usage_views(old(records)@).to_multiset(),
{
    records.shuffle(rng);
}

/// Removes the repetitions from the usages of a lookup. No two usages that
/// stay count as one, and every usage of the lookup counts as one with a
/// usage that stays.
pub fn distinct_usages(records: Vec<UsageRecord>) -> (out: Vec<UsageRecord>)
    ensures
        usage_views(out@) == first_occurrences(usage_views(records@)),
        all_distinct(usage_views(out@)),
        forall|i: int|
            0 <= i < records@.len() ==> key_seen(usage_views(out@), #[trigger] usage_views(records@)[i]),
{
    proof {
        lemma_first_occurrences(usage_views(records@));
    }
    unique_records(records)
}

/// Whether no two usages of `records` count as one.
pub open spec fn all_distinct(records: Seq<UsageView>) -> bool {
    forall|i: int, j: int|
        0 <= i < j < records.len() ==> !same_key(#[trigger] records[i], #[trigger] records[j])
}

/// Removing repetitions leaves usages of the lookup only, no two of which
/// count as one, and leaves out no usage but a repetition.
pub proof fn lemma_first_occurrences(records: Seq<UsageView>)
    ensures
        all_distinct(first_occurrences(records)),
        first_occurrences(records).len() <= records.len(),
        forall|i: int|
            0 <= i < records.len() ==> key_seen(first_occurrences(records), #[trigger] records[i]),
        forall|k: int|
            0 <= k < first_occurrences(records).len() ==> records.contains(
                #[trigger] first_occurrences(records)[k],
            ),
    decreases records.len(),
{
    if records.len() > 0 {
        let earlier = records.drop_last();
        let last = records.last();
        let kept = first_occurrences(earlier);
        lemma_first_occurrences(earlier);
        assert forall|k: int| 0 <= k < kept.len() implies records.contains(#[trigger] kept[k]) by {
            let i = choose|i: int| 0 <= i < earlier.len() && earlier[i] == kept[k];
            assert(records[i] == kept[k]);
        }
        if key_seen(earlier, last) {
            let j = choose|j: int| 0 <= j < earlier.len() && same_key(#[trigger] earlier[j], last);
            assert(key_seen(kept, earlier[j]));
            let m = choose|m: int| 0 <= m < kept.len() && same_key(#[trigger] kept[m], earlier[j]);
            assert(same_key(kept[m], last));
            assert forall|i: int| 0 <= i < records.len() implies key_seen(
                kept,
                #[trigger] records[i],
            ) by {
                if i < earlier.len() {
                    assert(records[i] == earlier[i]);
                }
            }
        } else {
            let out = kept.push(last);
            assert forall|i: int, j: int| 0 <= i < j < out.len() implies !same_key(
                #[trigger] out[i],
                #[trigger] out[j],
            ) by {
                if j == kept.len() {
                    let w = choose|w: int| 0 <= w < earlier.len() && earlier[w] == kept[i];
                    assert(!same_key(earlier[w], last));
                }
            }
            assert forall|i: int| 0 <= i < records.len() implies key_seen(
                out,
                #[trigger] records[i],
            ) by {
                if i < earlier.len() {
                    assert(records[i] == earlier[i]);
                    let m = choose|m: int|
                        0 <= m < kept.len() && same_key(#[trigger] kept[m], earlier[i]);
                    assert(same_key(out[m], records[i]));
                } else {
                    assert(same_key(out[kept.len() as int], records[i]));
                }
            }
            assert(records[records.len() - 1] == last);
            assert forall|k: int| 0 <= k < out.len() implies records.contains(#[trigger] out[k]) by {
                if k == kept.len() {
                    assert(records[records.len() - 1] == out[k]);
                }
            }
        }
    }
}

/// Appends to usages in their final order the usages that given codes
/// add: `codes[i]`, if there is one, is the code under which usage `i` is
/// repeated behind all others.
pub fn widen_with(order: Vec<UsageRecord>, codes: &Vec<Option<String>>) -> (catalog: Vec<UsageRecord>)
    ensures
        usage_views(catalog@) == usage_views(order@) + added_usages(
            usage_views(order@),
            optional_texts(codes@),
        ),
{
    let mut added: Vec<UsageRecord> = Vec::new();
    let mut i: usize = 0;
    while i < order.len()
        invariant
            i <= order.len(),
            usage_views(added@) == added_usages(
                usage_views(order@).take(i as int),
                optional_texts(codes@),
            ),
        decreases order.len() - i,
    {
        proof {
            let all = usage_views(order@);
            assert(all.take(i as int + 1).drop_last() =~= all.take(i as int));
            assert(all.take(i as int + 1).last() == order@[i as int]@);
        }
        let ghost before = usage_views(added@);
        if i < codes.len() {
            match &codes[i] {
                Some(code) => {
                    let record = order[i].with_code(code.clone());
                    added.push(record);
                    assert(usage_views(added@) =~= before.push(record@));
                },
                None => {},
            }
        }
        i = i + 1;
    }
    proof {
        assert(usage_views(order@).take(order.len() as int) =~= usage_views(order@));
    }
    let mut catalog = order;
    let ghost head = usage_views(catalog@);
    let ghost tail = usage_views(added@);
    catalog.append(&mut added);
    assert(usage_views(catalog@) =~= head + tail);
    catalog
}

/// The catalog of usages that are already in their final order: the usages
/// themselves, followed by what the table adds.
pub fn widen_usages(order: Vec<UsageRecord>, table: &RewriteTable) -> (catalog: Vec<UsageRecord>)
    ensures
        usage_views(catalog@) == catalog_of(usage_views(order@), table@),
{
    let mut codes: Vec<Option<String>> = Vec::new();
    let mut i: usize = 0;
    while i < order.len()
        invariant
            i <= order.len(),
            optional_texts(codes@) == rewritten_codes(usage_views(order@), table@).take(i as int),
        decreases order.len() - i,
    {
        let ghost before = optional_texts(codes@);
        let code = table.rewrite(order[i].code.as_str());
        codes.push(code);
        assert(usage_views(order@)[i as int] == order@[i as int]@);
        assert(optional_texts(codes@) =~= before.push(
            rewritten_code(table@, order@[i as int]@.code),
        ));
        assert(optional_texts(codes@) =~= rewritten_codes(usage_views(order@), table@).take(
            i as int + 1,
        ));
        i = i + 1;
    }
    proof {
        let all = rewritten_codes(usage_views(order@), table@);
        assert(all.take(order.len() as int) =~= all);
        lemma_rewritten_is_added(usage_views(order@), table@);
    }
    widen_with(order, &codes)
}

/// What the table adds is what the rewritten codes add.
pub proof fn lemma_rewritten_is_added(records: Seq<UsageView>, rules: Seq<RuleView>)
    ensures
        rewritten_usages(records, rules) == added_usages(records, rewritten_codes(records, rules)),
    decreases records.len(),
{
    if records.len() > 0 {
        let earlier = records.drop_last();
        lemma_rewritten_is_added(earlier, rules);
        lemma_added_by_place(earlier, rewritten_codes(earlier, rules), rewritten_codes(records, rules));
    }
}

/// What codes add depends on the codes at the places of the usages only.
proof fn lemma_added_by_place(
    records: Seq<UsageView>,
    codes: Seq<Option<Seq<char>>>,
    others: Seq<Option<Seq<char>>>,
)
    requires
        records.len() <= codes.len(),
        records.len() <= others.len(),
        forall|i: int| 0 <= i < records.len() ==> codes[i] == others[i],
    ensures
        added_usages(records, codes) == added_usages(records, others),
    decreases records.len(),
{
    if records.len() > 0 {
        lemma_added_by_place(records.drop_last(), codes, others);
    }
}

/// Builds the catalog of a lookup result: removes repetitions, shuffles,
/// and appends what the table adds. The order of the shuffle is the
/// generator's choice; everything else is fixed.
pub fn build_catalog(records: Vec<UsageRecord>, table: &RewriteTable, rng: &mut StdRng) -> (catalog:
    Vec<UsageRecord>)
    ensures
        is_catalog(usage_views(catalog@), usage_views(records@), table@),
        records@.len() == 0 ==> catalog@.len() == 0,
{
    let mut order = distinct_usages(records);
    shuffle_records(&mut order, rng);
    let ghost chosen = usage_views(order@);
    let catalog = widen_usages(order, table);
    proof {
        assert(catalog_of(chosen, table@) == usage_views(catalog@));
        if records@.len() == 0 {
            lemma_empty_lookup(chosen, usage_views(records@), table@);
        }
    }
    catalog
}

/// A lookup without usages has the empty catalog, whatever the order.
pub proof fn lemma_empty_lookup(order: Seq<UsageView>, records: Seq<UsageView>, rules: Seq<RuleView>)
    requires
        records.len() == 0,
        order.to_multiset() == first_occurrences(records).to_multiset(),
    ensures
        catalog_of(order, rules).len() == 0,
{
    broadcast use vstd::seq_lib::group_to_multiset_ensures;

    assert(first_occurrences(records).len() == 0);
    assert(order.to_multiset().len() == order.len());
    assert(first_occurrences(records).to_multiset().len() == 0);
}

/// A catalog leaves out no usage of the lookup: every distinct usage stands
/// among the shuffled candidates, which come first and are as many as the
/// lookup has distinct usages.
pub proof fn lemma_catalog_holds_every_usage(
    catalog: Seq<UsageView>,
    records: Seq<UsageView>,
    rules: Seq<RuleView>,
    usage: UsageView,
)
    requires
        is_catalog(catalog, records, rules),
        first_occurrences(records).contains(usage),
    ensures
        first_occurrences(records).len() <= catalog.len(),
        exists|i: int| 0 <= i < first_occurrences(records).len() && catalog[i] == usage,
{
    broadcast use vstd::seq_lib::group_to_multiset_ensures;

    let distinct = first_occurrences(records);
    let order = choose|order: Seq<UsageView>|
        order.to_multiset() == distinct.to_multiset() && #[trigger] catalog_of(order, rules)
            == catalog;
    assert(order.to_multiset().len() == order.len());
    assert(distinct.to_multiset().len() == distinct.len());
    assert(distinct.to_multiset().count(usage) > 0);
    assert(order.contains(usage));
    let i = choose|i: int| 0 <= i < order.len() && order[i] == usage;
    assert(catalog[i] == usage);
}

/// What the table adds comes behind every shuffled usage, and each added
/// usage repeats the gender and description of the usage it was made from.
pub proof fn lemma_added_usage(order: Seq<UsageView>, rules: Seq<RuleView>, k: int)
    requires
        0 <= k < rewritten_usages(order, rules).len(),
    ensures
        catalog_of(order, rules).len() == order.len() + rewritten_usages(order, rules).len(),
        forall|i: int| 0 <= i < order.len() ==> catalog_of(order, rules)[i] == order[i],
        catalog_of(order, rules)[order.len() + k] == rewritten_usages(order, rules)[k],
        exists|i: int|
            0 <= i < order.len() && rewritten_code(rules, #[trigger] order[i].code) == Some(
                rewritten_usages(order, rules)[k].code,
            ) && rewritten_usages(order, rules)[k].gender == order[i].gender
                && rewritten_usages(order, rules)[k].description == order[i].description,
    decreases order.len(),
{
    if order.len() > 0 {
        let earlier = order.drop_last();
        let before = rewritten_usages(earlier, rules);
        if k < before.len() {
            lemma_added_usage(earlier, rules, k);
            let i = choose|i: int|
                0 <= i < earlier.len() && rewritten_code(rules, #[trigger] earlier[i].code) == Some(
                    before[k].code,
                ) && before[k].gender == earlier[i].gender && before[k].description
                    == earlier[i].description;
            assert(order[i] == earlier[i]);
        } else {
            assert(order[order.len() - 1] == order.last());
        }
    }
}

/// Every shuffled usage whose code the table rewrites yields one more
/// usage: the same usage under the rewritten code, behind all shuffled ones.
pub proof fn lemma_rewritten_usage_is_added(order: Seq<UsageView>, rules: Seq<RuleView>, i: int)
    requires
        0 <= i < order.len(),
        rewritten_code(rules, order[i].code) is Some,
    ensures
        exists|k: int|
            0 <= k < rewritten_usages(order, rules).len() && #[trigger] catalog_of(order, rules)[order.len()
                + k] == (UsageView { code: rewritten_code(rules, order[i].code).unwrap(), ..order[i] }),
    decreases order.len(),
{
    let earlier = order.drop_last();
    let before = rewritten_usages(earlier, rules);
    let added = rewritten_usages(order, rules);
    let all = catalog_of(order, rules);
    if i == order.len() - 1 {
        let k = before.len() as int;
        assert(added[k] == (UsageView { code: rewritten_code(rules, order[i].code).unwrap(), ..order[i] }));
        assert(all[order.len() + k] == added[k]);
    } else {
        lemma_rewritten_usage_is_added(earlier, rules, i);
        let k = choose|k: int|
            0 <= k < before.len() && #[trigger] catalog_of(earlier, rules)[earlier.len() + k] == (
            UsageView { code: rewritten_code(rules, earlier[i].code).unwrap(), ..earlier[i] });
        assert(catalog_of(earlier, rules)[earlier.len() + k] == before[k]);
        assert(added[k] == before[k]);
        assert(all[order.len() + k] == added[k]);
    }
}

} // verus!
