//! The search for the pages of names, as a state machine.
//!
//! Each name has a list of addresses to try, best first. The machine names
//! the address to ask for next; its caller asks whether a page exists there
//! and hands the answer back. The first address of a name is asked for in
//! earnest: if it cannot be reached, the search fails. The addresses behind
//! it are a fallback: one that cannot be reached counts as not found.

use vstd::prelude::*;
use crate::text::{optional_texts, texts};

verus! {

/// What came of asking for a page.
#[derive(Clone, Copy, Debug, PartialEq, Eq)]
pub enum PageAnswer {
    /// There is a page at the address.
    Exists,
    /// The address was reached and holds no page.
    Missing,
    /// The request failed.
    Unreachable,
}

/// What the search does next.
#[derive(Clone, Copy, Debug, PartialEq, Eq)]
pub enum PageStep {
    /// Ask for the address at place `address` among those of name `name`.
    Ask { name: usize, address: usize },
    /// The search failed at the first address of name `name`. `stage` is 1
    /// for an only name, 3 for the last of several and 2 for any other.
    Failed { stage: u8, name: usize },
    /// Every name has its answer.
    Done,
}

/// A step together with the addresses found so far: one entry per name that
/// has its answer, holding the address of its page if it has one.
pub ghost struct PageSearch {
    pub step: PageStep,
    pub urls: Seq<Option<Seq<char>>>,
}

/// The addresses to try, as mathematical values.
pub open spec fn candidate_texts(candidates: Seq<Vec<String>>) -> Seq<Seq<Seq<char>>> {
    candidates.map_values(|tries: Vec<String>| texts(tries@))
}

/// The stage at which name `name` of `names` is searched.
pub open spec fn stage_of(names: int, name: int) -> u8 {
    if names == 1 {
        1
    } else if name + 1 == names {
        3
    } else {
        2
    }
}

/// The search once the names before `urls.len()` have their answers: the
/// first address of the next name is asked for. A name without an address
/// has no page.
pub open spec fn next_name(candidates: Seq<Seq<Seq<char>>>, urls: Seq<Option<Seq<char>>>)
    -> PageSearch
    decreases candidates.len() - urls.len(),
{
    if urls.len() >= candidates.len() {
        PageSearch { step: PageStep::Done, urls }
    } else if candidates[urls.len() as int].len() == 0 {
        next_name(candidates, urls.push(None))
    } else {
        PageSearch { step: PageStep::Ask { name: urls.len() as usize, address: 0 }, urls }
    }
}

/// The search after `answer` came for the address at place `address` of
/// the name that follows those with an answer. A page that exists is that
/// name's page. Where none exists, the next address is asked for, and
/// after the last the name has no page. A first address that cannot be
/// reached fails the search; a later one counts as the last.
pub open spec fn page_step(
    candidates: Seq<Seq<Seq<char>>>,
    urls: Seq<Option<Seq<char>>>,
    address: int,
    answer: PageAnswer,
) -> PageSearch {
    let name = urls.len() as int;
    if name >= candidates.len() {
        PageSearch { step: PageStep::Done, urls }
    } else if address >= candidates[name].len() {
        next_name(candidates, urls.push(None))
    } else {
        match answer {
            PageAnswer::Exists => next_name(candidates, urls.push(Some(candidates[name][address]))),
            PageAnswer::Missing => if address + 1 < candidates[name].len() {
                PageSearch {
                    step: PageStep::Ask { name: name as usize, address: (address + 1) as usize },
                    urls,
                }
            } else {
                next_name(candidates, urls.push(None))
            },
            PageAnswer::Unreachable => if address == 0 {
                PageSearch {
                    step: PageStep::Failed {
                        stage: stage_of(candidates.len() as int, name),
                        name: name as usize,
                    },
                    urls,
                }
            } else {
                next_name(candidates, urls.push(None))
            },
        }
    }
}

/// Whether a step fits the search: an address that is asked for is one of
/// the name that follows those with an answer, and the search is done only
/// when every name has its answer.
pub open spec fn step_fits(candidates: Seq<Seq<Seq<char>>>, search: PageSearch) -> bool {
    match search.step {
        PageStep::Ask { name, address } => name == search.urls.len() && name < candidates.len()
            && address < candidates[name as int].len(),
        PageStep::Failed { stage, name } => name == search.urls.len() && name < candidates.len()
            && stage == stage_of(candidates.len() as int, name as int),
        PageStep::Done => search.urls.len() >= candidates.len(),
    }
}

/// Going on to the next name fits the search, keeps the answers given so
/// far, and gives no name more than one answer.
pub proof fn lemma_next_name_fits(candidates: Seq<Seq<Seq<char>>>, urls: Seq<Option<Seq<char>>>)
    requires
        candidates.len() <= usize::MAX,
    ensures
        step_fits(candidates, next_name(candidates, urls)),
        urls.len() <= next_name(candidates, urls).urls.len(),
        urls.len() <= candidates.len() ==> next_name(candidates, urls).urls.len()
            <= candidates.len(),
        forall|i: int| 0 <= i < urls.len() ==> next_name(candidates, urls).urls[i] == urls[i],
    decreases candidates.len() - urls.len(),
{
    if urls.len() < candidates.len() && candidates[urls.len() as int].len() == 0 {
        let more = urls.push(None);
        lemma_next_name_fits(candidates, more);
        assert forall|i: int| 0 <= i < urls.len() implies next_name(candidates, urls).urls[i]
            == urls[i] by {
            assert(more[i] == urls[i]);
        }
    }
}

/// Every step after an answer fits the search.
pub proof fn lemma_page_step_fits(
    candidates: Seq<Seq<Seq<char>>>,
    urls: Seq<Option<Seq<char>>>,
    address: int,
    answer: PageAnswer,
)
    requires
        candidates.len() <= usize::MAX,
        0 <= address <= usize::MAX,
        forall|i: int| 0 <= i < candidates.len() ==> (#[trigger] candidates[i]).len() <= usize::MAX,
    ensures
        step_fits(candidates, page_step(candidates, urls, address, answer)),
{
    let name = urls.len() as int;
    if name < candidates.len() {
        lemma_next_name_fits(candidates, urls.push(None));
        if address < candidates[name].len() {
            lemma_next_name_fits(candidates, urls.push(Some(candidates[name][address])));
        }
    }
}

/// Goes on to the next name that has an address to try, noting for each
/// name without one that it has no page.
pub fn next_page(candidates: &Vec<Vec<String>>, urls: &mut Vec<Option<String>>) -> (out: PageStep)
    ensures
        (PageSearch { step: out, urls: optional_texts(final(urls)@) }) == next_name(
            candidate_texts(candidates@),
            optional_texts(old(urls)@),
        ),
        step_fits(
            candidate_texts(candidates@),
            PageSearch { step: out, urls: optional_texts(final(urls)@) },
        ),
{
    proof {
        assert(candidate_texts(candidates@).len() == candidates.len());
        lemma_next_name_fits(candidate_texts(candidates@), optional_texts(old(urls)@));
    }
    while urls.len() < candidates.len() && candidates[urls.len()].len() == 0
        invariant
            next_name(candidate_texts(candidates@), optional_texts(urls@)) == next_name(
                candidate_texts(candidates@),
                optional_texts(old(urls)@),
            ),
        decreases candidates.len() - urls.len(),
    {
        let ghost before = optional_texts(urls@);
        assert(candidate_texts(candidates@)[urls.len() as int] == texts(
            candidates@[urls.len() as int]@,
        ));
        urls.push(None);
        assert(optional_texts(urls@) =~= before.push(None));
    }
    if urls.len() < candidates.len() {
        assert(candidate_texts(candidates@)[urls.len() as int] == texts(
            candidates@[urls.len() as int]@,
        ));
        PageStep::Ask { name: urls.len(), address: 0 }
    } else {
        PageStep::Done
    }
}

/// Takes the answer for the address at place `address` of the name that
/// follows those with an answer, notes what it means for that name, and
/// decides what the search does next.
pub fn after_page_answer(
    candidates: &Vec<Vec<String>>,
    urls: &mut Vec<Option<String>>,
    address: usize,
    answer: PageAnswer,
) -> (out: PageStep)
    ensures
        (PageSearch { step: out, urls: optional_texts(final(urls)@) }) == page_step(
            candidate_texts(candidates@),
            optional_texts(old(urls)@),
            address as int,
            answer,
        ),
        step_fits(
            candidate_texts(candidates@),
            PageSearch { step: out, urls: optional_texts(final(urls)@) },
        ),
{
    let ghost all = candidate_texts(candidates@);
    let ghost before = optional_texts(urls@);
    proof {
        assert(all.len() == candidates.len());
        assert forall|i: int| 0 <= i < all.len() implies (#[trigger] all[i]).len()
            <= usize::MAX by {
            assert(all[i] == texts(candidates@[i]@));
            assert(all[i].len() == candidates@[i].len());
        }
        lemma_page_step_fits(all, before, address as int, answer);
    }
    let name: usize = urls.len();
    if name >= candidates.len() {
        return PageStep::Done;
    }
    assert(all[name as int] == texts(candidates@[name as int]@));
    let tries = &candidates[name];
    let found: Option<String> = if address >= tries.len() {
        None
    } else {
        match answer {
            PageAnswer::Exists => Some(tries[address].clone()),
            PageAnswer::Missing => {
                if address + 1 < tries.len() {
                    return PageStep::Ask { name, address: address + 1 };
                }
                None
            },
            PageAnswer::Unreachable => {
                if address == 0 {
                    let stage: u8 = if candidates.len() == 1 {
                        1
                    } else if name + 1 == candidates.len() {
                        3
                    } else {
                        2
                    };
                    return PageStep::Failed { stage, name };
                }
                None
            },
        }
    };
    urls.push(found);
    assert(optional_texts(urls@) =~= before.push(
        match found {
            Some(s) => Some(s@),
            None => None,
        },
    ));
    next_page(candidates, urls)
}

} // verus!
