use vstd::prelude::*;

use crate::todo::{clone_todos, Todo};

verus! {

// ---------------------------------------------------------------------------
// Substring containment.
// ---------------------------------------------------------------------------
/// `sub` occurs in `s` starting at index `i`.
pub open spec fn contains_at(s: Seq<char>, sub: Seq<char>, i: int) -> bool {
    0 <= i && i + sub.len() <= s.len() && s.subrange(i, i + sub.len()) == sub
}

/// `sub` occurs somewhere in `s` (the empty sequence occurs everywhere).
pub open spec fn contains_sub(s: Seq<char>, sub: Seq<char>) -> bool {
    exists|i: int| contains_at(s, sub, i)
}

fn chars_eq_at(s: &str, sub: &str, i: usize, j: usize) -> (r: bool)
    requires
        i + j < s@.len(),
        s@.len() <= usize::MAX,
        j < sub@.len(),
    ensures
        r == (s@[i + j] == sub@[j as int]),
{
    s.get_char(i + j) == sub.get_char(j)
}

/// Case-sensitive substring test.
pub fn contains_substring(s: &str, sub: &str) -> (r: bool)
    ensures
        r == contains_sub(s@, sub@),
{
    let n = s.unicode_len();
    let m = sub.unicode_len();
    if m == 0 {
        proof {
            assert(s@.subrange(0, 0) =~= sub@);
            assert(contains_at(s@, sub@, 0));
        }
        return true;
    }
    if m > n {
        proof {
            assert(forall|i: int| !contains_at(s@, sub@, i));
        }
        return false;
    }
    let mut i: usize = 0;
    while i <= n - m
        invariant
            n == s@.len(),
            m == sub@.len(),
            1 <= m <= n,
            i <= n - m + 1,
            forall|i2: int| 0 <= i2 < i ==> !contains_at(s@, sub@, i2),
        decreases n - m + 1 - i,
    {
        let mut j: usize = 0;
        while j < m && chars_eq_at(s, sub, i, j)
            invariant
                n == s@.len(),
                m == sub@.len(),
                i + m <= n,
                j <= m,
                forall|j2: int| 0 <= j2 < j ==> s@[i + j2] == sub@[j2],
            decreases m - j,
        {
            j = j + 1;
        }
        if j == m {
            proof {
                assert(s@.subrange(i as int, i + m) =~= sub@);
                assert(contains_at(s@, sub@, i as int));
            }
            return true;
        }
        proof {
            assert(!contains_at(s@, sub@, i as int)) by {
                if contains_at(s@, sub@, i as int) {
                    assert(s@.subrange(i as int, i + m)[j as int] == sub@[j as int]);
                }
            }
        }
        i = i + 1;
    }
    proof {
        assert(forall|i2: int| #[trigger] contains_at(s@, sub@, i2) ==> i2 <= n - m);
    }
    false
}

// ---------------------------------------------------------------------------
// The filter engine.
// ---------------------------------------------------------------------------
/// Paired (matched, unmatched) annotation lists of a keyword filter. The
/// full list is always retained as `unmatched`, whatever the keyword, so
/// a control screen can still browse everything.
#[derive(Debug)]
pub struct FilterMatch {
    pub matched: Vec<Todo>,
    pub unmatched: Vec<Todo>,
}

/// The annotations of `all` whose text contains `k`, in order.
pub open spec fn matched_of(all: Seq<Todo>, k: Seq<char>) -> Seq<Todo> {
    all.filter(|t: Todo| contains_sub(t@.text, k))
}

/// What the filter flags: with an absent or empty keyword, nothing; with
/// a keyword, exactly the annotations whose text contains it.
pub open spec fn matched_spec(all: Seq<Todo>, keyword: Option<Seq<char>>) -> Seq<Todo> {
    match keyword {
        Some(k) => if k.len() > 0 {
            matched_of(all, k)
        } else {
            Seq::empty()
        },
        None => Seq::empty(),
    }
}

/// The keyword as a character sequence, where one was given.
pub open spec fn keyword_view(keyword: Option<&str>) -> Option<Seq<char>> {
    match keyword {
        Some(k) => Some(k@),
        None => None::<Seq<char>>,
    }
}

/// The filter engine: flags the annotations whose text contains the
/// keyword (case-sensitively) and retains the full list alongside.
/// Flagging never re-filters the underlying catalog.
pub fn filter_todos(all: Vec<Todo>, keyword: Option<&str>) -> (r: FilterMatch)
    ensures
        r.unmatched@ == all@,
        r.matched@ == matched_spec(all@, keyword_view(keyword)),
{
    let matched: Vec<Todo> = match keyword {
        Some(k) => {
            if k.is_empty() {
                Vec::new()
            } else {
                filter_by_keyword(&all, k)
            }
        },
        None => Vec::new(),
    };
    FilterMatch { matched, unmatched: all }
}

fn filter_by_keyword(all: &Vec<Todo>, k: &str) -> (r: Vec<Todo>)
    requires
        k@.len() > 0,
    ensures
        r@ == matched_of(all@, k@),
{
    let mut matched: Vec<Todo> = Vec::new();
    let mut i: usize = 0;
    while i < all.len()
        invariant
            i <= all@.len(),
            matched@ == matched_of(all@.take(i as int), k@),
        decreases all@.len() - i,
    {
        if contains_substring(all[i].text.as_str(), k) {
            matched.push(all[i].clone());
        }
        proof {
            reveal(Seq::filter);
            assert(all@.take(i + 1).drop_last() =~= all@.take(i as int));
            assert(all@.take(i + 1).last() == all@[i as int]);
            assert(matched@ =~= matched_of(all@.take(i + 1), k@));
        }
        i = i + 1;
    }
    proof {
        assert(all@.take(all@.len() as int) =~= all@);
    }
    matched
}

// ---------------------------------------------------------------------------
// Laws of the filter engine.
// ---------------------------------------------------------------------------
/// LAW: with no keyword, nothing is flagged — together with
/// `filter_todos`'s contract, the result is an empty `matched` beside the
/// unchanged full list.
pub proof fn lemma_filter_no_keyword(all: Seq<Todo>)
    ensures
        matched_spec(all, None::<Seq<char>>) == Seq::<Todo>::empty(),
{
}

proof fn lemma_filter_element_of<A>(s: Seq<A>, pred: spec_fn(A) -> bool, i: int)
    requires
        0 <= i < s.filter(pred).len(),
    ensures
        s.contains(s.filter(pred)[i]),
    decreases s.len(),
{
    reveal(Seq::filter);
    if s.len() > 0 {
        let sub = s.drop_last().filter(pred);
        if i < sub.len() {
            lemma_filter_element_of(s.drop_last(), pred, i);
            let w = choose|w: int| 0 <= w < s.drop_last().len() && s.drop_last()[w] == sub[i];
            assert(s[w] == s.filter(pred)[i]);
        } else {
            assert(s[s.len() - 1] == s.filter(pred)[i]);
        }
    }
}

/// LAW: with a keyword, every flagged annotation is one of the given ones
/// and its text contains the keyword; the full list is kept alongside by
/// `filter_todos`'s own contract.
pub proof fn lemma_filter_matched_subset(all: Seq<Todo>, k: Seq<char>, i: int)
    requires
        k.len() > 0,
        0 <= i < matched_spec(all, Some(k)).len(),
    ensures
        all.contains(matched_spec(all, Some(k))[i]),
        contains_sub(matched_spec(all, Some(k))[i]@.text, k),
{
    let pred = |t: Todo| contains_sub(t@.text, k);
    lemma_filter_element_of(all, pred, i);
    all.lemma_filter_pred(pred, i);
}

} // verus!
