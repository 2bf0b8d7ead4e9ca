//! The account list: the visible subdirectories of the accounts directory,
//! in ascending order.
use vstd::prelude::*;
use crate::text::{text_less, text_lt, same_text, lemma_text_less_irreflexive,
    lemma_text_less_transitive, lemma_text_less_total};

verus! {

/// One entry of a directory listing.
#[derive(Clone, Debug, PartialEq, Eq)]
pub struct DirEntry {
    /// The entry's name; `None` where the name is not valid Unicode.
    pub name: Option<String>,
    /// Whether the entry is a directory.
    pub is_dir: bool,
}

/// A name is hidden when it starts with a dot.
pub open spec fn is_hidden(name: Seq<char>) -> bool {
    name.len() > 0 && name[0] == '.'
}

/// An entry names an account when it is a directory with a readable name
/// that is not hidden.
pub open spec fn is_account_entry(e: DirEntry) -> bool {
    e.is_dir && e.name is Some && !is_hidden(e.name->0@)
}

/// The account names that a listing holds, in no particular order.
pub open spec fn visible_names(listing: Seq<DirEntry>) -> Set<Seq<char>> {
    Set::new(|n: Seq<char>| exists|e: DirEntry| #[trigger] listing.contains(e)
        && is_account_entry(e) && e.name->0@ == n)
}

/// Strictly ascending in lexicographic order; hence also free of repeats.
pub open spec fn strictly_ascending(s: Seq<Seq<char>>) -> bool {
    forall|i: int, j: int| 0 <= i < j < s.len() ==> text_less(#[trigger] s[i], #[trigger] s[j])
}

/// The account list of a listing: its account names, each once, ascending.
pub open spec fn account_names(listing: Seq<DirEntry>) -> Seq<Seq<char>> {
    choose|s: Seq<Seq<char>>| strictly_ascending(s) && s.to_set() == visible_names(listing)
}

/// Two strictly ascending sequences with the same elements are equal.
pub proof fn lemma_ascending_unique(x: Seq<Seq<char>>, y: Seq<Seq<char>>)
    requires
        strictly_ascending(x),
        strictly_ascending(y),
        x.to_set() == y.to_set(),
    ensures
        x == y,
    decreases x.len(),
{
    if x.len() == 0 {
        if y.len() > 0 {
            assert(x.to_set().contains(y[0]));
        }
        assert(x =~= y);
    } else if y.len() == 0 {
        assert(y.to_set().contains(x[0]));
    } else {
        assert(y.to_set().contains(x[0]));
        assert(x.to_set().contains(y[0]));
        let j = choose|j: int| 0 <= j < y.len() && y[j] == x[0];
        let i = choose|i: int| 0 <= i < x.len() && x[i] == y[0];
        if j > 0 {
            if i > 0 {
                lemma_text_less_transitive(y[0], y[j], x[i]);
            }
            lemma_text_less_irreflexive(y[0]);
        }
        assert(x[0] == y[0]);
        let xs = x.drop_first();
        let ys = y.drop_first();
        assert forall|n: Seq<char>| xs.to_set().contains(n) implies ys.to_set().contains(n) by {
            let k = choose|k: int| 0 <= k < xs.len() && xs[k] == n;
            assert(x[k + 1] == n);
            assert(y.to_set().contains(n));
            let m = choose|m: int| 0 <= m < y.len() && y[m] == n;
            if m == 0 {
                lemma_text_less_irreflexive(n);
            }
            assert(ys[m - 1] == n);
        }
        assert forall|n: Seq<char>| ys.to_set().contains(n) implies xs.to_set().contains(n) by {
            let k = choose|k: int| 0 <= k < ys.len() && ys[k] == n;
            assert(y[k + 1] == n);
            assert(x.to_set().contains(n));
            let m = choose|m: int| 0 <= m < x.len() && x[m] == n;
            if m == 0 {
                lemma_text_less_irreflexive(n);
            }
            assert(xs[m - 1] == n);
        }
        assert(xs.to_set() =~= ys.to_set());
        lemma_ascending_unique(xs, ys);
        assert(x =~= seq![x[0]] + xs);
        assert(y =~= seq![y[0]] + ys);
    }
}

/// The account list does not depend on the order of the listing: two listings
/// that hold the same entries, in any order, give the same accounts.
pub proof fn lemma_listing_order_irrelevant(a: Seq<DirEntry>, b: Seq<DirEntry>)
    requires
        a.to_multiset() == b.to_multiset(),
    ensures
        account_names(a) == account_names(b),
{
    broadcast use vstd::seq_lib::group_to_multiset_ensures;
    assert forall|e: DirEntry| a.contains(e) <==> b.contains(e) by {
        assert(a.contains(e) <==> a.to_multiset().count(e) > 0);
        assert(b.contains(e) <==> b.to_multiset().count(e) > 0);
    }
    assert(visible_names(a) =~= visible_names(b));
}

/// Inserts `name` at its place in an ascending list, unless it is there already.
fn insert_account(list: &mut Vec<String>, name: String)
    requires
        strictly_ascending(old(list).deep_view()),
    ensures
        strictly_ascending(final(list).deep_view()),
        final(list).deep_view().to_set() == old(list).deep_view().to_set().insert(name@),
{
    let ghost before = list.deep_view();
    let mut p: usize = 0;
    while p < list.len() && text_lt(list[p].as_str(), name.as_str())
        invariant
            list.deep_view() == before,
            p <= list.len(),
            forall|k: int| 0 <= k < p ==> text_less(#[trigger] before[k], name@),
        decreases list.len() - p,
    {
        p = p + 1;
    }
    if p < list.len() && same_text(list[p].as_str(), name.as_str()) {
        assert(before.to_set().insert(name@) =~= before.to_set()) by {
            assert(before[p as int] == name@);
        }
        return;
    }
    proof {
        if p < list.len() {
            lemma_text_less_total(before[p as int], name@);
        }
    }
    list.insert(p, name);
    let ghost after = list.deep_view();
    assert(after =~= before.insert(p as int, name@));
    assert forall|i: int, j: int| 0 <= i < j < after.len() implies text_less(
        #[trigger] after[i],
        #[trigger] after[j],
    ) by {
        if j < p {
        } else if j == p {
        } else if i < p {
            lemma_text_less_transitive(before[i], name@, before[p as int]);
            if j - 1 > p {
                lemma_text_less_transitive(before[i], before[p as int], before[j - 1]);
            }
        } else if i == p {
            if j - 1 > p {
                lemma_text_less_transitive(name@, before[p as int], before[j - 1]);
            }
        } else {
        }
    }
    assert(after.to_set() =~= before.to_set().insert(name@)) by {
        assert forall|n: Seq<char>| after.to_set().contains(n) implies before.to_set().insert(
            name@,
        ).contains(n) by {
            let k = choose|k: int| 0 <= k < after.len() && after[k] == n;
            if k < p {
                assert(before[k] == n);
            } else if k > p {
                assert(before[k - 1] == n);
            }
        }
        assert forall|n: Seq<char>| before.to_set().insert(name@).contains(n) implies after.to_set().contains(
            n,
        ) by {
            if n == name@ {
                assert(after[p as int] == n);
            } else {
                let k = choose|k: int| 0 <= k < before.len() && before[k] == n;
                if k < p {
                    assert(after[k] == n);
                } else {
                    assert(after[k + 1] == n);
                }
            }
        }
    }
}

/// The account list of a directory listing: the names of the entries that are
/// directories with a readable name not starting with a dot, each once, in
/// ascending lexicographic order, whatever the order of the listing.
pub fn collect_accounts(listing: &Vec<DirEntry>) -> (r: Vec<String>)
    ensures
        strictly_ascending(r.deep_view()),
        r.deep_view().to_set() == visible_names(listing@),
        r.deep_view() == account_names(listing@),
        forall|k: int| 0 <= k < r.len() ==> !is_hidden(#[trigger] r.deep_view()[k]),
{
    let mut list: Vec<String> = Vec::new();
    let mut i: usize = 0;
    assert(list.deep_view().to_set() =~= visible_names(listing@.take(0)));
    while i < listing.len()
        invariant
            i <= listing.len(),
            strictly_ascending(list.deep_view()),
            list.deep_view().to_set() == visible_names(listing@.take(i as int)),
        decreases listing.len() - i,
    {
        let ghost prefix = listing@.take(i as int);
        let ghost next = listing@.take(i as int + 1);
        assert(next =~= prefix.push(listing@[i as int]));
        let entry = &listing[i];
        let ghost before = list.deep_view();
        if entry.is_dir {
            match &entry.name {
                Some(name) => {
                    let hidden = name.unicode_len() > 0 && name.as_str().get_char(0) == '.';
                    if !hidden {
                        insert_account(&mut list, name.clone());
                        assert(is_account_entry(listing@[i as int]));
                        assert(list.deep_view().to_set() == before.to_set().insert(
                            listing@[i as int].name->0@,
                        ));
                    }
                },
                None => {},
            }
        }
        let ghost taken = is_account_entry(listing@[i as int]);
        assert(taken ==> list.deep_view().to_set() == before.to_set().insert(
            listing@[i as int].name->0@,
        ));
        assert(!taken ==> list.deep_view() == before);
        assert(list.deep_view().to_set() =~= visible_names(next)) by {
            assert forall|n: Seq<char>| visible_names(next).contains(n) implies list.deep_view().to_set().contains(n) by {
                let e = choose|e: DirEntry| next.contains(e) && is_account_entry(e) && e.name->0@ == n;
                let k = choose|k: int| 0 <= k < next.len() && next[k] == e;
                if k < i {
                    assert(prefix.contains(e));
                    assert(visible_names(prefix).contains(n));
                }
            }
            assert forall|n: Seq<char>| list.deep_view().to_set().contains(n) implies visible_names(next).contains(n) by {
                if visible_names(prefix).contains(n) {
                    let e = choose|e: DirEntry| prefix.contains(e) && is_account_entry(e) && e.name->0@ == n;
                    let k = choose|k: int| 0 <= k < prefix.len() && prefix[k] == e;
                    assert(next[k] == e);
                    assert(next.contains(e));
                } else {
                    assert(taken);
                    assert(n == listing@[i as int].name->0@);
                    assert(next[i as int] == listing@[i as int]);
                    assert(next.contains(listing@[i as int]));
                    let e = listing@[i as int];
                    assert(next.contains(e) && is_account_entry(e) && e.name->0@ == n);
                }
            }
        }
        i = i + 1;
    }
    assert(listing@.take(listing.len() as int) =~= listing@);
    proof {
        let w = list.deep_view();
        assert forall|k: int| 0 <= k < list.len() implies !is_hidden(#[trigger] w[k]) by {
            assert(w.to_set().contains(w[k]));
        }
        assert(strictly_ascending(w) && w.to_set() == visible_names(listing@));
        lemma_ascending_unique(w, account_names(listing@));
    }
    list
}

} // verus!
