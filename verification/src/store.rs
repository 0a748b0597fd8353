//! The cached catalog: a set of repository names, kept in alphabetical
//! order, that is replaced as a whole and read page by page.

use vstd::prelude::*;
use crate::order::{
    ascending, lemma_ascending_no_duplicates, lemma_ascending_subrange,
    lemma_precedes_irreflexive, lemma_precedes_total, lemma_precedes_transitive,
    lemma_sorted_names, precedes, sorted_names,
};
use crate::crawl::{crawl_outcome, is_catalog, lemma_crawl_collects_catalog, CrawlView};
use crate::page::{page_window, window_of, PageError};

verus! {

/// Compares two texts with `str`'s own `<`, which orders texts by their
/// bytes and thereby by their characters, one after the other; a text comes
/// after each of its proper prefixes.
#[verifier::external_body]
fn comes_before(a: &str, b: &str) -> (r: bool)
    ensures
        r == precedes(a@, b@),
{
    a < b
}

/// The stretch of `names` that starts after `offset` names and holds
/// `limit` names, as far as there are that many.
pub open spec fn range_of(names: Seq<Seq<char>>, offset: nat, limit: nat) -> Seq<Seq<char>> {
    let from = if offset < names.len() {
        offset
    } else {
        names.len()
    };
    let to = if from + limit < names.len() {
        from + limit
    } else {
        names.len()
    };
    names.subrange(from as int, to as int)
}

/// The names on a page of a snapshot, or the refusal of a page there is not.
pub open spec fn page_of(snapshot: Seq<Seq<char>>, page_number: usize, page_size: usize) -> Result<
    Seq<Seq<char>>,
    PageError,
>
    recommends
        snapshot.len() <= usize::MAX,
{
    match window_of(snapshot.len() as usize, page_number, page_size) {
        Ok(w) => Ok(range_of(snapshot, w.offset as nat, w.limit as nat)),
        Err(e) => Err(e),
    }
}

/// The view of what `page` answers.
pub open spec fn page_view(r: Result<Vec<String>, PageError>) -> Result<Seq<Seq<char>>, PageError> {
    match r {
        Ok(names) => Ok(names.deep_view()),
        Err(e) => Err(e),
    }
}

/// A set of names in alphabetical order.
#[derive(Debug)]
pub struct CatalogStore {
    names: Vec<String>,
}

impl View for CatalogStore {
    type V = Seq<Seq<char>>;

    /// The names, in order.
    closed spec fn view(&self) -> Seq<Seq<char>> {
        self.names.deep_view()
    }
}

impl CatalogStore {
    /// Whether the names are in ascending order, as they are in every
    /// store that this module hands out.
    pub open spec fn wf(self) -> bool {
        ascending(self@)
    }

    /// The names as a set.
    pub open spec fn members(self) -> Set<Seq<char>> {
        self@.to_set()
    }

    /// A store without names.
    pub fn new() -> (r: CatalogStore)
        ensures
            r@ == Seq::<Seq<char>>::empty(),
            r.wf(),
    {
        let names: Vec<String> = Vec::new();
        assert(names.deep_view() =~= Seq::<Seq<char>>::empty());
        CatalogStore { names }
    }

    /// The number of names.
    pub fn cardinality(&self) -> (r: usize)
        ensures
            r == self@.len(),
    {
        self.names.len()
    }

    /// Removes every name.
    pub fn clear(&mut self)
        ensures
            final(self)@ == Seq::<Seq<char>>::empty(),
            final(self).wf(),
    {
        self.names.clear();
        assert(self.names.deep_view() =~= Seq::<Seq<char>>::empty());
    }

    /// Adds a name; a name that is there already is not added again.
    pub fn insert(&mut self, name: String)
        requires
            old(self).wf(),
        ensures
            final(self).wf(),
            final(self).members() == old(self).members().insert(name@),
            old(self).members().contains(name@) ==> final(self)@ == old(self)@,
            !old(self).members().contains(name@) ==> final(self)@.len() == old(self)@.len() + 1,
    {
        let ghost before = self.names.deep_view();
        let mut i: usize = self.names.len();
        while i > 0 && comes_before(name.as_str(), self.names[i - 1].as_str())
            invariant
                0 <= i <= self.names.len(),
                self.names.deep_view() == before,
                ascending(before),
                forall|k: int| i <= k < before.len() ==> precedes(name@, #[trigger] before[k]),
            decreases i,
        {
            i = i - 1;
        }
        proof {
            if i > 0 {
                lemma_precedes_total(name@, before[i - 1]);
            }
        }
        if i > 0 && self.names[i - 1] == name {
            proof {
                assert(before[i - 1] == name@);
                assert(before.contains(name@));
                assert(before.to_set().insert(name@) =~= before.to_set());
                assert forall|k: int| 0 <= k < before.len() && before[k] == name@ implies k == i
                    - 1 by {}
            }
            return ;
        }
        proof {
            assert forall|k: int| 0 <= k < i implies precedes(#[trigger] before[k], name@) by {
                if k < i - 1 {
                    assert(precedes(before[k], before[i - 1]));
                    lemma_precedes_transitive(before[k], before[i - 1], name@);
                }
            }
            lemma_precedes_irreflexive(name@);
            assert(!before.contains(name@)) by {
                if before.contains(name@) {
                    let k = choose|k: int| 0 <= k < before.len() && before[k] == name@;
                    if k < i {
                        assert(precedes(before[k], name@));
                    } else {
                        assert(precedes(name@, before[k]));
                    }
                }
            }
        }
        let ghost added = name@;
        self.names.insert(i, name);
        proof {
            let after = self.names.deep_view();
            assert(after =~= before.insert(i as int, added));
            assert forall|a: int, b: int| 0 <= a < b < after.len() implies precedes(
                #[trigger] after[a],
                #[trigger] after[b],
            ) by {
                if b < i {
                    assert(after[a] == before[a] && after[b] == before[b]);
                } else if b == i {
                    assert(after[a] == before[a]);
                } else if a < i {
                    assert(after[a] == before[a] && after[b] == before[b - 1]);
                } else if a == i {
                    assert(after[b] == before[b - 1]);
                } else {
                    assert(after[a] == before[a - 1] && after[b] == before[b - 1]);
                }
            }
            assert(after.to_set() =~= before.to_set().insert(added)) by {
                assert forall|x: Seq<char>| after.to_set().contains(x) <==> before.to_set().insert(
                    added,
                ).contains(x) by {
                    if after.to_set().contains(x) {
                        let k = choose|k: int| 0 <= k < after.len() && after[k] == x;
                        if k < i {
                            assert(before[k] == x);
                        } else if k > i {
                            assert(before[k - 1] == x);
                        }
                    }
                    if before.to_set().contains(x) {
                        let k = choose|k: int| 0 <= k < before.len() && before[k] == x;
                        if k < i {
                            assert(after[k] == x);
                        } else {
                            assert(after[k + 1] == x);
                        }
                    }
                    if x == added {
                        assert(after[i as int] == x);
                    }
                }
            }
        }
    }
}

impl CatalogStore {
    /// Adds each of `members`; names that are there already, or that come
    /// twice, are there once afterwards.
    pub fn insert_all(&mut self, members: &Vec<String>)
        requires
            old(self).wf(),
        ensures
            final(self).wf(),
            final(self).members() == old(self).members().union(members.deep_view().to_set()),
    {
        let ghost all = members.deep_view();
        let mut i: usize = 0;
        assert(self.members().union(all.take(0).to_set()) =~= self.members());
        while i < members.len()
            invariant
                0 <= i <= members.len(),
                all == members.deep_view(),
                self.wf(),
                self.members() == old(self).members().union(all.take(i as int).to_set()),
            decreases members.len() - i,
        {
            let name = members[i].clone();
            proof {
                assert(name@ == all[i as int]);
                let seen = all.take(i as int);
                let next = all.take(i + 1);
                assert forall|x: Seq<char>| next.to_set().contains(x) <==> seen.to_set().insert(
                    all[i as int],
                ).contains(x) by {
                    if next.to_set().contains(x) {
                        let k = choose|k: int| 0 <= k < next.len() && next[k] == x;
                        if k < i {
                            assert(seen[k] == x);
                        }
                    }
                    if seen.to_set().contains(x) {
                        let k = choose|k: int| 0 <= k < seen.len() && seen[k] == x;
                        assert(next[k] == x);
                    }
                    if x == all[i as int] {
                        assert(next[i as int] == x);
                    }
                }
                assert(next.to_set() =~= seen.to_set().insert(all[i as int]));
            }
            self.insert(name);
            proof {
                assert(self.members() =~= old(self).members().union(all.take(i + 1).to_set()));
            }
            i = i + 1;
        }
        assert(all.take(members.len() as int) =~= all);
    }

    /// Replaces the names by those of `catalog`, in one step: the store
    /// holds the old names before and the new ones after, and nothing in
    /// between.
    pub fn replace(&mut self, catalog: &Vec<String>)
        ensures
            final(self).wf(),
            final(self).members() == catalog.deep_view().to_set(),
            final(self)@ == sorted_names(catalog.deep_view().to_set()),
            final(self)@.len() == 0 <==> catalog@.len() == 0,
    {
        let mut fresh = CatalogStore::new();
        fresh.insert_all(catalog);
        proof {
            assert(fresh.members() =~= catalog.deep_view().to_set());
            lemma_sorted_names(fresh@);
            if catalog@.len() > 0 {
                assert(catalog.deep_view()[0] == catalog@[0]@);
                assert(catalog.deep_view().to_set().contains(catalog.deep_view()[0]));
                assert(fresh@.contains(catalog.deep_view()[0]));
            } else if fresh@.len() > 0 {
                assert(fresh@.to_set().contains(fresh@[0]));
                assert(catalog.deep_view().contains(fresh@[0]));
            }
        }
        *self = fresh;
    }

    /// The names from position `offset` on, at most `limit` of them.
    pub fn sorted_range(&self, offset: usize, limit: usize) -> (r: Vec<String>)
        ensures
            r.deep_view() == range_of(self@, offset as nat, limit as nat),
    {
        let n = self.names.len();
        let from = if offset < n {
            offset
        } else {
            n
        };
        let to = if limit < n - from {
            from + limit
        } else {
            n
        };
        let mut out: Vec<String> = Vec::new();
        let mut i: usize = from;
        while i < to
            invariant
                from <= i <= to <= n,
                n == self.names.len(),
                out.len() == i - from,
                forall|k: int| 0 <= k < out.len() ==> (#[trigger] out@[k])@ == self@[from + k],
            decreases to - i,
        {
            out.push(self.names[i].clone());
            i = i + 1;
        }
        assert(out.deep_view() =~= range_of(self@, offset as nat, limit as nat));
        out
    }

    /// The names on page `page_number`, or the refusal of a page there is
    /// not.
    pub fn page(&self, page_number: usize, page_size: usize) -> (r: Result<Vec<String>, PageError>)
        requires
            self.wf(),
        ensures
            page_view(r) == page_of(self@, page_number, page_size),
            r matches Ok(names) ==> names.len() == page_size && ascending(names.deep_view()),
    {
        proof {
            assert(self@.len() == self.names.len());
            if page_of(self@, page_number, page_size) is Ok {
                lemma_page_full_and_sorted(self@, page_number, page_size);
            }
        }
        match page_window(self.names.len(), page_number, page_size) {
            Ok(w) => Ok(self.sorted_range(w.offset, w.limit)),
            Err(e) => Err(e),
        }
    }
}

/// A page that there is holds exactly as many names as the page size says,
/// in ascending order.
pub proof fn lemma_page_full_and_sorted(
    snapshot: Seq<Seq<char>>,
    page_number: usize,
    page_size: usize,
)
    requires
        ascending(snapshot),
        snapshot.len() <= usize::MAX,
        page_of(snapshot, page_number, page_size) is Ok,
    ensures
        page_of(snapshot, page_number, page_size).unwrap().len() == page_size,
        ascending(page_of(snapshot, page_number, page_size).unwrap()),
        page_of(snapshot, page_number, page_size).unwrap() == snapshot.subrange(
            page_size * (page_number - 1),
            page_size * page_number,
        ),
{
    crate::page::lemma_window_within(snapshot.len(), page_number as nat, page_size as nat);
    assert(page_size * (page_number - 1) + page_size == page_size * page_number)
        by (nonlinear_arith);
    assert(0 <= page_size * (page_number - 1)) by (nonlinear_arith)
        requires
            page_number >= 1,
    ;
    lemma_ascending_subrange(snapshot, page_size * (page_number - 1), page_size * page_number);
}

/// Two different pages of one snapshot have no name in common.
pub proof fn lemma_pages_share_no_name(
    snapshot: Seq<Seq<char>>,
    first: usize,
    second: usize,
    page_size: usize,
    name: Seq<char>,
)
    requires
        ascending(snapshot),
        snapshot.len() <= usize::MAX,
        first != second,
        page_of(snapshot, first, page_size) is Ok,
        page_of(snapshot, second, page_size) is Ok,
    ensures
        !(page_of(snapshot, first, page_size).unwrap().contains(name) && page_of(
            snapshot,
            second,
            page_size,
        ).unwrap().contains(name)),
{
    lemma_page_full_and_sorted(snapshot, first, page_size);
    lemma_page_full_and_sorted(snapshot, second, page_size);
    lemma_ascending_no_duplicates(snapshot);
    let a = page_of(snapshot, first, page_size).unwrap();
    let b = page_of(snapshot, second, page_size).unwrap();
    if a.contains(name) && b.contains(name) {
        let i = choose|i: int| 0 <= i < a.len() && a[i] == name;
        let j = choose|j: int| 0 <= j < b.len() && b[j] == name;
        let base_a = page_size * (first - 1);
        let base_b = page_size * (second - 1);
        crate::page::lemma_window_within(snapshot.len(), first as nat, page_size as nat);
        crate::page::lemma_window_within(snapshot.len(), second as nat, page_size as nat);
        assert(0 <= base_a && 0 <= base_b) by (nonlinear_arith)
            requires
                first >= 1,
                second >= 1,
                base_a == page_size * (first - 1),
                base_b == page_size * (second - 1),
        ;
        assert(base_a + page_size == page_size * first) by (nonlinear_arith)
            requires
                base_a == page_size * (first - 1),
        ;
        assert(base_b + page_size == page_size * second) by (nonlinear_arith)
            requires
                base_b == page_size * (second - 1),
        ;
        let pi = base_a + i;
        let pj = base_b + j;
        assert(a == snapshot.subrange(base_a, base_a + page_size));
        assert(b == snapshot.subrange(base_b, base_b + page_size));
        assert(snapshot[pi] == name);
        assert(snapshot[pj] == name);
        assert(pi != pj) by (nonlinear_arith)
            requires
                first != second,
                0 <= i < page_size,
                0 <= j < page_size,
                pi == page_size * (first - 1) + i,
                pj == page_size * (second - 1) + j,
                page_size >= 1,
        ;
    }
}

/// The number of requests that a crawl makes against a registry that holds
/// `names` names.
pub open spec fn requests_needed(names: nat, page_size: nat) -> nat {
    if page_size == 0 {
        1
    } else {
        names / page_size + 1
    }
}

/// The snapshot after a refresh against a registry that holds `catalog`:
/// the names that the crawl hands over, in order. Where the crawl does not
/// end, the snapshot is left as it was.
pub open spec fn refreshed(before: Seq<Seq<char>>, catalog: Seq<Seq<char>>, page_size: nat) -> Seq<
    Seq<char>,
> {
    match crawl_outcome(
        catalog,
        CrawlView { page_size, names: Seq::empty() },
        requests_needed(catalog.len(), page_size),
    ) {
        Some(names) => sorted_names(names.to_set()),
        None => before,
    }
}

/// A refresh stores the registry's catalog, whatever was stored before and
/// whatever the page size of the crawl: so a second refresh against an
/// unchanged registry leaves the snapshot, and each of its pages, as the
/// first left them.
pub proof fn lemma_refresh_idempotent(
    before: Seq<Seq<char>>,
    catalog: Seq<Seq<char>>,
    first_page_size: nat,
    second_page_size: nat,
    page_number: usize,
    page_size: usize,
)
    requires
        is_catalog(catalog),
    ensures
        refreshed(before, catalog, first_page_size) == sorted_names(catalog.to_set()),
        refreshed(refreshed(before, catalog, first_page_size), catalog, second_page_size)
            == refreshed(before, catalog, first_page_size),
        page_of(
            refreshed(refreshed(before, catalog, first_page_size), catalog, second_page_size),
            page_number,
            page_size,
        ) == page_of(refreshed(before, catalog, first_page_size), page_number, page_size),
{
    lemma_crawl_collects_catalog(catalog, first_page_size);
    lemma_crawl_collects_catalog(catalog, second_page_size);
}

} // verus!
