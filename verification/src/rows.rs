//! The rows of one page: a page keeps the data rows whose row facet index is
//! one of its own, renumbered from 0 in the page's order.

use std::collections::HashMap;
use vstd::prelude::*;

verus! {

broadcast use vstd::std_specs::hash::group_hash_axioms;

/// The page position of each kept row facet index: the last position at
/// which it is listed.
pub open spec fn index_map(valid: Seq<i64>) -> Map<i64, int>
    decreases valid.len(),
{
    if valid.len() == 0 {
        Map::empty()
    } else {
        index_map(valid.drop_last()).insert(valid.last(), valid.len() - 1)
    }
}

/// The positions at which the row index of a data row is kept, in order, and
/// the page positions their indices map to.
pub open spec fn kept_rows(m: Map<i64, int>, ri: Seq<Option<i64>>) -> Seq<(int, int)>
    decreases ri.len(),
{
    if ri.len() == 0 {
        Seq::empty()
    } else {
        let prev = kept_rows(m, ri.drop_last());
        match ri.last() {
            Some(v) => if m.contains_key(v) {
                prev.push((ri.len() - 1, m[v]))
            } else {
                prev
            },
            None => prev,
        }
    }
}

/// The page position of each row facet index that a page keeps.
pub struct RowIndexMap {
    positions: HashMap<i64, i64>,
}

impl View for RowIndexMap {
    type V = Map<i64, int>;

    closed spec fn view(&self) -> Map<i64, int> {
        self.positions@.map_values(|p: i64| p as int)
    }
}

/// The rows of a page among data rows: the positions of the kept rows and
/// their renumbered row indices.
#[derive(Debug, Clone)]
pub struct PageRows {
    pub positions: Vec<usize>,
    pub row_indices: Vec<i64>,
}

proof fn lemma_index_map_last(s: Seq<i64>, j: int)
    requires
        0 <= j < s.len(),
        forall|k: int| j < k < s.len() ==> s[k] != s[j],
    ensures
        index_map(s).contains_key(s[j]),
        index_map(s)[s[j]] == j,
    decreases s.len(),
{
    if j < s.len() - 1 {
        lemma_index_map_last(s.drop_last(), j);
    }
}

/// Every kept row facet index is renumbered to a position of the page.
pub proof fn lemma_index_map_bounded(s: Seq<i64>, v: i64)
    requires
        index_map(s).contains_key(v),
    ensures
        0 <= index_map(s)[v] < s.len(),
    decreases s.len(),
{
    if s.len() > 0 && s.last() != v {
        lemma_index_map_bounded(s.drop_last(), v);
    }
}

/// A page that lists each row facet index once numbers each by its position.
pub proof fn lemma_distinct_positions(valid: Seq<i64>, j: int)
    requires
        0 <= j < valid.len(),
        forall|a: int, b: int| 0 <= a < b < valid.len() ==> valid[a] != valid[b],
    ensures
        index_map(valid).contains_key(valid[j]),
        index_map(valid)[valid[j]] == j,
{
    lemma_index_map_last(valid, j);
}

impl RowIndexMap {
    /// The map of a page whose row facets have the given indices, in order;
    /// an index listed twice counts at its last position.
    pub fn new(valid_row_indices: Vec<i64>) -> (r: Self)
        requires
            valid_row_indices@.len() <= i64::MAX,
        ensures
            r@ == index_map(valid_row_indices@),
    {
        let valid = &valid_row_indices;
        let mut positions: HashMap<i64, i64> = HashMap::new();
        let mut i: usize = 0;
        assert(valid@.take(0) =~= Seq::<i64>::empty());
        while i < valid.len()
            invariant
                i <= valid@.len(),
                valid@.len() <= i64::MAX,
                positions@.map_values(|p: i64| p as int) =~= index_map(valid@.take(i as int)),
            decreases valid@.len() - i,
        {
            assert(valid@.take(i as int + 1).drop_last() =~= valid@.take(i as int));
            assert(valid@.take(i as int + 1).last() == valid@[i as int]);
            let ghost before = positions@;
            positions.insert(valid[i], i as i64);
            assert(positions@ == before.insert(valid@[i as int], i as i64));
            assert(positions@.map_values(|p: i64| p as int) =~= before.map_values(
                |p: i64| p as int,
            ).insert(valid@[i as int], i as int));
            i = i + 1;
        }
        assert(valid@.take(valid@.len() as int) =~= valid@);
        RowIndexMap { positions }
    }

    /// The page position of a row facet index, if the page keeps it.
    pub fn get(&self, ri: i64) -> (r: Option<i64>)
        ensures
            r is Some <==> self@.contains_key(ri),
            r matches Some(p) ==> p == self@[ri],
    {
        match self.positions.get(&ri) {
            Some(p) => Some(*p),
            None => None,
        }
    }

    /// The rows of the page among data rows with the given row facet
    /// indices: the rows whose index the page keeps, in order, each with its
    /// index renumbered to its page position.
    pub fn filter_rows(&self, ri: &Vec<Option<i64>>) -> (r: PageRows)
        ensures
            r.positions@.len() == r.row_indices@.len(),
            r.positions@.len() == kept_rows(self@, ri@).len(),
            forall|k: int|
                0 <= k < r.positions@.len() ==> (r.positions@[k] as int, r.row_indices@[k] as int)
                    == #[trigger] kept_rows(self@, ri@)[k],
    {
        let mut positions: Vec<usize> = Vec::new();
        let mut row_indices: Vec<i64> = Vec::new();
        let mut p: usize = 0;
        while p < ri.len()
            invariant
                p <= ri@.len(),
                positions@.len() == row_indices@.len(),
                positions@.len() == kept_rows(self@, ri@.take(p as int)).len(),
                forall|k: int|
                    0 <= k < positions@.len() ==> (positions@[k] as int, row_indices@[k] as int)
                        == #[trigger] kept_rows(self@, ri@.take(p as int))[k],
            decreases ri@.len() - p,
        {
            assert(ri@.take(p as int + 1).drop_last() =~= ri@.take(p as int));
            assert(ri@.take(p as int + 1).last() == ri@[p as int]);
            match ri[p] {
                Some(v) => match self.get(v) {
                    Some(q) => {
                        positions.push(p);
                        row_indices.push(q);
                    },
                    None => {},
                },
                None => {},
            }
            p = p + 1;
        }
        assert(ri@.take(ri@.len() as int) =~= ri@);
        PageRows { positions, row_indices }
    }
}

/// The facet cell of a data row: its column and row facet indices, where it
/// has them.
#[derive(Debug, Clone, Copy, PartialEq, Eq, Structural)]
pub struct FacetKey {
    pub ci: Option<i32>,
    pub ri: Option<i32>,
}

/// A data row belongs to the facet selection: to the given column (any
/// column where none is given) and to the given row (any row where none is
/// given).
pub open spec fn in_facet(key: FacetKey, col_idx: Option<i32>, row_idx: Option<i32>) -> bool {
    &&& (col_idx matches Some(c) ==> key.ci == Some(c))
    &&& (row_idx matches Some(r) ==> key.ri == Some(r))
}

/// The positions of the data rows of a facet selection, in order.
pub open spec fn facet_rows_of(keys: Seq<FacetKey>, col_idx: Option<i32>, row_idx: Option<i32>) -> Seq<int>
    decreases keys.len(),
{
    if keys.len() == 0 {
        Seq::empty()
    } else {
        let prev = facet_rows_of(keys.drop_last(), col_idx, row_idx);
        if in_facet(keys.last(), col_idx, row_idx) {
            prev.push(keys.len() - 1)
        } else {
            prev
        }
    }
}

/// The positions of the data rows that belong to a facet selection.
pub fn rows_in_facet(keys: &Vec<FacetKey>, col_idx: Option<i32>, row_idx: Option<i32>) -> (r: Vec<usize>)
    ensures
        r@.map_values(|p: usize| p as int) == facet_rows_of(keys@, col_idx, row_idx),
{
    let mut out: Vec<usize> = Vec::new();
    let mut i: usize = 0;
    while i < keys.len()
        invariant
            i <= keys@.len(),
            out@.map_values(|p: usize| p as int) == facet_rows_of(keys@.take(i as int), col_idx, row_idx),
        decreases keys@.len() - i,
    {
        assert(keys@.take(i as int + 1).drop_last() =~= keys@.take(i as int));
        assert(keys@.take(i as int + 1).last() == keys@[i as int]);
        let k = keys[i];
        let col_ok = match col_idx {
            Some(c) => k.ci == Some(c),
            None => true,
        };
        let row_ok = match row_idx {
            Some(r) => k.ri == Some(r),
            None => true,
        };
        let ghost before = out@.map_values(|p: usize| p as int);
        if col_ok && row_ok {
            out.push(i);
            assert(out@.map_values(|p: usize| p as int) =~= before.push(i as int));
        }
        i = i + 1;
    }
    assert(keys@.take(keys@.len() as int) =~= keys@);
    out
}

} // verus!
