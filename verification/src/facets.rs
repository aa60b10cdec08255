//! Facet metadata: the groups of the column and row facet tables and the
//! facet counts that the plot layout uses.

use crate::lookup::pairs_map;
use crate::properties::opt_view;
use crate::text::{decimal, decimal_string, join, joined, views};
use vstd::prelude::*;

verus! {

/// A single facet group.
#[derive(Debug, Clone)]
pub struct FacetGroup {
    /// Index of this facet group (0-based)
    pub index: usize,
    /// Label for display (the column values of the group, joined)
    pub label: String,
    /// The column values of this group, as (column name, value) pairs in
    /// column order
    pub values: Vec<(String, String)>,
}

/// The column values of a group by column name; of two values for one column
/// the later counts.
pub open spec fn group_values(g: FacetGroup) -> Map<Seq<char>, Seq<char>> {
    pairs_map(g.values@.map_values(|e: (String, String)| (e.0@, e.1@)))
}

/// The groups of one facet dimension (column or row).
#[derive(Debug, Clone)]
pub struct FacetMetadata {
    /// All facet groups in order
    pub groups: Vec<FacetGroup>,
    /// Column names in the facet table
    pub column_names: Vec<String>,
}

/// A row of a decoded facet table: one optional value per column.
pub type FacetRow = Vec<Option<String>>;

/// The views of a row's values.
pub open spec fn row_view(row: FacetRow) -> Seq<Option<Seq<char>>> {
    row@.map_values(|e: Option<String>| opt_view(e))
}

/// The (column, value) pairs of the first `k` columns of a row, skipping
/// columns without a value.
pub open spec fn cell_parts(
    cols: Seq<Seq<char>>,
    row: Seq<Option<Seq<char>>>,
    k: int,
) -> Seq<(Seq<char>, Seq<char>)>
    decreases k,
{
    if k <= 0 {
        Seq::empty()
    } else {
        let prev = cell_parts(cols, row, k - 1);
        if k - 1 < row.len() && row[k - 1] is Some {
            prev.push((cols[k - 1], row[k - 1]->0))
        } else {
            prev
        }
    }
}

/// The values of a sequence of pairs.
pub open spec fn pair_texts(p: Seq<(Seq<char>, Seq<char>)>) -> Seq<Seq<char>> {
    p.map_values(|e: (Seq<char>, Seq<char>)| e.1)
}

/// The label of a group: its values joined with `", "`; with `fallback`, a
/// group without values is labelled by its index.
pub open spec fn group_label(
    parts: Seq<(Seq<char>, Seq<char>)>,
    index: nat,
    fallback: bool,
) -> Seq<char> {
    if fallback && parts.len() == 0 {
        decimal(index)
    } else {
        joined(pair_texts(parts), ", "@)
    }
}

/// Group `index` of a decoded facet table is built from row `index`.
pub open spec fn group_from_row(
    g: FacetGroup,
    index: int,
    cols: Seq<Seq<char>>,
    row: Seq<Option<Seq<char>>>,
    fallback: bool,
) -> bool {
    let parts = cell_parts(cols, row, cols.len() as int);
    &&& g.index == index
    &&& g.values@.map_values(|e: (String, String)| (e.0@, e.1@)) == parts
    &&& g.label@ == group_label(parts, index as nat, fallback)
}

/// Group `index` is a placeholder labelled by its index, without values.
pub open spec fn index_group(g: FacetGroup, index: int) -> bool {
    &&& g.index == index
    &&& g.label@ == decimal(index as nat)
    &&& g.values@.len() == 0
}

/// The number of facets a dimension contributes to the grid: its number of
/// groups, or one where it has none.
pub open spec fn facet_count(m: FacetMetadata) -> nat {
    if m.groups@.len() == 0 {
        1
    } else {
        m.groups@.len()
    }
}

/// Builds the pairs and the label of one row.
fn build_group(
    column_names: &Vec<String>,
    row: &FacetRow,
    index: usize,
    fallback: bool,
) -> (g: FacetGroup)
    ensures
        group_from_row(g, index as int, views(column_names@), row_view(*row), fallback),
{
    let ghost cols = views(column_names@);
    let ghost rv = row_view(*row);
    let mut values: Vec<(String, String)> = Vec::new();
    let mut texts: Vec<String> = Vec::new();
    let mut j: usize = 0;
    while j < column_names.len()
        invariant
            j <= column_names@.len(),
            cols == views(column_names@),
            rv == row_view(*row),
            values@.map_values(|e: (String, String)| (e.0@, e.1@)) == cell_parts(
                cols,
                rv,
                j as int,
            ),
            views(texts@) == pair_texts(cell_parts(cols, rv, j as int)),
        decreases column_names@.len() - j,
    {
        if j < row.len() {
            match &row[j] {
                Some(v) => {
                    let ghost before = values@.map_values(|e: (String, String)| (e.0@, e.1@));
                    let ghost tbefore = views(texts@);
                    values.push((column_names[j].clone(), v.clone()));
                    texts.push(v.clone());
                    assert(values@.map_values(|e: (String, String)| (e.0@, e.1@)) =~= before.push(
                        (cols[j as int], v@),
                    ));
                    assert(views(texts@) =~= tbefore.push(v@));
                    assert(pair_texts(cell_parts(cols, rv, j as int + 1)) =~= pair_texts(
                        cell_parts(cols, rv, j as int),
                    ).push(v@));
                },
                None => {},
            }
        }
        j = j + 1;
    }
    let label = if fallback && values.len() == 0 {
        decimal_string(index)
    } else {
        join(&texts, ", ")
    };
    FacetGroup { index, label, values }
}

impl FacetMetadata {
    /// Metadata without groups or columns.
    pub fn empty() -> (r: Self)
        ensures
            r.groups@.len() == 0,
            r.column_names@.len() == 0,
    {
        FacetMetadata { groups: Vec::new(), column_names: Vec::new() }
    }

    /// Placeholder metadata for a facet table whose values are not available:
    /// `n` groups labelled by their index, without columns.
    pub fn index_labelled(n: usize) -> (r: Self)
        ensures
            r.groups@.len() == n,
            r.column_names@.len() == 0,
            forall|i: int| 0 <= i < n ==> index_group(#[trigger] r.groups@[i], i),
    {
        let mut groups: Vec<FacetGroup> = Vec::new();
        let mut i: usize = 0;
        while i < n
            invariant
                i <= n,
                groups@.len() == i,
                forall|k: int| 0 <= k < i ==> index_group(#[trigger] groups@[k], k),
            decreases n - i,
        {
            groups.push(FacetGroup { index: i, label: decimal_string(i), values: Vec::new() });
            i = i + 1;
        }
        FacetMetadata { groups, column_names: Vec::new() }
    }

    fn from_table(column_names: Vec<String>, rows: &Vec<FacetRow>, fallback: bool) -> (r: Self)
        ensures
            r.column_names@ == column_names@,
            r.groups@.len() == rows@.len(),
            forall|i: int|
                0 <= i < rows@.len() ==> group_from_row(
                    #[trigger] r.groups@[i],
                    i,
                    views(column_names@),
                    row_view(rows@[i]),
                    fallback,
                ),
    {
        let mut groups: Vec<FacetGroup> = Vec::new();
        let mut i: usize = 0;
        while i < rows.len()
            invariant
                i <= rows@.len(),
                groups@.len() == i,
                forall|k: int|
                    0 <= k < i ==> group_from_row(
                        #[trigger] groups@[k],
                        k,
                        views(column_names@),
                        row_view(rows@[k]),
                        fallback,
                    ),
            decreases rows@.len() - i,
        {
            groups.push(build_group(&column_names, &rows[i], i, fallback));
            i = i + 1;
        }
        FacetMetadata { groups, column_names }
    }

    /// Metadata of a decoded facet table: one group per row, labelled by the
    /// row's values joined with `", "`, or by the row's index where the row
    /// has no values.
    pub fn from_rows(column_names: Vec<String>, rows: &Vec<FacetRow>) -> (r: Self)
        ensures
            r.column_names@ == column_names@,
            r.groups@.len() == rows@.len(),
            forall|i: int|
                0 <= i < rows@.len() ==> group_from_row(
                    #[trigger] r.groups@[i],
                    i,
                    views(column_names@),
                    row_view(rows@[i]),
                    true,
                ),
    {
        Self::from_table(column_names, rows, true)
    }

    /// Metadata of a decoded facet table: one group per row, labelled by the
    /// row's values joined with `", "`.
    pub fn parse_facet_rows(column_names: Vec<String>, rows: &Vec<FacetRow>) -> (r: Self)
        ensures
            r.column_names@ == column_names@,
            r.groups@.len() == rows@.len(),
            forall|i: int|
                0 <= i < rows@.len() ==> group_from_row(
                    #[trigger] r.groups@[i],
                    i,
                    views(column_names@),
                    row_view(rows@[i]),
                    false,
                ),
    {
        Self::from_table(column_names, rows, false)
    }

    /// Whether a streamed facet table is too short to hold values, so that
    /// its groups are labelled by index.
    pub fn is_placeholder_payload(payload_len: usize) -> (r: bool)
        ensures
            r == (payload_len < 30),
    {
        payload_len < 30
    }

    /// Number of facet groups.
    pub fn len(&self) -> (r: usize)
        ensures
            r == self.groups@.len(),
    {
        self.groups.len()
    }

    /// Whether there are no facet groups.
    pub fn is_empty(&self) -> (r: bool)
        ensures
            r == (self.groups@.len() == 0),
    {
        self.groups.len() == 0
    }

    /// A facet group by index.
    pub fn get(&self, index: usize) -> (r: Option<&FacetGroup>)
        ensures
            r is Some <==> index < self.groups@.len(),
            r matches Some(g) ==> *g == self.groups@[index as int],
    {
        if index < self.groups.len() {
            Some(&self.groups[index])
        } else {
            None
        }
    }

    /// The index in the whole facet table of the group at `position` of this
    /// (possibly page-filtered) list; none past the end.
    pub fn original_index(&self, position: usize) -> (r: Option<usize>)
        ensures
            r == (if position < self.groups@.len() {
                Some(self.groups@[position as int].index)
            } else {
                None
            }),
    {
        if position < self.groups.len() {
            Some(self.groups[position].index)
        } else {
            None
        }
    }

    /// The labels of all groups, in order.
    pub fn labels(&self) -> (r: Vec<String>)
        ensures
            r@.len() == self.groups@.len(),
            forall|i: int| 0 <= i < r@.len() ==> #[trigger] r@[i] == self.groups@[i].label,
    {
        let mut out: Vec<String> = Vec::new();
        let mut i: usize = 0;
        while i < self.groups.len()
            invariant
                i <= self.groups@.len(),
                out@.len() == i,
                forall|k: int| 0 <= k < i ==> #[trigger] out@[k] == self.groups@[k].label,
            decreases self.groups@.len() - i,
        {
            out.push(self.groups[i].label.clone());
            i = i + 1;
        }
        out
    }

    /// The name of the label column: the first column name where it is not
    /// empty, otherwise `label`.
    pub fn label_column_name(&self) -> (r: String)
        ensures
            r@ == (if self.column_names@.len() > 0 && self.column_names@[0]@.len() > 0 {
                self.column_names@[0]@
            } else {
                "label"@
            }),
    {
        if self.column_names.len() > 0 && !self.column_names[0].as_str().is_empty() {
            self.column_names[0].clone()
        } else {
            crate::text::copy_str("label")
        }
    }
}

/// Complete faceting information for a plot.
#[derive(Debug, Clone)]
pub struct FacetInfo {
    /// Column facet metadata
    pub col_facets: FacetMetadata,
    /// Row facet metadata
    pub row_facets: FacetMetadata,
}

impl FacetInfo {
    /// Number of column facets; a plot without column faceting has one.
    pub fn n_col_facets(&self) -> (r: usize)
        ensures
            r == facet_count(self.col_facets),
            r >= 1,
    {
        if self.col_facets.is_empty() {
            1
        } else {
            self.col_facets.len()
        }
    }

    /// Number of row facets; a plot without row faceting has one.
    pub fn n_row_facets(&self) -> (r: usize)
        ensures
            r == facet_count(self.row_facets),
            r >= 1,
    {
        if self.row_facets.is_empty() {
            1
        } else {
            self.row_facets.len()
        }
    }

    /// Number of facet cells (columns × rows).
    pub fn total_facets(&self) -> (r: usize)
        requires
            facet_count(self.col_facets) * facet_count(self.row_facets) <= usize::MAX,
        ensures
            r == facet_count(self.col_facets) * facet_count(self.row_facets),
    {
        self.n_col_facets() * self.n_row_facets()
    }

    /// Whether the plot has any faceting.
    pub fn has_faceting(&self) -> (r: bool)
        ensures
            r == (self.col_facets.groups@.len() > 0 || self.row_facets.groups@.len() > 0),
    {
        !self.col_facets.is_empty() || !self.row_facets.is_empty()
    }
}

/// A plot without faceting is a single cell, and every plot has at least one.
pub proof fn lemma_unfaceted_is_single_cell(info: FacetInfo)
    ensures
        facet_count(info.col_facets) * facet_count(info.row_facets) >= 1,
        !(info.col_facets.groups@.len() > 0 || info.row_facets.groups@.len() > 0) ==> facet_count(
            info.col_facets,
        ) * facet_count(info.row_facets) == 1,
{
    let c = facet_count(info.col_facets);
    let r = facet_count(info.row_facets);
    assert(c * r >= 1) by (nonlinear_arith)
        requires
            c >= 1,
            r >= 1,
    ;
}

} // verus!
