//! Decisions of the data stream that feeds the plot engine: what to fetch,
//! which facet cells an axis range covers, the facet layout, and the grid of
//! a heatmap.

use crate::config::HeatmapCellAggregation;
use crate::facets::{facet_count, FacetInfo, FacetMetadata};
use crate::pipeline::has_categorical;
use crate::text::{copy_str, decimal, decimal_string, join, joined, str_eq, views};
use vstd::prelude::*;

verus! {

/// Configuration for creating a stream generator. `C` describes a color
/// factor and `S` is the schema cache shared by the pages of a plot.
#[derive(Clone)]
pub struct TercenStreamConfig<C, S> {
    /// Main data table ID (qt_hash)
    pub main_table_id: String,
    /// Column facet table ID (cschema)
    pub col_facet_table_id: String,
    /// Row facet table ID (rschema)
    pub row_facet_table_id: String,
    /// Optional Y-axis range table ID
    pub y_axis_table_id: Option<String>,
    /// Optional X-axis range table ID
    pub x_axis_table_id: Option<String>,
    /// Chunk size for streaming data
    pub chunk_size: usize,
    /// Color factor configurations
    pub color_infos: Vec<C>,
    /// Page factor names for pagination
    pub page_factors: Vec<String>,
    /// Optional schema cache for multi-page plots
    pub schema_cache: Option<S>,
    /// How to aggregate multiple data points in the same heatmap cell
    pub heatmap_cell_aggregation: HeatmapCellAggregation,
}

impl<C, S> TercenStreamConfig<C, S> {
    /// A configuration with the required fields; the optional tables are
    /// absent, there are no colors or page factors, no schema cache, and
    /// heatmap cells keep their last data point.
    pub fn new(
        main_table_id: String,
        col_facet_table_id: String,
        row_facet_table_id: String,
        chunk_size: usize,
    ) -> (r: Self)
        ensures
            r.main_table_id == main_table_id,
            r.col_facet_table_id == col_facet_table_id,
            r.row_facet_table_id == row_facet_table_id,
            r.y_axis_table_id is None,
            r.x_axis_table_id is None,
            r.chunk_size == chunk_size,
            r.color_infos@.len() == 0,
            r.page_factors@.len() == 0,
            r.schema_cache is None,
            r.heatmap_cell_aggregation == HeatmapCellAggregation::Last,
    {
        TercenStreamConfig {
            main_table_id,
            col_facet_table_id,
            row_facet_table_id,
            y_axis_table_id: None,
            x_axis_table_id: None,
            chunk_size,
            color_infos: Vec::new(),
            page_factors: Vec::new(),
            schema_cache: None,
            heatmap_cell_aggregation: HeatmapCellAggregation::Last,
        }
    }

    /// Sets the Y-axis table ID.
    pub fn y_axis_table(self, table_id: Option<String>) -> (r: Self)
        ensures
            r == (Self { y_axis_table_id: table_id, ..self }),
    {
        TercenStreamConfig { y_axis_table_id: table_id, ..self }
    }

    /// Sets the X-axis table ID.
    pub fn x_axis_table(self, table_id: Option<String>) -> (r: Self)
        ensures
            r == (Self { x_axis_table_id: table_id, ..self }),
    {
        TercenStreamConfig { x_axis_table_id: table_id, ..self }
    }

    /// Sets the color information.
    pub fn colors(self, color_infos: Vec<C>) -> (r: Self)
        ensures
            r == (Self { color_infos, ..self }),
    {
        TercenStreamConfig { color_infos, ..self }
    }

    /// Sets the page factors.
    pub fn page_factors(self, factors: Vec<String>) -> (r: Self)
        ensures
            r == (Self { page_factors: factors, ..self }),
    {
        TercenStreamConfig { page_factors: factors, ..self }
    }

    /// Sets the schema cache.
    pub fn schema_cache(self, cache: Option<S>) -> (r: Self)
        ensures
            r == (Self { schema_cache: cache, ..self }),
    {
        TercenStreamConfig { schema_cache: cache, ..self }
    }

    /// Sets the heatmap cell aggregation method.
    pub fn heatmap_cell_aggregation(self, method: HeatmapCellAggregation) -> (r: Self)
        ensures
            r == (Self { heatmap_cell_aggregation: method, ..self }),
    {
        TercenStreamConfig { heatmap_cell_aggregation: method, ..self }
    }
}

/// A color factor as the data stream sees it: categorical factors are read
/// through the shared `.colorLevels` column, continuous ones through their own
/// column.
#[derive(Debug, Clone)]
pub struct ColorFactor {
    pub name: String,
    pub categorical: bool,
}

/// The columns of a bulk data request after the color factors of `colors`:
/// `.colorLevels` once for categorical factors, each continuous factor's own
/// column, added to `base` in order.
pub open spec fn with_color_columns(base: Seq<Seq<char>>, colors: Seq<ColorFactor>) -> Seq<
    Seq<char>,
>
    decreases colors.len(),
{
    if colors.len() == 0 {
        base
    } else {
        let prev = with_color_columns(base, colors.drop_last());
        let c = colors.last();
        if c.categorical {
            if prev.contains(".colorLevels"@) {
                prev
            } else {
                prev.push(".colorLevels"@)
            }
        } else {
            prev.push(c.name@)
        }
    }
}

/// The facet index and quantized coordinate columns every bulk request
/// fetches.
pub open spec fn bulk_base() -> Seq<Seq<char>> {
    seq![".ci"@, ".ri"@, ".xs"@, ".ys"@]
}

/// The facet index columns by which heatmap cells are grouped.
pub open spec fn cell_base() -> Seq<Seq<char>> {
    seq![".ci"@, ".ri"@]
}

/// Adds the color columns of `colors` to `columns`.
fn add_color_columns(columns: &mut Vec<String>, colors: &Vec<ColorFactor>)
    ensures
        views(final(columns)@) == with_color_columns(views(old(columns)@), colors@),
{
    let ghost base = views(columns@);
    let mut i: usize = 0;
    assert(colors@.take(0) =~= Seq::<ColorFactor>::empty());
    while i < colors.len()
        invariant
            i <= colors@.len(),
            views(columns@) == with_color_columns(base, colors@.take(i as int)),
        decreases colors@.len() - i,
    {
        assert(colors@.take(i as int + 1).drop_last() =~= colors@.take(i as int));
        let c = &colors[i];
        if c.categorical {
            let present = contains_name(columns, ".colorLevels");
            if !present {
                let ghost before = views(columns@);
                columns.push(copy_str(".colorLevels"));
                assert(views(columns@) =~= before.push(".colorLevels"@));
            }
        } else {
            let ghost before = views(columns@);
            columns.push(c.name.clone());
            assert(views(columns@) =~= before.push(c.name@));
        }
        i = i + 1;
    }
    assert(colors@.take(colors@.len() as int) =~= colors@);
}

/// The columns of a bulk data request: facet indices, quantized coordinates
/// and the color columns.
pub fn bulk_stream_columns(colors: &Vec<ColorFactor>) -> (r: Vec<String>)
    ensures
        views(r@) == with_color_columns(bulk_base(), colors@),
{
    let mut columns: Vec<String> = Vec::new();
    columns.push(copy_str(".ci"));
    columns.push(copy_str(".ri"));
    columns.push(copy_str(".xs"));
    columns.push(copy_str(".ys"));
    assert(views(columns@) =~= bulk_base());
    add_color_columns(&mut columns, colors);
    columns
}

/// The columns of a heatmap aggregation request after the color factors of
/// `colors`: `.colorLevels` at the first categorical factor only, each
/// continuous factor's own column, added to `base` in order.
pub open spec fn cell_color_columns(base: Seq<Seq<char>>, colors: Seq<ColorFactor>) -> Seq<
    Seq<char>,
>
    decreases colors.len(),
{
    if colors.len() == 0 {
        base
    } else {
        let prev = cell_color_columns(base, colors.drop_last());
        let c = colors.last();
        if c.categorical {
            if has_categorical(colors.drop_last()) {
                prev
            } else {
                prev.push(".colorLevels"@)
            }
        } else {
            prev.push(c.name@)
        }
    }
}

/// The columns fetched to aggregate heatmap cells: the facet indices and the
/// color columns.
pub fn heatmap_stream_columns(colors: &Vec<ColorFactor>) -> (r: Vec<String>)
    ensures
        views(r@) == cell_color_columns(cell_base(), colors@),
{
    let mut columns: Vec<String> = Vec::new();
    columns.push(copy_str(".ci"));
    columns.push(copy_str(".ri"));
    assert(views(columns@) =~= cell_base());
    let mut has_color_levels = false;
    let mut i: usize = 0;
    assert(colors@.take(0) =~= Seq::<ColorFactor>::empty());
    while i < colors.len()
        invariant
            i <= colors@.len(),
            views(columns@) == cell_color_columns(cell_base(), colors@.take(i as int)),
            has_color_levels == has_categorical(colors@.take(i as int)),
        decreases colors@.len() - i,
    {
        let ghost prefix = colors@.take(i as int);
        assert(colors@.take(i as int + 1).drop_last() =~= prefix);
        assert(colors@.take(i as int + 1).last() == colors@[i as int]);
        let c = &colors[i];
        if c.categorical {
            if !has_color_levels {
                let ghost before = views(columns@);
                columns.push(copy_str(".colorLevels"));
                assert(views(columns@) =~= before.push(".colorLevels"@));
                has_color_levels = true;
            }
            assert(colors@.take(i as int + 1)[i as int].categorical);
        } else {
            let ghost before = views(columns@);
            columns.push(c.name.clone());
            assert(views(columns@) =~= before.push(c.name@));
            assert(has_categorical(colors@.take(i as int + 1)) ==> has_categorical(prefix)) by {
                if has_categorical(colors@.take(i as int + 1)) {
                    let k = choose|k: int|
                        0 <= k < colors@.take(i as int + 1).len() && (#[trigger] colors@.take(
                            i as int + 1,
                        )[k]).categorical;
                    assert(k < i);
                    assert(prefix[k] == colors@.take(i as int + 1)[k]);
                }
            }
        }
        assert(has_categorical(prefix) ==> has_categorical(colors@.take(i as int + 1))) by {
            if has_categorical(prefix) {
                let k = choose|k: int| 0 <= k < prefix.len() && (#[trigger] prefix[k]).categorical;
                assert(colors@.take(i as int + 1)[k] == prefix[k]);
            }
        }
        i = i + 1;
    }
    assert(colors@.take(colors@.len() as int) =~= colors@);
    columns
}

/// `.colorLevels` appears at most once among the color columns added to a
/// base that lacks it.
pub proof fn lemma_color_levels_once(base: Seq<Seq<char>>, colors: Seq<ColorFactor>)
    requires
        !base.contains(".colorLevels"@),
        forall|i: int| 0 <= i < colors.len() ==> (#[trigger] colors[i]).name@ != ".colorLevels"@,
    ensures
        forall|i: int, j: int|
            0 <= i < j < with_color_columns(base, colors).len() ==> !(with_color_columns(
                base,
                colors,
            )[i] == ".colorLevels"@ && with_color_columns(base, colors)[j] == ".colorLevels"@),
        with_color_columns(base, colors).len() >= base.len(),
        with_color_columns(base, colors).take(base.len() as int) == base,
    decreases colors.len(),
{
    if colors.len() > 0 {
        let rest = colors.drop_last();
        lemma_color_levels_once(base, rest);
        let prev = with_color_columns(base, rest);
        let cur = with_color_columns(base, colors);
        assert(cur.take(base.len() as int) =~= base) by {
            assert(prev.take(base.len() as int) == base);
            assert(prev.len() >= base.len());
            if cur != prev {
                assert(cur.take(base.len() as int) =~= prev.take(base.len() as int));
            }
        }
        if !colors.last().categorical {
            assert(colors[colors.len() - 1].name@ != ".colorLevels"@);
        }
    } else {
        assert(base.take(base.len() as int) =~= base);
    }
}

/// The columns fetched from the Y-axis range table: the Y range, then each of
/// `.ri`, `.ci`, `.minX`, `.maxX` that the table has.
pub open spec fn y_range_columns_of(names: Seq<Seq<char>>) -> Seq<Seq<char>> {
    let a = seq![".minY"@, ".maxY"@];
    let b = if names.contains(".ri"@) { a.push(".ri"@) } else { a };
    let c = if names.contains(".ci"@) { b.push(".ci"@) } else { b };
    let d = if names.contains(".minX"@) { c.push(".minX"@) } else { c };
    if names.contains(".maxX"@) { d.push(".maxX"@) } else { d }
}

/// Whether a list of names holds `name`.
pub fn contains_name(names: &Vec<String>, name: &str) -> (r: bool)
    ensures
        r == views(names@).contains(name@),
{
    let mut i: usize = 0;
    while i < names.len()
        invariant
            i <= names@.len(),
            forall|j: int| 0 <= j < i ==> #[trigger] views(names@)[j] != name@,
        decreases names@.len() - i,
    {
        if str_eq(names[i].as_str(), name) {
            assert(views(names@)[i as int] == name@);
            return true;
        }
        i = i + 1;
    }
    false
}

/// The columns to fetch from the Y-axis range table, given its column names.
pub fn y_range_columns(column_names: &Vec<String>) -> (r: Vec<String>)
    ensures
        views(r@) == y_range_columns_of(views(column_names@)),
{
    let mut columns: Vec<String> = Vec::new();
    columns.push(copy_str(".minY"));
    columns.push(copy_str(".maxY"));
    assert(views(columns@) =~= seq![".minY"@, ".maxY"@]);
    if contains_name(column_names, ".ri") {
        let ghost before = views(columns@);
        columns.push(copy_str(".ri"));
        assert(views(columns@) =~= before.push(".ri"@));
    }
    if contains_name(column_names, ".ci") {
        let ghost before = views(columns@);
        columns.push(copy_str(".ci"));
        assert(views(columns@) =~= before.push(".ci"@));
    }
    if contains_name(column_names, ".minX") {
        let ghost before = views(columns@);
        columns.push(copy_str(".minX"));
        assert(views(columns@) =~= before.push(".minX"@));
    }
    if contains_name(column_names, ".maxX") {
        let ghost before = views(columns@);
        columns.push(copy_str(".maxX"));
        assert(views(columns@) =~= before.push(".maxX"@));
    }
    columns
}

/// The Y-axis range table is read with its Y range first, and with each of
/// its index and X range columns exactly when the table has that column,
/// whatever its other columns: a table indexed by `.ri` alone keeps its
/// per-row ranges. Nothing else is fetched, and nothing twice.
pub proof fn lemma_y_range_columns_follow_table(names: Seq<Seq<char>>)
    ensures
        y_range_columns_of(names).len() >= 2,
        y_range_columns_of(names)[0] == ".minY"@,
        y_range_columns_of(names)[1] == ".maxY"@,
        y_range_columns_of(names).contains(".ri"@) <==> names.contains(".ri"@),
        y_range_columns_of(names).contains(".ci"@) <==> names.contains(".ci"@),
        y_range_columns_of(names).contains(".minX"@) <==> names.contains(".minX"@),
        y_range_columns_of(names).contains(".maxX"@) <==> names.contains(".maxX"@),
        forall|i: int|
            0 <= i < y_range_columns_of(names).len() ==> {
                let c = #[trigger] y_range_columns_of(names)[i];
                c == ".minY"@ || c == ".maxY"@ || c == ".ri"@ || c == ".ci"@ || c == ".minX"@
                    || c == ".maxX"@
            },
        forall|i: int, j: int|
            0 <= i < j < y_range_columns_of(names).len() ==> y_range_columns_of(names)[i]
                != y_range_columns_of(names)[j],
{
    reveal_strlit(".minY");
    reveal_strlit(".maxY");
    reveal_strlit(".ri");
    reveal_strlit(".ci");
    reveal_strlit(".minX");
    reveal_strlit(".maxX");
    let all = seq![".minY"@, ".maxY"@, ".ri"@, ".ci"@, ".minX"@, ".maxX"@];
    assert(forall|i: int, j: int| 0 <= i < j < 6 ==> all[i] != all[j]) by {
        assert forall|i: int, j: int| 0 <= i < j < 6 implies all[i] != all[j] by {
            let last_i = all[i][all[i].len() - 1];
            let last_j = all[j][all[j].len() - 1];
            if last_i == last_j {
                assert(all[i][1] != all[j][1] || all[i][2] != all[j][2]);
            } else {
                assert(last_i != last_j);
            }
        }
    }
    let a = seq![".minY"@, ".maxY"@];
    let b = if names.contains(".ri"@) { a.push(".ri"@) } else { a };
    let c = if names.contains(".ci"@) { b.push(".ci"@) } else { b };
    let d = if names.contains(".minX"@) { c.push(".minX"@) } else { c };
    let r = y_range_columns_of(names);
    assert(r == (if names.contains(".maxX"@) { d.push(".maxX"@) } else { d }));
    // Each step keeps the earlier entries and appends a name not yet present.
    assert(all[0] == ".minY"@ && all[1] == ".maxY"@ && all[2] == ".ri"@ && all[3] == ".ci"@
        && all[4] == ".minX"@ && all[5] == ".maxX"@);
    assert forall|i: int| 0 <= i < r.len() implies #[trigger] r[i] == ".minY"@ || r[i] == ".maxY"@
        || r[i] == ".ri"@ || r[i] == ".ci"@ || r[i] == ".minX"@ || r[i] == ".maxX"@ by {}
    if names.contains(".ri"@) {
        assert(r[2] == ".ri"@);
    }
    if names.contains(".ci"@) {
        assert(c[c.len() - 1] == ".ci"@);
        assert(r[c.len() - 1] == ".ci"@);
    }
    if names.contains(".minX"@) {
        assert(r[d.len() - 1] == ".minX"@);
    }
    if names.contains(".maxX"@) {
        assert(r[r.len() - 1] == ".maxX"@);
    }
}

/// The X-axis range table lacks its `.minX` or `.maxX` column.
#[derive(Debug, Clone, Copy, PartialEq, Eq, Structural)]
pub enum AxisTableError {
    MissingXRange,
}

/// The columns to fetch from the X-axis range table, given its column names:
/// the X range and, where the table has it, `.ci`; an error where the table
/// lacks the X range.
pub fn x_range_columns(column_names: &Vec<String>) -> (r: Result<Vec<String>, AxisTableError>)
    ensures
        match r {
            Ok(cols) => views(column_names@).contains(".minX"@) && views(column_names@).contains(
                ".maxX"@,
            ) && views(cols@) == (if views(column_names@).contains(".ci"@) {
                seq![".minX"@, ".maxX"@, ".ci"@]
            } else {
                seq![".minX"@, ".maxX"@]
            }),
            Err(_) => !(views(column_names@).contains(".minX"@) && views(column_names@).contains(
                ".maxX"@,
            )),
        },
{
    let has_ci = contains_name(column_names, ".ci");
    let has_min_x = contains_name(column_names, ".minX");
    let has_max_x = contains_name(column_names, ".maxX");
    if !has_min_x || !has_max_x {
        return Err(AxisTableError::MissingXRange);
    }
    let mut columns: Vec<String> = Vec::new();
    columns.push(copy_str(".minX"));
    columns.push(copy_str(".maxX"));
    if has_ci {
        columns.push(copy_str(".ci"));
        assert(views(columns@) =~= seq![".minX"@, ".maxX"@, ".ci"@]);
    } else {
        assert(views(columns@) =~= seq![".minX"@, ".maxX"@]);
    }
    Ok(columns)
}

/// The cells that a per-column X range goes to: the range's `.ci` names a
/// column group of the (possibly page-filtered) column facets, and the range
/// is set in that column, at the original index of each row group in turn.
/// `None` where `.ci` names no column group.
pub fn x_range_targets(ci: usize, info: &FacetInfo) -> (r: Option<Vec<(usize, usize)>>)
    requires
        info.row_facets.groups@.len() > 0,
    ensures
        ci >= info.col_facets.groups@.len() <==> r is None,
        r matches Some(cells) ==> {
            &&& cells@.len() == info.row_facets.groups@.len()
            &&& forall|i: int|
                0 <= i < cells@.len() ==> #[trigger] cells@[i] == (
                    info.col_facets.groups@[ci as int].index,
                    info.row_facets.groups@[i].index,
                )
        },
{
    if ci >= info.col_facets.groups.len() {
        return None;
    }
    let col = info.col_facets.groups[ci].index;
    let rows = &info.row_facets.groups;
    let mut cells: Vec<(usize, usize)> = Vec::new();
    let mut i: usize = 0;
    while i < rows.len()
        invariant
            i <= rows@.len(),
            rows == &info.row_facets.groups,
            ci < info.col_facets.groups@.len(),
            col == info.col_facets.groups@[ci as int].index,
            cells@.len() == i,
            forall|k: int| 0 <= k < i ==> #[trigger] cells@[k] == (col, rows@[k].index),
        decreases rows@.len() - i,
    {
        cells.push((col, rows[i].index));
        i = i + 1;
    }
    Some(cells)
}

/// The facet cells a row of an axis range table applies to: the one cell it
/// names where it has both `.ci` and `.ri`; every column of its row where it
/// has only `.ri`; every row of its column where it has only `.ci`; every cell
/// where it has neither.
pub open spec fn covers(
    has_ci: bool,
    has_ri: bool,
    col_idx: usize,
    row_idx: usize,
    n_cols: usize,
    n_rows: usize,
    cell: (usize, usize),
) -> bool {
    match (has_ci, has_ri) {
        (true, true) => cell == (col_idx, row_idx),
        (false, true) => cell.1 == row_idx && cell.0 < n_cols,
        (true, false) => cell.0 == col_idx && cell.1 < n_rows,
        (false, false) => cell.0 < n_cols && cell.1 < n_rows,
    }
}

/// The cells a row of an axis range table applies to, each once.
pub fn range_cells(
    has_ci: bool,
    has_ri: bool,
    col_idx: usize,
    row_idx: usize,
    n_cols: usize,
    n_rows: usize,
) -> (r: Vec<(usize, usize)>)
    ensures
        forall|cell: (usize, usize)|
            r@.contains(cell) <==> covers(has_ci, has_ri, col_idx, row_idx, n_cols, n_rows, cell),
        forall|i: int, j: int| 0 <= i < j < r@.len() ==> r@[i] != r@[j],
{
    let mut cells: Vec<(usize, usize)> = Vec::new();
    if has_ci && has_ri {
        cells.push((col_idx, row_idx));
        assert(cells@[0] == (col_idx, row_idx));
        return cells;
    }
    let cols: usize = if has_ci { 1 } else { n_cols };
    let rows: usize = if has_ri { 1 } else { n_rows };
    let mut c: usize = 0;
    while c < cols
        invariant
            cols == (if has_ci { 1 } else { n_cols }),
            rows == (if has_ri { 1 } else { n_rows }),
            !(has_ci && has_ri),
            c <= cols,
            forall|cell: (usize, usize)|
                cells@.contains(cell) <==> (covers(
                    has_ci,
                    has_ri,
                    col_idx,
                    row_idx,
                    n_cols,
                    n_rows,
                    cell,
                ) && (if has_ci { c == 1 } else { cell.0 < c })),
            forall|i: int, j: int| 0 <= i < j < cells@.len() ==> cells@[i] != cells@[j],
        decreases cols - c,
    {
        let col = if has_ci { col_idx } else { c };
        let mut r: usize = 0;
        let ghost before = cells@;
        while r < rows
            invariant
                cols == (if has_ci { 1 } else { n_cols }),
                rows == (if has_ri { 1 } else { n_rows }),
                !(has_ci && has_ri),
                c < cols,
                col == (if has_ci { col_idx } else { c }),
                r <= rows,
                before.len() <= cells@.len(),
                cells@.take(before.len() as int) == before,
                forall|cell: (usize, usize)|
                    before.contains(cell) <==> (covers(
                        has_ci,
                        has_ri,
                        col_idx,
                        row_idx,
                        n_cols,
                        n_rows,
                        cell,
                    ) && (if has_ci { c == 1 } else { cell.0 < c })),
                forall|k: int|
                    before.len() <= k < cells@.len() ==> #[trigger] cells@[k] == (
                        col,
                        if has_ri { row_idx } else { (k - before.len()) as usize },
                    ),
                cells@.len() == before.len() + r,
                forall|i: int, j: int| 0 <= i < j < before.len() ==> before[i] != before[j],
            decreases rows - r,
        {
            let row = if has_ri { row_idx } else { r };
            cells.push((col, row));
            assert(cells@.take(before.len() as int) =~= before);
            r = r + 1;
        }
        proof {
            assert forall|i: int, j: int| 0 <= i < j < cells@.len() implies cells@[i]
                != cells@[j] by {
                if j >= before.len() {
                    if i >= before.len() {
                        assert(!has_ri);
                    } else {
                        assert(before[i] == cells@[i]);
                        assert(before.contains(before[i]));
                    }
                } else {
                    assert(before[i] == cells@[i] && before[j] == cells@[j]);
                }
            }
            assert forall|cell: (usize, usize)|
                cells@.contains(cell) <==> (covers(
                    has_ci,
                    has_ri,
                    col_idx,
                    row_idx,
                    n_cols,
                    n_rows,
                    cell,
                ) && (if has_ci { c + 1 == 1 } else { cell.0 < c + 1 })) by {
                if cells@.contains(cell) {
                    let k = choose|k: int| 0 <= k < cells@.len() && cells@[k] == cell;
                    if k < before.len() {
                        assert(before[k] == cell);
                        assert(before.contains(cell));
                    }
                }
                if covers(has_ci, has_ri, col_idx, row_idx, n_cols, n_rows, cell) && (if has_ci {
                    c + 1 == 1
                } else {
                    cell.0 < c + 1
                }) {
                    if (if has_ci { c == 1 } else { cell.0 < c }) {
                        assert(before.contains(cell));
                        let k = choose|k: int| 0 <= k < before.len() && before[k] == cell;
                        assert(cells@[k] == cell);
                    } else {
                        let k: int = before.len() + (if has_ri { 0 } else { cell.1 as int });
                        assert(cells@[k] == cell);
                    }
                }
            }
        }
        c = c + 1;
    }
    cells
}

/// How the panels of a plot are laid out, with the variables naming rows and
/// columns.
#[derive(Debug, Clone)]
pub enum FacetLayout {
    /// Rows × columns.
    Grid { row_var: String, col_var: String },
    /// One panel per row facet.
    Rows { row_var: String },
    /// One panel per column facet.
    Cols { col_var: String },
    /// A single panel.
    Single,
}

/// The first non-empty name of a list, or `fallback`.
pub open spec fn first_nonempty(names: Seq<Seq<char>>, fallback: Seq<char>) -> Seq<char>
    decreases names.len(),
{
    if names.len() == 0 {
        fallback
    } else if names[0].len() > 0 {
        names[0]
    } else {
        first_nonempty(names.drop_first(), fallback)
    }
}

/// The name a facet layout takes is the first non-empty one: where the name
/// at `k` is non-empty and every name before it is empty, it is that name;
/// where every name is empty, it is the fallback.
pub proof fn lemma_first_nonempty_is_first(names: Seq<Seq<char>>, fallback: Seq<char>)
    ensures
        forall|k: int|
            0 <= k < names.len() && names[k].len() > 0 && (forall|j: int|
                0 <= j < k ==> #[trigger] names[j].len() == 0) ==> first_nonempty(names, fallback)
                == names[k],
        (forall|j: int| 0 <= j < names.len() ==> #[trigger] names[j].len() == 0) ==> first_nonempty(
            names,
            fallback,
        ) == fallback,
        first_nonempty(names, fallback) == fallback || exists|k: int|
            0 <= k < names.len() && names[k].len() > 0 && first_nonempty(names, fallback)
                == #[trigger] names[k],
    decreases names.len(),
{
    if names.len() > 0 {
        let rest = names.drop_first();
        lemma_first_nonempty_is_first(rest, fallback);
        assert forall|k: int|
            0 <= k < names.len() && names[k].len() > 0 && (forall|j: int|
                0 <= j < k ==> #[trigger] names[j].len() == 0) implies first_nonempty(names, fallback)
            == names[k] by {
            if k > 0 {
                assert(names[0].len() == 0);
                assert(rest[k - 1] == names[k]);
                assert forall|j: int| 0 <= j < k - 1 implies #[trigger] rest[j].len() == 0 by {
                    assert(rest[j] == names[j + 1]);
                }
            }
        }
        if forall|j: int| 0 <= j < names.len() ==> #[trigger] names[j].len() == 0 {
            assert(names[0].len() == 0);
            assert forall|j: int| 0 <= j < rest.len() implies #[trigger] rest[j].len() == 0 by {
                assert(rest[j] == names[j + 1]);
            }
        }
        if names[0].len() == 0 && first_nonempty(names, fallback) != fallback {
            let k = choose|k: int|
                0 <= k < rest.len() && rest[k].len() > 0 && first_nonempty(rest, fallback)
                    == #[trigger] rest[k];
            assert(names[k + 1] == rest[k]);
        }
    }
}

/// The first non-empty name of a list, or `fallback`.
fn first_nonempty_name(names: &Vec<String>, fallback: &str) -> (r: String)
    ensures
        r@ == first_nonempty(views(names@), fallback@),
{
    let mut i: usize = 0;
    assert(views(names@).skip(0) =~= views(names@));
    while i < names.len()
        invariant
            i <= names@.len(),
            first_nonempty(views(names@), fallback@) == first_nonempty(
                views(names@).skip(i as int),
                fallback@,
            ),
        decreases names@.len() - i,
    {
        let ghost rest = views(names@).skip(i as int);
        assert(rest[0] == names@[i as int]@);
        if !names[i].as_str().is_empty() {
            return names[i].clone();
        }
        assert(rest.drop_first() =~= views(names@).skip(i as int + 1));
        i = i + 1;
    }
    assert(views(names@).skip(i as int) =~= Seq::<Seq<char>>::empty());
    copy_str(fallback)
}

/// The layout a plot's facets give, named after the first non-empty column
/// of each facet table (`.ri` and `.ci` where there is none): a grid where
/// both dimensions are faceted, rows or columns where one is, a single panel
/// where neither is.
pub open spec fn layout_named(info: FacetInfo, layout: FacetLayout) -> bool {
    let rows = info.row_facets.groups@.len() > 0;
    let cols = info.col_facets.groups@.len() > 0;
    let rv = first_nonempty(views(info.row_facets.column_names@), ".ri"@);
    let cv = first_nonempty(views(info.col_facets.column_names@), ".ci"@);
    match layout {
        FacetLayout::Grid { row_var, col_var } => rows && cols && row_var@ == rv && col_var@ == cv,
        FacetLayout::Rows { row_var } => rows && !cols && row_var@ == rv,
        FacetLayout::Cols { col_var } => !rows && cols && col_var@ == cv,
        FacetLayout::Single => !rows && !cols,
    }
}

impl FacetLayout {
    /// The layout of a plot's facets, its variables named after the facet
    /// tables' columns.
    pub fn for_facets(info: &FacetInfo) -> (r: Self)
        ensures
            layout_named(*info, r),
    {
        let rows = !info.row_facets.is_empty();
        let cols = !info.col_facets.is_empty();
        if rows && cols {
            FacetLayout::Grid {
                row_var: first_nonempty_name(&info.row_facets.column_names, ".ri"),
                col_var: first_nonempty_name(&info.col_facets.column_names, ".ci"),
            }
        } else if rows {
            FacetLayout::Rows { row_var: first_nonempty_name(&info.row_facets.column_names, ".ri") }
        } else if cols {
            FacetLayout::Cols { col_var: first_nonempty_name(&info.col_facets.column_names, ".ci") }
        } else {
            FacetLayout::Single
        }
    }

    /// The layout of a plot's facets, its variables being the facet index
    /// columns `.ri` and `.ci`.
    pub fn by_index(info: &FacetInfo) -> (r: Self)
        ensures
            match r {
                FacetLayout::Grid { row_var, col_var } => info.row_facets.groups@.len() > 0
                    && info.col_facets.groups@.len() > 0 && row_var@ == ".ri"@ && col_var@
                    == ".ci"@,
                FacetLayout::Rows { row_var } => info.row_facets.groups@.len() > 0
                    && info.col_facets.groups@.len() == 0 && row_var@ == ".ri"@,
                FacetLayout::Cols { col_var } => info.row_facets.groups@.len() == 0
                    && info.col_facets.groups@.len() > 0 && col_var@ == ".ci"@,
                FacetLayout::Single => info.row_facets.groups@.len() == 0
                    && info.col_facets.groups@.len() == 0,
            },
    {
        let rows = !info.row_facets.is_empty();
        let cols = !info.col_facets.is_empty();
        if rows && cols {
            FacetLayout::Grid { row_var: copy_str(".ri"), col_var: copy_str(".ci") }
        } else if rows {
            FacetLayout::Rows { row_var: copy_str(".ri") }
        } else if cols {
            FacetLayout::Cols { col_var: copy_str(".ci") }
        } else {
            FacetLayout::Single
        }
    }
}

/// The facet grid of a plot: the facets, the total number of data rows, and,
/// for a heatmap, the dimensions of its grid of tiles.
#[derive(Debug, Clone)]
pub struct FacetGrid {
    pub facet_info: FacetInfo,
    pub total_rows: usize,
    /// Heatmap mode: `(n_columns, n_rows)` of the tile grid. A heatmap is a
    /// single panel.
    pub heatmap_mode: Option<(usize, usize)>,
}

/// The labels of a facet dimension.
pub open spec fn labels_of(m: FacetMetadata) -> Seq<String> {
    m.groups@.map_values(|g: crate::facets::FacetGroup| g.label)
}

impl FacetGrid {
    /// A grid of the given facets, not in heatmap mode.
    pub fn new(facet_info: FacetInfo, total_rows: usize) -> (r: Self)
        ensures
            r.facet_info == facet_info,
            r.total_rows == total_rows,
            r.heatmap_mode is None,
    {
        FacetGrid { facet_info, total_rows, heatmap_mode: None }
    }

    /// Enables heatmap mode with the given tile grid dimensions.
    pub fn set_heatmap_mode(&mut self, n_cols: usize, n_rows: usize)
        ensures
            final(self).heatmap_mode == Some((n_cols, n_rows)),
            final(self).facet_info == old(self).facet_info,
            final(self).total_rows == old(self).total_rows,
    {
        self.heatmap_mode = Some((n_cols, n_rows));
    }

    /// The heatmap grid dimensions, in heatmap mode.
    pub fn heatmap_dims(&self) -> (r: Option<(usize, usize)>)
        ensures
            r == self.heatmap_mode,
    {
        self.heatmap_mode
    }

    /// The facet grid dimensions (columns, rows), whatever the mode.
    pub fn original_grid_dims(&self) -> (r: (usize, usize))
        ensures
            r == (facet_count(self.facet_info.col_facets) as usize, facet_count(
                self.facet_info.row_facets,
            ) as usize),
    {
        (self.facet_info.n_col_facets(), self.facet_info.n_row_facets())
    }

    /// The dimensions the plot is sized by: the tile grid of a heatmap, the
    /// facet grid otherwise.
    pub fn sizing_dims(&self) -> (r: (usize, usize))
        ensures
            r == (match self.heatmap_mode {
                Some(d) => d,
                None => (
                    facet_count(self.facet_info.col_facets) as usize,
                    facet_count(self.facet_info.row_facets) as usize,
                ),
            }),
    {
        match self.heatmap_mode {
            Some(d) => d,
            None => (self.facet_info.n_col_facets(), self.facet_info.n_row_facets()),
        }
    }

    /// Number of panel columns: one in heatmap mode.
    pub fn n_col_facets(&self) -> (r: usize)
        ensures
            r == (if self.heatmap_mode is Some {
                1
            } else {
                facet_count(self.facet_info.col_facets) as usize
            }),
    {
        if self.heatmap_mode.is_some() {
            1
        } else {
            self.facet_info.n_col_facets()
        }
    }

    /// Number of panel rows: one in heatmap mode.
    pub fn n_row_facets(&self) -> (r: usize)
        ensures
            r == (if self.heatmap_mode is Some {
                1
            } else {
                facet_count(self.facet_info.row_facets) as usize
            }),
    {
        if self.heatmap_mode.is_some() {
            1
        } else {
            self.facet_info.n_row_facets()
        }
    }

    /// Number of data rows to stream: the number of tiles of a heatmap, the
    /// total row count otherwise.
    pub fn n_total_data_rows(&self) -> (r: usize)
        requires
            self.heatmap_mode matches Some((c, w)) ==> c * w <= usize::MAX,
        ensures
            r == (match self.heatmap_mode {
                Some((c, w)) => (c * w) as usize,
                None => self.total_rows,
            }),
    {
        match self.heatmap_mode {
            Some((n_cols, n_rows)) => n_cols * n_rows,
            None => self.total_rows,
        }
    }

    /// The column facet labels, as heatmap X-axis labels: `None` outside
    /// heatmap mode or without labels.
    pub fn heatmap_x_labels(&self) -> (r: Option<Vec<String>>)
        ensures
            match r {
                Some(v) => self.heatmap_mode is Some && v@ == labels_of(self.facet_info.col_facets)
                    && v@.len() > 0,
                None => self.heatmap_mode is None || self.facet_info.col_facets.groups@.len() == 0,
            },
    {
        if self.heatmap_mode.is_none() {
            return None;
        }
        let labels = self.facet_info.col_facets.labels();
        assert(labels@ =~= labels_of(self.facet_info.col_facets));
        if labels.len() == 0 {
            None
        } else {
            Some(labels)
        }
    }

    /// The row facet labels, as heatmap Y-axis labels: `None` outside heatmap
    /// mode or without labels.
    pub fn heatmap_y_labels(&self) -> (r: Option<Vec<String>>)
        ensures
            match r {
                Some(v) => self.heatmap_mode is Some && v@ == labels_of(self.facet_info.row_facets)
                    && v@.len() > 0,
                None => self.heatmap_mode is None || self.facet_info.row_facets.groups@.len() == 0,
            },
    {
        if self.heatmap_mode.is_none() {
            return None;
        }
        let labels = self.facet_info.row_facets.labels();
        assert(labels@ =~= labels_of(self.facet_info.row_facets));
        if labels.len() == 0 {
            None
        } else {
            Some(labels)
        }
    }

    /// The categories of the heatmap X axis: the column facet labels where
    /// there is one per tile column; `None` where the axis is numeric instead
    /// (outside heatmap mode, or when the labels do not match the grid).
    pub fn heatmap_x_categories(&self) -> (r: Option<Vec<String>>)
        ensures
            match r {
                Some(v) => self.heatmap_mode matches Some((c, _)) && v@ == labels_of(
                    self.facet_info.col_facets,
                ) && v@.len() > 0 && v@.len() == c,
                None => !(self.heatmap_mode matches Some((c, _))
                    && self.facet_info.col_facets.groups@.len() > 0
                    && self.facet_info.col_facets.groups@.len() == c),
            },
    {
        match self.heatmap_mode {
            Some((n_cols, _)) => {
                let labels = self.facet_info.col_facets.labels();
                assert(labels@ =~= labels_of(self.facet_info.col_facets));
                if labels.len() > 0 && labels.len() == n_cols {
                    Some(labels)
                } else {
                    None
                }
            },
            None => None,
        }
    }

    /// The categories of the heatmap Y axis: the row facet labels where there
    /// is one per tile row; `None` where the axis is numeric instead.
    pub fn heatmap_y_categories(&self) -> (r: Option<Vec<String>>)
        ensures
            match r {
                Some(v) => self.heatmap_mode matches Some((_, w)) && v@ == labels_of(
                    self.facet_info.row_facets,
                ) && v@.len() > 0 && v@.len() == w,
                None => !(self.heatmap_mode matches Some((_, w))
                    && self.facet_info.row_facets.groups@.len() > 0
                    && self.facet_info.row_facets.groups@.len() == w),
            },
    {
        match self.heatmap_mode {
            Some((_, n_rows)) => {
                let labels = self.facet_info.row_facets.labels();
                assert(labels@ =~= labels_of(self.facet_info.row_facets));
                if labels.len() > 0 && labels.len() == n_rows {
                    Some(labels)
                } else {
                    None
                }
            },
            None => None,
        }
    }
}

/// A heatmap is drawn as one panel, whatever its facets.
pub proof fn lemma_heatmap_single_panel(grid: FacetGrid, n_cols: usize, n_rows: usize)
    requires
        grid.heatmap_mode == Some((n_cols, n_rows)),
    ensures
        (if grid.heatmap_mode is Some {
            1
        } else {
            facet_count(grid.facet_info.col_facets) as usize
        }) == 1,
        (if grid.heatmap_mode is Some {
            1
        } else {
            facet_count(grid.facet_info.row_facets) as usize
        }) == 1,
        (match grid.heatmap_mode {
            Some(d) => d,
            None => (0, 0),
        }) == (n_cols, n_rows),
{
}

/// The names of the categorical factors among the first `k`, in order.
pub open spec fn categorical_names(colors: Seq<ColorFactor>, k: int) -> Seq<Seq<char>>
    decreases k,
{
    if k <= 0 {
        Seq::empty()
    } else {
        let prev = categorical_names(colors, k - 1);
        if colors[k - 1].categorical {
            prev.push(colors[k - 1].name@)
        } else {
            prev
        }
    }
}

/// The legend title of the colors: the names of the categorical factors
/// joined with `", "`, or the name of the first factor where none is
/// categorical.
pub fn legend_title(colors: &Vec<ColorFactor>) -> (r: String)
    requires
        colors@.len() > 0,
    ensures
        r@ == (if categorical_names(colors@, colors@.len() as int).len() == 0 {
            colors@[0].name@
        } else {
            joined(categorical_names(colors@, colors@.len() as int), ", "@)
        }),
{
    let mut names: Vec<String> = Vec::new();
    let mut i: usize = 0;
    while i < colors.len()
        invariant
            i <= colors@.len(),
            views(names@) == categorical_names(colors@, i as int),
        decreases colors@.len() - i,
    {
        if colors[i].categorical {
            let ghost before = views(names@);
            names.push(colors[i].name.clone());
            assert(views(names@) =~= before.push(colors@[i as int].name@));
        }
        i = i + 1;
    }
    if names.len() == 0 {
        colors[0].name.clone()
    } else {
        join(&names, ", ")
    }
}

/// The label of level `i` where a color table gives no names.
pub open spec fn level_label(i: nat) -> Seq<char> {
    "Level "@ + decimal(i)
}

/// Labels `Level 0` to `Level n-1`, for legends whose color levels have no
/// names.
pub fn generic_level_labels(n: usize) -> (r: Vec<String>)
    ensures
        r@.len() == n,
        forall|i: int| 0 <= i < n ==> (#[trigger] r@[i])@ == level_label(i as nat),
{
    let mut out: Vec<String> = Vec::new();
    let mut i: usize = 0;
    while i < n
        invariant
            i <= n,
            out@.len() == i,
            forall|k: int| 0 <= k < i ==> (#[trigger] out@[k])@ == level_label(k as nat),
        decreases n - i,
    {
        let mut label = copy_str("Level ");
        let digits = decimal_string(i);
        label.append(digits.as_str());
        out.push(label);
        i = i + 1;
    }
    out
}

} // verus!
