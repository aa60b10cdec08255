//! Decisions of the plot pipeline: which pages are drawn and how, which
//! geometry and layout a chart kind gets, where a rendered page is written,
//! and which page factors a result records.

use crate::lookup::{find_last, pair_views, pairs_map};
use crate::text::{decimal, decimal_string, views};
use crate::config::HeatmapCellAggregation;
use crate::stream::ColorFactor;
use vstd::prelude::*;

verus! {

/// The kinds of chart a step can draw.
#[derive(Debug, Clone, Copy, PartialEq, Eq, Structural)]
pub enum ChartKind {
    Point,
    Heatmap,
    Bar,
    Line,
}

/// The geometry a chart is drawn with: tiles, bars, points of the configured
/// size, or lines of the configured width.
#[derive(Debug, Clone, Copy, PartialEq, Eq, Structural)]
pub enum GeomKind {
    Tile,
    Bar,
    PointSized,
    LineWidth,
}

/// The geometry of a chart kind.
pub open spec fn geom_of(kind: ChartKind) -> GeomKind {
    match kind {
        ChartKind::Heatmap => GeomKind::Tile,
        ChartKind::Bar => GeomKind::Bar,
        ChartKind::Point => GeomKind::PointSized,
        ChartKind::Line => GeomKind::LineWidth,
    }
}

/// The geometry a chart kind is drawn with.
pub fn geom_for(kind: ChartKind) -> (r: GeomKind)
    ensures
        r == geom_of(kind),
{
    match kind {
        ChartKind::Heatmap => GeomKind::Tile,
        ChartKind::Bar => GeomKind::Bar,
        ChartKind::Point => GeomKind::PointSized,
        ChartKind::Line => GeomKind::LineWidth,
    }
}

/// Whether a chart is drawn as one grid panel: a heatmap uses the facet grid
/// as its tile positions, without facets and without scale expansion.
pub fn uses_grid_layout(kind: ChartKind) -> (r: bool)
    ensures
        r == (kind == ChartKind::Heatmap),
{
    match kind {
        ChartKind::Heatmap => true,
        _ => false,
    }
}

/// How the pages of a plot are drawn: with more than one page, the pages
/// share a data cache and a schema cache, and each page keeps only its own
/// facets.
#[derive(Debug, Clone, Copy, PartialEq, Eq, Structural)]
pub struct PagePlan {
    pub shared_caches: bool,
    pub filter_by_page: bool,
}

/// Why no plot is drawn.
#[derive(Debug, Clone, Copy, PartialEq, Eq, Structural)]
pub enum PipelineError {
    /// There is no page to draw.
    NoPages,
}

/// The plan for drawing `n_pages` pages; an error where there is none.
pub fn plan_pages(n_pages: usize) -> (r: Result<PagePlan, PipelineError>)
    ensures
        n_pages == 0 ==> r == Err::<PagePlan, PipelineError>(PipelineError::NoPages),
        n_pages > 0 ==> r == Ok::<PagePlan, PipelineError>(
            PagePlan { shared_caches: n_pages > 1, filter_by_page: n_pages > 1 },
        ),
{
    if n_pages == 0 {
        return Err(PipelineError::NoPages);
    }
    let multi = n_pages > 1;
    Ok(PagePlan { shared_caches: multi, filter_by_page: multi })
}

/// The name of the file a page is rendered to: `temp_plot_page_<index>.<ext>`
/// where there are several pages, `temp_plot.<ext>` where there is one.
pub open spec fn temp_plot_name_of(page_idx: nat, total_pages: nat, ext: Seq<char>) -> Seq<char> {
    if total_pages > 1 {
        "temp_plot_page_"@ + decimal(page_idx) + "."@ + ext
    } else {
        "temp_plot."@ + ext
    }
}

/// The name of the temporary file a page is rendered to.
pub fn temp_plot_name(page_idx: usize, total_pages: usize, ext: &str) -> (r: String)
    ensures
        r@ == temp_plot_name_of(page_idx as nat, total_pages as nat, ext@),
{
    if total_pages > 1 {
        let mut name = "temp_plot_page_".to_string();
        let idx = decimal_string(page_idx);
        name.append(idx.as_str());
        name.append(".");
        name.append(ext);
        name
    } else {
        let mut name = "temp_plot.".to_string();
        name.append(ext);
        name
    }
}

proof fn lemma_names_split(p: Seq<char>, a: Seq<char>, b: Seq<char>, ext: Seq<char>)
    requires
        crate::text::all_digits(a),
        crate::text::all_digits(b),
        p + a + "."@ + ext == p + b + "."@ + ext,
    ensures
        a == b,
{
    reveal_strlit(".");
    let s1 = p + a + "."@ + ext;
    let s2 = p + b + "."@ + ext;
    if a.len() < b.len() {
        assert(s1[(p.len() + a.len()) as int] == '.');
        assert(s2[(p.len() + a.len()) as int] == b[a.len() as int]);
        assert(crate::text::is_digit(b[a.len() as int]));
    } else if b.len() < a.len() {
        assert(s2[(p.len() + b.len()) as int] == '.');
        assert(s1[(p.len() + b.len()) as int] == a[b.len() as int]);
        assert(crate::text::is_digit(a[b.len() as int]));
    } else {
        assert(s1.subrange(p.len() as int, (p.len() + a.len()) as int) =~= a);
        assert(s2.subrange(p.len() as int, (p.len() + b.len()) as int) =~= b);
    }
}

/// The pages of a plot are rendered to different files: no page overwrites
/// another's image.
pub proof fn lemma_temp_names_distinct(i: nat, j: nat, total_pages: nat, ext: Seq<char>)
    requires
        total_pages > 1,
        i != j,
    ensures
        temp_plot_name_of(i, total_pages, ext) != temp_plot_name_of(j, total_pages, ext),
{
    crate::text::lemma_decimal_digits(i);
    crate::text::lemma_decimal_digits(j);
    if temp_plot_name_of(i, total_pages, ext) == temp_plot_name_of(j, total_pages, ext) {
        lemma_names_split("temp_plot_page_"@, decimal(i), decimal(j), ext);
        crate::text::lemma_decimal_injective(i, j);
    }
}

/// The page factors that a page has a value for, in the order of `names`,
/// each with its value.
pub open spec fn page_factor_pairs_of(
    names: Seq<Seq<char>>,
    values: Map<Seq<char>, Seq<char>>,
) -> Seq<(Seq<char>, Seq<char>)>
    decreases names.len(),
{
    if names.len() == 0 {
        Seq::empty()
    } else {
        let prev = page_factor_pairs_of(names.drop_last(), values);
        if values.contains_key(names.last()) {
            prev.push((names.last(), values[names.last()]))
        } else {
            prev
        }
    }
}

/// The page factors of a page with their values, for the result that records
/// the page; `values` are the page's factor values, of which a later entry for
/// a factor counts.
pub fn page_factor_pairs(names: &Vec<String>, values: &Vec<(String, String)>) -> (r: Vec<
    (String, String),
>)
    ensures
        pair_views(r@) == page_factor_pairs_of(views(names@), pairs_map(pair_views(values@))),
{
    let ghost m = pairs_map(pair_views(values@));
    let mut out: Vec<(String, String)> = Vec::new();
    let mut i: usize = 0;
    while i < names.len()
        invariant
            i <= names@.len(),
            m == pairs_map(pair_views(values@)),
            pair_views(out@) == page_factor_pairs_of(views(names@.take(i as int)), m),
        decreases names@.len() - i,
    {
        assert(views(names@.take(i as int + 1)).drop_last() =~= views(names@.take(i as int)));
        assert(views(names@.take(i as int + 1)).last() == names@[i as int]@);
        match find_last(values, names[i].as_str()) {
            Some(k) => {
                let ghost before = pair_views(out@);
                out.push((names[i].clone(), values[k].1.clone()));
                assert(pair_views(out@) =~= before.push((names@[i as int]@, m[names@[i as int]@])));
            },
            None => {},
        }
        i = i + 1;
    }
    assert(names@.take(names@.len() as int) =~= names@);
    out
}

/// What a heatmap's data request is answered with: the cell aggregates,
/// computed on the first request and kept; a later request from the start is
/// answered with the kept aggregates, and any request past the start with no
/// rows, since all tiles went out at once.
#[derive(Debug, Clone, Copy, PartialEq, Eq, Structural)]
pub enum HeatmapAnswer {
    Aggregate,
    Kept,
    Nothing,
}

/// Answers a heatmap data request starting at row `start`, given whether the
/// aggregates are already kept.
pub fn heatmap_answer(aggregated: bool, start: usize) -> (r: HeatmapAnswer)
    ensures
        !aggregated ==> r == HeatmapAnswer::Aggregate,
        aggregated && start == 0 ==> r == HeatmapAnswer::Kept,
        aggregated && start > 0 ==> r == HeatmapAnswer::Nothing,
{
    if !aggregated {
        HeatmapAnswer::Aggregate
    } else if start > 0 {
        HeatmapAnswer::Nothing
    } else {
        HeatmapAnswer::Kept
    }
}

/// How the values of one column are reduced to one value per heatmap cell.
#[derive(Debug, Clone, Copy, PartialEq, Eq, Structural)]
pub enum CellReduction {
    Last,
    First,
    Mean,
    Median,
}

/// The reduction a cell aggregation method names.
pub open spec fn reduction_of(method: HeatmapCellAggregation) -> CellReduction {
    match method {
        HeatmapCellAggregation::Last => CellReduction::Last,
        HeatmapCellAggregation::First => CellReduction::First,
        HeatmapCellAggregation::Mean => CellReduction::Mean,
        HeatmapCellAggregation::Median => CellReduction::Median,
    }
}

/// Some factor of `colors` is categorical.
pub open spec fn has_categorical(colors: Seq<ColorFactor>) -> bool {
    exists|i: int| 0 <= i < colors.len() && (#[trigger] colors[i]).categorical
}

/// The per-cell reductions of the color columns: `.colorLevels` once, by
/// its last value (levels have no mean), for the categorical factors, and
/// each continuous factor's column by the configured method, in factor order.
pub open spec fn cell_reductions_of(
    colors: Seq<ColorFactor>,
    method: HeatmapCellAggregation,
) -> Seq<(Seq<char>, CellReduction)>
    decreases colors.len(),
{
    if colors.len() == 0 {
        Seq::empty()
    } else {
        let prev = cell_reductions_of(colors.drop_last(), method);
        let c = colors.last();
        if c.categorical {
            if has_categorical(colors.drop_last()) {
                prev
            } else {
                prev.push((".colorLevels"@, CellReduction::Last))
            }
        } else {
            prev.push((c.name@, reduction_of(method)))
        }
    }
}

/// A cell is reduced the way its aggregation method says, no other: the
/// reduction of each method is the one of the same name, so that two
/// different methods never reduce alike.
pub proof fn lemma_reduction_keeps_method(method: HeatmapCellAggregation, other: HeatmapCellAggregation)
    ensures
        reduction_of(method) == CellReduction::Last <==> method == HeatmapCellAggregation::Last,
        reduction_of(method) == CellReduction::First <==> method == HeatmapCellAggregation::First,
        reduction_of(method) == CellReduction::Mean <==> method == HeatmapCellAggregation::Mean,
        reduction_of(method) == CellReduction::Median <==> method == HeatmapCellAggregation::Median,
        method != other ==> reduction_of(method) != reduction_of(other),
{
}

/// Without categorical factors, every color column is reduced on its own,
/// in factor order, by the reduction of the configured method.
pub proof fn lemma_continuous_columns_reduced_by_method(
    colors: Seq<ColorFactor>,
    method: HeatmapCellAggregation,
)
    requires
        forall|i: int| 0 <= i < colors.len() ==> !(#[trigger] colors[i]).categorical,
    ensures
        cell_reductions_of(colors, method).len() == colors.len(),
        forall|i: int|
            0 <= i < colors.len() ==> #[trigger] cell_reductions_of(colors, method)[i] == (
                colors[i].name@,
                reduction_of(method),
            ),
    decreases colors.len(),
{
    if colors.len() > 0 {
        let rest = colors.drop_last();
        assert forall|i: int| 0 <= i < rest.len() implies !(#[trigger] rest[i]).categorical by {
            assert(rest[i] == colors[i]);
        }
        lemma_continuous_columns_reduced_by_method(rest, method);
        assert(!colors[colors.len() - 1].categorical);
    }
}

fn reduction_for(method: HeatmapCellAggregation) -> (r: CellReduction)
    ensures
        r == reduction_of(method),
{
    match method {
        HeatmapCellAggregation::Last => CellReduction::Last,
        HeatmapCellAggregation::First => CellReduction::First,
        HeatmapCellAggregation::Mean => CellReduction::Mean,
        HeatmapCellAggregation::Median => CellReduction::Median,
    }
}

/// The reductions that aggregate a heatmap's color columns per cell.
pub fn cell_reductions(colors: &Vec<ColorFactor>, method: HeatmapCellAggregation) -> (r: Vec<
    (String, CellReduction),
>)
    ensures
        r@.map_values(|e: (String, CellReduction)| (e.0@, e.1)) == cell_reductions_of(
            colors@,
            method,
        ),
{
    let mut out: Vec<(String, CellReduction)> = Vec::new();
    let mut has_levels = false;
    let mut i: usize = 0;
    while i < colors.len()
        invariant
            i <= colors@.len(),
            out@.map_values(|e: (String, CellReduction)| (e.0@, e.1)) == cell_reductions_of(
                colors@.take(i as int),
                method,
            ),
            has_levels == has_categorical(colors@.take(i as int)),
        decreases colors@.len() - i,
    {
        let ghost prefix = colors@.take(i as int);
        let ghost next = colors@.take(i as int + 1);
        assert(next.drop_last() =~= prefix);
        assert(next.last() == colors@[i as int]);
        let ghost before = out@.map_values(|e: (String, CellReduction)| (e.0@, e.1));
        if colors[i].categorical {
            if !has_levels {
                out.push((".colorLevels".to_string(), CellReduction::Last));
                assert(out@.map_values(|e: (String, CellReduction)| (e.0@, e.1)) =~= before.push(
                    (".colorLevels"@, CellReduction::Last),
                ));
            }
            assert(next[i as int].categorical);
            has_levels = true;
        } else {
            out.push((colors[i].name.clone(), reduction_for(method)));
            assert(out@.map_values(|e: (String, CellReduction)| (e.0@, e.1)) =~= before.push(
                (colors@[i as int].name@, reduction_of(method)),
            ));
            assert(has_categorical(next) == has_categorical(prefix)) by {
                if has_categorical(next) {
                    let k = choose|k: int| 0 <= k < next.len() && (#[trigger] next[k]).categorical;
                    assert(k != i);
                    assert(prefix[k] == next[k]);
                }
                if has_categorical(prefix) {
                    let k = choose|k: int| 0 <= k < prefix.len() && (#[trigger] prefix[k]).categorical;
                    assert(next[k] == prefix[k]);
                }
            }
        }
        proof {
            if colors@[i as int].categorical {
                assert(next[i as int].categorical);
            }
        }
        i = i + 1;
    }
    assert(colors@.take(colors@.len() as int) =~= colors@);
    out
}

} // verus!
