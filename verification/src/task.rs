//! Tasks, workflows and cube queries of the plotting host: what a task says
//! about its query and state, how a cube query is built from a crosstab, and
//! when a task fetch is retried.

use crate::colors::EPalette;
use crate::pipeline::ChartKind;
use crate::properties::OperatorSettings;
use crate::text::{copy_str, copy_strings, str_eq};
use vstd::prelude::*;

verus! {

/// An encoded message that the library passes through unchanged (a relation,
/// filters, axis settings or a preprocessor).
#[derive(Debug, Clone)]
pub struct Encoded {
    pub bytes: Vec<u8>,
}

/// A factor: a column of the data, with its type.
#[derive(Debug, Clone)]
pub struct Factor {
    pub name: String,
    pub factor_type: String,
}

/// A factor as placed on a crosstab.
#[derive(Debug, Clone)]
pub struct GraphicalFactor {
    pub factor: Option<Factor>,
}

/// The column or row table of a crosstab; `cell_size` is the size of a cell
/// in whole pixels.
#[derive(Debug, Clone)]
pub struct CrosstabTable {
    pub graphical_factors: Vec<GraphicalFactor>,
    pub n_rows: i32,
    pub cell_size: i32,
}

/// The chart kinds of an axis, with their point sizes.
#[derive(Debug, Clone, Copy, PartialEq, Eq, Structural)]
pub enum ChartObject {
    Chartpoint(i32),
    Chartsize(i32),
    Chartline(i32),
    Chartbar,
    Chartheatmap,
    Chart,
}

/// The chart of an axis.
#[derive(Debug, Clone, Copy)]
pub struct EChart {
    pub object: Option<ChartObject>,
}

/// An X or Y axis of a crosstab.
#[derive(Debug, Clone)]
pub struct Axis {
    pub graphical_factor: Option<GraphicalFactor>,
    pub axis_settings: Option<Encoded>,
}

/// A list of factors (labels or errors).
#[derive(Debug, Clone)]
pub struct FactorList {
    pub factors: Vec<Factor>,
}

/// The color factors of a layer, with the palette that colors them.
#[derive(Debug, Clone)]
pub struct ColorList {
    pub factors: Vec<Factor>,
    pub palette: Option<EPalette>,
}

/// One layer of a crosstab: its chart, axes and aesthetic factors.
#[derive(Debug, Clone)]
pub struct XyAxis {
    pub chart: Option<EChart>,
    pub y_axis: Option<Axis>,
    pub x_axis: Option<Axis>,
    pub colors: Option<ColorList>,
    pub labels: Option<FactorList>,
    pub errors: Option<FactorList>,
    pub preprocessors: Vec<Encoded>,
}

/// The layers of a crosstab.
#[derive(Debug, Clone)]
pub struct AxisList {
    pub xy_axis: Vec<XyAxis>,
}

/// The model of a data step: a crosstab.
#[derive(Debug, Clone)]
pub struct Crosstab {
    pub column_table: Option<CrosstabTable>,
    pub row_table: Option<CrosstabTable>,
    pub axis: Option<AxisList>,
    pub filters: Option<Encoded>,
    pub operator_settings: Option<OperatorSettings>,
    /// The cube query task that computed the data of the step, if any.
    pub task_id: String,
}

/// The query of one layer.
#[derive(Debug, Clone)]
pub struct CubeAxisQuery {
    pub point_size: i32,
    pub chart_type: String,
    pub y_axis: Option<Factor>,
    pub y_axis_settings: Option<Encoded>,
    pub x_axis: Option<Factor>,
    pub x_axis_settings: Option<Encoded>,
    pub colors: Vec<Factor>,
    pub labels: Vec<Factor>,
    pub errors: Vec<Factor>,
    pub preprocessors: Vec<Encoded>,
}

/// A cube query: what to compute, and (once computed) the hashes of the
/// main, column and row tables.
#[derive(Debug, Clone)]
pub struct CubeQuery {
    pub relation: Option<Encoded>,
    pub col_columns: Vec<Factor>,
    pub row_columns: Vec<Factor>,
    pub axis_queries: Vec<CubeAxisQuery>,
    pub filters: Option<Encoded>,
    pub operator_settings: Option<OperatorSettings>,
    pub qt_hash: String,
    pub column_hash: String,
    pub row_hash: String,
}

/// The chart type and point size of a chart: points, sized points and lines
/// keep their size; bars, heatmaps and plain charts are drawn with size 4.
pub open spec fn chart_info_of(chart: EChart) -> (Seq<char>, i32) {
    match chart.object {
        Some(ChartObject::Chartpoint(s)) => ("point"@, s),
        Some(ChartObject::Chartsize(s)) => ("point"@, s),
        Some(ChartObject::Chartline(s)) => ("line"@, s),
        Some(ChartObject::Chartbar) => ("bar"@, 4),
        Some(ChartObject::Chartheatmap) => ("heatmap"@, 4),
        _ => ("point"@, 4),
    }
}

/// The chart type name and point size of a chart.
pub fn extract_chart_info(chart: &EChart) -> (r: (String, i32))
    ensures
        r.0@ == chart_info_of(*chart).0,
        r.1 == chart_info_of(*chart).1,
{
    match chart.object {
        Some(ChartObject::Chartpoint(s)) => (copy_str("point"), s),
        Some(ChartObject::Chartsize(s)) => (copy_str("point"), s),
        Some(ChartObject::Chartline(s)) => (copy_str("line"), s),
        Some(ChartObject::Chartbar) => (copy_str("bar"), 4),
        Some(ChartObject::Chartheatmap) => (copy_str("heatmap"), 4),
        _ => (copy_str("point"), 4),
    }
}

/// The chart kind a chart draws: heatmap, bar and line charts as such, every
/// other chart as points.
pub open spec fn chart_kind_of(chart: EChart) -> ChartKind {
    match chart.object {
        Some(ChartObject::Chartheatmap) => ChartKind::Heatmap,
        Some(ChartObject::Chartbar) => ChartKind::Bar,
        Some(ChartObject::Chartline(_)) => ChartKind::Line,
        _ => ChartKind::Point,
    }
}

/// The chart of the first layer of a crosstab, if it has one.
pub open spec fn first_layer_chart(model: Crosstab) -> Option<EChart> {
    match model.axis {
        Some(axes) => if axes.xy_axis@.len() > 0 {
            axes.xy_axis@[0].chart
        } else {
            None
        },
        None => None,
    }
}

/// The chart kind and point size that a step's crosstab asks for: those of
/// the chart of its first layer; points of the default size where it has no
/// chart.
pub fn chart_settings(model: &Crosstab) -> (r: (ChartKind, Option<i32>))
    ensures
        r == (match first_layer_chart(*model) {
            Some(c) => (chart_kind_of(c), Some(chart_info_of(c).1)),
            None => (ChartKind::Point, None),
        }),
{
    let chart = match &model.axis {
        Some(axes) => if axes.xy_axis.len() > 0 {
            axes.xy_axis[0].chart
        } else {
            None
        },
        None => None,
    };
    match chart {
        Some(c) => {
            let kind = match c.object {
                Some(ChartObject::Chartheatmap) => ChartKind::Heatmap,
                Some(ChartObject::Chartbar) => ChartKind::Bar,
                Some(ChartObject::Chartline(_)) => ChartKind::Line,
                _ => ChartKind::Point,
            };
            let (_, size) = extract_chart_info(&c);
            (kind, Some(size))
        },
        None => (ChartKind::Point, None),
    }
}

/// The factor placed on an axis, if any.
pub open spec fn axis_factor(axis: Option<Axis>) -> Option<Factor> {
    match axis {
        Some(a) => match a.graphical_factor {
            Some(gf) => gf.factor,
            None => None,
        },
        None => None,
    }
}

/// The settings of an axis, if any.
pub open spec fn axis_settings_of(axis: Option<Axis>) -> Option<Encoded> {
    match axis {
        Some(a) => a.axis_settings,
        None => None,
    }
}

/// The factors of a list, none where the list is absent.
pub open spec fn factors_of(list: Option<FactorList>) -> Seq<Factor> {
    match list {
        Some(l) => l.factors@,
        None => Seq::empty(),
    }
}

/// The color factors of a layer, none where it has no colors.
pub open spec fn color_factors_of(list: Option<ColorList>) -> Seq<Factor> {
    match list {
        Some(l) => l.factors@,
        None => Seq::empty(),
    }
}

/// The query of a layer: its chart type and size (a layer without chart is
/// drawn as points of size 4), its axes' factors and settings, its aesthetic
/// factors and its preprocessors.
pub open spec fn axis_query_of(xy: XyAxis, q: CubeAxisQuery) -> bool {
    let info = match xy.chart {
        Some(c) => chart_info_of(c),
        None => ("point"@, 4i32),
    };
    &&& q.chart_type@ == info.0
    &&& q.point_size == info.1
    &&& q.y_axis == axis_factor(xy.y_axis)
    &&& q.y_axis_settings == axis_settings_of(xy.y_axis)
    &&& q.x_axis == axis_factor(xy.x_axis)
    &&& q.x_axis_settings == axis_settings_of(xy.x_axis)
    &&& q.colors@ == color_factors_of(xy.colors)
    &&& q.labels@ == factors_of(xy.labels)
    &&& q.errors@ == factors_of(xy.errors)
    &&& q.preprocessors == xy.preprocessors
}

/// A layer's query asks for the factors placed on its axes: the x and y
/// factors of the query are those of the graphical factors of the layer's x
/// and y axes, none where an axis has none, and each axis keeps its own
/// settings.
pub proof fn lemma_axis_query_keeps_axes(xy: XyAxis, q: CubeAxisQuery)
    requires
        axis_query_of(xy, q),
    ensures
        xy.x_axis is Some && xy.x_axis->0.graphical_factor is Some ==> q.x_axis
            == xy.x_axis->0.graphical_factor->0.factor,
        xy.y_axis is Some && xy.y_axis->0.graphical_factor is Some ==> q.y_axis
            == xy.y_axis->0.graphical_factor->0.factor,
        (xy.x_axis is None || xy.x_axis->0.graphical_factor is None) ==> q.x_axis is None,
        (xy.y_axis is None || xy.y_axis->0.graphical_factor is None) ==> q.y_axis is None,
        xy.x_axis is Some ==> q.x_axis_settings == xy.x_axis->0.axis_settings,
        xy.y_axis is Some ==> q.y_axis_settings == xy.y_axis->0.axis_settings,
        xy.x_axis is None ==> q.x_axis_settings is None,
        xy.y_axis is None ==> q.y_axis_settings is None,
{
}

fn take_axis(axis: Option<Axis>) -> (r: (Option<Factor>, Option<Encoded>))
    ensures
        r.0 == axis_factor(axis),
        r.1 == axis_settings_of(axis),
{
    match axis {
        Some(a) => {
            let factor = match a.graphical_factor {
                Some(gf) => gf.factor,
                None => None,
            };
            (factor, a.axis_settings)
        },
        None => (None, None),
    }
}

fn take_factors(list: Option<FactorList>) -> (r: Vec<Factor>)
    ensures
        r@ == factors_of(list),
{
    match list {
        Some(l) => l.factors,
        None => Vec::new(),
    }
}

fn take_color_factors(list: Option<ColorList>) -> (r: Vec<Factor>)
    ensures
        r@ == color_factors_of(list),
{
    match list {
        Some(l) => l.factors,
        None => Vec::new(),
    }
}

/// Builds the query of one layer from the layer.
pub fn build_axis_query(xy: XyAxis) -> (q: CubeAxisQuery)
    ensures
        axis_query_of(xy, q),
{
    let (chart_type, point_size) = match &xy.chart {
        Some(chart) => extract_chart_info(chart),
        None => (copy_str("point"), 4),
    };
    let (y_axis, y_axis_settings) = take_axis(xy.y_axis);
    let (x_axis, x_axis_settings) = take_axis(xy.x_axis);
    CubeAxisQuery {
        point_size,
        chart_type,
        y_axis,
        y_axis_settings,
        x_axis,
        x_axis_settings,
        colors: take_color_factors(xy.colors),
        labels: take_factors(xy.labels),
        errors: take_factors(xy.errors),
        preprocessors: xy.preprocessors,
    }
}

/// The named factors of a crosstab table, in order: placed factors whose name
/// is not empty (an empty table holds a placeholder without name).
pub open spec fn named_factors(gfs: Seq<GraphicalFactor>) -> Seq<Factor>
    decreases gfs.len(),
{
    if gfs.len() == 0 {
        Seq::empty()
    } else {
        let prev = named_factors(gfs.drop_last());
        match gfs.last().factor {
            Some(f) => if f.name@.len() > 0 {
                prev.push(f)
            } else {
                prev
            },
            None => prev,
        }
    }
}

/// A placement holds a factor with a name.
pub open spec fn is_named_placement(gf: GraphicalFactor) -> bool {
    gf.factor matches Some(f) && f.name@.len() > 0
}

/// Placeholders never reach a query: every factor taken from a crosstab
/// table has a name, and every placed factor with a name is taken.
pub proof fn lemma_named_factors_exact(gfs: Seq<GraphicalFactor>)
    ensures
        forall|i: int|
            0 <= i < named_factors(gfs).len() ==> (#[trigger] named_factors(gfs)[i]).name@.len() > 0,
        forall|j: int|
            0 <= j < gfs.len() && is_named_placement(#[trigger] gfs[j]) ==> named_factors(
                gfs,
            ).contains(gfs[j].factor->0),
    decreases gfs.len(),
{
    if gfs.len() > 0 {
        let rest = gfs.drop_last();
        lemma_named_factors_exact(rest);
        let prev = named_factors(rest);
        assert forall|j: int|
            0 <= j < gfs.len() && is_named_placement(#[trigger] gfs[j]) implies named_factors(
                gfs,
            ).contains(gfs[j].factor->0) by {
            let f = gfs[j].factor->0;
            if j < gfs.len() - 1 {
                assert(rest[j] == gfs[j]);
                assert(prev.contains(f));
                let k = choose|k: int| 0 <= k < prev.len() && prev[k] == f;
                assert(named_factors(gfs)[k] == f);
            } else {
                assert(named_factors(gfs) == prev.push(f));
                assert(named_factors(gfs)[prev.len() as int] == f);
            }
        }
    }
}

/// The named factors of an optional crosstab table.
pub open spec fn table_factors(t: Option<CrosstabTable>) -> Seq<Factor> {
    match t {
        Some(t) => named_factors(t.graphical_factors@),
        None => Seq::empty(),
    }
}

fn collect_named_factors(table: Option<CrosstabTable>) -> (r: Vec<Factor>)
    ensures
        r@ == table_factors(table),
{
    let mut out: Vec<Factor> = Vec::new();
    match table {
        Some(t) => {
            let ghost all = t.graphical_factors@;
            let mut rest = t.graphical_factors;
            let mut i: usize = 0;
            let n = rest.len();
            assert(all.take(0) =~= Seq::<GraphicalFactor>::empty());
            assert(all.skip(0) =~= all);
            while i < n
                invariant
                    n == all.len(),
                    i <= n,
                    rest@ == all.skip(i as int),
                    out@ == named_factors(all.take(i as int)),
                decreases n - i,
            {
                assert(all.take(i as int + 1).drop_last() =~= all.take(i as int));
                assert(all.take(i as int + 1).last() == all[i as int]);
                let gf = rest.remove(0);
                assert(rest@ =~= all.skip(i as int + 1));
                match gf.factor {
                    Some(f) => {
                        if !f.name.as_str().is_empty() {
                            out.push(f);
                        }
                    },
                    None => {},
                }
                i = i + 1;
            }
            assert(all.take(n as int) =~= all);
            out
        },
        None => out,
    }
}

/// The layers of a crosstab, none where it has no axis list.
pub open spec fn layers_of(axis: Option<AxisList>) -> Seq<XyAxis> {
    match axis {
        Some(a) => a.xy_axis@,
        None => Seq::empty(),
    }
}

fn build_axis_queries(axis: Option<AxisList>) -> (r: Vec<CubeAxisQuery>)
    ensures
        r@.len() == layers_of(axis).len(),
        forall|i: int|
            0 <= i < r@.len() ==> axis_query_of(#[trigger] layers_of(axis)[i], r@[i]),
{
    let mut out: Vec<CubeAxisQuery> = Vec::new();
    match axis {
        Some(list) => {
            let ghost all = list.xy_axis@;
            let mut rest = list.xy_axis;
            let n = rest.len();
            let mut i: usize = 0;
            assert(all.skip(0) =~= all);
            while i < n
                invariant
                    n == all.len(),
                    i <= n,
                    rest@ == all.skip(i as int),
                    out@.len() == i,
                    forall|k: int| 0 <= k < i ==> axis_query_of(#[trigger] all[k], out@[k]),
                decreases n - i,
            {
                let xy = rest.remove(0);
                assert(rest@ =~= all.skip(i as int + 1));
                out.push(build_axis_query(xy));
                i = i + 1;
            }
            out
        },
        None => out,
    }
}

/// The cube query that computes the data of a crosstab over `relation`: the
/// named factors of its column and row tables, one query per layer, its
/// filters and operator settings; the table hashes are left empty, for the
/// task that runs the query to fill in.
pub open spec fn cube_query_of(model: Crosstab, relation: Encoded, q: CubeQuery) -> bool {
    &&& q.relation == Some(relation)
    &&& q.col_columns@ == table_factors(model.column_table)
    &&& q.row_columns@ == table_factors(model.row_table)
    &&& q.axis_queries@.len() == layers_of(model.axis).len()
    &&& forall|i: int|
        0 <= i < q.axis_queries@.len() ==> axis_query_of(
            #[trigger] layers_of(model.axis)[i],
            q.axis_queries@[i],
        )
    &&& q.filters == model.filters
    &&& q.operator_settings == model.operator_settings
    &&& q.qt_hash@.len() == 0
    &&& q.column_hash@.len() == 0
    &&& q.row_hash@.len() == 0
}

/// Builds the cube query of a crosstab over the relation of its parent step.
pub fn build_cube_query(model: Crosstab, relation: Encoded) -> (q: CubeQuery)
    ensures
        cube_query_of(model, relation, q),
{
    let ghost m = model;
    let col_columns = collect_named_factors(model.column_table);
    let row_columns = collect_named_factors(model.row_table);
    let axis_queries = build_axis_queries(model.axis);
    CubeQuery {
        relation: Some(relation),
        col_columns,
        row_columns,
        axis_queries,
        filters: model.filters,
        operator_settings: model.operator_settings,
        qt_hash: String::new(),
        column_hash: String::new(),
        row_hash: String::new(),
    }
}

/// A port of a step.
#[derive(Debug, Clone)]
pub struct Port {
    pub id: String,
}

/// A link from an output port to an input port.
#[derive(Debug, Clone)]
pub struct Link {
    pub input_id: String,
    pub output_id: String,
}

/// The model of a table step.
#[derive(Debug, Clone)]
pub struct TableStepModel {
    pub relation: Option<Encoded>,
}

/// A step that provides a table.
#[derive(Debug, Clone)]
pub struct TableStep {
    pub id: String,
    pub outputs: Vec<Port>,
    pub model: Option<TableStepModel>,
}

/// A step that runs an operator on a crosstab.
#[derive(Debug, Clone)]
pub struct DataStep {
    pub id: String,
    pub name: String,
    pub inputs: Vec<Port>,
    pub model: Option<Crosstab>,
}

/// The kinds of workflow step.
#[derive(Debug, Clone)]
pub enum StepObject {
    Datastep(DataStep),
    Crosstabstep(DataStep),
    Tablestep(TableStep),
    /// Any other kind of step.
    Other,
}

/// A workflow step.
#[derive(Debug, Clone)]
pub struct EStep {
    pub object: Option<StepObject>,
}

/// A workflow: its steps and the links between their ports.
#[derive(Debug, Clone)]
pub struct Workflow {
    pub name: String,
    pub project_id: String,
    pub steps: Vec<EStep>,
    pub links: Vec<Link>,
}

/// Why the parent relation of a data step cannot be found.
#[derive(Debug, Clone, PartialEq, Eq)]
pub enum ParentError {
    /// The data step has no input port.
    NoInputPorts,
    /// No link ends at the input port (its id).
    NoLink(String),
    /// No table step has the output port the link starts at (its id).
    NoParent(String),
    /// The parent table step has no model.
    NoModel,
    /// The parent table step's model has no relation.
    NoRelation,
}

/// Link `i` is the first link that ends at `port`.
pub open spec fn is_first_link(links: Seq<Link>, port: Seq<char>, i: int) -> bool {
    &&& 0 <= i < links.len()
    &&& links[i].input_id@ == port
    &&& forall|j: int| 0 <= j < i ==> (#[trigger] links[j]).input_id@ != port
}

/// Index of the first link ending at `port`.
pub open spec fn first_link_to(links: Seq<Link>, port: Seq<char>) -> Option<int> {
    if exists|i: int| is_first_link(links, port, i) {
        Some(choose|i: int| is_first_link(links, port, i))
    } else {
        None
    }
}

/// Step `s` is a table step with an output port `port`.
pub open spec fn table_step_with_output(s: EStep, port: Seq<char>) -> bool {
    match s.object {
        Some(StepObject::Tablestep(ts)) => exists|k: int|
            0 <= k < ts.outputs@.len() && (#[trigger] ts.outputs@[k]).id@ == port,
        _ => false,
    }
}

/// Step `i` is the first table step with an output port `port`.
pub open spec fn is_first_table_step(steps: Seq<EStep>, port: Seq<char>, i: int) -> bool {
    &&& 0 <= i < steps.len()
    &&& table_step_with_output(steps[i], port)
    &&& forall|j: int| 0 <= j < i ==> !table_step_with_output(#[trigger] steps[j], port)
}

/// Index of the first table step with an output port `port`.
pub open spec fn first_table_step_with(steps: Seq<EStep>, port: Seq<char>) -> Option<int> {
    if exists|i: int| is_first_table_step(steps, port, i) {
        Some(choose|i: int| is_first_table_step(steps, port, i))
    } else {
        None
    }
}

/// What a table step gives as the relation it feeds on: its model's relation,
/// or the error for a missing model or relation.
pub open spec fn relation_of_step(s: EStep) -> Result<Encoded, ParentError> {
    match s.object {
        Some(StepObject::Tablestep(ts)) => match ts.model {
            None => Err(ParentError::NoModel),
            Some(m) => match m.relation {
                None => Err(ParentError::NoRelation),
                Some(rel) => Ok(rel),
            },
        },
        _ => Err(ParentError::NoModel),
    }
}

fn find_link(links: &Vec<Link>, port: &str) -> (r: Option<usize>)
    ensures
        match r {
            Some(i) => is_first_link(links@, port@, i as int) && first_link_to(links@, port@)
                == Some(i as int),
            None => first_link_to(links@, port@) is None,
        },
{
    let mut i: usize = 0;
    while i < links.len()
        invariant
            i <= links@.len(),
            forall|j: int| 0 <= j < i ==> (#[trigger] links@[j]).input_id@ != port@,
        decreases links@.len() - i,
    {
        if str_eq(links[i].input_id.as_str(), port) {
            proof {
                let c = choose|k: int| is_first_link(links@, port@, k);
                assert(is_first_link(links@, port@, i as int));
                assert(is_first_link(links@, port@, c));
                if c < i {
                    assert(links@[c].input_id@ != port@);
                } else if c > i {
                    assert(links@[i as int].input_id@ != port@);
                }
            }
            return Some(i);
        }
        i = i + 1;
    }
    None
}

fn has_output(ts: &TableStep, port: &str) -> (r: bool)
    ensures
        r == exists|k: int| 0 <= k < ts.outputs@.len() && (#[trigger] ts.outputs@[k]).id@ == port@,
{
    let mut k: usize = 0;
    while k < ts.outputs.len()
        invariant
            k <= ts.outputs@.len(),
            forall|j: int| 0 <= j < k ==> (#[trigger] ts.outputs@[j]).id@ != port@,
        decreases ts.outputs@.len() - k,
    {
        if str_eq(ts.outputs[k].id.as_str(), port) {
            return true;
        }
        k = k + 1;
    }
    false
}

fn find_table_step(steps: &Vec<EStep>, port: &str) -> (r: Option<usize>)
    ensures
        match r {
            Some(i) => is_first_table_step(steps@, port@, i as int) && first_table_step_with(
                steps@,
                port@,
            ) == Some(i as int),
            None => first_table_step_with(steps@, port@) is None,
        },
{
    let mut i: usize = 0;
    while i < steps.len()
        invariant
            i <= steps@.len(),
            forall|j: int| 0 <= j < i ==> !table_step_with_output(#[trigger] steps@[j], port@),
        decreases steps@.len() - i,
    {
        let found = match &steps[i].object {
            Some(StepObject::Tablestep(ts)) => has_output(ts, port),
            _ => false,
        };
        if found {
            proof {
                let c = choose|k: int| is_first_table_step(steps@, port@, k);
                assert(is_first_table_step(steps@, port@, i as int));
                assert(is_first_table_step(steps@, port@, c));
                if c < i {
                    assert(!table_step_with_output(steps@[c], port@));
                } else if c > i {
                    assert(!table_step_with_output(steps@[i as int], port@));
                }
            }
            return Some(i);
        }
        i = i + 1;
    }
    None
}

/// Finds the relation of the table step that feeds a data step: the first
/// table step holding the output port of the first link that ends at the data
/// step's first input port.
pub fn find_parent_relation<'a>(workflow: &'a Workflow, data_step: &DataStep) -> (r: Result<
    &'a Encoded,
    ParentError,
>)
    ensures
        data_step.inputs@.len() == 0 ==> r == Err::<&Encoded, ParentError>(
            ParentError::NoInputPorts,
        ),
        data_step.inputs@.len() > 0 ==> {
            let port = data_step.inputs@[0].id@;
            match first_link_to(workflow.links@, port) {
                None => r matches Err(ParentError::NoLink(p)) && p@ == port,
                Some(li) => {
                    let out = workflow.links@[li].output_id@;
                    match first_table_step_with(workflow.steps@, out) {
                        None => r matches Err(ParentError::NoParent(p)) && p@ == out,
                        Some(si) => match r {
                            Ok(rel) => relation_of_step(workflow.steps@[si]) == Ok::<
                                Encoded,
                                ParentError,
                            >(*rel),
                            Err(e) => relation_of_step(workflow.steps@[si]) == Err::<
                                Encoded,
                                ParentError,
                            >(e),
                        },
                    }
                },
            }
        },
{
    if data_step.inputs.len() == 0 {
        return Err(ParentError::NoInputPorts);
    }
    let port = data_step.inputs[0].id.as_str();
    let li = match find_link(&workflow.links, port) {
        Some(li) => li,
        None => {
            return Err(ParentError::NoLink(copy_str(port)));
        },
    };
    let out = workflow.links[li].output_id.as_str();
    let si = match find_table_step(&workflow.steps, out) {
        Some(si) => si,
        None => {
            return Err(ParentError::NoParent(copy_str(out)));
        },
    };
    match &workflow.steps[si].object {
        Some(StepObject::Tablestep(ts)) => match &ts.model {
            None => Err(ParentError::NoModel),
            Some(m) => match &m.relation {
                None => Err(ParentError::NoRelation),
                Some(rel) => Ok(rel),
            },
        },
        _ => Err(ParentError::NoModel),
    }
}

/// Finds the first data step with the given id.
pub fn find_data_step<'a>(workflow: &'a Workflow, step_id: &str) -> (r: Option<&'a DataStep>)
    ensures
        match r {
            Some(ds) => exists|s: int|
                crate::colors::is_first_data_step(workflow.steps@, step_id@, s) && (#[trigger] workflow.steps@[s]).object == Some(
                    StepObject::Datastep(*ds),
                ),
            None => forall|s: int|
                0 <= s < workflow.steps@.len() ==> !(#[trigger] workflow.steps@[s].object matches Some(
                    StepObject::Datastep(ds),
                ) && ds.id@ == step_id@),
        },
{
    let mut s: usize = 0;
    while s < workflow.steps.len()
        invariant
            s <= workflow.steps@.len(),
            forall|t: int|
                0 <= t < s ==> !(#[trigger] workflow.steps@[t].object matches Some(
                    StepObject::Datastep(ds),
                ) && ds.id@ == step_id@),
        decreases workflow.steps@.len() - s,
    {
        match &workflow.steps[s].object {
            Some(StepObject::Datastep(ds)) => {
                if str_eq(ds.id.as_str(), step_id) {
                    assert(crate::colors::is_first_data_step(workflow.steps@, step_id@, s as int));
                    return Some(ds);
                }
            },
            _ => {},
        }
        s = s + 1;
    }
    None
}

/// A key and value of a task's environment.
#[derive(Debug, Clone)]
pub struct EnvPair {
    pub key: String,
    pub value: String,
}

/// The state a task is in.
#[derive(Debug, Clone)]
pub enum StateObject {
    Donestate,
    /// The task failed, for the given reason.
    Failedstate(String),
    Initstate,
    Runningstate,
    /// Any other state.
    Other,
}

/// The state of a task.
#[derive(Debug, Clone)]
pub struct EState {
    pub object: Option<StateObject>,
}

/// A task that computes a query: what the host hands a plotting operator.
/// `file_result_id` names the table that holds the operator's result.
#[derive(Debug, Clone)]
pub struct ComputationTask {
    pub id: String,
    pub query: Option<CubeQuery>,
    pub schema_ids: Vec<String>,
    pub project_id: String,
    pub environment: Vec<EnvPair>,
    pub state: Option<EState>,
    pub file_result_id: String,
}

/// The kinds of task.
#[derive(Debug, Clone)]
pub enum TaskObject {
    Computationtask(ComputationTask),
    Runcomputationtask(ComputationTask),
    Cubequerytask(ComputationTask),
    /// Any other kind of task, by its type name (such as `CSVTask`).
    Other(String),
}

/// A task.
#[derive(Debug, Clone)]
pub struct ETask {
    pub object: Option<TaskObject>,
}

/// The text that names the state of a cube query task: `DoneState`,
/// `FailedState: ` and the reason, `InitState`, `RunningState`, `Unknown` for
/// any other state, `NoState` where it has none, and `NotCubeQueryTask` for any
/// other task.
pub open spec fn task_state_text(task: ETask) -> Seq<char> {
    match task.object {
        Some(TaskObject::Cubequerytask(t)) => match t.state {
            Some(st) => match st.object {
                Some(StateObject::Donestate) => "DoneState"@,
                Some(StateObject::Failedstate(reason)) => "FailedState: "@ + reason@,
                Some(StateObject::Initstate) => "InitState"@,
                Some(StateObject::Runningstate) => "RunningState"@,
                Some(StateObject::Other) => "Unknown"@,
                None => "NoState"@,
            },
            None => "NoState"@,
        },
        _ => "NotCubeQueryTask"@,
    }
}

/// Names the state of a cube query task.
pub fn extract_task_state(task: &ETask) -> (r: String)
    ensures
        r@ == task_state_text(*task),
{
    match &task.object {
        Some(TaskObject::Cubequerytask(t)) => match &t.state {
            Some(st) => match &st.object {
                Some(StateObject::Donestate) => copy_str("DoneState"),
                Some(StateObject::Failedstate(reason)) => {
                    let mut out = copy_str("FailedState: ");
                    out.append(reason.as_str());
                    out
                },
                Some(StateObject::Initstate) => copy_str("InitState"),
                Some(StateObject::Runningstate) => copy_str("RunningState"),
                Some(StateObject::Other) => copy_str("Unknown"),
                None => copy_str("NoState"),
            },
            None => copy_str("NoState"),
        },
        _ => copy_str("NotCubeQueryTask"),
    }
}

/// The schema ids of a cube query task; none for any other task.
pub fn extract_schema_ids(task: &ETask) -> (r: Vec<String>)
    ensures
        r@ == (match task.object {
            Some(TaskObject::Cubequerytask(t)) => t.schema_ids@,
            _ => Seq::empty(),
        }),
{
    match &task.object {
        Some(TaskObject::Cubequerytask(t)) => copy_strings(&t.schema_ids),
        _ => Vec::new(),
    }
}

/// The kinds of task that carry a query.
#[derive(Debug, Clone, Copy, PartialEq, Eq, Structural)]
pub enum TaskKind {
    Computation,
    RunComputation,
    CubeQuery,
}

/// Why a task gives no context to plot in.
#[derive(Debug, Clone, Copy, PartialEq, Eq, Structural)]
pub enum TaskError {
    /// The task of this kind has no query.
    NoQuery(TaskKind),
    /// The task is of a kind that carries no query.
    UnsupportedTaskType,
}

/// What a task gives to plot in: its query (with the operator settings), the
/// tables computed for it, its project, and the workflow and step it belongs
/// to.
#[derive(Debug, Clone)]
pub struct TaskContext {
    pub cube_query: CubeQuery,
    pub schema_ids: Vec<String>,
    pub project_id: String,
    pub workflow_id: String,
    pub step_id: String,
}

impl TaskContext {
    /// The operator settings of the query.
    pub fn operator_settings(&self) -> (r: Option<&OperatorSettings>)
        ensures
            r == (match self.cube_query.operator_settings {
                Some(s) => Some(&s),
                None => None,
            }),
    {
        self.cube_query.operator_settings.as_ref()
    }

    /// The namespace of the operator settings; empty where there are none.
    pub fn namespace(&self) -> (r: String)
        ensures
            r@ == (match self.cube_query.operator_settings {
                Some(s) => s.namespace@,
                None => Seq::empty(),
            }),
    {
        match &self.cube_query.operator_settings {
            Some(s) => s.namespace.clone(),
            None => String::new(),
        }
    }
}

/// The value of the first environment entry with the given key.
pub open spec fn env_value(env: Seq<EnvPair>, key: Seq<char>) -> Option<Seq<char>>
    decreases env.len(),
{
    if env.len() == 0 {
        None
    } else if env[0].key@ == key {
        Some(env[0].value@)
    } else {
        env_value(env.drop_first(), key)
    }
}

/// The value of the first environment entry with the given key.
pub fn env_lookup(env: &Vec<EnvPair>, key: &str) -> (r: Option<String>)
    ensures
        match r {
            Some(v) => env_value(env@, key@) == Some(v@),
            None => env_value(env@, key@) is None,
        },
{
    let mut i: usize = 0;
    assert(env@.skip(0) =~= env@);
    while i < env.len()
        invariant
            i <= env@.len(),
            env_value(env@, key@) == env_value(env@.skip(i as int), key@),
        decreases env@.len() - i,
    {
        assert(env@.skip(i as int).drop_first() =~= env@.skip(i as int + 1));
        if str_eq(env[i].key.as_str(), key) {
            return Some(env[i].value.clone());
        }
        i = i + 1;
    }
    None
}

/// The kind and body of a task that carries a query.
pub open spec fn query_task(task: ETask) -> Option<(TaskKind, ComputationTask)> {
    match task.object {
        Some(TaskObject::Computationtask(t)) => Some((TaskKind::Computation, t)),
        Some(TaskObject::Runcomputationtask(t)) => Some((TaskKind::RunComputation, t)),
        Some(TaskObject::Cubequerytask(t)) => Some((TaskKind::CubeQuery, t)),
        _ => None,
    }
}

/// A value from the environment, else the fallback, else `default`.
pub open spec fn env_or(
    found: Option<Seq<char>>,
    fallback: Option<String>,
    default: Seq<char>,
) -> Seq<char> {
    match found {
        Some(v) => v,
        None => match fallback {
            Some(f) => f@,
            None => default,
        },
    }
}

fn or_fallback(found: Option<String>, fallback: Option<String>, default: &str) -> (r: String)
    ensures
        r@ == env_or(
            match found {
                Some(v) => Some(v@),
                None => None,
            },
            fallback,
            default@,
        ),
{
    match found {
        Some(v) => v,
        None => match fallback {
            Some(f) => f,
            None => copy_str(default),
        },
    }
}

/// The context a task gives to plot in. The workflow id is the task
/// environment's `workflow.id`, else `workflow_fallback`, else empty; the step
/// id is its `step.id`, else `step_fallback`, else the task id.
pub fn task_context(
    task: ETask,
    task_id: &str,
    workflow_fallback: Option<String>,
    step_fallback: Option<String>,
) -> (r: Result<TaskContext, TaskError>)
    ensures
        match query_task(task) {
            None => r == Err::<TaskContext, TaskError>(TaskError::UnsupportedTaskType),
            Some((kind, t)) => match t.query {
                None => r == Err::<TaskContext, TaskError>(TaskError::NoQuery(kind)),
                Some(q) => r matches Ok(c) && c.cube_query == q && c.schema_ids == t.schema_ids
                    && c.project_id == t.project_id
                    && c.workflow_id@ == env_or(
                    env_value(t.environment@, "workflow.id"@),
                    workflow_fallback,
                    Seq::empty(),
                ) && c.step_id@ == env_or(
                    env_value(t.environment@, "step.id"@),
                    step_fallback,
                    task_id@,
                ),
            },
        },
{
    let (kind, t) = match task.object {
        Some(TaskObject::Computationtask(t)) => (TaskKind::Computation, t),
        Some(TaskObject::Runcomputationtask(t)) => (TaskKind::RunComputation, t),
        Some(TaskObject::Cubequerytask(t)) => (TaskKind::CubeQuery, t),
        _ => {
            return Err(TaskError::UnsupportedTaskType);
        },
    };
    let q = match t.query {
        Some(q) => q,
        None => {
            return Err(TaskError::NoQuery(kind));
        },
    };
    let workflow_id = or_fallback(env_lookup(&t.environment, "workflow.id"), workflow_fallback, "");
    let step_id = or_fallback(env_lookup(&t.environment, "step.id"), step_fallback, task_id);
    proof {
        reveal_strlit("");
    }
    Ok(
        TaskContext {
            cube_query: q,
            schema_ids: t.schema_ids,
            project_id: t.project_id,
            workflow_id,
            step_id,
        },
    )
}

/// What to do once a task has been fetched.
#[derive(Debug, Clone, Copy, PartialEq, Eq, Structural)]
pub enum FetchStep {
    /// The task lists its tables: go on with it.
    Accept,
    /// The task lists no table yet: wait this many milliseconds and fetch it
    /// again.
    Retry(u64),
    /// The task still lists no table after every retry: fail.
    GiveUp,
}

/// How many times an empty fetch is retried.
pub const MAX_FETCH_RETRIES: usize = 3;

/// The wait before retry `k` (from 0): the wait doubles from half a second.
pub open spec fn retry_delay_ms(k: int) -> u64 {
    if k <= 0 {
        500
    } else if k == 1 {
        1000
    } else {
        2000
    }
}

/// What follows a fetch after `retries_done` retries: a task that lists its
/// tables is taken; one that lists none is fetched again after the next wait,
/// until the retries are spent.
pub open spec fn fetch_step_of(retries_done: int, schema_ids_empty: bool) -> FetchStep {
    if !schema_ids_empty {
        FetchStep::Accept
    } else if retries_done < MAX_FETCH_RETRIES {
        FetchStep::Retry(retry_delay_ms(retries_done))
    } else {
        FetchStep::GiveUp
    }
}

/// Decides what follows a fetch of the task, given how many retries were
/// already made and whether the fetched task lists no table.
pub fn next_fetch_step(retries_done: usize, schema_ids_empty: bool) -> (r: FetchStep)
    ensures
        r == fetch_step_of(retries_done as int, schema_ids_empty),
{
    if !schema_ids_empty {
        FetchStep::Accept
    } else if retries_done < MAX_FETCH_RETRIES {
        let delay: u64 = if retries_done == 0 {
            500
        } else if retries_done == 1 {
            1000
        } else {
            2000
        };
        FetchStep::Retry(delay)
    } else {
        FetchStep::GiveUp
    }
}

/// The time waited over the first `retries` retries.
pub open spec fn total_wait_ms(retries: nat) -> int
    decreases retries,
{
    if retries == 0 {
        0
    } else {
        total_wait_ms((retries - 1) as nat) + retry_delay_ms(retries - 1)
    }
}

/// A task that keeps listing no table is fetched four times, with waits of
/// 500, 1000 and 2000 ms, three and a half seconds in all, before the fetch
/// gives up; a task that lists its tables is taken at any fetch.
pub proof fn lemma_fetch_schedule()
    ensures
        forall|k: int| 0 <= k < MAX_FETCH_RETRIES ==> #[trigger] fetch_step_of(k, true)
            == FetchStep::Retry(retry_delay_ms(k)),
        forall|k: int| k >= MAX_FETCH_RETRIES ==> #[trigger] fetch_step_of(k, true)
            == FetchStep::GiveUp,
        forall|k: int| #[trigger] fetch_step_of(k, false) == FetchStep::Accept,
        retry_delay_ms(0) == 500 && retry_delay_ms(1) == 1000 && retry_delay_ms(2) == 2000,
        total_wait_ms(MAX_FETCH_RETRIES as nat) == 3500,
{
    reveal_with_fuel(total_wait_ms, 4);
}

/// The extent of a crosstab table in pixels: its cell size times its row
/// count.
pub open spec fn table_extent(t: CrosstabTable) -> int {
    t.cell_size * t.n_rows
}

/// The extent of the table, where there is one, fits in an `i32`.
pub open spec fn extent_fits(t: Option<CrosstabTable>) -> bool {
    match t {
        Some(t) => i32::MIN <= table_extent(t) <= i32::MAX,
        None => true,
    }
}

fn extent(t: &CrosstabTable) -> (r: i32)
    requires
        i32::MIN <= table_extent(*t) <= i32::MAX,
    ensures
        r == table_extent(*t),
{
    t.cell_size * t.n_rows
}

/// The size in pixels of a crosstab on screen, width then height: the extents
/// of its column and row tables, where it has both and both are positive.
pub fn crosstab_dimensions(model: &Crosstab) -> (r: Option<(i32, i32)>)
    requires
        extent_fits(model.column_table),
        extent_fits(model.row_table),
    ensures
        match (model.column_table, model.row_table) {
            (Some(c), Some(t)) => if table_extent(c) > 0 && table_extent(t) > 0 {
                r == Some((table_extent(c) as i32, table_extent(t) as i32))
            } else {
                r is None
            },
            _ => r is None,
        },
{
    match (&model.column_table, &model.row_table) {
        (Some(c), Some(t)) => {
            let w = extent(c);
            let h = extent(t);
            if w > 0 && h > 0 {
                Some((w, h))
            } else {
                None
            }
        },
        _ => None,
    }
}

/// The id and model of a data or crosstab step.
pub open spec fn crosstab_step(s: EStep) -> Option<(Seq<char>, Option<Crosstab>)> {
    match s.object {
        Some(StepObject::Datastep(ds)) => Some((ds.id@, ds.model)),
        Some(StepObject::Crosstabstep(ds)) => Some((ds.id@, ds.model)),
        _ => None,
    }
}

/// Step `s` is a data or crosstab step with the given id.
pub open spec fn is_crosstab_step_with_id(s: EStep, id: Seq<char>) -> bool {
    crosstab_step(s) matches Some((sid, _)) && sid == id
}

/// Step `i` is the first data or crosstab step with the given id.
pub open spec fn is_first_crosstab_step(steps: Seq<EStep>, id: Seq<char>, i: int) -> bool {
    &&& 0 <= i < steps.len()
    &&& is_crosstab_step_with_id(steps[i], id)
    &&& forall|j: int| 0 <= j < i ==> !is_crosstab_step_with_id(#[trigger] steps[j], id)
}

/// The model of the first data or crosstab step with the given id; none where
/// there is no such step or it has no model.
pub fn step_model<'a>(workflow: &'a Workflow, step_id: &str) -> (r: Option<&'a Crosstab>)
    ensures
        match r {
            Some(m) => exists|i: int|
                is_first_crosstab_step(workflow.steps@, step_id@, i) && (#[trigger] crosstab_step(
                    workflow.steps@[i],
                )) == Some((step_id@, Some(*m))),
            None => forall|i: int|
                is_first_crosstab_step(workflow.steps@, step_id@, i) ==> (#[trigger] crosstab_step(
                    workflow.steps@[i],
                )) == Some((step_id@, None::<Crosstab>)),
        },
{
    let mut i: usize = 0;
    while i < workflow.steps.len()
        invariant
            i <= workflow.steps@.len(),
            forall|j: int|
                0 <= j < i ==> !is_crosstab_step_with_id(#[trigger] workflow.steps@[j], step_id@),
        decreases workflow.steps@.len() - i,
    {
        let ds = match &workflow.steps[i].object {
            Some(StepObject::Datastep(ds)) => Some(ds),
            Some(StepObject::Crosstabstep(ds)) => Some(ds),
            _ => None,
        };
        match ds {
            Some(ds) => {
                if str_eq(ds.id.as_str(), step_id) {
                    proof {
                        assert(is_first_crosstab_step(workflow.steps@, step_id@, i as int));
                        assert forall|k: int|
                            is_first_crosstab_step(workflow.steps@, step_id@, k) implies k
                            == i by {
                            if k < i {
                                assert(!is_crosstab_step_with_id(workflow.steps@[k], step_id@));
                            } else if k > i {
                                assert(!is_crosstab_step_with_id(
                                    workflow.steps@[i as int],
                                    step_id@,
                                ));
                            }
                        }
                    }
                    return match &ds.model {
                        Some(m) => Some(m),
                        None => None,
                    };
                }
            },
            None => {},
        }
        i = i + 1;
    }
    None
}

/// Step `s` is a data step with the given id and a model.
pub open spec fn is_data_step_to_retarget(s: EStep, id: Seq<char>) -> bool {
    s.object matches Some(StepObject::Datastep(ds)) && ds.id@ == id && ds.model is Some
}

/// `new` is `old` with, where `old` is a data step with the given id and a
/// model, the model's task id set to `task_id`.
pub open spec fn retargeted(old: EStep, new: EStep, id: Seq<char>, task_id: Seq<char>) -> bool {
    if is_data_step_to_retarget(old, id) {
        match (old.object, new.object) {
            (Some(StepObject::Datastep(ods)), Some(StepObject::Datastep(nds))) => match (
                ods.model,
                nds.model,
            ) {
                (Some(om), Some(nm)) => nm.task_id@ == task_id && nm == Crosstab {
                    task_id: nm.task_id,
                    ..om
                } && nds == DataStep { model: Some(nm), ..ods },
                _ => false,
            },
            _ => false,
        }
    } else {
        new == old
    }
}

/// Setting a step's task id is read back: the data step keeps its id and its
/// model now names the new task.
pub proof fn lemma_retarget_reads_back(old: EStep, new: EStep, id: Seq<char>, task_id: Seq<char>)
    requires
        retargeted(old, new, id, task_id),
        is_data_step_to_retarget(old, id),
    ensures
        new.object matches Some(StepObject::Datastep(ds)) && ds.id@ == id && (ds.model matches Some(
            m,
        ) && m.task_id@ == task_id),
{
}

fn retarget_step(step: EStep, step_id: &str, task_id: &str) -> (r: (EStep, bool))
    ensures
        retargeted(step, r.0, step_id@, task_id@),
        r.1 == is_data_step_to_retarget(step, step_id@),
{
    match step.object {
        Some(StepObject::Datastep(ds)) => {
            if str_eq(ds.id.as_str(), step_id) {
                let DataStep { id, name, inputs, model } = ds;
                match model {
                    Some(m) => {
                        let nm = Crosstab { task_id: copy_str(task_id), ..m };
                        (
                            EStep {
                                object: Some(
                                    StepObject::Datastep(DataStep { id, name, inputs, model: Some(nm) }),
                                ),
                            },
                            true,
                        )
                    },
                    None => (
                        EStep {
                            object: Some(
                                StepObject::Datastep(DataStep { id, name, inputs, model: None }),
                            ),
                        },
                        false,
                    ),
                }
            } else {
                (EStep { object: Some(StepObject::Datastep(ds)) }, false)
            }
        },
        other => (EStep { object: other }, false),
    }
}

/// Sets the task id of the model of every data step with the given id; says
/// whether there was such a step with a model. Nothing else changes.
pub fn set_step_task_id(workflow: &mut Workflow, step_id: &str, task_id: &str) -> (found: bool)
    ensures
        final(workflow).name == old(workflow).name,
        final(workflow).project_id == old(workflow).project_id,
        final(workflow).links == old(workflow).links,
        final(workflow).steps@.len() == old(workflow).steps@.len(),
        forall|i: int|
            0 <= i < old(workflow).steps@.len() ==> retargeted(
                #[trigger] old(workflow).steps@[i],
                final(workflow).steps@[i],
                step_id@,
                task_id@,
            ),
        found == exists|i: int|
            0 <= i < old(workflow).steps@.len() && is_data_step_to_retarget(
                #[trigger] old(workflow).steps@[i],
                step_id@,
            ),
{
    let ghost all = workflow.steps@;
    let mut rest: Vec<EStep> = Vec::new();
    std::mem::swap(&mut rest, &mut workflow.steps);
    assert(rest@ == all);
    let mut out: Vec<EStep> = Vec::new();
    let mut found = false;
    let n = rest.len();
    let mut i: usize = 0;
    assert(all.skip(0) =~= all);
    while i < n
        invariant
            n == all.len(),
            i <= n,
            rest@ == all.skip(i as int),
            out@.len() == i,
            forall|k: int|
                0 <= k < i ==> retargeted(#[trigger] all[k], out@[k], step_id@, task_id@),
            found == exists|k: int|
                0 <= k < i && is_data_step_to_retarget(#[trigger] all[k], step_id@),
        decreases n - i,
    {
        let step = rest.remove(0);
        assert(step == all[i as int]);
        assert(rest@ =~= all.skip(i as int + 1));
        let (new_step, hit) = retarget_step(step, step_id, task_id);
        out.push(new_step);
        found = found || hit;
        i = i + 1;
    }
    workflow.steps = out;
    found
}

/// The type name of a kind of task.
pub open spec fn task_type_name(t: TaskObject) -> Seq<char> {
    match t {
        TaskObject::Computationtask(_) => "ComputationTask"@,
        TaskObject::Runcomputationtask(_) => "RunComputationTask"@,
        TaskObject::Cubequerytask(_) => "CubeQueryTask"@,
        TaskObject::Other(name) => name@,
    }
}

/// Why the result of an operator cannot be attached to its task.
#[derive(Debug, Clone, PartialEq, Eq)]
pub enum FileResultError {
    /// The task has no object.
    NoObject,
    /// The task is not a run computation task; its type name.
    NotRunComputationTask(String),
}

/// Attaches the result table `file_id` to a run computation task (operators
/// always run as one); any other task is left unchanged and refused.
pub fn set_file_result_id(task: &mut ETask, file_id: &str) -> (r: Result<(), FileResultError>)
    ensures
        match old(task).object {
            None => r == Err::<(), FileResultError>(FileResultError::NoObject) && *final(task)
                == *old(task),
            Some(TaskObject::Runcomputationtask(t)) => r is Ok && (final(task).object matches Some(TaskObject::Runcomputationtask(nt))
                && nt == (ComputationTask { file_result_id: nt.file_result_id, ..t })
                && nt.file_result_id@ == file_id@),
            Some(other) => r matches Err(FileResultError::NotRunComputationTask(name)) && name@
                == task_type_name(other) && *final(task) == *old(task),
        },
{
    let object = task.object.take();
    match object {
        None => {
            task.object = None;
            Err(FileResultError::NoObject)
        },
        Some(TaskObject::Runcomputationtask(t)) => {
            let t2 = ComputationTask { file_result_id: copy_str(file_id), ..t };
            task.object = Some(TaskObject::Runcomputationtask(t2));
            Ok(())
        },
        Some(other) => {
            let name = match &other {
                TaskObject::Computationtask(_) => copy_str("ComputationTask"),
                TaskObject::Runcomputationtask(_) => copy_str("RunComputationTask"),
                TaskObject::Cubequerytask(_) => copy_str("CubeQueryTask"),
                TaskObject::Other(n) => n.clone(),
            };
            task.object = Some(other);
            Err(FileResultError::NotRunComputationTask(name))
        },
    }
}

/// Where the query of a data step comes from when plotting it outside a
/// task: from the cube query task recorded on its model, or, where none is
/// recorded, from the workflow service's cube query for the step.
#[derive(Debug, Clone, PartialEq, Eq)]
pub enum QuerySource {
    FromTask(String),
    FromWorkflow,
}

/// The source of a data step's query: the task id of its model where it is
/// not empty.
pub fn query_source(step: &DataStep) -> (r: QuerySource)
    ensures
        match step.model {
            Some(m) => if m.task_id@.len() > 0 {
                r matches QuerySource::FromTask(id) && id@ == m.task_id@
            } else {
                r == QuerySource::FromWorkflow
            },
            None => r == QuerySource::FromWorkflow,
        },
{
    match &step.model {
        Some(m) => {
            if !m.task_id.as_str().is_empty() {
                QuerySource::FromTask(m.task_id.clone())
            } else {
                QuerySource::FromWorkflow
            }
        },
        None => QuerySource::FromWorkflow,
    }
}

/// The query of a task, with the tables computed for it and its project.
#[derive(Debug, Clone)]
pub struct TaskQuery {
    pub cube_query: CubeQuery,
    pub schema_ids: Vec<String>,
    pub project_id: String,
}

/// The query, tables and project of a task that carries a query.
pub fn task_query(task: ETask) -> (r: Result<TaskQuery, TaskError>)
    ensures
        match query_task(task) {
            None => r == Err::<TaskQuery, TaskError>(TaskError::UnsupportedTaskType),
            Some((kind, t)) => match t.query {
                None => r == Err::<TaskQuery, TaskError>(TaskError::NoQuery(kind)),
                Some(q) => r matches Ok(c) && c.cube_query == q && c.schema_ids == t.schema_ids
                    && c.project_id == t.project_id,
            },
        },
{
    let (kind, t) = match task.object {
        Some(TaskObject::Computationtask(t)) => (TaskKind::Computation, t),
        Some(TaskObject::Runcomputationtask(t)) => (TaskKind::RunComputation, t),
        Some(TaskObject::Cubequerytask(t)) => (TaskKind::CubeQuery, t),
        _ => {
            return Err(TaskError::UnsupportedTaskType);
        },
    };
    match t.query {
        Some(q) => Ok(TaskQuery { cube_query: q, schema_ids: t.schema_ids, project_id: t.project_id }),
        None => Err(TaskError::NoQuery(kind)),
    }
}

} // verus!
