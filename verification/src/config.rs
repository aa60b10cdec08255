//! Plot configuration decisions: how heatmap cells are aggregated, which
//! theme and legend placement a name selects, and the plot size in pixels.

use crate::properties::{enum_value, string_value, OperatorPropertyReader};
use crate::text::{lowercase_of, str_eq, to_lowercase};
use vstd::prelude::*;

verus! {

/// How to aggregate multiple data points in the same heatmap cell.
#[derive(Debug, Clone, Copy, PartialEq, Eq, Structural)]
pub enum HeatmapCellAggregation {
    /// Use the last data point (the overdraw behavior of the plotting host)
    Last,
    /// Use the first data point
    First,
    /// Compute the mean of all data points
    Mean,
    /// Compute the median of all data points
    Median,
}

impl Default for HeatmapCellAggregation {
    fn default() -> (r: Self)
        ensures
            r == HeatmapCellAggregation::Last,
    {
        HeatmapCellAggregation::Last
    }
}

/// The aggregation that a lower-case name selects; any name other than
/// `first`, `mean` and `median` selects `Last`.
pub open spec fn aggregation_named(lower: Seq<char>) -> HeatmapCellAggregation {
    if lower == "first"@ {
        HeatmapCellAggregation::First
    } else if lower == "mean"@ {
        HeatmapCellAggregation::Mean
    } else if lower == "median"@ {
        HeatmapCellAggregation::Median
    } else {
        HeatmapCellAggregation::Last
    }
}

impl HeatmapCellAggregation {
    /// Parses a property value, ignoring case; an unknown value gives `Last`.
    pub fn parse(s: &str) -> (r: Self)
        ensures
            r == aggregation_named(lowercase_of(s@)),
    {
        let lower = to_lowercase(s);
        Self::from_lowercase(lower.as_str())
    }

    /// The aggregation named by an already lower-cased value.
    pub fn from_lowercase(lower: &str) -> (r: Self)
        ensures
            r == aggregation_named(lower@),
    {
        if str_eq(lower, "first") {
            HeatmapCellAggregation::First
        } else if str_eq(lower, "mean") {
            HeatmapCellAggregation::Mean
        } else if str_eq(lower, "median") {
            HeatmapCellAggregation::Median
        } else {
            HeatmapCellAggregation::Last
        }
    }
}

/// Where the legend goes.
#[derive(Debug, Clone, Copy, PartialEq, Eq, Structural)]
pub enum LegendSide {
    Left,
    Right,
    Top,
    Bottom,
    Inside,
    /// No legend.
    Hidden,
}

/// The legend side that a lower-case name selects; an unknown name selects
/// the right side.
pub open spec fn legend_side_named(lower: Seq<char>) -> LegendSide {
    if lower == "left"@ {
        LegendSide::Left
    } else if lower == "right"@ {
        LegendSide::Right
    } else if lower == "top"@ {
        LegendSide::Top
    } else if lower == "bottom"@ {
        LegendSide::Bottom
    } else if lower == "inside"@ {
        LegendSide::Inside
    } else if lower == "none"@ {
        LegendSide::Hidden
    } else {
        LegendSide::Right
    }
}

impl LegendSide {
    /// The legend side of a `legend.position` value, ignoring case.
    pub fn from_name(s: &str) -> (r: Self)
        ensures
            r == legend_side_named(lowercase_of(s@)),
    {
        let lower = to_lowercase(s);
        Self::from_lowercase(lower.as_str())
    }

    /// The legend side of an already lower-cased value.
    pub fn from_lowercase(lower: &str) -> (r: Self)
        ensures
            r == legend_side_named(lower@),
    {
        if str_eq(lower, "left") {
            LegendSide::Left
        } else if str_eq(lower, "right") {
            LegendSide::Right
        } else if str_eq(lower, "top") {
            LegendSide::Top
        } else if str_eq(lower, "bottom") {
            LegendSide::Bottom
        } else if str_eq(lower, "inside") {
            LegendSide::Inside
        } else if str_eq(lower, "none") {
            LegendSide::Hidden
        } else {
            LegendSide::Right
        }
    }
}

/// The extra room a legend takes, by lower-case position name: 150 pixels
/// of width at the left or right, 100 pixels of height at the top or bottom,
/// none for any other name (inside, none, or unknown).
pub open spec fn legend_room_named(lower: Seq<char>) -> (i32, i32) {
    if lower == "left"@ || lower == "right"@ {
        (150, 0)
    } else if lower == "top"@ || lower == "bottom"@ {
        (0, 100)
    } else {
        (0, 0)
    }
}

/// The extra room the legend takes for a `legend.position` value, ignoring
/// case.
pub fn legend_room(position: &str) -> (r: (i32, i32))
    ensures
        r == legend_room_named(lowercase_of(position@)),
{
    let lower = to_lowercase(position);
    legend_room_lowercase(lower.as_str())
}

/// The extra room the legend takes for an already lower-cased position.
pub fn legend_room_lowercase(lower: &str) -> (r: (i32, i32))
    ensures
        r == legend_room_named(lower@),
{
    if str_eq(lower, "left") || str_eq(lower, "right") {
        (150, 0)
    } else if str_eq(lower, "top") || str_eq(lower, "bottom") {
        (0, 100)
    } else {
        (0, 0)
    }
}

/// A plot dimension: a fixed number of pixels, or derived automatically.
#[derive(Debug, Clone, Copy, PartialEq, Eq, Structural)]
pub enum PlotDimension {
    Auto,
    Pixels(i32),
}

/// The dimension that a property text gives: empty or `auto` is automatic; a
/// whole number of pixels in [100, 10000] is that size; anything else gives
/// the fallback.
pub open spec fn dimension_of(text: Seq<char>, fallback: PlotDimension) -> PlotDimension {
    if text.len() == 0 || text == "auto"@ {
        PlotDimension::Auto
    } else {
        match crate::text::i32_value(text) {
            Some(v) => if 100 <= v && v <= 10000 {
                PlotDimension::Pixels(v)
            } else {
                fallback
            },
            None => fallback,
        }
    }
}

impl PlotDimension {
    /// Reads a `plot.width` or `plot.height` value.
    pub fn from_str(s: &str, fallback: PlotDimension) -> (r: Self)
        ensures
            r == dimension_of(s@, fallback),
    {
        if s.is_empty() || str_eq(s, "auto") {
            return PlotDimension::Auto;
        }
        match crate::text::parse_i32(s) {
            Some(v) => if 100 <= v && v <= 10000 {
                PlotDimension::Pixels(v)
            } else {
                fallback
            },
            None => fallback,
        }
    }

    /// The size this dimension resolves to for `n_facets` facets along it: the
    /// fixed size, or `AUTO_FACET_PX` per facet, counting at least one facet.
    pub fn resolve(&self, n_facets: usize) -> (r: i32)
        requires
            resolved_size(*self, n_facets as int) <= i32::MAX,
        ensures
            r == resolved_size(*self, n_facets as int),
    {
        match self {
            PlotDimension::Pixels(p) => *p,
            PlotDimension::Auto => {
                let n: i32 = if n_facets == 0 {
                    1
                } else {
                    n_facets as i32
                };
                n * AUTO_FACET_PX
            },
        }
    }
}

/// The size in pixels of one facet of an automatic dimension.
pub const AUTO_FACET_PX: i32 = 400;

/// The size a dimension resolves to for `n` facets along it.
pub open spec fn resolved_size(d: PlotDimension, n: int) -> int {
    match d {
        PlotDimension::Pixels(p) => p as int,
        PlotDimension::Auto => (if n >= 1 {
            n
        } else {
            1
        }) * AUTO_FACET_PX,
    }
}

/// A whole number of pixels within [100, 10000], written in decimal, is read
/// back as that size, whatever the fallback.
pub proof fn lemma_pixels_read_back(n: i32, fallback: PlotDimension)
    requires
        100 <= n <= 10000,
    ensures
        dimension_of(crate::text::decimal(n as nat), fallback) == PlotDimension::Pixels(n),
{
    let d = crate::text::decimal(n as nat);
    crate::text::lemma_decimal_digits(n as nat);
    assert(crate::text::is_digit(d[0]));
    reveal_strlit("auto");
    assert(d != "auto"@) by {
        assert("auto"@[0] == 'a');
    }
    assert(crate::text::unsigned_value(d, 0x7fff_ffff) == Some(n as nat));
}

/// The plot size before the legend: the crosstab size where there is one,
/// each dimension overridden by a fixed pixel size; without a crosstab size,
/// the size derived from the facet grid.
pub open spec fn base_size(
    width: PlotDimension,
    height: PlotDimension,
    crosstab_dims: Option<(i32, i32)>,
    grid_size: (i32, i32),
) -> (int, int) {
    match crosstab_dims {
        Some((w, h)) => (
            match width {
                PlotDimension::Pixels(pw) => pw as int,
                PlotDimension::Auto => w as int,
            },
            match height {
                PlotDimension::Pixels(ph) => ph as int,
                PlotDimension::Auto => h as int,
            },
        ),
        None => (grid_size.0 as int, grid_size.1 as int),
    }
}

/// The plot size in pixels: the base size plus the room of the legend.
pub open spec fn plot_size_spec(
    room: (i32, i32),
    width: PlotDimension,
    height: PlotDimension,
    crosstab_dims: Option<(i32, i32)>,
    grid_size: (i32, i32),
) -> (int, int) {
    let base = base_size(width, height, crosstab_dims, grid_size);
    (base.0 + room.0, base.1 + room.1)
}

/// The plot size keeps what the user fixes: a dimension given in pixels is
/// that many pixels plus the legend's room along it, whatever the crosstab
/// size and the facet grid; an automatic dimension takes the crosstab's
/// extent where there is one, and otherwise the size resolved from the number
/// of facets along it, plus the legend's room.
pub proof fn lemma_plot_size_keeps_fixed_dimensions(
    room: (i32, i32),
    width: PlotDimension,
    height: PlotDimension,
    crosstab_dims: Option<(i32, i32)>,
    n_cols: nat,
    n_rows: nat,
    grid_size: (i32, i32),
)
    requires
        grid_size.0 == resolved_size(width, n_cols as int),
        grid_size.1 == resolved_size(height, n_rows as int),
    ensures
        width matches PlotDimension::Pixels(pw) ==> plot_size_spec(
            room,
            width,
            height,
            crosstab_dims,
            grid_size,
        ).0 == pw + room.0,
        height matches PlotDimension::Pixels(ph) ==> plot_size_spec(
            room,
            width,
            height,
            crosstab_dims,
            grid_size,
        ).1 == ph + room.1,
        width == PlotDimension::Auto ==> plot_size_spec(room, width, height, crosstab_dims, grid_size).0
            == (match crosstab_dims {
            Some((w, h)) => w as int,
            None => (if n_cols >= 1 {
                n_cols as int
            } else {
                1
            }) * AUTO_FACET_PX,
        }) + room.0,
        height == PlotDimension::Auto ==> plot_size_spec(room, width, height, crosstab_dims, grid_size).1
            == (match crosstab_dims {
            Some((w, h)) => h as int,
            None => (if n_rows >= 1 {
                n_rows as int
            } else {
                1
            }) * AUTO_FACET_PX,
        }) + room.1,
{
}

/// Resolves the plot size in pixels. `room` is the room of the legend and
/// `grid_size` the size each dimension resolves to from the facet grid, used
/// where no crosstab size is given.
pub fn plot_size(
    room: (i32, i32),
    width: PlotDimension,
    height: PlotDimension,
    crosstab_dims: Option<(i32, i32)>,
    grid_size: (i32, i32),
) -> (r: (i32, i32))
    requires
        i32::MIN <= plot_size_spec(room, width, height, crosstab_dims, grid_size).0 <= i32::MAX,
        i32::MIN <= plot_size_spec(room, width, height, crosstab_dims, grid_size).1 <= i32::MAX,
    ensures
        r.0 == plot_size_spec(room, width, height, crosstab_dims, grid_size).0,
        r.1 == plot_size_spec(room, width, height, crosstab_dims, grid_size).1,
{
    let (base_width, base_height): (i32, i32) = match crosstab_dims {
        Some((w, h)) => (
            match width {
                PlotDimension::Pixels(pw) => pw,
                PlotDimension::Auto => w,
            },
            match height {
                PlotDimension::Pixels(ph) => ph,
                PlotDimension::Auto => h,
            },
        ),
        None => grid_size,
    };
    (base_width + room.0, base_height + room.1)
}

/// A plot theme.
#[derive(Debug, Clone, Copy, PartialEq, Eq, Structural)]
pub enum ThemeName {
    Gray,
    Bw,
    Linedraw,
    Light,
    Dark,
    Minimal,
    Classic,
    Void,
}

/// The theme that a lower-case name selects; an unknown name selects gray.
pub open spec fn theme_named(lower: Seq<char>) -> ThemeName {
    if lower == "bw"@ {
        ThemeName::Bw
    } else if lower == "linedraw"@ {
        ThemeName::Linedraw
    } else if lower == "light"@ {
        ThemeName::Light
    } else if lower == "dark"@ {
        ThemeName::Dark
    } else if lower == "minimal"@ {
        ThemeName::Minimal
    } else if lower == "classic"@ {
        ThemeName::Classic
    } else if lower == "void"@ {
        ThemeName::Void
    } else {
        ThemeName::Gray
    }
}

impl ThemeName {
    /// The theme of a `theme` value, ignoring case.
    pub fn from_name(s: &str) -> (r: Self)
        ensures
            r == theme_named(lowercase_of(s@)),
    {
        let lower = to_lowercase(s);
        Self::from_lowercase(lower.as_str())
    }

    /// The theme of an already lower-cased value.
    pub fn from_lowercase(lower: &str) -> (r: Self)
        ensures
            r == theme_named(lower@),
    {
        if str_eq(lower, "bw") {
            ThemeName::Bw
        } else if str_eq(lower, "linedraw") {
            ThemeName::Linedraw
        } else if str_eq(lower, "light") {
            ThemeName::Light
        } else if str_eq(lower, "dark") {
            ThemeName::Dark
        } else if str_eq(lower, "minimal") {
            ThemeName::Minimal
        } else if str_eq(lower, "classic") {
            ThemeName::Classic
        } else if str_eq(lower, "void") {
            ThemeName::Void
        } else {
            ThemeName::Gray
        }
    }
}

/// A PNG compression level.
#[derive(Debug, Clone, Copy, PartialEq, Eq, Structural)]
pub enum PngCompression {
    Fast,
    Default,
    Best,
}

/// The compression that a lower-case name selects; an unknown name selects
/// the default level.
pub open spec fn compression_named(lower: Seq<char>) -> PngCompression {
    if lower == "fast"@ {
        PngCompression::Fast
    } else if lower == "best"@ {
        PngCompression::Best
    } else {
        PngCompression::Default
    }
}

impl PngCompression {
    /// The compression of a `png.compression` value, ignoring case.
    pub fn from_name(s: &str) -> (r: Self)
        ensures
            r == compression_named(lowercase_of(s@)),
    {
        let lower = to_lowercase(s);
        Self::from_lowercase(lower.as_str())
    }

    /// The compression of an already lower-cased value.
    pub fn from_lowercase(lower: &str) -> (r: Self)
        ensures
            r == compression_named(lower@),
    {
        if str_eq(lower, "fast") {
            PngCompression::Fast
        } else if str_eq(lower, "best") {
            PngCompression::Best
        } else {
            PngCompression::Default
        }
    }
}

/// A render backend and output format.
#[derive(Debug, Clone, Copy, PartialEq, Eq, Structural)]
pub enum RenderTarget {
    /// Raster output drawn on the CPU.
    CpuPng,
    /// Raster output drawn on the GPU.
    GpuPng,
    /// Vector output.
    Svg,
    /// Vector output with raster data layers.
    HybridSvg,
}

/// The render target that an output format and a backend select: `svg` and
/// `hsvg` formats decide alone; otherwise the `gpu` backend draws on the GPU
/// and any other on the CPU.
pub open spec fn render_target_of(output_format: Seq<char>, backend: Seq<char>) -> RenderTarget {
    if output_format == "svg"@ {
        RenderTarget::Svg
    } else if output_format == "hsvg"@ {
        RenderTarget::HybridSvg
    } else if backend == "gpu"@ {
        RenderTarget::GpuPng
    } else {
        RenderTarget::CpuPng
    }
}

impl RenderTarget {
    /// Chooses the render target for an output format and a backend.
    pub fn select(output_format: &str, backend: &str) -> (r: Self)
        ensures
            r == render_target_of(output_format@, backend@),
    {
        if str_eq(output_format, "svg") {
            RenderTarget::Svg
        } else if str_eq(output_format, "hsvg") {
            RenderTarget::HybridSvg
        } else if str_eq(backend, "gpu") {
            RenderTarget::GpuPng
        } else {
            RenderTarget::CpuPng
        }
    }
}

/// The plot settings that the operator properties give, apart from the
/// numeric ones (sizes, rotations, coordinates).
#[derive(Debug, Clone)]
pub struct PlotSettings {
    /// Rows per streamed chunk; an internal setting, not a property.
    pub chunk_size: usize,
    pub theme: String,
    pub plot_width: PlotDimension,
    pub plot_height: PlotDimension,
    pub backend: String,
    pub legend_position: String,
    pub png_compression: String,
    pub plot_title: Option<String>,
    pub plot_title_position: String,
    pub x_axis_label: Option<String>,
    pub y_axis_label: Option<String>,
    pub heatmap_cell_aggregation: HeatmapCellAggregation,
}

/// Rows per streamed chunk.
pub const CHUNK_SIZE: usize = 10000;

/// An optional text: none where it is empty.
pub open spec fn optional_text(t: Seq<char>) -> Option<Seq<char>> {
    if t.len() == 0 {
        None
    } else {
        Some(t)
    }
}

/// The view of an optional text.
pub open spec fn opt_text(t: Option<String>) -> Option<Seq<char>> {
    match t {
        Some(s) => Some(s@),
        None => None,
    }
}

/// Reads the plot settings: enumerated properties through their validation,
/// dimensions as `plot.width` and `plot.height` texts (automatic where
/// unreadable), and optional texts as none where empty.
pub fn plot_settings(props: &OperatorPropertyReader) -> (r: PlotSettings)
    ensures
        r.chunk_size == CHUNK_SIZE,
        r.theme@ == enum_value(props@, "theme"@),
        r.plot_width == dimension_of(string_value(props@, "plot.width"@), PlotDimension::Auto),
        r.plot_height == dimension_of(string_value(props@, "plot.height"@), PlotDimension::Auto),
        r.backend@ == enum_value(props@, "backend"@),
        r.legend_position@ == enum_value(props@, "legend.position"@),
        r.png_compression@ == enum_value(props@, "png.compression"@),
        opt_text(r.plot_title) == optional_text(string_value(props@, "plot.title"@)),
        r.plot_title_position@ == enum_value(props@, "plot.title.position"@),
        opt_text(r.x_axis_label) == optional_text(string_value(props@, "axis.x.label"@)),
        opt_text(r.y_axis_label) == optional_text(string_value(props@, "axis.y.label"@)),
        r.heatmap_cell_aggregation == aggregation_named(
            lowercase_of(enum_value(props@, "heatmap.cell.aggregation"@)),
        ),
{
    let theme = props.get_enum("theme");
    let width_text = props.get_string("plot.width");
    let plot_width = PlotDimension::from_str(width_text.as_str(), PlotDimension::Auto);
    let height_text = props.get_string("plot.height");
    let plot_height = PlotDimension::from_str(height_text.as_str(), PlotDimension::Auto);
    let backend = props.get_enum("backend");
    let legend_position = props.get_enum("legend.position");
    let png_compression = props.get_enum("png.compression");
    let plot_title = props.get_optional_string("plot.title");
    let plot_title_position = props.get_enum("plot.title.position");
    let x_axis_label = props.get_optional_string("axis.x.label");
    let y_axis_label = props.get_optional_string("axis.y.label");
    let aggregation = props.get_enum("heatmap.cell.aggregation");
    let heatmap_cell_aggregation = HeatmapCellAggregation::parse(aggregation.as_str());
    PlotSettings {
        chunk_size: CHUNK_SIZE,
        theme,
        plot_width,
        plot_height,
        backend,
        legend_position,
        png_compression,
        plot_title,
        plot_title_position,
        x_axis_label,
        y_axis_label,
        heatmap_cell_aggregation,
    }
}

/// The point size the crosstab sets on its 1 to 10 scale: 4 where it sets
/// none, kept within the scale.
pub fn ui_point_size(ui: Option<i32>) -> (r: i32)
    ensures
        r == (match ui {
            None => 4,
            Some(v) => if v < 1 {
                1
            } else if v > 10 {
                10
            } else {
                v
            },
        }),
{
    let v = match ui {
        Some(v) => v,
        None => 4,
    };
    if v < 1 {
        1
    } else if v > 10 {
        10
    } else {
        v
    }
}

} // verus!
