use ggrs_plot_operator::config::{
    legend_room, legend_room_lowercase, plot_size, HeatmapCellAggregation, LegendSide,
    PlotDimension, PngCompression, RenderTarget, ThemeName,
};

#[test]
fn heatmap_aggregation_names() {
    assert_eq!(HeatmapCellAggregation::parse("mean"), HeatmapCellAggregation::Mean);
    assert_eq!(HeatmapCellAggregation::parse("MEDIAN"), HeatmapCellAggregation::Median);
    assert_eq!(HeatmapCellAggregation::parse("First"), HeatmapCellAggregation::First);
    assert_eq!(HeatmapCellAggregation::parse("last"), HeatmapCellAggregation::Last);
    assert_eq!(HeatmapCellAggregation::parse("bogus"), HeatmapCellAggregation::Last);
    assert_eq!(HeatmapCellAggregation::default(), HeatmapCellAggregation::Last);
    assert_eq!(HeatmapCellAggregation::from_lowercase("Mean"), HeatmapCellAggregation::Last);
}

#[test]
fn legend_sides() {
    assert_eq!(LegendSide::from_name("Left"), LegendSide::Left);
    assert_eq!(LegendSide::from_name("top"), LegendSide::Top);
    assert_eq!(LegendSide::from_name("bottom"), LegendSide::Bottom);
    assert_eq!(LegendSide::from_name("inside"), LegendSide::Inside);
    assert_eq!(LegendSide::from_name("none"), LegendSide::Hidden);
    assert_eq!(LegendSide::from_name("elsewhere"), LegendSide::Right);
    assert_eq!(LegendSide::from_lowercase("right"), LegendSide::Right);
}

#[test]
fn legend_room_by_position() {
    assert_eq!(legend_room("right"), (150, 0));
    assert_eq!(legend_room("LEFT"), (150, 0));
    assert_eq!(legend_room("top"), (0, 100));
    assert_eq!(legend_room("Bottom"), (0, 100));
    assert_eq!(legend_room("inside"), (0, 0));
    assert_eq!(legend_room("none"), (0, 0));
    assert_eq!(legend_room_lowercase("whatever"), (0, 0));
}

#[test]
fn plot_dimensions() {
    let fb = PlotDimension::Auto;
    assert_eq!(PlotDimension::from_str("", PlotDimension::Pixels(500)), PlotDimension::Auto);
    assert_eq!(PlotDimension::from_str("auto", PlotDimension::Pixels(500)), PlotDimension::Auto);
    assert_eq!(PlotDimension::from_str("800", fb), PlotDimension::Pixels(800));
    assert_eq!(PlotDimension::from_str("+100", fb), PlotDimension::Pixels(100));
    assert_eq!(PlotDimension::from_str("10000", fb), PlotDimension::Pixels(10000));
    assert_eq!(PlotDimension::from_str("99", PlotDimension::Pixels(600)), PlotDimension::Pixels(600));
    assert_eq!(PlotDimension::from_str("10001", fb), PlotDimension::Auto);
    assert_eq!(PlotDimension::from_str("wide", PlotDimension::Pixels(600)), PlotDimension::Pixels(600));
    assert_eq!(PlotDimension::from_str("-200", PlotDimension::Pixels(600)), PlotDimension::Pixels(600));
}

#[test]
fn plot_size_from_crosstab_or_grid() {
    // Crosstab size with automatic dimensions, plus legend room.
    assert_eq!(
        plot_size((150, 0), PlotDimension::Auto, PlotDimension::Auto, Some((400, 300)), (1, 1)),
        (550, 300)
    );
    // A fixed width overrides the crosstab width.
    assert_eq!(
        plot_size((0, 100), PlotDimension::Pixels(900), PlotDimension::Auto, Some((400, 300)), (1, 1)),
        (900, 400)
    );
    // Without a crosstab size, the grid size is used.
    assert_eq!(
        plot_size((150, 0), PlotDimension::Pixels(900), PlotDimension::Auto, None, (600, 500)),
        (750, 500)
    );
}

#[test]
fn themes_by_name() {
    assert_eq!(ThemeName::from_name("BW"), ThemeName::Bw);
    assert_eq!(ThemeName::from_name("minimal"), ThemeName::Minimal);
    assert_eq!(ThemeName::from_name("linedraw"), ThemeName::Linedraw);
    assert_eq!(ThemeName::from_name("light"), ThemeName::Light);
    assert_eq!(ThemeName::from_name("dark"), ThemeName::Dark);
    assert_eq!(ThemeName::from_name("classic"), ThemeName::Classic);
    assert_eq!(ThemeName::from_name("void"), ThemeName::Void);
    assert_eq!(ThemeName::from_name("gray"), ThemeName::Gray);
    assert_eq!(ThemeName::from_name("fancy"), ThemeName::Gray);
}

#[test]
fn png_compression_levels() {
    assert_eq!(PngCompression::from_name("fast"), PngCompression::Fast);
    assert_eq!(PngCompression::from_name("BEST"), PngCompression::Best);
    assert_eq!(PngCompression::from_name("default"), PngCompression::Default);
    assert_eq!(PngCompression::from_name("ultra"), PngCompression::Default);
}

#[test]
fn render_targets() {
    assert_eq!(RenderTarget::select("svg", "gpu"), RenderTarget::Svg);
    assert_eq!(RenderTarget::select("hsvg", "cpu"), RenderTarget::HybridSvg);
    assert_eq!(RenderTarget::select("png", "gpu"), RenderTarget::GpuPng);
    assert_eq!(RenderTarget::select("png", "cpu"), RenderTarget::CpuPng);
    assert_eq!(RenderTarget::select("", "GPU"), RenderTarget::CpuPng);
}

use ggrs_plot_operator::config::{plot_settings, ui_point_size, CHUNK_SIZE};
use ggrs_plot_operator::properties::{
    OperatorPropertyReader, OperatorRef, OperatorSettings, PropertyValue,
};

fn settings(values: Vec<(&str, &str)>) -> OperatorSettings {
    OperatorSettings {
        namespace: "ns".to_string(),
        operator_ref: Some(OperatorRef {
            property_values: values
                .into_iter()
                .map(|(n, v)| PropertyValue { name: n.to_string(), value: v.to_string() })
                .collect(),
        }),
    }
}

#[test]
fn default_plot_settings() {
    let s = plot_settings(&OperatorPropertyReader::new(None));
    assert_eq!(s.chunk_size, CHUNK_SIZE);
    assert_eq!(s.chunk_size, 10000);
    assert_eq!(s.theme, "gray");
    assert_eq!(s.plot_width, PlotDimension::Auto);
    assert_eq!(s.plot_height, PlotDimension::Auto);
    assert_eq!(s.backend, "cpu");
    assert_eq!(s.legend_position, "right");
    assert_eq!(s.png_compression, "fast");
    assert_eq!(s.plot_title, None);
    assert_eq!(s.plot_title_position, "top");
    assert_eq!(s.x_axis_label, None);
    assert_eq!(s.heatmap_cell_aggregation, HeatmapCellAggregation::Last);
}

#[test]
fn user_plot_settings() {
    let o = settings(vec![
        ("theme", "BW"),
        ("plot.width", "1200"),
        ("plot.height", "50"),
        ("legend.position", "bottom"),
        ("plot.title", "Title"),
        ("axis.y.label", "value"),
        ("heatmap.cell.aggregation", "Median"),
        ("backend", "quantum"),
    ]);
    let s = plot_settings(&OperatorPropertyReader::new(Some(&o)));
    assert_eq!(s.theme, "BW");
    assert_eq!(s.plot_width, PlotDimension::Pixels(1200));
    assert_eq!(s.plot_height, PlotDimension::Auto);
    assert_eq!(s.legend_position, "bottom");
    assert_eq!(s.plot_title, Some("Title".to_string()));
    assert_eq!(s.y_axis_label, Some("value".to_string()));
    assert_eq!(s.heatmap_cell_aggregation, HeatmapCellAggregation::Median);
    assert_eq!(s.backend, "cpu");
}

#[test]
fn crosstab_point_size_scale() {
    assert_eq!(ui_point_size(None), 4);
    assert_eq!(ui_point_size(Some(7)), 7);
    assert_eq!(ui_point_size(Some(0)), 1);
    assert_eq!(ui_point_size(Some(25)), 10);
}

#[test]
fn written_pixel_sizes_are_read_back() {
    for n in (100..=10000).step_by(99) {
        let text = ggrs_plot_operator::text::decimal_string(n as usize);
        assert_eq!(PlotDimension::from_str(&text, PlotDimension::Auto), PlotDimension::Pixels(n));
    }
    assert_eq!(PlotDimension::from_str("10000", PlotDimension::Auto), PlotDimension::Pixels(10000));
}

#[test]
fn dimension_resolves_from_facet_count() {
    assert_eq!(PlotDimension::Pixels(800).resolve(5), 800);
    assert_eq!(PlotDimension::Auto.resolve(3), 1200);
    assert_eq!(PlotDimension::Auto.resolve(1), 400);
    assert_eq!(PlotDimension::Auto.resolve(0), 400);
}
