use ggrs_plot_operator::config::HeatmapCellAggregation;
use ggrs_plot_operator::facets::{FacetInfo, FacetMetadata};
use ggrs_plot_operator::stream::{
    bulk_stream_columns, contains_name, generic_level_labels, heatmap_stream_columns,
    legend_title, range_cells, x_range_columns, x_range_targets, y_range_columns, AxisTableError, ColorFactor,
    FacetGrid, FacetLayout, TercenStreamConfig,
};

fn strings(v: &[&str]) -> Vec<String> {
    v.iter().map(|s| s.to_string()).collect()
}

fn factor(name: &str, categorical: bool) -> ColorFactor {
    ColorFactor { name: name.to_string(), categorical }
}

#[test]
fn stream_config_builders() {
    let config: TercenStreamConfig<ColorFactor, u8> =
        TercenStreamConfig::new("qt".to_string(), "col".to_string(), "row".to_string(), 1000);
    assert_eq!(config.main_table_id, "qt");
    assert_eq!(config.chunk_size, 1000);
    assert!(config.y_axis_table_id.is_none());
    assert_eq!(config.heatmap_cell_aggregation, HeatmapCellAggregation::Last);
    let config = config
        .y_axis_table(Some("y".to_string()))
        .x_axis_table(Some("x".to_string()))
        .colors(vec![factor("Age", false)])
        .page_factors(strings(&["sex"]))
        .schema_cache(Some(7))
        .heatmap_cell_aggregation(HeatmapCellAggregation::Mean);
    assert_eq!(config.y_axis_table_id, Some("y".to_string()));
    assert_eq!(config.x_axis_table_id, Some("x".to_string()));
    assert_eq!(config.color_infos.len(), 1);
    assert_eq!(config.page_factors, strings(&["sex"]));
    assert_eq!(config.schema_cache, Some(7));
    assert_eq!(config.heatmap_cell_aggregation, HeatmapCellAggregation::Mean);
    assert_eq!(config.row_facet_table_id, "row");
}

#[test]
fn bulk_columns_add_color_levels_once() {
    let colors = vec![factor("sex", true), factor("Age", false), factor("group", true)];
    assert_eq!(
        bulk_stream_columns(&colors),
        strings(&[".ci", ".ri", ".xs", ".ys", ".colorLevels", "Age"])
    );
    assert_eq!(bulk_stream_columns(&vec![]), strings(&[".ci", ".ri", ".xs", ".ys"]));
    assert_eq!(heatmap_stream_columns(&colors), strings(&[".ci", ".ri", ".colorLevels", "Age"]));
}

#[test]
fn y_range_columns_depend_on_the_table() {
    assert_eq!(y_range_columns(&strings(&[".minY", ".maxY"])), strings(&[".minY", ".maxY"]));
    assert_eq!(
        y_range_columns(&strings(&[".maxX", ".ci", ".ri", ".minX"])),
        strings(&[".minY", ".maxY", ".ri", ".ci", ".minX", ".maxX"])
    );
    assert!(contains_name(&strings(&["a", "b"]), "b"));
    assert!(!contains_name(&strings(&["a", "b"]), "c"));
}

#[test]
fn x_range_columns_need_both_bounds() {
    assert_eq!(x_range_columns(&strings(&[".minX", ".maxX"])), Ok(strings(&[".minX", ".maxX"])));
    assert_eq!(
        x_range_columns(&strings(&[".ci", ".maxX", ".minX"])),
        Ok(strings(&[".minX", ".maxX", ".ci"]))
    );
    assert_eq!(x_range_columns(&strings(&[".minX"])), Err(AxisTableError::MissingXRange));
}

#[test]
fn range_rows_cover_cells() {
    assert_eq!(range_cells(true, true, 2, 1, 3, 4), vec![(2, 1)]);
    let per_row = range_cells(false, true, 0, 1, 3, 4);
    assert_eq!(per_row, vec![(0, 1), (1, 1), (2, 1)]);
    let per_col = range_cells(true, false, 2, 0, 3, 2);
    assert_eq!(per_col, vec![(2, 0), (2, 1)]);
    let global = range_cells(false, false, 0, 0, 2, 2);
    assert_eq!(global, vec![(0, 0), (0, 1), (1, 0), (1, 1)]);
}

fn meta(n: usize, cols: &[&str]) -> FacetMetadata {
    let mut m = FacetMetadata::index_labelled(n);
    m.column_names = strings(cols);
    m
}

#[test]
fn facet_layouts() {
    let grid = FacetInfo { col_facets: meta(2, &["", "sex"]), row_facets: meta(3, &[]) };
    match FacetLayout::for_facets(&grid) {
        FacetLayout::Grid { row_var, col_var } => {
            assert_eq!(row_var, ".ri");
            assert_eq!(col_var, "sex");
        }
        other => panic!("unexpected layout {:?}", other),
    }
    let rows = FacetInfo { col_facets: meta(0, &[]), row_facets: meta(3, &["group"]) };
    assert!(matches!(FacetLayout::for_facets(&rows), FacetLayout::Rows { row_var } if row_var == "group"));
    let cols = FacetInfo { col_facets: meta(2, &[]), row_facets: meta(0, &[]) };
    assert!(matches!(FacetLayout::for_facets(&cols), FacetLayout::Cols { col_var } if col_var == ".ci"));
    let single = FacetInfo { col_facets: meta(0, &[]), row_facets: meta(0, &[]) };
    assert!(matches!(FacetLayout::for_facets(&single), FacetLayout::Single));
    assert!(matches!(FacetLayout::by_index(&rows), FacetLayout::Rows { row_var } if row_var == ".ri"));
}

#[test]
fn heatmap_grid_is_one_panel() {
    let info = FacetInfo { col_facets: meta(3, &[]), row_facets: meta(2, &[]) };
    let mut grid = FacetGrid::new(info, 500);
    assert_eq!(grid.n_col_facets(), 3);
    assert_eq!(grid.n_row_facets(), 2);
    assert_eq!(grid.n_total_data_rows(), 500);
    assert_eq!(grid.heatmap_x_labels(), None);
    assert_eq!(grid.sizing_dims(), (3, 2));
    let (c, r) = grid.original_grid_dims();
    grid.set_heatmap_mode(c, r);
    assert_eq!(grid.heatmap_dims(), Some((3, 2)));
    assert_eq!(grid.n_col_facets(), 1);
    assert_eq!(grid.n_row_facets(), 1);
    assert_eq!(grid.n_total_data_rows(), 6);
    assert_eq!(grid.sizing_dims(), (3, 2));
    assert_eq!(grid.heatmap_x_labels(), Some(strings(&["0", "1", "2"])));
    assert_eq!(grid.heatmap_y_labels(), Some(strings(&["0", "1"])));
    assert_eq!(grid.heatmap_x_categories(), Some(strings(&["0", "1", "2"])));
    grid.set_heatmap_mode(4, 2);
    assert_eq!(grid.heatmap_x_categories(), None);
    assert_eq!(grid.heatmap_y_categories(), Some(strings(&["0", "1"])));
}

#[test]
fn legend_titles_and_level_labels() {
    assert_eq!(legend_title(&vec![factor("Age", false)]), "Age");
    assert_eq!(
        legend_title(&vec![factor("Age", false), factor("sex", true), factor("group", true)]),
        "sex, group"
    );
    assert_eq!(generic_level_labels(3), strings(&["Level 0", "Level 1", "Level 2"]));
    assert!(generic_level_labels(0).is_empty());
}

#[test]
fn x_range_targets_follow_original_indices() {
    let mut cols = meta(3, &[]);
    cols.groups[1].index = 7;
    let mut rows = meta(2, &[]);
    rows.groups[0].index = 4;
    rows.groups[1].index = 9;
    let info = FacetInfo { col_facets: cols, row_facets: rows };
    assert_eq!(x_range_targets(1, &info), Some(vec![(7, 4), (7, 9)]));
    assert_eq!(x_range_targets(0, &info), Some(vec![(0, 4), (0, 9)]));
    assert_eq!(x_range_targets(3, &info), None);
}

#[test]
fn heatmap_color_levels_follow_the_first_categorical_factor() {
    let colors = vec![factor(".colorLevels", false), factor("group", true), factor("sex", true)];
    assert_eq!(
        heatmap_stream_columns(&colors),
        strings(&[".ci", ".ri", ".colorLevels", ".colorLevels"])
    );
    assert_eq!(
        bulk_stream_columns(&colors),
        strings(&[".ci", ".ri", ".xs", ".ys", ".colorLevels"])
    );
}
