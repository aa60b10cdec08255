use ggrs_plot_operator::colors::{
    combined_label, element_rgb, first_categorical, int_to_rgb, palette_elements,
    share_color_table, step_colors, ColorElement, ColorStepError, EPalette, PaletteError,
    PaletteObject,
};
use ggrs_plot_operator::stream::ColorFactor;
use ggrs_plot_operator::task::{
    AxisList, ColorList, Crosstab, DataStep, EStep, Factor, StepObject, Workflow, XyAxis,
};

#[test]
fn test_int_to_rgb() {
    // White: 0xFFFFFFFF
    assert_eq!(int_to_rgb(-1), [255, 255, 255]);

    // Red: 0x00FF0000
    assert_eq!(int_to_rgb(0x00FF0000u32 as i32), [255, 0, 0]);

    // Green: 0x0000FF00
    assert_eq!(int_to_rgb(0x0000FF00u32 as i32), [0, 255, 0]);

    // Blue: 0x000000FF
    assert_eq!(int_to_rgb(0x000000FFu32 as i32), [0, 0, 255]);

    // Gray: 0x00808080
    assert_eq!(int_to_rgb(0x00808080u32 as i32), [128, 128, 128]);
}

#[test]
fn alpha_byte_does_not_change_the_color() {
    assert_eq!(int_to_rgb(0x7F123456), [0x12, 0x34, 0x56]);
    assert_eq!(int_to_rgb(0x7F123456), int_to_rgb(0x00123456));
    assert_eq!(int_to_rgb(0xFF123456u32 as i32), int_to_rgb(0x00123456));
}

#[test]
fn missing_color_marker_has_no_color() {
    assert_eq!(element_rgb(-1), None);
    assert_eq!(element_rgb(0x00FF0000), Some([255, 0, 0]));
    assert_eq!(element_rgb(0), Some([0, 0, 0]));
}

fn element(v: &str, color: i32) -> ColorElement {
    ColorElement { string_value: v.to_string(), color }
}

#[test]
fn jet_and_ramp_palettes_give_their_stops() {
    let jet = EPalette {
        object: Some(PaletteObject::Jetpalette(vec![element("0", 1), element("10", 2)])),
    };
    let stops = palette_elements(&jet).unwrap();
    assert_eq!(stops.len(), 2);
    assert_eq!(stops[1].string_value, "10");
    let ramp = EPalette { object: Some(PaletteObject::Ramppalette(vec![element("5", 3)])) };
    assert_eq!(palette_elements(&ramp).unwrap()[0].color, 3);
}

#[test]
fn other_palettes_are_refused() {
    let none = EPalette { object: None };
    assert_eq!(palette_elements(&none).unwrap_err(), PaletteError::NoObject);
    let cat = EPalette { object: Some(PaletteObject::Categorypalette) };
    assert_eq!(palette_elements(&cat).unwrap_err(), PaletteError::CategoryPalette);
    let base = EPalette { object: Some(PaletteObject::Palette) };
    assert_eq!(palette_elements(&base).unwrap_err(), PaletteError::BasePalette);
}

#[test]
fn combined_label_joins_present_values() {
    let parts = vec![Some("F".to_string()), None, Some("BD".to_string())];
    assert_eq!(combined_label(&parts), "F, BD");
    assert_eq!(combined_label(&vec![]), "");
    assert_eq!(combined_label(&vec![None]), "");
    assert_eq!(combined_label(&vec![Some("x".to_string())]), "x");
}

fn factor(name: &str, categorical: bool) -> ColorFactor {
    ColorFactor { name: name.to_string(), categorical }
}

#[test]
fn first_categorical_factor_is_found() {
    let colors = vec![factor("a", false), factor("b", true), factor("c", true)];
    assert_eq!(first_categorical(&colors), Some(1));
    assert_eq!(first_categorical(&vec![factor("a", false)]), None);
    assert_eq!(first_categorical(&vec![]), None);
}

#[test]
fn factors_without_table_share_the_first_table() {
    let mut ids = vec![Some("t0".to_string()), None, Some("t2".to_string()), None];
    share_color_table(&mut ids);
    assert_eq!(
        ids,
        vec![
            Some("t0".to_string()),
            Some("t0".to_string()),
            Some("t2".to_string()),
            Some("t0".to_string())
        ]
    );
    let mut unshared = vec![None, Some("t1".to_string())];
    share_color_table(&mut unshared);
    assert_eq!(unshared, vec![None, Some("t1".to_string())]);
    let mut empty: Vec<Option<String>> = vec![];
    share_color_table(&mut empty);
    assert!(empty.is_empty());
}

fn plain_factor(name: &str) -> Factor {
    Factor { name: name.to_string(), factor_type: "double".to_string() }
}

fn layer(colors: Option<ColorList>) -> XyAxis {
    XyAxis {
        chart: None,
        y_axis: None,
        x_axis: None,
        colors,
        labels: None,
        errors: None,
        preprocessors: vec![],
    }
}

fn model(axis: Option<AxisList>) -> Crosstab {
    Crosstab {
        column_table: None,
        row_table: None,
        axis,
        filters: None,
        operator_settings: None,
        task_id: String::new(),
    }
}

fn workflow_with(id: &str, model: Option<Crosstab>) -> Workflow {
    Workflow {
        name: "wf".to_string(),
        project_id: "p".to_string(),
        steps: vec![
            EStep { object: Some(StepObject::Other) },
            EStep {
                object: Some(StepObject::Datastep(DataStep {
                    id: id.to_string(),
                    name: "step".to_string(),
                    inputs: vec![],
                    model,
                })),
            },
        ],
        links: vec![],
    }
}

#[test]
fn step_colors_follow_the_first_layer() {
    let palette = EPalette { object: Some(PaletteObject::Jetpalette(vec![element("0", -1)])) };
    let colors = ColorList { factors: vec![plain_factor("Age")], palette: Some(palette) };
    let wf = workflow_with("s1", Some(model(Some(AxisList { xy_axis: vec![layer(Some(colors))] }))));
    let (factors, palette) = step_colors(&wf, "s1").unwrap().unwrap();
    assert_eq!(factors.len(), 1);
    assert_eq!(factors[0].name, "Age");
    assert!(palette.is_some());
}

#[test]
fn step_colors_errors() {
    let wf = workflow_with("s1", None);
    assert_eq!(
        step_colors(&wf, "other").unwrap_err(),
        ColorStepError::StepNotFound("other".to_string())
    );
    assert_eq!(step_colors(&wf, "s1").unwrap_err(), ColorStepError::NoModel);
    let wf = workflow_with("s1", Some(model(None)));
    assert_eq!(step_colors(&wf, "s1").unwrap_err(), ColorStepError::NoAxis);
    let wf = workflow_with("s1", Some(model(Some(AxisList { xy_axis: vec![] }))));
    assert_eq!(step_colors(&wf, "s1").unwrap_err(), ColorStepError::NoXyAxis);
    let colors = ColorList { factors: vec![plain_factor("Age")], palette: None };
    let wf = workflow_with("s1", Some(model(Some(AxisList { xy_axis: vec![layer(Some(colors))] }))));
    assert_eq!(step_colors(&wf, "s1").unwrap_err(), ColorStepError::NoPalette);
}

#[test]
fn step_without_colors_has_none() {
    let wf = workflow_with("s1", Some(model(Some(AxisList { xy_axis: vec![layer(None)] }))));
    assert!(step_colors(&wf, "s1").unwrap().is_none());
    let empty = ColorList { factors: vec![], palette: None };
    let wf = workflow_with("s1", Some(model(Some(AxisList { xy_axis: vec![layer(Some(empty))] }))));
    let (factors, palette) = step_colors(&wf, "s1").unwrap().unwrap();
    assert!(factors.is_empty());
    assert!(palette.is_none());
}

use ggrs_plot_operator::colors::{category_colors, MISSING_VALUE_COLOR};

#[test]
fn category_colors_by_name() {
    let mappings = vec![
        ("F".to_string(), [255, 0, 0]),
        ("M".to_string(), [0, 0, 255]),
        ("F".to_string(), [250, 1, 1]),
    ];
    let values = vec![Some("M".to_string()), Some("F".to_string()), Some("X".to_string()), None];
    assert_eq!(
        category_colors(&mappings, [1, 2, 3], &values),
        vec![[0, 0, 255], [250, 1, 1], [1, 2, 3], [128, 128, 128]]
    );
    assert_eq!(MISSING_VALUE_COLOR, [128, 128, 128]);
    assert!(category_colors(&vec![], [0, 0, 0], &vec![]).is_empty());
}
