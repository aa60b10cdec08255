//! Colors of a layer: decoding color integers, the palette a layer is
//! colored with, and where a step keeps its color factors.

use crate::task::{DataStep, EStep, Factor, StepObject, Workflow};
use crate::lookup::pairs_map;
use crate::stream::ColorFactor;
use crate::text::{join, joined, str_eq, views};
use vstd::prelude::*;

verus! {

/// The unsigned 32-bit reading of a color integer (two's complement).
pub open spec fn color_bits(color_int: i32) -> int {
    if color_int < 0 { color_int + 0x1_0000_0000 } else { color_int as int }
}

/// The (red, green, blue) channels of an `AARRGGBB` color integer.
pub open spec fn rgb_of(color_int: i32) -> Seq<u8> {
    seq![
        ((color_bits(color_int) / 0x1_0000) % 0x100) as u8,
        ((color_bits(color_int) / 0x100) % 0x100) as u8,
        (color_bits(color_int) % 0x100) as u8,
    ]
}

/// Converts a color integer in `AARRGGBB` layout to its red, green and blue
/// channels; the alpha byte is ignored.
pub fn int_to_rgb(color_int: i32) -> (rgb: [u8; 3])
    ensures
        rgb@ == rgb_of(color_int),
{
    let color = color_int as u32;
    assert(color_int < 0 ==> color == color_int + 0x1_0000_0000) by (bit_vector)
        requires color == color_int as u32;
    assert(color_int >= 0 ==> color == color_int) by (bit_vector)
        requires color == color_int as u32;
    let r = ((color >> 16) & 0xFF) as u8;
    let g = ((color >> 8) & 0xFF) as u8;
    let b = (color & 0xFF) as u8;
    assert(r == (color / 0x1_0000) % 0x100) by (bit_vector)
        requires r == ((color >> 16) & 0xFF) as u8;
    assert(g == (color / 0x100) % 0x100) by (bit_vector)
        requires g == ((color >> 8) & 0xFF) as u8;
    assert(b == color % 0x100) by (bit_vector)
        requires b == (color & 0xFF) as u8;
    let rgb = [r, g, b];
    assert(rgb@ =~= rgb_of(color_int));
    rgb
}

proof fn lemma_channels_of_low_bits(x: u32)
    ensures
        (x / 0x1_0000) % 0x100 == ((x % 0x100_0000) / 0x1_0000) % 0x100,
        (x / 0x100) % 0x100 == ((x % 0x100_0000) / 0x100) % 0x100,
        x % 0x100 == (x % 0x100_0000) % 0x100,
{
    assert((x / 0x1_0000) % 0x100 == ((x % 0x100_0000) / 0x1_0000) % 0x100) by (bit_vector);
    assert((x / 0x100) % 0x100 == ((x % 0x100_0000) / 0x100) % 0x100) by (bit_vector);
    assert(x % 0x100 == (x % 0x100_0000) % 0x100) by (bit_vector);
}

/// The alpha byte does not matter: two color integers that agree on their
/// low 24 bits (red, green and blue) decode to the same channels.
pub proof fn lemma_alpha_ignored(a: i32, b: i32)
    requires
        color_bits(a) % 0x100_0000 == color_bits(b) % 0x100_0000,
    ensures
        rgb_of(a) == rgb_of(b),
{
    let x = color_bits(a);
    let y = color_bits(b);
    let xu = x as u32;
    let yu = y as u32;
    assert(xu == x && yu == y);
    lemma_channels_of_low_bits(xu);
    lemma_channels_of_low_bits(yu);
    assert(rgb_of(a) =~= rgb_of(b));
}

/// One stop of a palette: the value it sits at, as text, and its color
/// integer; `-1` marks a stop without a color of its own.
#[derive(Debug, Clone)]
pub struct ColorElement {
    pub string_value: String,
    pub color: i32,
}

/// The kinds of palette.
#[derive(Debug, Clone)]
pub enum PaletteObject {
    Jetpalette(Vec<ColorElement>),
    Ramppalette(Vec<ColorElement>),
    Categorypalette,
    Palette,
}

/// A palette.
#[derive(Debug, Clone)]
pub struct EPalette {
    pub object: Option<PaletteObject>,
}

/// Why a palette gives no continuous color stops.
#[derive(Debug, Clone, Copy, PartialEq, Eq, Structural)]
pub enum PaletteError {
    /// The palette has no object.
    NoObject,
    /// A category palette colors categories, not values.
    CategoryPalette,
    /// A base palette has no stops.
    BasePalette,
}

/// The stops of a continuous palette: those of a jet or ramp palette; the
/// other kinds are refused.
pub fn palette_elements(palette: &EPalette) -> (r: Result<&Vec<ColorElement>, PaletteError>)
    ensures
        match palette.object {
            None => r == Err::<&Vec<ColorElement>, PaletteError>(PaletteError::NoObject),
            Some(PaletteObject::Jetpalette(e)) => r == Ok::<&Vec<ColorElement>, PaletteError>(&e),
            Some(PaletteObject::Ramppalette(e)) => r == Ok::<&Vec<ColorElement>, PaletteError>(&e),
            Some(PaletteObject::Categorypalette) => r == Err::<&Vec<ColorElement>, PaletteError>(
                PaletteError::CategoryPalette,
            ),
            Some(PaletteObject::Palette) => r == Err::<&Vec<ColorElement>, PaletteError>(
                PaletteError::BasePalette,
            ),
        },
{
    match &palette.object {
        None => Err(PaletteError::NoObject),
        Some(PaletteObject::Jetpalette(e)) => Ok(e),
        Some(PaletteObject::Ramppalette(e)) => Ok(e),
        Some(PaletteObject::Categorypalette) => Err(PaletteError::CategoryPalette),
        Some(PaletteObject::Palette) => Err(PaletteError::BasePalette),
    }
}

/// The color of a palette stop: its decoded color integer, or none for the
/// `-1` marker, where the default gradient applies.
pub fn element_rgb(color: i32) -> (r: Option<[u8; 3]>)
    ensures
        color == -1 ==> r is None,
        color != -1 ==> (r matches Some(rgb) && rgb@ == rgb_of(color)),
{
    if color == -1 {
        None
    } else {
        Some(int_to_rgb(color))
    }
}

/// Why a step gives no color factors.
#[derive(Debug, Clone, PartialEq, Eq)]
pub enum ColorStepError {
    /// No data step has the id.
    StepNotFound(String),
    /// The data step has no model.
    NoModel,
    /// The model has no axis list.
    NoAxis,
    /// The axis list has no layer.
    NoXyAxis,
    /// The layer has color factors but no palette.
    NoPalette,
}

/// Step `i` is the first data step with the given id.
pub open spec fn is_first_data_step(steps: Seq<EStep>, id: Seq<char>, i: int) -> bool {
    &&& 0 <= i < steps.len()
    &&& steps[i].object matches Some(StepObject::Datastep(ds)) && ds.id@ == id
    &&& forall|j: int|
        0 <= j < i ==> !(#[trigger] steps[j].object matches Some(StepObject::Datastep(ds))
            && ds.id@ == id)
}

/// The color factors of the first layer of a data step's model, with the
/// palette that colors them.
pub open spec fn step_colors_of(ds: DataStep) -> Result<
    Option<(Seq<Factor>, Option<EPalette>)>,
    ColorStepError,
> {
    match ds.model {
        None => Err(ColorStepError::NoModel),
        Some(m) => match m.axis {
            None => Err(ColorStepError::NoAxis),
            Some(a) => if a.xy_axis@.len() == 0 {
                Err(ColorStepError::NoXyAxis)
            } else {
                match a.xy_axis@[0].colors {
                    None => Ok(None),
                    Some(c) => if c.factors@.len() > 0 && c.palette is None {
                        Err(ColorStepError::NoPalette)
                    } else {
                        Ok(Some((c.factors@, c.palette)))
                    },
                }
            },
        },
    }
}

/// The color factors of a step: those of the first layer of the model of the
/// first data step with the given id, with their palette; none where the
/// layer has no colors. A layer with color factors must have a palette.
pub fn step_colors<'a>(workflow: &'a Workflow, step_id: &str) -> (r: Result<
    Option<(&'a Vec<Factor>, &'a Option<EPalette>)>,
    ColorStepError,
>)
    ensures
        match r {
            Err(ColorStepError::StepNotFound(id)) => id@ == step_id@ && forall|i: int|
                0 <= i < workflow.steps@.len() ==> !(#[trigger] workflow.steps@[i].object matches Some(
                    StepObject::Datastep(ds),
                ) && ds.id@ == step_id@),
            _ => exists|i: int|
                #![trigger workflow.steps@[i]]
                is_first_data_step(workflow.steps@, step_id@, i) && (workflow.steps@[i].object matches Some(
                    StepObject::Datastep(ds),
                ) && match (r, step_colors_of(ds)) {
                    (Ok(None), Ok(None)) => true,
                    (Ok(Some((f, p))), Ok(Some((sf, sp)))) => f@ == sf && *p == sp,
                    (Err(e), Err(se)) => e == se,
                    _ => false,
                }),
        },
{
    let mut i: usize = 0;
    while i < workflow.steps.len()
        invariant
            i <= workflow.steps@.len(),
            forall|j: int|
                0 <= j < i ==> !(#[trigger] workflow.steps@[j].object matches Some(
                    StepObject::Datastep(ds),
                ) && ds.id@ == step_id@),
        decreases workflow.steps@.len() - i,
    {
        match &workflow.steps[i].object {
            Some(StepObject::Datastep(ds)) => {
                if str_eq(ds.id.as_str(), step_id) {
                    assert(is_first_data_step(workflow.steps@, step_id@, i as int));
                    return data_step_colors(ds);
                }
            },
            _ => {},
        }
        i = i + 1;
    }
    Err(ColorStepError::StepNotFound(step_id.to_string()))
}

fn data_step_colors<'a>(ds: &'a DataStep) -> (r: Result<
    Option<(&'a Vec<Factor>, &'a Option<EPalette>)>,
    ColorStepError,
>)
    ensures
        match (r, step_colors_of(*ds)) {
            (Ok(None), Ok(None)) => true,
            (Ok(Some((f, p))), Ok(Some((sf, sp)))) => f@ == sf && *p == sp,
            (Err(e), Err(se)) => e == se,
            _ => false,
        },
{
    let model = match &ds.model {
        Some(m) => m,
        None => {
            return Err(ColorStepError::NoModel);
        },
    };
    let axis = match &model.axis {
        Some(a) => a,
        None => {
            return Err(ColorStepError::NoAxis);
        },
    };
    if axis.xy_axis.len() == 0 {
        return Err(ColorStepError::NoXyAxis);
    }
    match &axis.xy_axis[0].colors {
        None => Ok(None),
        Some(c) => {
            if c.factors.len() > 0 && c.palette.is_none() {
                Err(ColorStepError::NoPalette)
            } else {
                Ok(Some((&c.factors, &c.palette)))
            }
        },
    }
}

/// The present values of a row, in column order.
pub open spec fn present_values(parts: Seq<Option<String>>) -> Seq<Seq<char>>
    decreases parts.len(),
{
    if parts.len() == 0 {
        Seq::empty()
    } else {
        let prev = present_values(parts.drop_last());
        match parts.last() {
            Some(v) => prev.push(v@),
            None => prev,
        }
    }
}

/// The label of a row of the color table, which holds one combination of the
/// color factors' values: the values it has, joined with `", "`.
pub fn combined_label(parts: &Vec<Option<String>>) -> (r: String)
    ensures
        r@ == joined(present_values(parts@), ", "@),
{
    let mut present: Vec<String> = Vec::new();
    let mut i: usize = 0;
    while i < parts.len()
        invariant
            i <= parts@.len(),
            views(present@) == present_values(parts@.take(i as int)),
        decreases parts@.len() - i,
    {
        assert(parts@.take(i as int + 1).drop_last() =~= parts@.take(i as int));
        assert(parts@.take(i as int + 1).last() == parts@[i as int]);
        match &parts[i] {
            Some(v) => {
                let ghost before = views(present@);
                present.push(v.clone());
                assert(views(present@) =~= before.push(v@));
            },
            None => {},
        }
        i = i + 1;
    }
    assert(parts@.take(parts@.len() as int) =~= parts@);
    join(&present, ", ")
}

/// The position of the first categorical color factor.
pub fn first_categorical(colors: &Vec<ColorFactor>) -> (r: Option<usize>)
    ensures
        match r {
            Some(i) => i < colors@.len() && colors@[i as int].categorical && forall|j: int|
                0 <= j < i ==> !(#[trigger] colors@[j]).categorical,
            None => forall|j: int| 0 <= j < colors@.len() ==> !(#[trigger] colors@[j]).categorical,
        },
{
    let mut i: usize = 0;
    while i < colors.len()
        invariant
            i <= colors@.len(),
            forall|j: int| 0 <= j < i ==> !(#[trigger] colors@[j]).categorical,
        decreases colors@.len() - i,
    {
        if colors[i].categorical {
            return Some(i);
        }
        i = i + 1;
    }
    None
}

/// Gives every color factor without a color table the table of the first
/// color factor, which all factors share; nothing changes where that one has
/// none.
pub fn share_color_table(table_ids: &mut Vec<Option<String>>)
    ensures
        final(table_ids)@.len() == old(table_ids)@.len(),
        forall|i: int|
            0 <= i < old(table_ids)@.len() ==> #[trigger] final(table_ids)@[i] == (
            if old(table_ids)@[i] is None && old(table_ids)@.len() > 0 {
                old(table_ids)@[0]
            } else {
                old(table_ids)@[i]
            }),
{
    if table_ids.len() == 0 {
        return;
    }
    let shared = match &table_ids[0] {
        Some(id) => id.clone(),
        None => {
            return;
        },
    };
    let ghost first = table_ids@[0];
    let mut i: usize = 0;
    while i < table_ids.len()
        invariant
            i <= table_ids@.len(),
            table_ids@.len() == old(table_ids)@.len(),
            old(table_ids)@.len() > 0,
            first == old(table_ids)@[0],
            first == Some(shared),
            forall|j: int|
                0 <= j < i ==> #[trigger] table_ids@[j] == (if old(table_ids)@[j] is None {
                    first
                } else {
                    old(table_ids)@[j]
                }),
            forall|j: int| i <= j < table_ids@.len() ==> #[trigger] table_ids@[j] == old(table_ids)@[j],
        decreases table_ids@.len() - i,
    {
        if table_ids[i].is_none() {
            table_ids.set(i, Some(shared.clone()));
        }
        i = i + 1;
    }
}

/// The color of a data point without a value: mid gray.
pub const MISSING_VALUE_COLOR: [u8; 3] = [128, 128, 128];

/// The category colors of a palette by category name; of two entries for one
/// category the later counts.
pub open spec fn category_map(mappings: Seq<(String, [u8; 3])>) -> Map<Seq<char>, [u8; 3]> {
    pairs_map(category_entries(mappings))
}

/// The category entries of a palette, by the view of their names.
pub open spec fn category_entries(mappings: Seq<(String, [u8; 3])>) -> Seq<(Seq<char>, [u8; 3])> {
    mappings.map_values(|e: (String, [u8; 3])| (e.0@, e.1))
}

/// The color of one data point of a categorical color factor: its category's
/// color, the default color for a category the palette does not list, and
/// mid gray for a point without a value.
pub open spec fn category_color_of(
    map: Map<Seq<char>, [u8; 3]>,
    default_color: [u8; 3],
    value: Option<String>,
) -> [u8; 3] {
    match value {
        Some(c) => if map.contains_key(c@) {
            map[c@]
        } else {
            default_color
        },
        None => MISSING_VALUE_COLOR,
    }
}

fn category_lookup(mappings: &Vec<(String, [u8; 3])>, default_color: [u8; 3], name: &str) -> (r: [u8; 3])
    ensures
        r == (if category_map(mappings@).contains_key(name@) {
            category_map(mappings@)[name@]
        } else {
            default_color
        }),
{
    let ghost views = category_entries(mappings@);
    let mut i = mappings.len();
    while i > 0
        invariant
            i <= mappings@.len(),
            views == category_entries(mappings@),
            views.len() == mappings@.len(),
            forall|j: int| i <= j < views.len() ==> (#[trigger] views[j]).0 != name@,
        decreases i,
    {
        i = i - 1;
        assert(views[i as int] == (mappings@[i as int].0@, mappings@[i as int].1));
        if str_eq(mappings[i].0.as_str(), name) {
            proof {
                crate::lookup::lemma_pairs_map_last(views, i as int, name@);
            }
            return mappings[i].1;
        }
    }
    proof {
        crate::lookup::lemma_pairs_map_absent(views, name@);
    }
    default_color
}

fn category_color(mappings: &Vec<(String, [u8; 3])>, default_color: [u8; 3], value: &Option<String>) -> (r: [u8; 3])
    ensures
        r == category_color_of(category_map(mappings@), default_color, *value),
{
    match value {
        Some(c) => category_lookup(mappings, default_color, c.as_str()),
        None => MISSING_VALUE_COLOR,
    }
}

/// The colors of the data points of a categorical color factor whose palette
/// lists category colors, in order.
pub fn category_colors(
    mappings: &Vec<(String, [u8; 3])>,
    default_color: [u8; 3],
    values: &Vec<Option<String>>,
) -> (r: Vec<[u8; 3]>)
    ensures
        r@.len() == values@.len(),
        forall|i: int|
            0 <= i < values@.len() ==> #[trigger] r@[i] == category_color_of(
                category_map(mappings@),
                default_color,
                values@[i],
            ),
{
    let mut out: Vec<[u8; 3]> = Vec::new();
    let mut i: usize = 0;
    while i < values.len()
        invariant
            i <= values@.len(),
            out@.len() == i,
            forall|k: int|
                0 <= k < i ==> #[trigger] out@[k] == category_color_of(
                    category_map(mappings@),
                    default_color,
                    values@[k],
                ),
        decreases values@.len() - i,
    {
        out.push(category_color(mappings, default_color, &values[i]));
        i = i + 1;
    }
    out
}

} // verus!
