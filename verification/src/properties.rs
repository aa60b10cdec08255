//! Operator property definitions and typed reading of user-set values.
//!
//! The definitions, with their defaults and the values an enumerated property
//! accepts, come from the operator document (`OPERATOR_JSON`); user-set values
//! come from the operator settings and take precedence over the defaults.

use crate::json::{field, field_of, parse_json, text_field, text_field_of, json_of, Json};
use crate::lookup::{find_last, lemma_pairs_map_absent, lemma_pairs_map_last, pair_views, pairs_map};
use crate::text::{
    eq_ignore_ascii_case, i32_value, parse_i32, same_ignoring_ascii_case, str_eq, views,
};
use vstd::prelude::*;

verus! {

/// The operator document: the properties the operator exposes.
pub const OPERATOR_JSON: &'static str = r#"{
  "name": "ggrs_plot_operator",
  "description": "Scatter, line, bar and heatmap plots of crosstab data",
  "properties": [
    {"kind": "EnumeratedProperty", "name": "theme", "defaultValue": "gray",
     "description": "Plot theme",
     "values": ["gray", "bw", "linedraw", "light", "dark", "minimal", "classic", "void"]},
    {"kind": "StringProperty", "name": "plot.width", "defaultValue": "auto",
     "description": "Plot width in pixels, or auto to derive it from the number of facets"},
    {"kind": "StringProperty", "name": "plot.height", "defaultValue": "auto",
     "description": "Plot height in pixels, or auto to derive it from the number of facets"},
    {"kind": "EnumeratedProperty", "name": "backend", "defaultValue": "cpu",
     "description": "Render backend", "values": ["cpu", "gpu"]},
    {"kind": "EnumeratedProperty", "name": "legend.position", "defaultValue": "right",
     "description": "Legend position",
     "values": ["left", "right", "top", "bottom", "inside", "none"]},
    {"kind": "StringProperty", "name": "legend.position.inside", "defaultValue": "",
     "description": "Legend position inside the plot, as x,y in [0,1]"},
    {"kind": "StringProperty", "name": "legend.justification", "defaultValue": "",
     "description": "Anchor point of the legend box, as x,y in [0,1]"},
    {"kind": "EnumeratedProperty", "name": "png.compression", "defaultValue": "fast",
     "description": "PNG compression level", "values": ["fast", "default", "best"]},
    {"kind": "StringProperty", "name": "plot.title", "defaultValue": "",
     "description": "Plot title"},
    {"kind": "EnumeratedProperty", "name": "plot.title.position", "defaultValue": "top",
     "description": "Plot title position", "values": ["top", "bottom", "left", "right"]},
    {"kind": "StringProperty", "name": "plot.title.justification", "defaultValue": "",
     "description": "Anchor point of the plot title, as x,y in [0,1]"},
    {"kind": "StringProperty", "name": "axis.x.label", "defaultValue": "",
     "description": "X-axis label"},
    {"kind": "StringProperty", "name": "axis.y.label", "defaultValue": "",
     "description": "Y-axis label"},
    {"kind": "StringProperty", "name": "axis.x.tick.rotation", "defaultValue": "0",
     "description": "X-axis tick label rotation in degrees"},
    {"kind": "StringProperty", "name": "axis.y.tick.rotation", "defaultValue": "0",
     "description": "Y-axis tick label rotation in degrees"},
    {"kind": "EnumeratedProperty", "name": "heatmap.cell.aggregation", "defaultValue": "last",
     "description": "How several data points in one heatmap cell are combined",
     "values": ["last", "first", "mean", "median"]},
    {"kind": "StringProperty", "name": "point.shapes", "defaultValue": "19",
     "description": "Point shapes per layer (pch values), comma separated"},
    {"kind": "StringProperty", "name": "point.size.multiplier", "defaultValue": "1",
     "description": "Factor applied to the point size of the crosstab"}
  ]
}"#;

/// The kind of an operator property.
#[derive(Debug, Clone, Copy, PartialEq, Eq, Structural)]
pub enum PropertyKind {
    String,
    Enumerated,
}

/// A property definition from the operator document.
#[derive(Debug, Clone)]
pub struct PropertyDef {
    pub name: String,
    pub kind: PropertyKind,
    pub default_value: String,
    pub description: String,
    /// For an enumerated property, the values it accepts.
    pub valid_values: Option<Vec<String>>,
}

/// The mathematical content of a property definition.
pub struct PropertyDefView {
    pub name: Seq<char>,
    pub kind: PropertyKind,
    pub default_value: Seq<char>,
    pub description: Seq<char>,
    pub valid_values: Option<Seq<Seq<char>>>,
}

impl View for PropertyDef {
    type V = PropertyDefView;

    open spec fn view(&self) -> PropertyDefView {
        PropertyDefView {
            name: self.name@,
            kind: self.kind,
            default_value: self.default_value@,
            description: self.description@,
            valid_values: match self.valid_values {
                Some(v) => Some(views(v@)),
                None => None,
            },
        }
    }
}

/// The definitions of a sequence, each keyed by its name.
pub open spec fn named(defs: Seq<PropertyDefView>) -> Seq<(Seq<char>, PropertyDefView)> {
    defs.map_values(|d: PropertyDefView| (d.name, d))
}

/// The registry that a sequence of definitions builds: a later definition of
/// a name replaces an earlier one.
pub open spec fn definitions_map(defs: Seq<PropertyDefView>) -> Map<Seq<char>, PropertyDefView> {
    pairs_map(named(defs))
}

/// The views of a sequence of definitions.
pub open spec fn def_views(defs: Seq<PropertyDef>) -> Seq<PropertyDefView> {
    defs.map_values(|d: PropertyDef| d@)
}

/// Some value of `values` equals `value` up to ASCII case.
pub open spec fn lists_value(values: Seq<Seq<char>>, value: Seq<char>) -> bool {
    exists|i: int| 0 <= i < values.len() && same_ignoring_ascii_case(#[trigger] values[i], value)
}

/// Whether the registry accepts `value` for the property `name`: an
/// enumerated property accepts the values it lists, ignoring ASCII case;
/// every other name accepts any value.
pub open spec fn accepts(
    registry: Map<Seq<char>, PropertyDefView>,
    name: Seq<char>,
    value: Seq<char>,
) -> bool {
    if registry.contains_key(name) && registry[name].valid_values is Some {
        lists_value(registry[name].valid_values->0, value)
    } else {
        true
    }
}

/// The default of `name` in the registry, if it defines the name.
pub open spec fn default_of(registry: Map<Seq<char>, PropertyDefView>, name: Seq<char>) -> Option<
    Seq<char>,
> {
    if registry.contains_key(name) {
        Some(registry[name].default_value)
    } else {
        None
    }
}

/// Registry of operator properties, keyed by name.
pub struct PropertyRegistry {
    properties: Vec<PropertyDef>,
}

impl View for PropertyRegistry {
    type V = Map<Seq<char>, PropertyDefView>;

    closed spec fn view(&self) -> Map<Seq<char>, PropertyDefView> {
        definitions_map(def_views(self.properties@))
    }
}

impl PropertyRegistry {
    /// A registry holding the given definitions; of two definitions with one
    /// name, the later counts.
    pub fn from_definitions(properties: Vec<PropertyDef>) -> (r: Self)
        ensures
            r@ == definitions_map(def_views(properties@)),
    {
        PropertyRegistry { properties }
    }

    /// A registry without definitions.
    pub fn empty() -> (r: Self)
        ensures
            r@ == Map::<Seq<char>, PropertyDefView>::empty(),
    {
        let r = PropertyRegistry { properties: Vec::new() };
        assert(named(def_views(r.properties@)) =~= Seq::empty());
        r
    }

    /// The position of the definition that counts for `name`.
    fn find(&self, name: &str) -> (r: Option<usize>)
        ensures
            r is Some <==> self@.contains_key(name@),
            r matches Some(i) ==> i < self.properties@.len() && self.properties@[i as int]@
                == self@[name@],
    {
        let ghost pairs = named(def_views(self.properties@));
        let mut i = self.properties.len();
        while i > 0
            invariant
                i <= self.properties@.len(),
                pairs == named(def_views(self.properties@)),
                pairs.len() == self.properties@.len(),
                forall|j: int| i <= j < pairs.len() ==> (#[trigger] pairs[j]).0 != name@,
            decreases i,
        {
            i = i - 1;
            assert(pairs[i as int].0 == self.properties@[i as int].name@);
            if str_eq(self.properties[i].name.as_str(), name) {
                proof {
                    lemma_pairs_map_last(pairs, i as int, name@);
                }
                return Some(i);
            }
        }
        proof {
            lemma_pairs_map_absent(pairs, name@);
        }
        None
    }

    /// The default value of a property.
    pub fn get_default(&self, name: &str) -> (r: Option<&str>)
        ensures
            r is Some <==> self@.contains_key(name@),
            r matches Some(d) ==> d@ == self@[name@].default_value,
    {
        match self.find(name) {
            Some(i) => Some(self.properties[i].default_value.as_str()),
            None => None,
        }
    }

    /// The definition of a property.
    pub fn get_property(&self, name: &str) -> (r: Option<&PropertyDef>)
        ensures
            r is Some <==> self@.contains_key(name@),
            r matches Some(d) ==> d@ == self@[name@],
    {
        match self.find(name) {
            Some(i) => Some(&self.properties[i]),
            None => None,
        }
    }

    /// Whether `value` is valid for the property `name`: an enumerated
    /// property accepts its listed values, ignoring ASCII case; every other
    /// property, and every name the registry lacks, accepts any value.
    pub fn is_valid_enum_value(&self, name: &str, value: &str) -> (r: bool)
        ensures
            r == accepts(self@, name@, value@),
    {
        match self.find(name) {
            None => true,
            Some(k) => match &self.properties[k].valid_values {
                None => true,
                Some(values) => {
                    let ghost vs = views(values@);
                    assert(self@[name@].valid_values == Some(vs));
                    let mut i: usize = 0;
                    while i < values.len()
                        invariant
                            i <= values@.len(),
                            vs == views(values@),
                            self@.contains_key(name@),
                            self@[name@].valid_values == Some(vs),
                            forall|j: int|
                                0 <= j < i ==> !same_ignoring_ascii_case(#[trigger] vs[j], value@),
                        decreases values@.len() - i,
                    {
                        if eq_ignore_ascii_case(values[i].as_str(), value) {
                            assert(same_ignoring_ascii_case(vs[i as int], value@));
                            assert(lists_value(vs, value@));
                            return true;
                        }
                        i = i + 1;
                    }
                    false
                },
            },
        }
    }
}

/// A property entry of the operator document as written there, before
/// validation.
pub struct RawProperty {
    pub name: Option<String>,
    pub kind: Option<String>,
    pub default_value: Option<String>,
    pub description: Option<String>,
    /// The entries of a `values` array; `None` for an entry that is not text.
    pub values: Option<Vec<Option<String>>>,
}

/// The mathematical content of a raw property entry.
pub struct RawPropertyView {
    pub name: Option<Seq<char>>,
    pub kind: Option<Seq<char>>,
    pub default_value: Option<Seq<char>>,
    pub description: Option<Seq<char>>,
    pub values: Option<Seq<Option<Seq<char>>>>,
}

/// The view of an optional text.
pub open spec fn opt_view(s: Option<String>) -> Option<Seq<char>> {
    match s {
        Some(t) => Some(t@),
        None => None,
    }
}

impl View for RawProperty {
    type V = RawPropertyView;

    open spec fn view(&self) -> RawPropertyView {
        RawPropertyView {
            name: opt_view(self.name),
            kind: opt_view(self.kind),
            default_value: opt_view(self.default_value),
            description: opt_view(self.description),
            values: match self.values {
                Some(v) => Some(v@.map_values(|e: Option<String>| opt_view(e))),
                None => None,
            },
        }
    }
}

/// The views of a sequence of raw entries.
pub open spec fn raw_views(raws: Seq<RawProperty>) -> Seq<RawPropertyView> {
    raws.map_values(|r: RawProperty| r@)
}

/// Why the operator document gives no registry.
#[derive(Debug, Clone, PartialEq, Eq)]
pub enum RegistryError {
    /// The document is not JSON.
    InvalidJson,
    /// The document has no `properties` array.
    MissingProperties,
    /// A property has no `name` text.
    MissingName,
    /// A property has no `kind` text.
    MissingKind,
    /// A property has a kind other than `StringProperty` and `EnumeratedProperty`.
    UnknownKind(String),
}

/// The mathematical content of a registry error.
pub enum RegistryFault {
    InvalidJson,
    MissingProperties,
    MissingName,
    MissingKind,
    UnknownKind(Seq<char>),
}

impl View for RegistryError {
    type V = RegistryFault;

    open spec fn view(&self) -> RegistryFault {
        match self {
            RegistryError::InvalidJson => RegistryFault::InvalidJson,
            RegistryError::MissingProperties => RegistryFault::MissingProperties,
            RegistryError::MissingName => RegistryFault::MissingName,
            RegistryError::MissingKind => RegistryFault::MissingKind,
            RegistryError::UnknownKind(k) => RegistryFault::UnknownKind(k@),
        }
    }
}

/// The text entries of a `values` array, in order.
pub open spec fn present_values(values: Seq<Option<Seq<char>>>) -> Seq<Seq<char>>
    decreases values.len(),
{
    if values.len() == 0 {
        Seq::empty()
    } else {
        let prev = present_values(values.drop_last());
        match values.last() {
            Some(v) => prev.push(v),
            None => prev,
        }
    }
}

/// The definition a raw entry gives, or why it gives none: the name is
/// checked before the kind; a missing default or description reads as empty;
/// only an enumerated property keeps its listed values.
pub open spec fn definition_of(raw: RawPropertyView) -> Result<PropertyDefView, RegistryFault> {
    match raw.name {
        None => Err(RegistryFault::MissingName),
        Some(name) => match raw.kind {
            None => Err(RegistryFault::MissingKind),
            Some(kind_text) => if kind_text == "StringProperty"@ || kind_text
                == "EnumeratedProperty"@ {
                let kind = if kind_text == "StringProperty"@ {
                    PropertyKind::String
                } else {
                    PropertyKind::Enumerated
                };
                Ok(
                    PropertyDefView {
                        name,
                        kind,
                        default_value: match raw.default_value {
                            Some(d) => d,
                            None => Seq::empty(),
                        },
                        description: match raw.description {
                            Some(d) => d,
                            None => Seq::empty(),
                        },
                        valid_values: if kind == PropertyKind::Enumerated {
                            match raw.values {
                                Some(vs) => Some(present_values(vs)),
                                None => None,
                            }
                        } else {
                            None
                        },
                    },
                )
            } else {
                Err(RegistryFault::UnknownKind(kind_text))
            },
        },
    }
}

/// The definitions that raw entries give, or the fault of the first entry
/// that gives none.
pub open spec fn checked_definitions(raws: Seq<RawPropertyView>) -> Result<
    Seq<PropertyDefView>,
    RegistryFault,
>
    decreases raws.len(),
{
    if raws.len() == 0 {
        Ok(Seq::empty())
    } else {
        match checked_definitions(raws.drop_last()) {
            Err(e) => Err(e),
            Ok(prev) => match definition_of(raws.last()) {
                Ok(d) => Ok(prev.push(d)),
                Err(e) => Err(e),
            },
        }
    }
}

/// What a document gives: the registry of its properties, or why it gives none.
pub open spec fn registry_of_document(doc: Option<Option<Seq<RawPropertyView>>>) -> Result<
    Map<Seq<char>, PropertyDefView>,
    RegistryFault,
> {
    match doc {
        None => Err(RegistryFault::InvalidJson),
        Some(None) => Err(RegistryFault::MissingProperties),
        Some(Some(raws)) => match checked_definitions(raws) {
            Ok(defs) => Ok(definitions_map(defs)),
            Err(e) => Err(e),
        },
    }
}

/// A text item of a JSON array, where it is text.
pub open spec fn text_item(j: Json) -> Option<Seq<char>> {
    match j {
        Json::Text(s) => Some(s@),
        _ => None,
    }
}

/// The text items of a JSON array, `None` for an item that is no text.
pub open spec fn text_items(a: Seq<Json>) -> Seq<Option<Seq<char>>> {
    a.map_values(|j: Json| text_item(j))
}

/// The raw property entry that a JSON value gives: its `name`, `kind`,
/// `defaultValue` and `description` fields where they are text, and the items
/// of its `values` field where that is an array.
pub open spec fn raw_of_json(e: Json) -> RawPropertyView {
    RawPropertyView {
        name: text_field_of(e, "name"@),
        kind: text_field_of(e, "kind"@),
        default_value: text_field_of(e, "defaultValue"@),
        description: text_field_of(e, "description"@),
        values: match field_of(e, "values"@) {
            Some(Json::Array(a)) => Some(text_items(a@)),
            _ => None,
        },
    }
}

/// The raw entries of a JSON array.
pub open spec fn raws_of_json(a: Seq<Json>) -> Seq<RawPropertyView> {
    a.map_values(|j: Json| raw_of_json(j))
}

/// The property entries of a JSON document: none where the text is not JSON,
/// `Some(None)` where it has no `properties` array.
pub open spec fn operator_document(text: Seq<char>) -> Option<Option<Seq<RawPropertyView>>> {
    match json_of(text) {
        None => None,
        Some(doc) => Some(document_properties_of(doc)),
    }
}

/// The registry of the operator document, or the empty registry where the
/// document gives none.
pub open spec fn standard_registry() -> Map<Seq<char>, PropertyDefView> {
    match registry_of_document(operator_document(OPERATOR_JSON@)) {
        Ok(r) => r,
        Err(_) => Map::empty(),
    }
}

/// The raw property entry of a JSON value.
fn raw_from_json(e: &Json) -> (r: RawProperty)
    ensures
        r@ == raw_of_json(*e),
{
    let values = match field(e, "values") {
        Some(Json::Array(a)) => {
            let mut items: Vec<Option<String>> = Vec::new();
            let mut i: usize = 0;
            while i < a.len()
                invariant
                    i <= a@.len(),
                    items@.map_values(|o: Option<String>| opt_view(o)) == text_items(a@.take(i as int)),
                decreases a@.len() - i,
            {
                let item = match &a[i] {
                    Json::Text(s) => Some(s.clone()),
                    _ => None,
                };
                let ghost before = items@.map_values(|o: Option<String>| opt_view(o));
                items.push(item);
                assert(items@.map_values(|o: Option<String>| opt_view(o)) =~= before.push(
                    text_item(a@[i as int]),
                ));
                assert(text_items(a@.take(i as int + 1)) =~= text_items(a@.take(i as int)).push(
                    text_item(a@[i as int]),
                ));
                i = i + 1;
            }
            assert(a@.take(a@.len() as int) =~= a@);
            Some(items)
        },
        _ => None,
    };
    RawProperty {
        name: text_field(e, "name"),
        kind: text_field(e, "kind"),
        default_value: text_field(e, "defaultValue"),
        description: text_field(e, "description"),
        values,
    }
}

/// The property entries of a parsed document: the raw entries of its
/// `properties` array; none where it has no such array.
pub open spec fn document_properties_of(doc: Json) -> Option<Seq<RawPropertyView>> {
    match field_of(doc, "properties"@) {
        Some(Json::Array(a)) => Some(raws_of_json(a@)),
        _ => None,
    }
}

/// The property entries of a parsed operator document, in order; `None`
/// where it has no `properties` array.
pub fn document_properties(doc: &Json) -> (r: Option<Vec<RawProperty>>)
    ensures
        match (r, document_properties_of(*doc)) {
            (None, None) => true,
            (Some(v), Some(w)) => raw_views(v@) == w,
            _ => false,
        },
{
    match field(doc, "properties") {
        Some(Json::Array(a)) => {
            let mut raws: Vec<RawProperty> = Vec::new();
            let mut i: usize = 0;
            while i < a.len()
                invariant
                    i <= a@.len(),
                    raw_views(raws@) == raws_of_json(a@.take(i as int)),
                decreases a@.len() - i,
            {
                let ghost before = raw_views(raws@);
                let raw = raw_from_json(&a[i]);
                raws.push(raw);
                assert(raw_views(raws@) =~= before.push(raw_of_json(a@[i as int])));
                assert(raws_of_json(a@.take(i as int + 1)) =~= raws_of_json(a@.take(i as int)).push(
                    raw_of_json(a@[i as int]),
                ));
                i = i + 1;
            }
            assert(a@.take(a@.len() as int) =~= a@);
            Some(raws)
        },
        _ => None,
    }
}

/// Reads the operator document: the entries of its `properties` array.
/// `None` where the document is not JSON, `Some(None)` where it has no
/// `properties` array.
fn read_operator_document(text: &str) -> (r: Option<Option<Vec<RawProperty>>>)
    ensures
        match (r, operator_document(text@)) {
            (None, None) => true,
            (Some(None), Some(None)) => true,
            (Some(Some(v)), Some(Some(w))) => raw_views(v@) == w,
            _ => false,
        },
{
    match parse_json(text) {
        Some(doc) => Some(document_properties(&doc)),
        None => None,
    }
}

/// The text entries of a `values` array, in order.
fn collect_present(values: &Vec<Option<String>>) -> (r: Vec<String>)
    ensures
        views(r@) == present_values(values@.map_values(|e: Option<String>| opt_view(e))),
{
    let ghost all = values@.map_values(|e: Option<String>| opt_view(e));
    let mut out: Vec<String> = Vec::new();
    let mut i: usize = 0;
    while i < values.len()
        invariant
            i <= values@.len(),
            all == values@.map_values(|e: Option<String>| opt_view(e)),
            views(out@) == present_values(all.take(i as int)),
        decreases values@.len() - i,
    {
        assert(all.take(i as int + 1).drop_last() =~= all.take(i as int));
        match &values[i] {
            Some(v) => {
                out.push(v.clone());
                assert(views(out@) =~= present_values(all.take(i as int)).push(v@));
            },
            None => {},
        }
        i = i + 1;
    }
    assert(all.take(values@.len() as int) =~= all);
    out
}

/// Checks one raw entry and turns it into a definition.
fn definition_from_raw(raw: &RawProperty) -> (r: Result<PropertyDef, RegistryError>)
    ensures
        match (r, definition_of(raw@)) {
            (Ok(d), Ok(e)) => d@ == e,
            (Err(x), Err(y)) => x@ == y,
            _ => false,
        },
{
    let name = match &raw.name {
        None => return Err(RegistryError::MissingName),
        Some(n) => n.clone(),
    };
    let kind_text = match &raw.kind {
        None => return Err(RegistryError::MissingKind),
        Some(k) => k,
    };
    let kind = if str_eq(kind_text.as_str(), "StringProperty") {
        PropertyKind::String
    } else if str_eq(kind_text.as_str(), "EnumeratedProperty") {
        PropertyKind::Enumerated
    } else {
        return Err(RegistryError::UnknownKind(kind_text.clone()));
    };
    let default_value = match &raw.default_value {
        Some(d) => d.clone(),
        None => String::new(),
    };
    let description = match &raw.description {
        Some(d) => d.clone(),
        None => String::new(),
    };
    let valid_values = match kind {
        PropertyKind::Enumerated => match &raw.values {
            Some(vs) => Some(collect_present(vs)),
            None => None,
        },
        PropertyKind::String => None,
    };
    Ok(PropertyDef { name, kind, default_value, description, valid_values })
}

impl PropertyRegistry {
    /// Validates raw document entries in order and builds the registry; the
    /// first entry without a name or a known kind is reported.
    pub fn from_raw_properties(raws: &Vec<RawProperty>) -> (r: Result<Self, RegistryError>)
        ensures
            match (r, checked_definitions(raw_views(raws@))) {
                (Ok(reg), Ok(defs)) => reg@ == definitions_map(defs),
                (Err(x), Err(y)) => x@ == y,
                _ => false,
            },
    {
        let ghost all = raw_views(raws@);
        let mut defs: Vec<PropertyDef> = Vec::new();
        let mut i: usize = 0;
        assert(all.take(0) =~= Seq::<RawPropertyView>::empty());
        assert(def_views(defs@) =~= Seq::<PropertyDefView>::empty());
        while i < raws.len()
            invariant
                i <= raws@.len(),
                all == raw_views(raws@),
                checked_definitions(all.take(i as int)) == Ok::<
                    Seq<PropertyDefView>,
                    RegistryFault,
                >(def_views(defs@)),
            decreases raws@.len() - i,
        {
            assert(all.take(i as int + 1).drop_last() =~= all.take(i as int));
            assert(all.take(i as int + 1).last() == raws@[i as int]@);
            match definition_from_raw(&raws[i]) {
                Ok(d) => {
                    let ghost before = def_views(defs@);
                    let ghost dv = d@;
                    defs.push(d);
                    assert(def_views(defs@) =~= before.push(dv));
                },
                Err(e) => {
                    proof {
                        lemma_checked_definitions_error(all, i as int + 1);
                    }
                    return Err(e);
                },
            }
            i = i + 1;
        }
        assert(all.take(raws@.len() as int) =~= all);
        Ok(PropertyRegistry { properties: defs })
    }

    /// Parses the operator document and builds its registry.
    pub fn from_operator_json() -> (r: Result<Self, RegistryError>)
        ensures
            match (r, registry_of_document(operator_document(OPERATOR_JSON@))) {
                (Ok(reg), Ok(m)) => reg@ == m,
                (Err(x), Err(y)) => x@ == y,
                _ => false,
            },
    {
        match read_operator_document(OPERATOR_JSON) {
            None => Err(RegistryError::InvalidJson),
            Some(None) => Err(RegistryError::MissingProperties),
            Some(Some(raws)) => Self::from_raw_properties(&raws),
        }
    }
}

/// Once some entry fails, every longer prefix fails with the same fault.
proof fn lemma_checked_definitions_error(raws: Seq<RawPropertyView>, k: int)
    requires
        0 < k <= raws.len(),
        checked_definitions(raws.take(k)) is Err,
    ensures
        checked_definitions(raws) == checked_definitions(raws.take(k)),
    decreases raws.len() - k,
{
    if k == raws.len() {
        assert(raws.take(k) =~= raws);
    } else {
        assert(raws.take(k + 1).drop_last() =~= raws.take(k));
        lemma_checked_definitions_error(raws, k + 1);
    }
}

/// Whether `r` is what reading the operator document gives: its registry, or
/// the fault that stops it.
pub open spec fn is_document_registry(r: Result<PropertyRegistry, RegistryError>) -> bool {
    match (r, registry_of_document(operator_document(OPERATOR_JSON@))) {
        (Ok(reg), Ok(m)) => reg@ == m,
        (Err(x), Err(y)) => x@ == y,
        _ => false,
    }
}

/// The registry of the operator document.
pub fn registry() -> (r: Result<PropertyRegistry, RegistryError>)
    ensures
        is_document_registry(r),
{
    PropertyRegistry::from_operator_json()
}

/// Every reading of the operator document gives the same registry: two
/// calls of `registry` both succeed or both fail, and agree on every
/// definition or on the fault.
pub proof fn lemma_registry_stable(
    a: Result<PropertyRegistry, RegistryError>,
    b: Result<PropertyRegistry, RegistryError>,
)
    requires
        is_document_registry(a),
        is_document_registry(b),
    ensures
        (a is Ok) == (b is Ok),
        a is Ok && b is Ok ==> a->Ok_0@ == b->Ok_0@,
        a is Err && b is Err ==> a->Err_0@ == b->Err_0@,
{
}

/// A property value set by the user in the operator settings.
#[derive(Debug, Clone)]
pub struct PropertyValue {
    pub name: String,
    pub value: String,
}

/// The operator an operator setting refers to, with its property values.
#[derive(Debug, Clone)]
pub struct OperatorRef {
    pub property_values: Vec<PropertyValue>,
}

/// Operator settings of a query.
#[derive(Debug, Clone)]
pub struct OperatorSettings {
    pub namespace: String,
    pub operator_ref: Option<OperatorRef>,
}

/// The user-set values of a list, in order: an empty value counts as unset.
pub open spec fn set_pairs(values: Seq<PropertyValue>) -> Seq<(Seq<char>, Seq<char>)>
    decreases values.len(),
{
    if values.len() == 0 {
        Seq::empty()
    } else {
        let prev = set_pairs(values.drop_last());
        if values.last().value@.len() > 0 {
            prev.push((values.last().name@, values.last().value@))
        } else {
            prev
        }
    }
}

/// The values the user set in the settings, by name; of two values for one
/// name the later counts.
pub open spec fn user_values_of(settings: Option<&OperatorSettings>) -> Map<Seq<char>, Seq<char>> {
    match settings {
        Some(s) => match s.operator_ref {
            Some(r) => pairs_map(set_pairs(r.property_values@)),
            None => Map::empty(),
        },
        None => Map::empty(),
    }
}

/// The mathematical content of a property reader: the user-set values and the
/// registry of definitions.
pub struct ReaderView {
    pub user_values: Map<Seq<char>, Seq<char>>,
    pub defaults: Map<Seq<char>, PropertyDefView>,
}

/// The default text of `name`, empty where the registry lacks the name.
pub open spec fn default_text(v: ReaderView, name: Seq<char>) -> Seq<char> {
    match default_of(v.defaults, name) {
        Some(d) => d,
        None => Seq::empty(),
    }
}

/// The text of a property: the user-set value, else the default, else empty.
pub open spec fn string_value(v: ReaderView, name: Seq<char>) -> Seq<char> {
    if v.user_values.contains_key(name) {
        v.user_values[name]
    } else {
        default_text(v, name)
    }
}

/// The value of an enumerated property: the user-set value where the registry
/// accepts it, else the default (empty where the registry lacks the name).
pub open spec fn enum_value(v: ReaderView, name: Seq<char>) -> Seq<char> {
    if v.user_values.contains_key(name) && accepts(v.defaults, name, v.user_values[name]) {
        v.user_values[name]
    } else {
        default_text(v, name)
    }
}

/// The value of an integer property: the property text read as an `i32`;
/// where the text is empty or no integer, the default read as an `i32`
/// (0 where the registry lacks the name or the default is no integer).
pub open spec fn i32_setting(v: ReaderView, name: Seq<char>) -> i32 {
    let default = match default_of(v.defaults, name) {
        Some(d) => match i32_value(d) {
            Some(x) => x,
            None => 0,
        },
        None => 0,
    };
    let value = string_value(v, name);
    if value.len() == 0 {
        default
    } else {
        match i32_value(value) {
            Some(x) => x,
            None => default,
        }
    }
}

/// Typed reader of operator properties: user-set values take precedence over
/// the defaults of the operator document.
pub struct OperatorPropertyReader {
    user_values: Vec<(String, String)>,
    defaults: PropertyRegistry,
}

impl View for OperatorPropertyReader {
    type V = ReaderView;

    closed spec fn view(&self) -> ReaderView {
        ReaderView { user_values: pairs_map(pair_views(self.user_values@)), defaults: self.defaults@ }
    }
}

impl OperatorPropertyReader {
    /// A reader of the values set in `settings`, with the defaults of the
    /// operator document; an empty value counts as unset.
    pub fn new(settings: Option<&OperatorSettings>) -> (r: Self)
        ensures
            r@.user_values == user_values_of(settings),
            r@.defaults == standard_registry(),
    {
        let mut user_values: Vec<(String, String)> = Vec::new();
        match settings {
            Some(s) => match &s.operator_ref {
                Some(op_ref) => {
                    let values = &op_ref.property_values;
                    let mut i: usize = 0;
                    assert(pair_views(user_values@) =~= set_pairs(values@.take(0)));
                    while i < values.len()
                        invariant
                            i <= values@.len(),
                            pair_views(user_values@) == set_pairs(values@.take(i as int)),
                        decreases values@.len() - i,
                    {
                        assert(values@.take(i as int + 1).drop_last() =~= values@.take(i as int));
                        let p = &values[i];
                        if !p.value.as_str().is_empty() {
                            let ghost before = pair_views(user_values@);
                            user_values.push((p.name.clone(), p.value.clone()));
                            assert(pair_views(user_values@) =~= before.push((p.name@, p.value@)));
                        }
                        i = i + 1;
                    }
                    assert(values@.take(values@.len() as int) =~= values@);
                },
                None => {
                    assert(pair_views(user_values@) =~= Seq::empty());
                },
            },
            None => {
                assert(pair_views(user_values@) =~= Seq::empty());
            },
        }
        let defaults = match registry() {
            Ok(reg) => reg,
            Err(_) => PropertyRegistry::empty(),
        };
        OperatorPropertyReader { user_values, defaults }
    }

    /// The position of the user-set value that counts for `name`.
    fn find_user(&self, name: &str) -> (r: Option<usize>)
        ensures
            r is Some <==> self@.user_values.contains_key(name@),
            r matches Some(i) ==> i < self.user_values@.len() && self.user_values@[i as int].1@
                == self@.user_values[name@],
    {
        find_last(&self.user_values, name)
    }

    /// The default text of `name`, empty where the registry lacks the name.
    fn default_string(&self, name: &str) -> (r: String)
        ensures
            r@ == default_text(self@, name@),
    {
        match self.defaults.get_default(name) {
            Some(d) => d.to_owned(),
            None => String::new(),
        }
    }

    /// The text of a property: the user-set value, else the default of the
    /// operator document, else empty.
    pub fn get_string(&self, name: &str) -> (r: String)
        ensures
            r@ == string_value(self@, name@),
    {
        match self.find_user(name) {
            Some(i) => self.user_values[i].1.clone(),
            None => self.default_string(name),
        }
    }

    /// The value of an enumerated property: the user-set value where its
    /// definition accepts it (ignoring ASCII case), otherwise the default.
    pub fn get_enum(&self, name: &str) -> (r: String)
        ensures
            r@ == enum_value(self@, name@),
    {
        match self.find_user(name) {
            Some(i) => {
                let value = &self.user_values[i].1;
                if self.defaults.is_valid_enum_value(name, value.as_str()) {
                    return value.clone();
                }
            },
            None => {},
        }
        self.default_string(name)
    }

    /// The text of a property, `None` where it is empty.
    pub fn get_optional_string(&self, name: &str) -> (r: Option<String>)
        ensures
            r is None <==> string_value(self@, name@).len() == 0,
            r matches Some(s) ==> s@ == string_value(self@, name@),
    {
        let value = self.get_string(name);
        if value.as_str().is_empty() {
            None
        } else {
            Some(value)
        }
    }

    /// The value of an integer property; an empty or unreadable text gives
    /// the default.
    pub fn get_i32(&self, name: &str) -> (r: i32)
        ensures
            r == i32_setting(self@, name@),
    {
        let value = self.get_string(name);
        let default = match self.defaults.get_default(name) {
            Some(d) => match parse_i32(d) {
                Some(x) => x,
                None => 0,
            },
            None => 0,
        };
        if value.as_str().is_empty() {
            return default;
        }
        match parse_i32(value.as_str()) {
            Some(v) => v,
            None => default,
        }
    }
}

/// A value read as an enumerated property is accepted by its definition
/// whenever the default is: an invalid user value never gets through.
pub proof fn lemma_enum_value_accepted(v: ReaderView, name: Seq<char>)
    requires
        accepts(v.defaults, name, default_text(v, name)),
    ensures
        accepts(v.defaults, name, enum_value(v, name)),
{
}

/// A user-set value takes precedence over the default, and a name without a
/// user value reads as its default.
pub proof fn lemma_user_value_precedence(v: ReaderView, name: Seq<char>)
    ensures
        v.user_values.contains_key(name) ==> string_value(v, name) == v.user_values[name],
        !v.user_values.contains_key(name) ==> string_value(v, name) == default_text(v, name),
{
}

} // verus!
