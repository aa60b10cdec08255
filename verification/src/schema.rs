//! Table schemas of the plotting host: row counts, column names, and which
//! computed tables hold axis ranges or colors.

use crate::text::{parse_usize, starts_with, str_eq, unsigned_value};
use vstd::prelude::*;
use vstd::string::StrSliceExecFns;

verus! {

/// A column of a table schema.
#[derive(Debug, Clone)]
pub struct ColumnSchema {
    pub name: String,
    pub column_type: String,
}

/// The kinds of column schema entries.
#[derive(Debug, Clone)]
pub enum ColumnSchemaObject {
    Columnschema(ColumnSchema),
    /// Any other kind of column entry.
    Other,
}

/// A column schema entry.
#[derive(Debug, Clone)]
pub struct EColumnSchema {
    pub object: Option<ColumnSchemaObject>,
}

/// A stored table.
#[derive(Debug, Clone)]
pub struct TableSchema {
    pub id: String,
    pub n_rows: i32,
    pub columns: Vec<EColumnSchema>,
}

/// A table computed from other tables.
#[derive(Debug, Clone)]
pub struct ComputedTableSchema {
    pub id: String,
    pub n_rows: i32,
    pub columns: Vec<EColumnSchema>,
}

/// A table computed by a cube query; `query_table_type` says what it holds
/// (`y`, `x`, `color_0`, ...).
#[derive(Debug, Clone)]
pub struct CubeQueryTableSchema {
    pub id: String,
    pub n_rows: i32,
    pub columns: Vec<EColumnSchema>,
    pub query_table_type: String,
}

/// A schema of no particular kind.
#[derive(Debug, Clone)]
pub struct Schema {
    pub id: String,
}

/// The kinds of schema.
#[derive(Debug, Clone)]
pub enum SchemaObject {
    Tableschema(TableSchema),
    Computedtableschema(ComputedTableSchema),
    Cubequerytableschema(CubeQueryTableSchema),
    Schema(Schema),
}

/// A schema as the host sends it.
#[derive(Debug, Clone)]
pub struct ESchema {
    pub object: Option<SchemaObject>,
}

/// Why a schema gives no answer.
#[derive(Debug, Clone, Copy, PartialEq, Eq, Structural)]
pub enum SchemaError {
    /// The schema has no object.
    NoSchemaObject,
    /// The schema is of the plain kind, which has no row count.
    UnsupportedSchema,
    /// The schema is not a cube query table.
    NotCubeQueryTable,
}

impl SchemaError {
    /// A description of the error.
    pub fn message(&self) -> (r: &'static str)
        ensures
            *self == SchemaError::NoSchemaObject ==> r@ == "Schema object is None"@,
            *self == SchemaError::UnsupportedSchema ==> r@ == "Schema variant not supported"@,
            *self == SchemaError::NotCubeQueryTable ==> r@ == "Schema is not a CubeQueryTableSchema"@,
    {
        match self {
            SchemaError::NoSchemaObject => "Schema object is None",
            SchemaError::UnsupportedSchema => "Schema variant not supported",
            SchemaError::NotCubeQueryTable => "Schema is not a CubeQueryTableSchema",
        }
    }
}

/// The row count a schema declares, for the kinds that declare one.
pub open spec fn declared_rows(schema: ESchema) -> Option<i32> {
    match schema.object {
        Some(SchemaObject::Tableschema(t)) => Some(t.n_rows),
        Some(SchemaObject::Computedtableschema(t)) => Some(t.n_rows),
        Some(SchemaObject::Cubequerytableschema(t)) => Some(t.n_rows),
        _ => None,
    }
}

/// The names of the plain column entries of a column list, in order.
pub open spec fn column_names_of(columns: Seq<EColumnSchema>) -> Seq<Seq<char>>
    decreases columns.len(),
{
    if columns.len() == 0 {
        Seq::empty()
    } else {
        let prev = column_names_of(columns.drop_last());
        match columns.last().object {
            Some(ColumnSchemaObject::Columnschema(cs)) => prev.push(cs.name@),
            _ => prev,
        }
    }
}

/// The row count of a table from its schema.
pub fn extract_row_count_from_schema(schema: &ESchema) -> (r: Result<i64, SchemaError>)
    ensures
        match declared_rows(*schema) {
            Some(n) => r == Ok::<i64, SchemaError>(n as i64),
            None => r == Err::<i64, SchemaError>(
                if schema.object is None {
                    SchemaError::NoSchemaObject
                } else {
                    SchemaError::UnsupportedSchema
                },
            ),
        },
{
    match &schema.object {
        Some(SchemaObject::Tableschema(ts)) => Ok(ts.n_rows as i64),
        Some(SchemaObject::Computedtableschema(cts)) => Ok(cts.n_rows as i64),
        Some(SchemaObject::Cubequerytableschema(cqts)) => Ok(cqts.n_rows as i64),
        Some(SchemaObject::Schema(_)) => Err(SchemaError::UnsupportedSchema),
        None => Err(SchemaError::NoSchemaObject),
    }
}

/// The row count of a facet table: the declared count, 0 for a schema that
/// declares none.
pub fn facet_row_count(schema: &ESchema) -> (r: usize)
    ensures
        r == (match declared_rows(*schema) {
            Some(n) => n as usize,
            None => 0,
        }),
{
    match &schema.object {
        Some(SchemaObject::Tableschema(ts)) => ts.n_rows as usize,
        Some(SchemaObject::Computedtableschema(cts)) => cts.n_rows as usize,
        Some(SchemaObject::Cubequerytableschema(cqts)) => cqts.n_rows as usize,
        _ => 0,
    }
}

/// The names of the plain column entries, in order.
pub fn column_names(columns: &Vec<EColumnSchema>) -> (r: Vec<String>)
    ensures
        crate::text::views(r@) == column_names_of(columns@),
{
    let mut names: Vec<String> = Vec::new();
    let mut i: usize = 0;
    while i < columns.len()
        invariant
            i <= columns@.len(),
            crate::text::views(names@) == column_names_of(columns@.take(i as int)),
        decreases columns@.len() - i,
    {
        assert(columns@.take(i as int + 1).drop_last() =~= columns@.take(i as int));
        match &columns[i].object {
            Some(ColumnSchemaObject::Columnschema(cs)) => {
                let ghost before = crate::text::views(names@);
                names.push(cs.name.clone());
                assert(crate::text::views(names@) =~= before.push(cs.name@));
            },
            _ => {},
        }
        i = i + 1;
    }
    assert(columns@.take(columns@.len() as int) =~= columns@);
    names
}

/// The column names of a cube query table.
pub fn extract_column_names_from_schema(schema: &ESchema) -> (r: Result<Vec<String>, SchemaError>)
    ensures
        match schema.object {
            Some(SchemaObject::Cubequerytableschema(t)) => r matches Ok(names)
                && crate::text::views(names@) == column_names_of(t.columns@),
            _ => r == Err::<Vec<String>, SchemaError>(SchemaError::NotCubeQueryTable),
        },
{
    match &schema.object {
        Some(SchemaObject::Cubequerytableschema(cqts)) => Ok(column_names(&cqts.columns)),
        _ => Err(SchemaError::NotCubeQueryTable),
    }
}

/// The identifier of the table a schema describes.
pub fn schema_id(schema: &ESchema) -> (r: Option<String>)
    ensures
        match schema.object {
            Some(SchemaObject::Tableschema(t)) => r == Some(t.id),
            Some(SchemaObject::Computedtableschema(t)) => r == Some(t.id),
            Some(SchemaObject::Cubequerytableschema(t)) => r == Some(t.id),
            Some(SchemaObject::Schema(t)) => r == Some(t.id),
            None => r is None,
        },
{
    match &schema.object {
        Some(SchemaObject::Tableschema(ts)) => Some(ts.id.clone()),
        Some(SchemaObject::Computedtableschema(cts)) => Some(cts.id.clone()),
        Some(SchemaObject::Cubequerytableschema(cqts)) => Some(cqts.id.clone()),
        Some(SchemaObject::Schema(s)) => Some(s.id.clone()),
        None => None,
    }
}

/// How a column entry is shown: `name(type)` for a plain column, `?` for any
/// other entry.
pub open spec fn column_label(col: EColumnSchema) -> Seq<char> {
    match col.object {
        Some(ColumnSchemaObject::Columnschema(cs)) => cs.name@ + "("@ + cs.column_type@ + ")"@,
        _ => "?"@,
    }
}

/// Shows a column entry as `name(type)`, or `?` for any other entry.
pub fn format_column(col: &EColumnSchema) -> (r: String)
    ensures
        r@ == column_label(*col),
{
    match &col.object {
        Some(ColumnSchemaObject::Columnschema(cs)) => {
            let mut out = cs.name.clone();
            out.append("(");
            out.append(cs.column_type.as_str());
            out.append(")");
            out
        },
        _ => "?".to_string(),
    }
}

/// The schema is a cube query table of the given type (`y`, `x`, ...).
pub open spec fn is_query_table_of(schema: ESchema, table_type: Seq<char>) -> bool {
    match schema.object {
        Some(SchemaObject::Cubequerytableschema(t)) => t.query_table_type@ == table_type,
        _ => false,
    }
}

/// Whether a schema is the cube query table of the given type, such as the
/// Y-axis range table (`y`) or the X-axis range table (`x`).
pub fn is_axis_table(schema: &ESchema, table_type: &str) -> (r: bool)
    ensures
        r == is_query_table_of(*schema, table_type@),
{
    match &schema.object {
        Some(SchemaObject::Cubequerytableschema(cqts)) => str_eq(
            cqts.query_table_type.as_str(),
            table_type,
        ),
        _ => false,
    }
}

/// The identifiers that are none of the three known tables, in order.
pub open spec fn unknown_ids(
    ids: Seq<String>,
    known: (Seq<char>, Seq<char>, Seq<char>),
) -> Seq<Seq<char>>
    decreases ids.len(),
{
    if ids.len() == 0 {
        Seq::empty()
    } else {
        let prev = unknown_ids(ids.drop_last(), known);
        let id = ids.last()@;
        if id == known.0 || id == known.1 || id == known.2 {
            prev
        } else {
            prev.push(id)
        }
    }
}

/// The schema identifiers worth inspecting for an axis table: those that are
/// neither the main table nor the column or row facet table, in order.
pub fn axis_table_candidates(
    schema_ids: &Vec<String>,
    qt_hash: &str,
    column_hash: &str,
    row_hash: &str,
) -> (r: Vec<String>)
    ensures
        crate::text::views(r@) == unknown_ids(schema_ids@, (qt_hash@, column_hash@, row_hash@)),
{
    let ghost known = (qt_hash@, column_hash@, row_hash@);
    let mut out: Vec<String> = Vec::new();
    let mut i: usize = 0;
    while i < schema_ids.len()
        invariant
            i <= schema_ids@.len(),
            known == (qt_hash@, column_hash@, row_hash@),
            crate::text::views(out@) == unknown_ids(schema_ids@.take(i as int), known),
        decreases schema_ids@.len() - i,
    {
        assert(schema_ids@.take(i as int + 1).drop_last() =~= schema_ids@.take(i as int));
        let id = schema_ids[i].as_str();
        if !(str_eq(id, qt_hash) || str_eq(id, column_hash) || str_eq(id, row_hash)) {
            let ghost before = crate::text::views(out@);
            out.push(schema_ids[i].clone());
            assert(crate::text::views(out@) =~= before.push(schema_ids@[i as int]@));
        }
        i = i + 1;
    }
    assert(schema_ids@.take(schema_ids@.len() as int) =~= schema_ids@);
    out
}

/// The index of a color table: the number after `color_` in its query table
/// type, read as `usize` parsing reads it.
pub open spec fn color_index_of(schema: ESchema) -> Option<usize> {
    match schema.object {
        Some(SchemaObject::Cubequerytableschema(t)) => {
            let ty = t.query_table_type@;
            if ty.len() >= 6 && ty.subrange(0, 6) == "color_"@ {
                match unsigned_value(ty.skip(6), usize::MAX as nat) {
                    Some(v) => Some(v as usize),
                    None => None,
                }
            } else {
                None
            }
        },
        _ => None,
    }
}

/// The index of a color table, `None` for a schema that is no color table.
pub fn color_table_index(schema: &ESchema) -> (r: Option<usize>)
    ensures
        r == color_index_of(*schema),
{
    match &schema.object {
        Some(SchemaObject::Cubequerytableschema(cqts)) => {
            let ty = cqts.query_table_type.as_str();
            proof {
                reveal_strlit("color_");
            }
            if starts_with(ty, "color_") {
                let n = ty.unicode_len();
                let rest = ty.substring_char(6, n);
                assert(rest@ =~= ty@.skip(6));
                parse_usize(rest)
            } else {
                None
            }
        },
        _ => None,
    }
}

/// Records the table of color factor `idx`, growing the list with empty
/// entries as far as needed.
pub fn record_color_table(ids: &mut Vec<Option<String>>, idx: usize, id: String)
    requires
        idx < usize::MAX,
    ensures
        final(ids)@.len() == if old(ids)@.len() > idx {
            old(ids)@.len() as int
        } else {
            idx + 1
        },
        final(ids)@[idx as int] == Some(id),
        forall|j: int|
            0 <= j < final(ids)@.len() && j != idx ==> #[trigger] final(ids)@[j] == (
            if j < old(ids)@.len() {
                old(ids)@[j]
            } else {
                None::<String>
            }),
{
    while ids.len() <= idx
        invariant
            idx < usize::MAX,
            old(ids)@.len() <= ids@.len(),
            ids@.len() <= (if old(ids)@.len() > idx {
                old(ids)@.len() as int
            } else {
                idx + 1
            }),
            forall|j: int|
                0 <= j < ids@.len() ==> #[trigger] ids@[j] == (if j < old(ids)@.len() {
                    old(ids)@[j]
                } else {
                    None::<String>
                }),
        decreases idx + 1 - ids@.len(),
    {
        ids.push(None);
    }
    ids.set(idx, Some(id));
}

} // verus!
