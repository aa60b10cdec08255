use ggrs_plot_operator::schema::{
    axis_table_candidates, color_table_index, column_names, extract_column_names_from_schema,
    extract_row_count_from_schema, facet_row_count, format_column, is_axis_table,
    record_color_table, schema_id, ColumnSchema, ColumnSchemaObject, ComputedTableSchema,
    CubeQueryTableSchema, EColumnSchema, ESchema, Schema, SchemaError, SchemaObject, TableSchema,
};

fn col(name: &str, ty: &str) -> EColumnSchema {
    EColumnSchema {
        object: Some(ColumnSchemaObject::Columnschema(ColumnSchema {
            name: name.to_string(),
            column_type: ty.to_string(),
        })),
    }
}

fn query_table(id: &str, n_rows: i32, ty: &str, columns: Vec<EColumnSchema>) -> ESchema {
    ESchema {
        object: Some(SchemaObject::Cubequerytableschema(CubeQueryTableSchema {
            id: id.to_string(),
            n_rows,
            columns,
            query_table_type: ty.to_string(),
        })),
    }
}

fn strings(v: &[&str]) -> Vec<String> {
    v.iter().map(|s| s.to_string()).collect()
}

#[test]
fn row_counts_of_schemas() {
    let t = ESchema {
        object: Some(SchemaObject::Tableschema(TableSchema {
            id: "t".to_string(),
            n_rows: 42,
            columns: vec![],
        })),
    };
    assert_eq!(extract_row_count_from_schema(&t), Ok(42));
    let c = ESchema {
        object: Some(SchemaObject::Computedtableschema(ComputedTableSchema {
            id: "c".to_string(),
            n_rows: 7,
            columns: vec![],
        })),
    };
    assert_eq!(extract_row_count_from_schema(&c), Ok(7));
    assert_eq!(extract_row_count_from_schema(&query_table("q", 3, "y", vec![])), Ok(3));
    let plain = ESchema { object: Some(SchemaObject::Schema(Schema { id: "s".to_string() })) };
    assert_eq!(extract_row_count_from_schema(&plain), Err(SchemaError::UnsupportedSchema));
    let none = ESchema { object: None };
    assert_eq!(extract_row_count_from_schema(&none), Err(SchemaError::NoSchemaObject));
    assert_eq!(facet_row_count(&c), 7);
    assert_eq!(facet_row_count(&plain), 0);
    assert_eq!(SchemaError::NoSchemaObject.message(), "Schema object is None");
}

#[test]
fn column_names_of_query_tables() {
    let other = EColumnSchema { object: Some(ColumnSchemaObject::Other) };
    let s = query_table("q", 1, "", vec![col(".ci", "int32"), other, col(".y", "double")]);
    assert_eq!(extract_column_names_from_schema(&s), Ok(strings(&[".ci", ".y"])));
    let t = ESchema {
        object: Some(SchemaObject::Tableschema(TableSchema {
            id: "t".to_string(),
            n_rows: 0,
            columns: vec![col("a", "string")],
        })),
    };
    assert_eq!(extract_column_names_from_schema(&t), Err(SchemaError::NotCubeQueryTable));
    assert_eq!(column_names(&vec![col("a", "string")]), strings(&["a"]));
}

#[test]
fn format_columns() {
    assert_eq!(format_column(&col("Age", "double")), "Age(double)");
    assert_eq!(format_column(&EColumnSchema { object: None }), "?");
    assert_eq!(format_column(&EColumnSchema { object: Some(ColumnSchemaObject::Other) }), "?");
}

#[test]
fn schema_ids_and_axis_tables() {
    assert_eq!(schema_id(&query_table("q1", 1, "y", vec![])), Some("q1".to_string()));
    assert_eq!(schema_id(&ESchema { object: None }), None);
    assert!(is_axis_table(&query_table("q1", 1, "y", vec![]), "y"));
    assert!(!is_axis_table(&query_table("q1", 1, "x", vec![]), "y"));
    let ids = strings(&["qt", "a", "col", "b", "row"]);
    assert_eq!(axis_table_candidates(&ids, "qt", "col", "row"), strings(&["a", "b"]));
}

#[test]
fn color_tables_by_index() {
    assert_eq!(color_table_index(&query_table("c", 1, "color_0", vec![])), Some(0));
    assert_eq!(color_table_index(&query_table("c", 1, "color_12", vec![])), Some(12));
    assert_eq!(color_table_index(&query_table("c", 1, "color_", vec![])), None);
    assert_eq!(color_table_index(&query_table("c", 1, "color_x", vec![])), None);
    assert_eq!(color_table_index(&query_table("c", 1, "y", vec![])), None);
    let mut ids: Vec<Option<String>> = vec![];
    record_color_table(&mut ids, 2, "t2".to_string());
    assert_eq!(ids, vec![None, None, Some("t2".to_string())]);
    record_color_table(&mut ids, 0, "t0".to_string());
    assert_eq!(ids, vec![Some("t0".to_string()), None, Some("t2".to_string())]);
}
