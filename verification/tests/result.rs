use ggrs_plot_operator::result::{
    result_file, result_row, result_row_from_encoded, tson_list_type, ResultValue,
};

#[test]
fn result_row_columns() {
    let row = result_row_from_encoded("QUJD".to_string(), "ns", 800, 600);
    let names: Vec<&str> = row.iter().map(|c| c.name.as_str()).collect();
    assert_eq!(
        names,
        vec![".content", "ns.filename", "ns.mimetype", "ns.plot_width", "ns.plot_height"]
    );
    assert_eq!(row[0].value, ResultValue::Text("QUJD".to_string()));
    assert_eq!(row[1].value, ResultValue::Text("plot.png".to_string()));
    assert_eq!(row[2].value, ResultValue::Text("image/png".to_string()));
    assert_eq!(row[3].value, ResultValue::Pixels(800));
    assert_eq!(row[4].value, ResultValue::Pixels(600));
}

#[test]
fn image_is_encoded_as_padded_base64() {
    let row = result_row(&b"ABC".to_vec(), "op", 1, 2);
    assert_eq!(row[0].value, ResultValue::Text("QUJD".to_string()));
    let row = result_row(&vec![0xFF, 0x00], "op", 1, 2);
    assert_eq!(row[0].value, ResultValue::Text("/wA=".to_string()));
    let row = result_row(&vec![], "op", 1, 2);
    assert_eq!(row[0].value, ResultValue::Text(String::new()));
    let png = vec![0x89, b'P', b'N', b'G', 13, 10, 26, 10];
    let row = result_row(&png, "op", 1, 2);
    assert_eq!(row[0].value, ResultValue::Text("iVBORw0KGgo=".to_string()));
}

#[test]
fn tson_list_types() {
    assert_eq!(tson_list_type("int32"), Some(105));
    assert_eq!(tson_list_type("int64"), Some(106));
    assert_eq!(tson_list_type("double"), Some(111));
    assert_eq!(tson_list_type("string"), Some(112));
    assert_eq!(tson_list_type("uint8"), None);
}

#[test]
fn result_file_document() {
    let f = result_file("proj", 1234);
    assert_eq!(f.name, "result");
    assert_eq!(f.project_id, "proj");
    assert_eq!(f.size, 1234);
    assert_eq!(f.content_type, "application/octet-stream");
}
