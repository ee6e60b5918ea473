use sql_gateway::{decode_row, get_column_info, ColumnValue, DbValue, RawCell};

fn cell(name: &str, declared_type: &str) -> RawCell {
    RawCell {
        name: name.to_string(),
        declared_type: declared_type.to_string(),
        int64: None,
        int32: None,
        float_bits: None,
        boolean: None,
        text: None,
    }
}

fn full_cell(name: &str, declared_type: &str) -> RawCell {
    RawCell {
        name: name.to_string(),
        declared_type: declared_type.to_string(),
        int64: Some(64),
        int32: Some(32),
        float_bits: Some(2.5f64.to_bits()),
        boolean: Some(true),
        text: Some("txt".to_string()),
    }
}

#[test]
fn each_kind_takes_its_own_read() {
    let row = vec![
        full_cell("a", "INT8"),
        full_cell("b", "INTEGER"),
        full_cell("c", "BIGINT"),
        full_cell("d", "INT4"),
        full_cell("e", "FLOAT4"),
        full_cell("f", "FLOAT8"),
        full_cell("g", "NUMERIC"),
        full_cell("h", "DECIMAL"),
        full_cell("i", "BOOL"),
        full_cell("j", "VARCHAR"),
        full_cell("k", "TEXT"),
        full_cell("l", "CHAR"),
        full_cell("m", "TIMESTAMP"),
        full_cell("n", "TIMESTAMPTZ"),
        full_cell("o", "UUID"),
    ];
    let expected = vec![
        DbValue::Int(64),
        DbValue::Int(64),
        DbValue::Int(64),
        DbValue::Int32(32),
        DbValue::Float(2.5f64.to_bits()),
        DbValue::Float(2.5f64.to_bits()),
        DbValue::Float(2.5f64.to_bits()),
        DbValue::Float(2.5f64.to_bits()),
        DbValue::Bool(true),
        DbValue::String("txt".to_string()),
        DbValue::String("txt".to_string()),
        DbValue::String("txt".to_string()),
        DbValue::Timestamp("txt".to_string()),
        DbValue::Timestamp("txt".to_string()),
        DbValue::Unsupported,
    ];
    for idx in 0..row.len() {
        let info = get_column_info(&row, idx);
        assert_eq!(info.index, idx);
        assert_eq!(info.name, row[idx].name);
        assert_eq!(info.declared_type, row[idx].declared_type);
        assert_eq!(info.value, expected[idx]);
    }
}

#[test]
fn a_failed_read_is_null() {
    for declared in [
        "INT8",
        "INTEGER",
        "BIGINT",
        "INT4",
        "FLOAT4",
        "FLOAT8",
        "NUMERIC",
        "DECIMAL",
        "BOOL",
        "VARCHAR",
        "TEXT",
        "CHAR",
        "TIMESTAMP",
        "TIMESTAMPTZ",
    ] {
        let row = vec![cell("c", declared)];
        assert_eq!(get_column_info(&row, 0).value, DbValue::Null);
    }
}

#[test]
fn only_the_read_of_the_declared_type_counts() {
    let mut c = cell("n", "INT8");
    c.int32 = Some(5);
    c.text = Some("5".to_string());
    assert_eq!(get_column_info(&vec![c], 0).value, DbValue::Null);

    let mut c = cell("n", "INT4");
    c.int64 = Some(5);
    assert_eq!(get_column_info(&vec![c], 0).value, DbValue::Null);

    let mut c = cell("n", "TIMESTAMP");
    c.int64 = Some(1700000000);
    assert_eq!(get_column_info(&vec![c], 0).value, DbValue::Null);
}

#[test]
fn an_unknown_type_is_unsupported_whatever_was_read() {
    assert_eq!(
        get_column_info(&vec![full_cell("u", "JSONB")], 0).value,
        DbValue::Unsupported
    );
    assert_eq!(
        get_column_info(&vec![cell("u", "JSONB")], 0).value,
        DbValue::Unsupported
    );
    assert_eq!(
        get_column_info(&vec![full_cell("u", "int8")], 0).value,
        DbValue::Unsupported
    );
}

#[test]
fn the_index_names_the_cell() {
    let mut a = cell("first", "INT8");
    a.int64 = Some(1);
    let mut b = cell("second", "INT8");
    b.int64 = Some(2);
    let row = vec![a, b];
    assert_eq!(
        get_column_info(&row, 1),
        ColumnValue {
            index: 1,
            name: "second".to_string(),
            declared_type: "INT8".to_string(),
            value: DbValue::Int(2),
        }
    );
    assert_eq!(
        get_column_info(&row, 0),
        ColumnValue {
            index: 0,
            name: "first".to_string(),
            declared_type: "INT8".to_string(),
            value: DbValue::Int(1),
        }
    );
}

#[test]
fn a_row_decodes_cell_by_cell_in_order() {
    let mut id = cell("id", "INT4");
    id.int32 = Some(7);
    let title = cell("title", "TEXT");
    let mut price = cell("price", "FLOAT8");
    price.float_bits = Some(9.75f64.to_bits());
    let blob = full_cell("blob", "BYTEA");
    let decoded = decode_row(&vec![id, title, price, blob]);
    assert_eq!(
        decoded,
        vec![
            ColumnValue {
                index: 0,
                name: "id".to_string(),
                declared_type: "INT4".to_string(),
                value: DbValue::Int32(7),
            },
            ColumnValue {
                index: 1,
                name: "title".to_string(),
                declared_type: "TEXT".to_string(),
                value: DbValue::Null,
            },
            ColumnValue {
                index: 2,
                name: "price".to_string(),
                declared_type: "FLOAT8".to_string(),
                value: DbValue::Float(9.75f64.to_bits()),
            },
            ColumnValue {
                index: 3,
                name: "blob".to_string(),
                declared_type: "BYTEA".to_string(),
                value: DbValue::Unsupported,
            },
        ]
    );
}

#[test]
fn an_empty_row_decodes_to_nothing() {
    assert_eq!(decode_row(&Vec::new()), Vec::new());
}

#[test]
fn a_failed_cell_leaves_its_neighbours_alone() {
    let mut a = cell("a", "INT8");
    a.int64 = Some(10);
    let mut b = cell("b", "BOOL");
    b.boolean = Some(false);
    let with_both = decode_row(&vec![a.clone(), b.clone()]);
    let with_failed = decode_row(&vec![cell("a", "INT8"), b]);
    assert_eq!(with_both[0].value, DbValue::Int(10));
    assert_eq!(with_failed[0].value, DbValue::Null);
    assert_eq!(with_both[1], with_failed[1]);
    assert_eq!(with_failed[1].value, DbValue::Bool(false));
}
