use sql_gateway::{classify, DbValue, JsonScalar, ValueKind};

#[test]
fn classify_knows_every_alias() {
    assert_eq!(classify("INT8"), ValueKind::Int64);
    assert_eq!(classify("INTEGER"), ValueKind::Int64);
    assert_eq!(classify("BIGINT"), ValueKind::Int64);
    assert_eq!(classify("INT4"), ValueKind::Int32);
    assert_eq!(classify("FLOAT4"), ValueKind::Float);
    assert_eq!(classify("FLOAT8"), ValueKind::Float);
    assert_eq!(classify("NUMERIC"), ValueKind::Float);
    assert_eq!(classify("DECIMAL"), ValueKind::Float);
    assert_eq!(classify("BOOL"), ValueKind::Bool);
    assert_eq!(classify("VARCHAR"), ValueKind::Text);
    assert_eq!(classify("TEXT"), ValueKind::Text);
    assert_eq!(classify("CHAR"), ValueKind::Text);
    assert_eq!(classify("TIMESTAMP"), ValueKind::Timestamp);
    assert_eq!(classify("TIMESTAMPTZ"), ValueKind::Timestamp);
}

#[test]
fn classify_rejects_what_is_not_in_the_table() {
    assert_eq!(classify("UUID"), ValueKind::Unsupported);
    assert_eq!(classify("JSONB"), ValueKind::Unsupported);
    assert_eq!(classify("INT2"), ValueKind::Unsupported);
    assert_eq!(classify("BYTEA"), ValueKind::Unsupported);
    assert_eq!(classify(""), ValueKind::Unsupported);
}

#[test]
fn classify_is_case_sensitive() {
    assert_eq!(classify("bigint"), ValueKind::Unsupported);
    assert_eq!(classify("int4"), ValueKind::Unsupported);
    assert_eq!(classify("Text"), ValueKind::Unsupported);
    assert_eq!(classify("Bool"), ValueKind::Unsupported);
}

#[test]
fn classify_matches_whole_names_only() {
    assert_eq!(classify("INT"), ValueKind::Unsupported);
    assert_eq!(classify("INT88"), ValueKind::Unsupported);
    assert_eq!(classify(" TEXT"), ValueKind::Unsupported);
    assert_eq!(classify("TEXT "), ValueKind::Unsupported);
    assert_eq!(classify("TIMESTAMPT"), ValueKind::Unsupported);
}

#[test]
fn integers_render_as_exact_numbers() {
    assert_eq!(DbValue::Int(1).to_json(), JsonScalar::Integer(1));
    assert_eq!(DbValue::Int(i64::MAX).to_json(), JsonScalar::Integer(i64::MAX));
    assert_eq!(DbValue::Int(i64::MIN).to_json(), JsonScalar::Integer(i64::MIN));
    assert_eq!(DbValue::Int32(-7).to_json(), JsonScalar::Integer(-7));
    assert_eq!(
        DbValue::Int32(i32::MIN).to_json(),
        JsonScalar::Integer(-2147483648)
    );
}

#[test]
fn floats_render_with_their_bits() {
    let bits = 1.5f64.to_bits();
    assert_eq!(DbValue::Float(bits).to_json(), JsonScalar::Double(bits));
    match DbValue::Float((-0.25f64).to_bits()).to_json() {
        JsonScalar::Double(b) => assert_eq!(f64::from_bits(b), -0.25),
        other => panic!("{:?}", other),
    }
}

#[test]
fn booleans_and_strings_render_as_themselves() {
    assert_eq!(DbValue::Bool(true).to_json(), JsonScalar::Bool(true));
    assert_eq!(DbValue::Bool(false).to_json(), JsonScalar::Bool(false));
    assert_eq!(
        DbValue::String("héllo".to_string()).to_json(),
        JsonScalar::Text("héllo".to_string())
    );
    assert_eq!(
        DbValue::String(String::new()).to_json(),
        JsonScalar::Text(String::new())
    );
}

#[test]
fn timestamps_render_as_the_driver_gave_them() {
    let stamp = "2024-02-29 23:59:59.123456+00";
    assert_eq!(
        DbValue::Timestamp(stamp.to_string()).to_json(),
        JsonScalar::Text(stamp.to_string())
    );
}

#[test]
fn null_and_unsupported_render_alike() {
    assert_eq!(DbValue::Null.to_json(), JsonScalar::Null);
    assert_eq!(DbValue::Unsupported.to_json(), JsonScalar::Null);
    assert_eq!(DbValue::Null.to_json(), DbValue::Unsupported.to_json());
    assert_ne!(DbValue::Int(0).to_json(), JsonScalar::Null);
    assert_ne!(DbValue::Bool(false).to_json(), JsonScalar::Null);
    assert_ne!(DbValue::String(String::new()).to_json(), JsonScalar::Null);
}
