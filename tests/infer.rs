use domo_pitchfork::dataset::{Column, FieldType, Schema};
use domo_pitchfork::infer::{columns_for_headers, dataset_schema, infer_column_types, inferred_dataset_schema};

fn rec(pairs: &[(&str, &str)]) -> Vec<(String, String)> {
    pairs.iter().map(|(k, v)| (k.to_string(), v.to_string())).collect()
}

#[test]
fn types_are_inferred_over_all_records() {
    let records = vec![
        rec(&[("name", "Sample Data"), ("count", "0"), ("ratio", "1")]),
        rec(&[("name", "Test AB"), ("count", "1"), ("ratio", "0.5")]),
    ];
    let cols = infer_column_types(&records);
    assert_eq!(
        cols,
        vec![
            ("name".to_string(), FieldType::TUnicode),
            ("count".to_string(), FieldType::TInteger),
            ("ratio".to_string(), FieldType::TFloat),
        ]
    );
}

#[test]
fn columns_follow_header_order() {
    let cols = vec![("b".to_string(), FieldType::TInteger), ("a".to_string(), FieldType::TDate)];
    let headers = vec!["a".to_string(), "b".to_string(), "c".to_string()];
    let got: Vec<(String, String)> =
        columns_for_headers(&headers, &cols).into_iter().map(|c| (c.name, c.column_type)).collect();
    assert_eq!(
        got,
        vec![
            ("a".to_string(), "STRING".to_string()),
            ("b".to_string(), "LONG".to_string()),
            ("c".to_string(), "STRING".to_string()),
        ]
    );
}

#[test]
fn inferred_schema_uses_fallback_description() {
    let records = vec![rec(&[("x", "1.5")])];
    let headers = vec!["x".to_string()];
    let d = inferred_dataset_schema("ds".to_string(), None, "generated dataset", &headers, &records);
    assert_eq!(d.description, "generated dataset");
    assert_eq!(d.schema.columns[0].column_type, "DOUBLE");
    let d = inferred_dataset_schema("ds".to_string(), Some("mine".to_string()), "generated", &headers, &records);
    assert_eq!(d.description, "mine");
}

#[test]
fn schemas_compare_by_columns() {
    let col = |t: &str, n: &str| Column { column_type: t.to_string(), name: n.to_string() };
    let a = Schema { columns: vec![col("LONG", "a"), col("STRING", "b")] };
    let b = Schema { columns: vec![col("LONG", "a"), col("STRING", "b")] };
    let c = Schema { columns: vec![col("LONG", "a"), col("DOUBLE", "b")] };
    let d = Schema { columns: vec![col("LONG", "a")] };
    assert!(dataset_schema(&a, &b));
    assert!(!dataset_schema(&a, &c));
    assert!(!dataset_schema(&a, &d));
}
