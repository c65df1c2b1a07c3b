use domo_pitchfork::dataset::{map_type_to_domo_type, DatasetSchema, DomoDataType, FieldType, Schema};
use domo_pitchfork::sample::{check_field_type, is_float_text};

#[test]
fn dataset_test_fieldtype_merge() {
    let cases = [
        (FieldType::TNull, FieldType::TInteger, FieldType::TInteger),
        (FieldType::TFloat, FieldType::TNull, FieldType::TFloat),
        (FieldType::TInteger, FieldType::TFloat, FieldType::TFloat),
        (FieldType::TFloat, FieldType::TInteger, FieldType::TFloat),
        (FieldType::TDateTime, FieldType::TDate, FieldType::TDate),
        (FieldType::TDate, FieldType::TInteger, FieldType::TUnicode),
        (FieldType::TUnicode, FieldType::TFloat, FieldType::TUnicode),
        (FieldType::TUnknown, FieldType::TInteger, FieldType::TUnknown),
        (FieldType::TInteger, FieldType::TUnknown, FieldType::TUnknown),
        (FieldType::TNull, FieldType::TUnknown, FieldType::TUnknown),
        (FieldType::TDate, FieldType::TDate, FieldType::TDate),
    ];
    for (a, b, expected) in cases {
        let mut t = a;
        t.merge(b);
        assert_eq!(t, expected, "{:?} merged with {:?}", a, b);
    }
}

#[test]
fn dataset_test_fieldtype_from_sample() {
    assert_eq!(FieldType::TUnicode, FieldType::from_sample("abc123!".as_bytes()));
    assert_eq!(FieldType::TInteger, FieldType::from_sample("123".as_bytes()));
    assert_eq!(FieldType::TFloat, FieldType::from_sample("1.23".as_bytes()));
    assert_eq!(FieldType::TDate, FieldType::from_sample("2019-07-10".as_bytes()));
    assert_eq!(FieldType::TDate, FieldType::from_sample("7/10/19".as_bytes()));
    assert_eq!(FieldType::TDate, FieldType::from_sample("7/10/2019".as_bytes()));
    assert_eq!(FieldType::TDate, FieldType::from_sample("8-Jul-2019".as_bytes()));
    assert_eq!(FieldType::TDateTime, FieldType::from_sample("2019-07-10T16:39:57-08:00".as_bytes()));
    assert_eq!(FieldType::TDateTime, FieldType::from_sample("2019-07-10T16:39:57Z".as_bytes()));
}

#[test]
fn test_fieldtype_from_sample() {
    assert_eq!(FieldType::TNull, FieldType::from_sample(b""));
    assert_eq!(FieldType::TUnknown, FieldType::from_sample(&[0xff, 0xfe]));
    assert_eq!(FieldType::TInteger, FieldType::from_sample(b"-9223372036854775808"));
    assert_eq!(FieldType::TFloat, FieldType::from_sample(b"9223372036854775808"));
    assert_eq!(FieldType::TFloat, FieldType::from_sample(b"inf"));
    assert_eq!(FieldType::TDateTime, FieldType::from_sample(b"2019-07-10T16:39:57"));
}

#[test]
fn from_text_decides_by_precedence() {
    assert_eq!(FieldType::from_text("42", true, true, true, true), FieldType::TInteger);
    assert_eq!(FieldType::from_text("4.2", true, true, true, true), FieldType::TFloat);
    assert_eq!(FieldType::from_text("x", false, true, true, false), FieldType::TDateTime);
    assert_eq!(FieldType::from_text("x", false, false, false, true), FieldType::TDate);
    assert_eq!(FieldType::from_text("x", false, false, false, false), FieldType::TUnicode);
}

#[test]
fn float_text_follows_the_grammar() {
    for ok in ["1", "1.", ".5", "-1.5e10", "+2E-3", "inf", "-Infinity", "NaN", "1e5"] {
        assert!(is_float_text(ok), "{}", ok);
        assert!(ok.parse::<f64>().is_ok());
    }
    for bad in ["", ".", "e5", "1e", "1.5.2", "--1", "infinit", " 1", "1_0", "+"] {
        assert!(!is_float_text(bad), "{}", bad);
        assert!(bad.parse::<f64>().is_err());
    }
}

#[test]
fn dataset_test_check_fieldtype() {
    let mut cols: Vec<(String, FieldType)> = Vec::new();
    let rec1 = vec![
        ("id".to_string(), "1".to_string()),
        ("price".to_string(), "2".to_string()),
        ("note".to_string(), "".to_string()),
    ];
    assert!(check_field_type(&rec1, &mut cols).is_ok());
    assert_eq!(
        cols,
        vec![
            ("id".to_string(), FieldType::TInteger),
            ("price".to_string(), FieldType::TInteger),
            ("note".to_string(), FieldType::TNull),
        ]
    );
    let rec2 = vec![
        ("price".to_string(), "2.5".to_string()),
        ("note".to_string(), "hello".to_string()),
        ("day".to_string(), "2019-07-10".to_string()),
    ];
    assert!(check_field_type(&rec2, &mut cols).is_ok());
    assert_eq!(
        cols,
        vec![
            ("id".to_string(), FieldType::TInteger),
            ("price".to_string(), FieldType::TFloat),
            ("note".to_string(), FieldType::TUnicode),
            ("day".to_string(), FieldType::TDate),
        ]
    );
}

#[test]
fn dataset_test_schema_from_hashmap() {
    let cols = vec![
        ("a".to_string(), FieldType::TInteger),
        ("b".to_string(), FieldType::TFloat),
        ("c".to_string(), FieldType::TNull),
        ("d".to_string(), FieldType::TDateTime),
    ];
    let s = Schema::from_hashmap(&cols);
    let got: Vec<(String, String)> =
        s.columns.iter().map(|c| (c.name.clone(), c.column_type.clone())).collect();
    assert_eq!(
        got,
        vec![
            ("a".to_string(), "LONG".to_string()),
            ("b".to_string(), "DECIMAL".to_string()),
            ("c".to_string(), "STRING".to_string()),
            ("d".to_string(), "DATETIME".to_string()),
        ]
    );
}

#[test]
fn dataset_test_datasetschema_from_hashmap() {
    let cols = vec![("when".to_string(), FieldType::TDate)];
    let d = DatasetSchema::from_hashmap("test dataset".to_string(), "test description".to_string(), &cols);
    assert_eq!(d.name, "test dataset");
    assert_eq!(d.description, "test description");
    assert_eq!(d.rows, 0);
    assert_eq!(d.schema.columns.len(), 1);
    assert_eq!(d.schema.columns[0].name, "when");
    assert_eq!(d.schema.columns[0].column_type, "DATE");
}

#[test]
fn domo_type_names() {
    assert_eq!(DomoDataType::from_fieldtype(FieldType::TUnknown), DomoDataType::STRING);
    assert_eq!(DomoDataType::from_fieldtype(FieldType::TFloat).to_string(), "DECIMAL");
    assert_eq!(DomoDataType::DOUBLE.to_string(), "DOUBLE");
    assert!(FieldType::TInteger.is_number());
    assert!(!FieldType::TDate.is_number());
    assert!(FieldType::TNull.is_null());
    assert_eq!(FieldType::default(), FieldType::TNull);
}

#[test]
fn rust_types_map_to_column_types() {
    assert_eq!(map_type_to_domo_type("i64".to_string()), "LONG");
    assert_eq!(map_type_to_domo_type("u8".to_string()), "LONG");
    assert_eq!(map_type_to_domo_type("f32".to_string()), "DOUBLE");
    assert_eq!(map_type_to_domo_type("String".to_string()), "STRING");
    assert_eq!(map_type_to_domo_type("i6".to_string()), "STRING");
}

#[test]
fn test_fieldtype_merge() {
    let all = [
        FieldType::TUnknown,
        FieldType::TNull,
        FieldType::TUnicode,
        FieldType::TFloat,
        FieldType::TInteger,
        FieldType::TDate,
        FieldType::TDateTime,
    ];
    for a in all {
        for b in all {
            let mut ab = a;
            ab.merge(b);
            let mut ba = b;
            ba.merge(a);
            assert_eq!(ab, ba, "{:?} {:?}", a, b);
        }
        let mut with_null = a;
        with_null.merge(FieldType::TNull);
        assert_eq!(with_null, a);
        let mut same = a;
        same.merge(a);
        assert_eq!(same, a);
    }
}

#[test]
fn test_check_fieldtype() {
    let mut cols: Vec<(String, FieldType)> = vec![("n".to_string(), FieldType::TDateTime)];
    let rec = vec![("n".to_string(), "2019-07-10".to_string()), ("m".to_string(), "x".to_string())];
    assert!(check_field_type(&rec, &mut cols).is_ok());
    assert_eq!(cols, vec![("n".to_string(), FieldType::TDate), ("m".to_string(), FieldType::TUnicode)]);
    let empty: Vec<(String, String)> = Vec::new();
    assert!(check_field_type(&empty, &mut cols).is_ok());
    assert_eq!(cols.len(), 2);
}

#[test]
fn test_schema_from_hashmap() {
    let cols: Vec<(String, FieldType)> = Vec::new();
    assert!(Schema::from_hashmap(&cols).columns.is_empty());
    let cols = vec![("u".to_string(), FieldType::TUnknown)];
    assert_eq!(Schema::from_hashmap(&cols).columns[0].column_type, "STRING");
}

#[test]
fn test_datasetschema_from_hashmap() {
    let cols: Vec<(String, FieldType)> = Vec::new();
    let d = DatasetSchema::from_hashmap(String::new(), String::new(), &cols);
    assert_eq!(d.rows, 0);
    assert!(d.schema.columns.is_empty());
}
