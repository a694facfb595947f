use datars::dates::cast_datetime_to_date;
use datars::rows::from_map;
use datars::rows::from_string_map;
use datars::url::Cache;
use datars::url::UrlReader;
use datars::validate::has_cols;
use datars::validate::has_length;
use datars::validate::has_shape;
use datars::validate::validate;
use datars::validate::Comparison;
use datars::validate::ValidationError;

#[test]
fn from_iter() {
    let vals = vec![(
        "50+ yr".to_string(),
        vec!["50-64 years".to_string(), "65+ years".to_string()],
    )];
    let rows = from_string_map(&vals);
    assert_eq!(rows.len(), 2);
    assert_eq!(rows[0], ("50+ yr".to_string(), "50-64 years".to_string()));
    assert_eq!(rows[1], ("50+ yr".to_string(), "65+ years".to_string()));
}

#[test]
fn from_iter_numeric() {
    let vals = vec![("hi".to_string(), vec![1_u32, 2_u32, 3_u32])];
    let rows = from_map(&vals);
    assert_eq!(
        rows,
        vec![
            ("hi".to_string(), 1_u32),
            ("hi".to_string(), 2_u32),
            ("hi".to_string(), 3_u32),
        ]
    );
}

#[test]
fn from_map_keeps_group_order() {
    let vals = vec![
        ("a".to_string(), vec![1_u8, 2_u8]),
        ("b".to_string(), vec![]),
        ("c".to_string(), vec![3_u8]),
    ];
    let rows = from_map(&vals);
    assert_eq!(
        rows,
        vec![
            ("a".to_string(), 1_u8),
            ("a".to_string(), 2_u8),
            ("c".to_string(), 3_u8),
        ]
    );
}

#[test]
fn test_cast_datetime() {
    assert_eq!(cast_datetime_to_date("2024-02-03T00:00:00.000"), "2024-02-03");
}

#[test]
fn cast_datetime_without_time_part_is_whole() {
    assert_eq!(cast_datetime_to_date("2024-02-03"), "2024-02-03");
    assert_eq!(cast_datetime_to_date(""), "");
    assert_eq!(cast_datetime_to_date("T12:00"), "");
}

#[test]
fn shape_check() {
    assert_eq!(has_shape((2, 3), (2, 3)), Ok(()));
    assert_eq!(has_shape((2, 3), (3, 2)), Err(ValidationError::Shape));
}

#[test]
fn column_check() {
    let actual = vec!["key".to_string(), "value".to_string()];
    assert_eq!(has_cols(&actual, &vec!["key".to_string(), "value".to_string()]), Ok(()));
    assert_eq!(
        has_cols(&actual, &vec!["key".to_string()]),
        Err(ValidationError::Columns)
    );
    assert_eq!(
        has_cols(&actual, &vec!["key".to_string(), "other".to_string()]),
        Err(ValidationError::Columns)
    );
}

#[test]
fn length_check() {
    assert_eq!(has_length(5, &Comparison::GreaterThan(4)), Ok(()));
    assert_eq!(has_length(5, &Comparison::GreaterThan(5)), Err(ValidationError::Length));
    assert_eq!(has_length(5, &Comparison::LessThan(6)), Ok(()));
    assert_eq!(has_length(6, &Comparison::LessThan(6)), Err(ValidationError::Length));
    assert_eq!(has_length(5, &Comparison::Equal(5)), Ok(()));
    assert_eq!(has_length(4, &Comparison::Equal(5)), Err(ValidationError::Length));
}

#[test]
fn expression_check() {
    assert_eq!(validate(true), Ok(()));
    assert_eq!(validate(false), Err(ValidationError::Expression));
}

#[test]
fn url_reader_builds_requests() {
    let mut reader = UrlReader::new("http://example.test/a.csv");
    assert!(!reader.cache);
    let request = reader.request();
    assert_eq!(request.url, "http://example.test/a.csv");
    assert!(!request.cache_enabled);
    reader.cache();
    assert!(reader.cache);
    assert!(reader.request().cache_enabled);
    assert_eq!(reader.url, "http://example.test/a.csv");
}

#[test]
fn cache_setting() {
    assert!(Cache::On.enabled());
    assert!(!Cache::Off.enabled());
}
