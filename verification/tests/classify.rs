use explore_table::classify::{classify, AnalysisPolicy, ColumnKind};
use explore_table::error::ProfileError;

fn policy(declared: &str) -> AnalysisPolicy {
    classify(declared, None, Some(32), Some(0), None).unwrap()
}

#[test]
fn boolean_lists_values_without_min_max() {
    let p = classify("boolean", None, None, None, Some("bool")).unwrap();
    assert_eq!(p.compute_min_max, false);
    assert_eq!(p.compute_distinct, true);
    assert_eq!(p.rendered_type_label, "boolean");
}

#[test]
fn boolean_policy_ignores_the_modifiers() {
    let p = classify("boolean", Some(3), Some(1), None, None).unwrap();
    assert_eq!((p.compute_min_max, p.compute_distinct), (false, true));
    assert_eq!(p.rendered_type_label, "boolean");
}

#[test]
fn date_and_timestamps_get_min_max_only() {
    for declared in ["date", "timestamp with time zone", "timestamp without time zone"] {
        let p = policy(declared);
        assert_eq!((p.compute_min_max, p.compute_distinct), (true, false));
        assert_eq!(p.rendered_type_label, declared);
    }
}

#[test]
fn bigint_and_text_get_both() {
    for declared in ["bigint", "text"] {
        let p = policy(declared);
        assert_eq!((p.compute_min_max, p.compute_distinct), (true, true));
        assert_eq!(p.rendered_type_label, declared);
    }
}

#[test]
fn varchar_without_length() {
    let p = classify("character varying", None, None, None, Some("varchar")).unwrap();
    assert_eq!((p.compute_min_max, p.compute_distinct), (true, true));
    assert_eq!(p.rendered_type_label, "varchar");
}

#[test]
fn varchar_with_length() {
    let p = classify("character varying", Some(255), None, None, Some("varchar")).unwrap();
    assert_eq!(p.rendered_type_label, "varchar(255)");
}

#[test]
fn integer_shows_precision_and_scale() {
    let p = classify("integer", None, Some(32), Some(0), Some("int4")).unwrap();
    assert_eq!((p.compute_min_max, p.compute_distinct), (true, true));
    assert_eq!(p.rendered_type_label, "integer(32, 0)");
}

#[test]
fn numeric_shows_precision_and_scale() {
    let p = classify("numeric", None, Some(10), Some(2), Some("numeric")).unwrap();
    assert_eq!((p.compute_min_max, p.compute_distinct), (true, true));
    assert_eq!(p.rendered_type_label, "numeric(10, 2)");
}

#[test]
fn integer_without_metadata_fails() {
    let r = classify("integer", None, None, None, None);
    assert!(matches!(r, Err(ProfileError::MissingMetadata)));
    let r = classify("integer", Some(4), None, None, Some("int4"));
    assert!(matches!(r, Err(ProfileError::MissingMetadata)));
}

#[test]
fn one_missing_modifier_is_enough_to_fail() {
    assert!(matches!(
        classify("integer", None, Some(32), None, None),
        Err(ProfileError::MissingMetadata)
    ));
    assert!(matches!(
        classify("numeric", None, None, Some(2), None),
        Err(ProfileError::MissingMetadata)
    ));
    assert!(matches!(
        classify("numeric", None, None, None, None),
        Err(ProfileError::MissingMetadata)
    ));
}

#[test]
fn user_defined_gets_no_statistic() {
    let p = classify("USER-DEFINED", None, None, None, Some("mood")).unwrap();
    assert_eq!((p.compute_min_max, p.compute_distinct), (false, false));
    assert_eq!(p.rendered_type_label, "user-defined / mood");
}

#[test]
fn user_defined_without_underlying_name() {
    let p = classify("USER-DEFINED", None, None, None, None).unwrap();
    assert_eq!(p.rendered_type_label, "user-defined / ???");
}

#[test]
fn unrecognised_type_shows_its_modifiers() {
    let p = classify("bytea", None, None, None, Some("bytea")).unwrap();
    assert_eq!((p.compute_min_max, p.compute_distinct), (true, true));
    assert_eq!(p.rendered_type_label, "bytea None None None");
    let p = classify("character", Some(1), None, None, None).unwrap();
    assert_eq!(p.rendered_type_label, "character Some(1) None None");
    let p = classify("smallint", None, Some(16), Some(-2), None).unwrap();
    assert_eq!(p.rendered_type_label, "smallint None Some(16) Some(-2)");
}

#[test]
fn type_names_are_matched_exactly() {
    let p = classify("Boolean", None, None, None, None).unwrap();
    assert_eq!((p.compute_min_max, p.compute_distinct), (true, true));
    assert_eq!(p.rendered_type_label, "Boolean None None None");
    let p = classify("user-defined", None, None, None, Some("mood")).unwrap();
    assert_eq!((p.compute_min_max, p.compute_distinct), (true, true));
    let p = classify(" integer", None, None, None, None).unwrap();
    assert_eq!(p.rendered_type_label, " integer None None None");
}

#[test]
fn kinds_of_the_recognised_names() {
    assert_eq!(ColumnKind::of("boolean"), ColumnKind::Boolean);
    assert_eq!(ColumnKind::of("date"), ColumnKind::Date);
    assert_eq!(ColumnKind::of("timestamp with time zone"), ColumnKind::TimestampWithTimeZone);
    assert_eq!(
        ColumnKind::of("timestamp without time zone"),
        ColumnKind::TimestampWithoutTimeZone
    );
    assert_eq!(ColumnKind::of("bigint"), ColumnKind::BigInt);
    assert_eq!(ColumnKind::of("text"), ColumnKind::Text);
    assert_eq!(ColumnKind::of("character varying"), ColumnKind::CharacterVarying);
    assert_eq!(ColumnKind::of("integer"), ColumnKind::Integer);
    assert_eq!(ColumnKind::of("numeric"), ColumnKind::Numeric);
    assert_eq!(ColumnKind::of("USER-DEFINED"), ColumnKind::UserDefined);
    assert_eq!(ColumnKind::of("json"), ColumnKind::Other);
    assert_eq!(ColumnKind::of(""), ColumnKind::Other);
}

#[test]
fn every_kind_but_user_defined_gets_a_statistic() {
    let kinds = [
        ColumnKind::Boolean,
        ColumnKind::Date,
        ColumnKind::TimestampWithTimeZone,
        ColumnKind::TimestampWithoutTimeZone,
        ColumnKind::BigInt,
        ColumnKind::Text,
        ColumnKind::CharacterVarying,
        ColumnKind::Integer,
        ColumnKind::Numeric,
        ColumnKind::Other,
    ];
    for kind in kinds {
        assert!(kind.analyzes_min_max() || kind.analyzes_distinct());
    }
    assert!(!ColumnKind::UserDefined.analyzes_min_max());
    assert!(!ColumnKind::UserDefined.analyzes_distinct());
}
