use std::str::FromStr;

use rdfreak::calendar::{Date, DateTime, NaiveDateTime};
use rdfreak::literal::{FromRdfLiteral, RdfLiteralError, ToRdfLiteral};
use rdfreak::term::{Iri, LiteralValue};

#[test]
fn date_test_to_literal() {
    let date = Date::from_str("2024-01-01").unwrap();
    let date_literal = date.to_literal();

    let expected_literal = LiteralValue::new_typed_literal(
        "2024-01-01".to_owned(),
        Iri::new("http://www.w3.org/2001/XMLSchema#date").unwrap(),
    );

    assert_eq!(date_literal, expected_literal);
}

#[test]
fn date_test_from_literal() {
    let date_literal = LiteralValue::new_typed_literal(
        "2024-01-01".to_owned(),
        Iri::new("http://www.w3.org/2001/XMLSchema#date").unwrap(),
    );

    let date = Date::from_literal(&date_literal).unwrap();
    let expected_date = Date::from_str("2024-01-01").unwrap();

    assert_eq!(date, expected_date);
}

#[test]
fn naive_date_time_test_to_literal() {
    let date_time = NaiveDateTime::from_str("2024-01-01T12:00:00").unwrap();
    let date_time_literal = date_time.to_literal();

    let expected_literal = LiteralValue::new_typed_literal(
        "2024-01-01T12:00:00".to_owned(),
        Iri::new("http://www.w3.org/2001/XMLSchema#dateTime").unwrap(),
    );

    assert_eq!(date_time_literal, expected_literal);
}

#[test]
fn naive_date_time_test_from_literal() {
    let date_time_literal = LiteralValue::new_typed_literal(
        "2024-01-01T12:00:00".to_owned(),
        Iri::new("http://www.w3.org/2001/XMLSchema#dateTime").unwrap(),
    );

    let date_time = NaiveDateTime::from_literal(&date_time_literal).unwrap();
    let expected_date_time = NaiveDateTime::from_str("2024-01-01T12:00:00").unwrap();

    assert_eq!(date_time, expected_date_time);
}

#[test]
fn date_fields_and_text() {
    let d = Date::new(2024, 2, 29);
    assert_eq!((d.year(), d.month(), d.day()), (2024, 2, 29));
    assert_eq!(d.to_string(), "2024-02-29");
}

#[test]
fn date_text_pads_and_signs_years() {
    assert_eq!(Date::new(5, 3, 7).to_string(), "0005-03-07");
    assert_eq!(Date::new(0, 1, 1).to_string(), "0000-01-01");
    assert_eq!(Date::new(-1, 1, 1).to_string(), "-0001-01-01");
    assert_eq!(Date::new(10000, 12, 31).to_string(), "+10000-12-31");
    assert_eq!(Date::new(-262143, 1, 1).to_string(), "-262143-01-01");
}

#[test]
fn date_text_reads_back() {
    for (y, m, d) in [(2024, 1, 1), (5, 3, 7), (-1, 1, 1), (10000, 12, 31), (2000, 2, 29)] {
        let date = Date::new(y, m, d);
        assert_eq!(Date::parse(&date.to_string()), Ok(date));
        assert_eq!(Date::from_literal(&date.to_literal()).unwrap(), date);
    }
}

#[test]
fn date_parse_refuses_what_chrono_refuses() {
    assert!(Date::parse("2023-02-29").is_err());
    assert!(Date::parse("not a date").is_err());
    assert!(Date::parse("").is_err());
}

#[test]
fn date_from_literal_checks_the_datatype() {
    let lit = LiteralValue::new_typed_literal(
        "2024-01-01".to_owned(),
        Iri::new("http://www.w3.org/2001/XMLSchema#string").unwrap(),
    );
    match Date::from_literal(&lit) {
        Err(RdfLiteralError::InvalidDatatype { expected, actual }) => {
            assert_eq!(expected, "http://www.w3.org/2001/XMLSchema#date");
            assert_eq!(actual, "http://www.w3.org/2001/XMLSchema#string");
        }
        other => panic!("unexpected {:?}", other),
    }
}

#[test]
fn date_from_literal_reports_chrono_message() {
    let lit = LiteralValue::new_typed_literal(
        "2024-13-01".to_owned(),
        Iri::new("http://www.w3.org/2001/XMLSchema#date").unwrap(),
    );
    match Date::from_literal(&lit) {
        Err(RdfLiteralError::Parse(msg)) => assert_eq!(msg, Date::parse("2024-13-01").unwrap_err()),
        other => panic!("unexpected {:?}", other),
    }
}

#[test]
fn naive_date_time_fields_and_text() {
    let v = NaiveDateTime::new(Date::new(2024, 1, 1), 9, 5, 7, 0);
    assert_eq!(v.to_string(), "2024-01-01T09:05:07");
    assert_eq!((v.hour(), v.minute(), v.second(), v.nanosecond()), (9, 5, 7, 0));
    assert_eq!(v.date(), Date::new(2024, 1, 1));
}

#[test]
fn naive_date_time_text_drops_fraction_and_shows_leap_second() {
    let v = NaiveDateTime::new(Date::new(2016, 12, 31), 23, 59, 59, 500_000_000);
    assert_eq!(v.to_string(), "2016-12-31T23:59:59");
    let leap = NaiveDateTime::new(Date::new(2016, 12, 31), 23, 59, 59, 1_000_000_000);
    assert_eq!(leap.to_string(), "2016-12-31T23:59:60");
}

#[test]
fn date_time_from_literal_quotes_the_form() {
    let lit = LiteralValue::new_typed_literal(
        "yesterday".to_owned(),
        Iri::new("http://www.w3.org/2001/XMLSchema#dateTime").unwrap(),
    );
    let chrono_message = NaiveDateTime::parse("yesterday").unwrap_err();
    match DateTime::from_literal(&lit) {
        Err(RdfLiteralError::Parse(msg)) => {
            assert_eq!(msg, format!("Failed to parse 'yesterday' as date: {}", chrono_message))
        }
        other => panic!("unexpected {:?}", other),
    }
}

#[test]
fn date_time_round_trips_through_its_literal() {
    let v = DateTime::new(NaiveDateTime::new(Date::new(2024, 5, 17), 12, 34, 56, 0));
    let lit = v.to_literal();
    assert_eq!(lit.value(), "2024-05-17T12:34:56");
    assert_eq!(lit.datatype().as_str(), "http://www.w3.org/2001/XMLSchema#dateTime");
    let back = DateTime::from_literal(&lit).unwrap();
    assert_eq!(back.inner(), v.inner());
}

#[test]
fn date_time_from_literal_checks_the_datatype() {
    let lit = LiteralValue::new_typed_literal(
        "2024-05-17T12:34:56".to_owned(),
        Iri::new("http://www.w3.org/2001/XMLSchema#date").unwrap(),
    );
    assert!(matches!(
        DateTime::from_literal(&lit),
        Err(RdfLiteralError::InvalidDatatype { .. })
    ));
}

#[test]
fn naive_date_time_text_reads_back() {
    for v in [
        NaiveDateTime::new(Date::new(2024, 2, 29), 0, 0, 0, 0),
        NaiveDateTime::new(Date::new(-1, 12, 31), 23, 59, 59, 0),
        NaiveDateTime::new(Date::new(10000, 1, 1), 12, 0, 1, 0),
    ] {
        let back = NaiveDateTime::parse(&v.to_string()).unwrap();
        assert_eq!(back, v);
    }
    let with_fraction = NaiveDateTime::new(Date::new(2016, 12, 31), 23, 59, 59, 500_000_000);
    let back = NaiveDateTime::from_str(&with_fraction.to_string()).unwrap();
    assert_eq!(back, NaiveDateTime::new(Date::new(2016, 12, 31), 23, 59, 59, 0));
}
