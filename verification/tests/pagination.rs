use qa_service::error::Error;
use qa_service::types::pagination::{extract_pagination, Pagination};
use qa_service::types::params::QueryParams;

fn params(pairs: &[(&str, &str)]) -> QueryParams {
    let mut p = QueryParams::new();
    for (k, v) in pairs {
        p.insert(k.to_string(), v.to_string());
    }
    p
}

fn parse_detail(start: &str, end: &str) -> String {
    match extract_pagination(params(&[("start", start), ("end", end)])) {
        Err(Error::ParseError(detail)) => detail,
        other => panic!("expected a parse error, got {:?}", other),
    }
}

#[test]
fn extracts_start_and_end() {
    let p = extract_pagination(params(&[("start", "1"), ("end", "10")])).unwrap();
    assert_eq!(p.start, 1);
    assert_eq!(p.end, 10);
}

#[test]
fn extraction_swaps_an_inverted_range() {
    let p = extract_pagination(params(&[("start", "5"), ("end", "2")])).unwrap();
    assert_eq!(p.start, 2);
    assert_eq!(p.end, 5);
}

#[test]
fn extraction_keeps_equal_bounds() {
    let p = extract_pagination(params(&[("start", "7"), ("end", "7")])).unwrap();
    assert_eq!((p.start, p.end), (7, 7));
}

#[test]
fn extraction_ignores_other_parameters() {
    let p = extract_pagination(params(&[("start", "0"), ("end", "3"), ("sort", "asc")])).unwrap();
    assert_eq!((p.start, p.end), (0, 3));
}

#[test]
fn extraction_accepts_a_plus_sign_and_leading_zeros() {
    let p = extract_pagination(params(&[("start", "+3"), ("end", "0012")])).unwrap();
    assert_eq!((p.start, p.end), (3, 12));
}

#[test]
fn extraction_accepts_the_largest_index() {
    let max = usize::MAX.to_string();
    let p = extract_pagination(params(&[("start", "0"), ("end", max.as_str())])).unwrap();
    assert_eq!((p.start, p.end), (0, usize::MAX));
}

#[test]
fn empty_params_miss_both_bounds() {
    assert!(matches!(extract_pagination(QueryParams::new()), Err(Error::MissingParameters)));
}

#[test]
fn missing_end_is_reported() {
    let r = extract_pagination(params(&[("start", "1")]));
    assert!(matches!(r, Err(Error::MissingParameters)));
}

#[test]
fn missing_start_is_reported() {
    let r = extract_pagination(params(&[("end", "1")]));
    assert!(matches!(r, Err(Error::MissingParameters)));
}

#[test]
fn missing_bounds_beside_other_parameters_are_reported() {
    let r = extract_pagination(params(&[("limit", "1"), ("offset", "2")]));
    assert!(matches!(r, Err(Error::MissingParameters)));
}

#[test]
fn missing_end_wins_over_a_malformed_start() {
    let r = extract_pagination(params(&[("start", "x")]));
    assert!(matches!(r, Err(Error::MissingParameters)));
}

#[test]
fn non_numeric_start_is_a_parse_error() {
    assert_eq!(parse_detail("abc", "2"), "invalid digit found in string");
}

#[test]
fn non_numeric_end_is_a_parse_error() {
    assert_eq!(parse_detail("1", "two"), "invalid digit found in string");
}

#[test]
fn empty_value_is_a_parse_error() {
    assert_eq!(parse_detail("", "2"), "cannot parse integer from empty string");
}

#[test]
fn too_large_value_is_a_parse_error() {
    assert_eq!(
        parse_detail("1", "340282366920938463463374607431768211456"),
        "number too large to fit in target type"
    );
}

#[test]
fn start_is_read_before_end() {
    assert_eq!(parse_detail("", "x"), "cannot parse integer from empty string");
}

#[test]
fn negative_value_is_a_parse_error() {
    assert_eq!(parse_detail("-1", "2"), "invalid digit found in string");
}

#[test]
fn surrounding_space_is_a_parse_error() {
    assert_eq!(parse_detail(" 1", "2"), "invalid digit found in string");
    assert_eq!(parse_detail("1", "2 "), "invalid digit found in string");
}

#[test]
fn lone_sign_and_underscore_are_parse_errors() {
    assert_eq!(parse_detail("+", "2"), "invalid digit found in string");
    assert_eq!(parse_detail("1_0", "2"), "invalid digit found in string");
}

#[test]
fn misplaced_signs_are_parse_errors() {
    assert_eq!(parse_detail("-0", "2"), "invalid digit found in string");
    assert_eq!(parse_detail("++1", "2"), "invalid digit found in string");
    assert_eq!(parse_detail("1+", "2"), "invalid digit found in string");
}

#[test]
fn many_leading_zeros_do_not_overflow() {
    let p = extract_pagination(params(&[
        ("start", "0000000000000000000000000000000000000001"),
        ("end", "+0000000000000000000000000000000000000000"),
    ]))
    .unwrap();
    assert_eq!((p.start, p.end), (0, 1));
}

#[test]
fn one_more_than_the_largest_index_is_too_large() {
    let text = format!("{}", usize::MAX as u128 + 1);
    assert_eq!(parse_detail(text.as_str(), "1"), "number too large to fit in target type");
}

#[test]
fn foreign_digits_are_parse_errors() {
    assert_eq!(parse_detail("\u{0663}", "2"), "invalid digit found in string");
    assert_eq!(parse_detail("1.0", "2"), "invalid digit found in string");
    assert_eq!(parse_detail("0x10", "2"), "invalid digit found in string");
}

#[test]
fn parse_detail_matches_the_standard_parser() {
    for text in ["", "x", "12a", "99999999999999999999999999999999999999999"] {
        let expected = text.parse::<usize>().unwrap_err().to_string();
        assert_eq!(parse_detail(text, "1"), expected);
        assert_ne!(parse_detail(text, "1"), text);
    }
}

#[test]
fn sanitize_swaps_when_start_exceeds_end() {
    let p = Pagination { start: 9, end: 4 }.sanitize();
    assert_eq!((p.start, p.end), (4, 9));
}

#[test]
fn sanitize_keeps_an_ordered_range() {
    let p = Pagination { start: 4, end: 9 }.sanitize();
    assert_eq!((p.start, p.end), (4, 9));
    let q = Pagination { start: 3, end: 3 }.sanitize();
    assert_eq!((q.start, q.end), (3, 3));
}

#[test]
fn sanitize_orders_every_small_range() {
    for start in 0..12usize {
        for end in 0..12usize {
            let p = Pagination { start, end }.sanitize();
            assert!(p.start <= p.end);
            assert_eq!(p.start, start.min(end));
            assert_eq!(p.end, start.max(end));
        }
    }
}

#[test]
fn saturate_clamps_end() {
    let p = Pagination { start: 0, end: 100 }.saturate(4);
    assert_eq!((p.start, p.end), (0, 4));
}

#[test]
fn saturate_keeps_a_range_within_the_list() {
    let p = Pagination { start: 1, end: 3 }.saturate(4);
    assert_eq!((p.start, p.end), (1, 3));
    let q = Pagination { start: 1, end: 4 }.saturate(4);
    assert_eq!((q.start, q.end), (1, 4));
}

#[test]
fn saturate_leaves_start_behind_the_list() {
    let p = Pagination { start: 7, end: 9 }.saturate(4);
    assert_eq!((p.start, p.end), (7, 4));
}

#[test]
fn saturate_never_raises_end_nor_touches_start() {
    for start in 0..8usize {
        for end in 0..8usize {
            for max_len in 0..8usize {
                let p = Pagination { start, end }.saturate(max_len);
                assert_eq!(p.start, start);
                assert!(p.end <= end);
                assert_eq!(p.end, end.min(max_len));
            }
        }
    }
}
