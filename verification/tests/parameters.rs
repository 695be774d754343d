use sql_analysis::parameters::parse_query_parameters;
use sql_analysis::prefix::does_all_named_parameters_start_with_prefix;

#[test]
fn collects_named_parameters_without_their_prefix() {
    let p = parse_query_parameters("select * from foo where a = :one and b = :two".to_string())
        .unwrap();
    assert_eq!(p.count, 2);
    assert_eq!(p.names, vec!["one".to_string(), "two".to_string()]);
}

#[test]
fn repeated_names_are_collected_once() {
    let p = parse_query_parameters(
        "select * from foo where a = :x and b = :x and c = :y".to_string(),
    )
    .unwrap();
    assert_eq!(p.count, 2);
    assert_eq!(p.names, vec!["x".to_string(), "y".to_string()]);
}

#[test]
fn names_colliding_after_the_prefix_lower_the_count() {
    let p = parse_query_parameters(
        "select * from foo where a = :x and b = @x and c = ?".to_string(),
    )
    .unwrap();
    assert_eq!(p.count, 2);
    assert_eq!(p.names, vec!["x".to_string()]);
}

#[test]
fn anonymous_parameters_are_counted_but_not_named() {
    let p = parse_query_parameters("select * from foo where a = ? and b = ?".to_string()).unwrap();
    assert_eq!(p.count, 2);
    assert_eq!(p.names, Vec::<String>::new());
}

#[test]
fn unparsable_query_has_no_parameters() {
    assert!(parse_query_parameters("this is not sql ((".to_string()).is_none());
}

#[test]
fn prefix_check_accepts_uniform_names() {
    assert_eq!(
        does_all_named_parameters_start_with_prefix(
            "select * from foo where a = :x and b = :y",
            ':'
        ),
        Some(true)
    );
}

#[test]
fn prefix_check_rejects_mixed_names() {
    assert_eq!(
        does_all_named_parameters_start_with_prefix(
            "select * from foo where a = :x and b = @y",
            ':'
        ),
        Some(false)
    );
}

#[test]
fn prefix_check_is_vacuous_without_names() {
    assert_eq!(
        does_all_named_parameters_start_with_prefix("select * from foo where a = ?", ':'),
        Some(true)
    );
}

#[test]
fn prefix_check_fails_to_parse_bad_input() {
    assert_eq!(
        does_all_named_parameters_start_with_prefix("this is not sql ((", ':'),
        None
    );
}
