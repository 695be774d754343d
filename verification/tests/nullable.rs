use sql_analysis::nullable::{is_column_nullable, NullableResult};

#[test]
fn returns_none_when_nothing_is_provable() {
    assert_eq!(is_column_nullable("id", "foo", "select * from foo"), None);
}

#[test]
fn support_not_null() {
    assert_eq!(
        is_column_nullable("id", "foo", "select * from foo where id is not null"),
        Some(NullableResult::NotNull)
    );
    assert_eq!(
        is_column_nullable("id", "foo", "select * from foo where id notnull"),
        Some(NullableResult::NotNull)
    );
}

#[test]
fn support_aliased_table() {
    assert_eq!(
        is_column_nullable("id", "foo", "select * from foo f where id notnull"),
        Some(NullableResult::NotNull)
    );
    assert_eq!(
        is_column_nullable("id", "foo", "select * from foo f where f.id notnull"),
        Some(NullableResult::NotNull)
    );
    assert_eq!(
        is_column_nullable("id", "foo", "select * from foo f where foo.id notnull"),
        None
    );
}

#[test]
fn support_aliased_table_using_as() {
    assert_eq!(
        is_column_nullable("id", "foo", "select * from foo as f where id notnull"),
        Some(NullableResult::NotNull)
    );
    assert_eq!(
        is_column_nullable("id", "foo", "select * from foo as f where f.id notnull"),
        Some(NullableResult::NotNull)
    );
    assert_eq!(
        is_column_nullable("id", "foo", "select * from foo as f where foo.id notnull"),
        None
    );
}

#[test]
fn support_and() {
    assert_eq!(
        is_column_nullable("id", "foo", "select * from foo where 1=1 and id not null",),
        Some(NullableResult::NotNull)
    );
}

#[test]
fn support_or() {
    assert_eq!(
        is_column_nullable(
            "id",
            "foo",
            "select * from foo where id is not null or id is not null and 1=1",
        ),
        Some(NullableResult::NotNull)
    );
}

#[test]
fn support_parens() {
    assert_eq!(
        is_column_nullable("id", "foo", "select * from foo f where (id not null)",),
        Some(NullableResult::NotNull)
    );
    assert_eq!(
        is_column_nullable(
            "id",
            "foo",
            "select * from foo f where (id is null) or (id is null)",
        ),
        Some(NullableResult::Null)
    );
    assert_eq!(
        is_column_nullable(
            "id",
            "foo",
            "select * from foo f where (id is null) and (id is null)",
        ),
        Some(NullableResult::Null)
    );
}

#[test]
fn support_is_null() {
    assert_eq!(
        is_column_nullable("id", "foo", "select * from foo f where id is null",),
        Some(NullableResult::Null)
    );
}

#[test]
fn support_join() {
    assert_eq!(
        is_column_nullable(
            "id",
            "bar",
            "select * from foo join bar where bar.id is null"
        ),
        Some(NullableResult::Null)
    );
    assert_eq!(
        is_column_nullable(
            "id",
            "bar",
            "select * from foo join bar b where b.id is null"
        ),
        Some(NullableResult::Null)
    );
    assert_eq!(
        is_column_nullable("id", "bar", "select * from foo, bar b where b.id is null"),
        Some(NullableResult::Null)
    );
}

#[test]
fn support_yoda_null_check() {
    assert_eq!(
        is_column_nullable("id", "foo", "select * from foo f where null is id",),
        Some(NullableResult::Null)
    );

    assert_eq!(
        is_column_nullable("id", "foo", "select * from foo f where null is not id",),
        Some(NullableResult::NotNull)
    );
}

#[test]
fn support_in_list() {
    assert_eq!(
        is_column_nullable("id", "foo", "select * from foo f where id in (:bar)"),
        Some(NullableResult::NotNull)
    );
}

#[test]
fn support_constraints_on_join() {
    assert_eq!(
        is_column_nullable(
            "id",
            "foo",
            "SELECT foo.id FROM foo INNER JOIN bar ON bar.id = foo.id"
        ),
        Some(NullableResult::NotNull)
    );

    assert_eq!(
        is_column_nullable(
            "id",
            "bar",
            "SELECT foo.id FROM foo INNER JOIN bar ON bar.id = foo.id"
        ),
        Some(NullableResult::NotNull)
    );
}

#[test]
fn support_like_operator() {
    assert_eq!(
        is_column_nullable("id", "foo", "select * from foo f where id like ?"),
        Some(NullableResult::NotNull)
    );
    assert_eq!(
        is_column_nullable("id", "foo", "select * from foo f where id not like ?"),
        Some(NullableResult::NotNull)
    );
    assert_eq!(
        is_column_nullable("id", "foo", "select * from foo f where ? like id"),
        Some(NullableResult::NotNull)
    );
    assert_eq!(
        is_column_nullable("id", "foo", "select * from foo f where ? not like id"),
        Some(NullableResult::NotNull)
    );
}

#[test]
fn unparsable_or_non_select_input_yields_unknown() {
    assert_eq!(is_column_nullable("id", "foo", "this is not sql (("), None);
    assert_eq!(
        is_column_nullable("id", "foo", "insert into foo (id) values (1)"),
        None
    );
    assert_eq!(is_column_nullable("id", "foo", "select 1"), None);
    assert_eq!(is_column_nullable("id", "foo", ""), None);
}

#[test]
fn outer_joins_are_never_eligible() {
    assert_eq!(
        is_column_nullable(
            "id",
            "bar",
            "select * from foo left join bar on bar.id = foo.id"
        ),
        None
    );
    assert_eq!(
        is_column_nullable(
            "id",
            "bar",
            "select * from foo left outer join bar where bar.id is not null"
        ),
        None
    );
    assert_eq!(
        is_column_nullable(
            "id",
            "foo",
            "select * from foo left join bar where foo.id is not null"
        ),
        Some(NullableResult::NotNull)
    );
}

#[test]
fn repeated_calls_agree() {
    let queries = [
        "select * from foo where id is not null",
        "select * from foo f where id is null",
        "select * from foo",
        "not sql at all",
    ];
    for q in queries {
        let first = is_column_nullable("id", "foo", q);
        let second = is_column_nullable("id", "foo", q);
        assert_eq!(first, second);
    }
}

#[test]
fn and_prefers_left_definite_verdict() {
    assert_eq!(
        is_column_nullable(
            "id",
            "foo",
            "select * from foo where id is not null and id is null"
        ),
        Some(NullableResult::NotNull)
    );
    assert_eq!(
        is_column_nullable(
            "id",
            "foo",
            "select * from foo where id is null and id is not null"
        ),
        Some(NullableResult::Null)
    );
    assert_eq!(
        is_column_nullable(
            "id",
            "foo",
            "select * from foo where 1=1 and id is null"
        ),
        Some(NullableResult::Null)
    );
}

#[test]
fn or_requires_both_sides_to_agree() {
    assert_eq!(
        is_column_nullable(
            "id",
            "foo",
            "select * from foo where id is not null or id is null"
        ),
        None
    );
    assert_eq!(
        is_column_nullable(
            "id",
            "foo",
            "select * from foo where id is null or id is not null"
        ),
        None
    );
    assert_eq!(
        is_column_nullable(
            "id",
            "foo",
            "select * from foo where id is null or id is null"
        ),
        Some(NullableResult::Null)
    );
    assert_eq!(
        is_column_nullable("id", "foo", "select * from foo where id is null or 1=1"),
        None
    );
}
