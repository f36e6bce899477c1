use query_builder::Query;
use query_builder::Search;
use query_builder::Sort;
use query_builder::SortOrder;

#[test]
fn it_works() {
    let actual = Query::New()
        .field("a")
        .field("b")
        .field("c")
        .exclude("d")
        .exclude("e")
        .add_where("b.count >= 14 & a != n")
        .limit(8)
        .offset(2)
        .sort(Sort {
            field: "b.count".to_owned(),
            direction: SortOrder::Descending,
        })
        .search(Search {
            column: None,
            query: "test".to_owned(),
        })
        .serialize();
    assert_eq!(
        actual,
        "fields a,b,c;exclude d,e;where b.count >= 14 & a != n;limit 8;offset 2;sort b.count desc;search \"test\";"
    );
}

#[test]
fn empty_query_serializes_to_empty_string() {
    assert_eq!(Query::New().serialize(), "");
    assert_eq!(Query::default().serialize(), "");
}

#[test]
fn fields_render_in_insertion_order_without_trailing_comma() {
    let s = Query::New().field("a").field("b").field("c").serialize();
    assert_eq!(s, "fields a,b,c;");
    let one = Query::New().field("only").serialize();
    assert_eq!(one, "fields only;");
}

#[test]
fn duplicate_fields_are_kept() {
    let s = Query::New().field("a").field("a").serialize();
    assert_eq!(s, "fields a,a;");
}

#[test]
fn empty_field_names_are_accepted_verbatim() {
    assert_eq!(Query::New().field("").serialize(), "fields ;");
    assert_eq!(Query::New().field("").field("").serialize(), "fields ,;");
}

#[test]
fn exclude_renders_like_fields() {
    let s = Query::New().exclude("d").exclude("e").serialize();
    assert_eq!(s, "exclude d,e;");
}

#[test]
fn serialize_twice_yields_identical_output() {
    let q = Query::New()
        .field("a")
        .limit(7)
        .search(Search {
            column: Some("name".to_owned()),
            query: "x".to_owned(),
        });
    let first = q.serialize();
    let second = q.serialize();
    assert_eq!(first, second);
}

#[test]
fn clause_order_is_independent_of_call_order() {
    let limit_first = Query::New().limit(5).field("a").serialize();
    let field_first = Query::New().field("a").limit(5).serialize();
    assert_eq!(limit_first, field_first);
    assert_eq!(limit_first, "fields a;limit 5;");
}

#[test]
fn set_sort_twice_keeps_only_the_second_value() {
    let s = Query::New()
        .sort(Sort {
            field: "first".to_owned(),
            direction: SortOrder::Ascending,
        })
        .sort(Sort {
            field: "second".to_owned(),
            direction: SortOrder::Descending,
        })
        .serialize();
    assert_eq!(s, "sort second desc;");
}

#[test]
fn set_limit_twice_keeps_only_the_second_value() {
    let s = Query::New().limit(1).limit(2).serialize();
    assert_eq!(s, "limit 2;");
}

#[test]
fn search_with_column_passes_quotes_through_unescaped() {
    let s = Query::New()
        .search(Search {
            column: Some("name".to_owned()),
            query: "ali\"ce".to_owned(),
        })
        .serialize();
    assert_eq!(s, "search name \"ali\"ce\";");
}

#[test]
fn search_with_empty_column_renders_like_absent_column() {
    let absent = Query::New()
        .search(Search {
            column: None,
            query: "q".to_owned(),
        })
        .serialize();
    let empty = Query::New()
        .search(Search {
            column: Some(String::new()),
            query: "q".to_owned(),
        })
        .serialize();
    assert_eq!(absent, "search \"q\";");
    assert_eq!(empty, "search \"q\";");
}

#[test]
fn limit_zero_is_present_and_distinct_from_absent() {
    assert_eq!(Query::New().limit(0).serialize(), "limit 0;");
}

#[test]
fn limit_supports_the_full_unsigned_range() {
    let s = Query::New().limit(u128::MAX).serialize();
    assert_eq!(s, "limit 340282366920938463463374607431768211455;");
    let o = Query::New().offset(10_000_000_000_000_000_000_000u128).serialize();
    assert_eq!(o, "offset 10000000000000000000000;");
}

#[test]
fn where_text_is_emitted_verbatim() {
    let s = Query::New().add_where("a == \"x;y\" | b < 2").serialize();
    assert_eq!(s, "where a == \"x;y\" | b < 2;");
}

#[test]
fn sort_direction_defaults_to_ascending() {
    let s = Query::New()
        .sort(Sort {
            field: "f".to_owned(),
            direction: SortOrder::default(),
        })
        .serialize();
    assert_eq!(s, "sort f asc;");
}

#[test]
fn default_sort_and_search_values_are_empty() {
    let sort = Sort::default();
    assert_eq!(sort.field, "");
    assert!(matches!(sort.direction, SortOrder::Ascending));
    let search = Search::default();
    assert!(search.column.is_none());
    assert_eq!(search.query, "");
}
