use petompp_web_api::error::{Error, QueryValidationError, ValidationError};
use petompp_web_api::repositories::query_config::{
    ColumnRegistry, ItemCount, PageRange, QueryConfig, SortOrder,
};
use petompp_web_api::repositories::user_query::{users_registry, UserColumn};

fn query_error(kind: QueryValidationError) -> Error {
    Error::ValidationError(ValidationError::Query(kind))
}

#[test]
fn page_range_grammar() {
    assert_eq!(PageRange::from_value("all").unwrap(), PageRange::All);
    assert_eq!(PageRange::from_value("5").unwrap(), PageRange::Single(5));
    assert_eq!(PageRange::from_value("0").unwrap(), PageRange::Single(0));
    assert_eq!(PageRange::from_value("2-4").unwrap(), PageRange::Range(2, 4));
    assert_eq!(PageRange::from_value("10-2").unwrap(), PageRange::Range(10, 2));
    assert_eq!(
        PageRange::from_value("xyz").unwrap_err(),
        query_error(QueryValidationError::InvalidPageRangeFormat)
    );
}

#[test]
fn page_range_negative_single_is_rejected() {
    // The first '-' is read as the range separator, leaving an empty
    // left operand, so a bare negative index cannot be expressed.
    assert_eq!(
        PageRange::from_value("-3").unwrap_err(),
        query_error(QueryValidationError::InvalidPageRangeFormat)
    );
    assert_eq!(
        PageRange::from_value("2-").unwrap_err(),
        query_error(QueryValidationError::InvalidPageRangeFormat)
    );
    assert_eq!(
        PageRange::from_value("-").unwrap_err(),
        query_error(QueryValidationError::InvalidPageRangeFormat)
    );
    // A negative right operand still parses: the split is at the first '-'.
    assert_eq!(PageRange::from_value("2--4").unwrap(), PageRange::Range(2, -4));
}

#[test]
fn sort_order_literals_are_case_sensitive() {
    assert_eq!(SortOrder::from_value("asc").unwrap(), SortOrder::Asc);
    assert_eq!(SortOrder::from_value("desc").unwrap(), SortOrder::Desc);
    assert_eq!(
        SortOrder::from_value("ASC").unwrap_err(),
        query_error(QueryValidationError::InvalidSortOrder)
    );
    assert_eq!(
        SortOrder::from_value("Desc").unwrap_err(),
        query_error(QueryValidationError::InvalidSortOrder)
    );
}

#[test]
fn sort_order_names() {
    assert_eq!(SortOrder::Asc.name(), "asc");
    assert_eq!(SortOrder::Desc.name(), "desc");
}

#[test]
fn item_count_is_a_non_negative_integer() {
    assert_eq!(ItemCount::from_value("20").unwrap(), ItemCount(20));
    assert_eq!(ItemCount::from_value("0").unwrap(), ItemCount(0));
    assert_eq!(
        ItemCount::from_value("-1").unwrap_err(),
        query_error(QueryValidationError::InvalidItemCount)
    );
    assert_eq!(
        ItemCount::from_value("abc").unwrap_err(),
        query_error(QueryValidationError::InvalidItemCount)
    );
    assert_eq!(ItemCount::default(), ItemCount(20));
}

fn config(
    range: PageRange,
    items: Option<i64>,
    sort: Option<&str>,
    order: Option<SortOrder>,
) -> QueryConfig {
    QueryConfig {
        range,
        items: items.map(ItemCount),
        sort: sort.map(|s| s.to_string()),
        order,
    }
}

#[test]
fn all_ignores_item_count() {
    let reg = users_registry();
    let plan = config(PageRange::All, Some(20), None, None)
        .get_query(&reg)
        .unwrap();
    assert_eq!(plan.limit, None);
    assert_eq!(plan.offset, None);
    assert_eq!(plan.order_by, None);
}

#[test]
fn single_page_zero_reads_the_first_page() {
    let reg = users_registry();
    let plan = config(PageRange::Single(0), Some(10), None, None)
        .get_query(&reg)
        .unwrap();
    assert_eq!(plan.limit, Some(10));
    assert_eq!(plan.offset, Some(0));
    // Negative indices collapse to the first page as well.
    let plan = config(PageRange::Single(-5), Some(10), None, None)
        .get_query(&reg)
        .unwrap();
    assert_eq!(plan.limit, Some(10));
    assert_eq!(plan.offset, Some(0));
}

#[test]
fn single_page_offsets_by_full_pages() {
    let reg = users_registry();
    let plan = config(PageRange::Single(2), Some(10), None, None)
        .get_query(&reg)
        .unwrap();
    assert_eq!(plan.limit, Some(10));
    assert_eq!(plan.offset, Some(20));
}

#[test]
fn range_limits_by_page_count_and_offsets_by_start() {
    let reg = users_registry();
    let plan = config(PageRange::Range(1, 3), Some(5), None, None)
        .get_query(&reg)
        .unwrap();
    assert_eq!(plan.limit, Some(15));
    assert_eq!(plan.offset, Some(5));
    // A backwards range still reads one page.
    let plan = config(PageRange::Range(3, 1), Some(5), None, None)
        .get_query(&reg)
        .unwrap();
    assert_eq!(plan.limit, Some(5));
    assert_eq!(plan.offset, Some(15));
}

#[test]
fn lone_sort_or_order_is_ignored() {
    let reg = users_registry();
    let plan = config(PageRange::Single(1), Some(10), Some("name"), None)
        .get_query(&reg)
        .unwrap();
    assert_eq!(plan.order_by, None);
    assert_eq!(plan.limit, Some(10));
    assert_eq!(plan.offset, Some(10));
    let plan = config(PageRange::All, None, None, Some(SortOrder::Desc))
        .get_query(&reg)
        .unwrap();
    assert_eq!(plan.order_by, None);
}

#[test]
fn active_sort_resolves_against_the_allow_list() {
    let reg = users_registry();
    let plan = config(PageRange::All, None, Some("name"), Some(SortOrder::Asc))
        .get_query(&reg)
        .unwrap();
    assert_eq!(plan.order_by, Some((UserColumn::Name, SortOrder::Asc)));
    assert_eq!(plan.limit, None);
    let plan = config(PageRange::Single(1), Some(10), Some("role"), Some(SortOrder::Desc))
        .get_query(&reg)
        .unwrap();
    assert_eq!(plan.order_by, Some((UserColumn::Role, SortOrder::Desc)));
    assert_eq!(plan.limit, Some(10));
    assert_eq!(plan.offset, Some(10));
}

#[test]
fn unknown_sort_column_is_refused() {
    let reg = users_registry();
    let e = config(
        PageRange::Single(1),
        Some(10),
        Some("nonexistent"),
        Some(SortOrder::Asc),
    )
    .get_query(&reg)
    .unwrap_err();
    assert_eq!(
        e,
        query_error(QueryValidationError::InvalidColumn("nonexistent".to_string()))
    );
}

#[test]
fn registry_holds_exactly_the_user_columns() {
    let reg = users_registry();
    assert_eq!(reg.lookup("id"), Some(UserColumn::Id));
    assert_eq!(reg.lookup("name"), Some(UserColumn::Name));
    assert_eq!(reg.lookup("normalized_name"), Some(UserColumn::NormalizedName));
    assert_eq!(reg.lookup("role"), Some(UserColumn::Role));
    assert_eq!(reg.lookup("confirmed"), Some(UserColumn::Confirmed));
    assert_eq!(reg.lookup("created_at"), Some(UserColumn::CreatedAt));
    assert_eq!(reg.lookup("deleted_at"), Some(UserColumn::DeletedAt));
    assert_eq!(reg.lookup("password"), None);
    assert_eq!(reg.entries.len(), 7);
}

#[test]
fn lookup_returns_the_first_match() {
    let reg = ColumnRegistry {
        entries: vec![
            ("x".to_string(), 1u32),
            ("x".to_string(), 2u32),
            ("y".to_string(), 3u32),
        ],
    };
    assert_eq!(reg.lookup("x"), Some(1));
    assert_eq!(reg.lookup("y"), Some(3));
    assert_eq!(reg.lookup("z"), None);
}
