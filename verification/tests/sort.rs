use dbx_bridge::json::Json;
use dbx_bridge::sort::{
    is_descending, parse_sort, parse_sort_text, sort_field_of, AggregateSort, AggregateSortField,
};

fn text(s: &str) -> Json {
    Json::String(s.to_string())
}

#[test]
fn parse_sort_accepts_known_fields() {
    let sorts = parse_sort(Some(&Json::String(
        "aggregate_type:asc,updated_at:desc,unknown:asc".to_string(),
    )));
    assert_eq!(sorts.len(), 2);
    assert!(matches!(sorts[0].field, AggregateSortField::AggregateType));
    assert!(!sorts[0].descending);
    assert!(matches!(sorts[1].field, AggregateSortField::UpdatedAt));
    assert!(sorts[1].descending);
}

#[test]
fn parse_sort_ignores_empty_and_invalid() {
    let sorts = parse_sort(Some(&Json::String(" , , ".to_string())));
    assert!(sorts.is_empty());
}

#[test]
fn parse_sort_of_absent_or_non_string_is_empty() {
    assert!(parse_sort(None).is_empty());
    assert!(parse_sort(Some(&Json::Null)).is_empty());
    assert!(parse_sort(Some(&Json::Bool(true))).is_empty());
    assert!(parse_sort(Some(&Json::Array(vec![text("id")]))).is_empty());
    assert!(parse_sort(Some(&text(""))).is_empty());
}

#[test]
fn parse_sort_knows_every_field_and_alias() {
    let sorts = parse_sort(Some(&text(
        "aggregate_type,type,aggregate_id,id,archived,created_at,updated_at",
    )));
    let fields: Vec<AggregateSortField> = sorts.iter().map(|s| s.field).collect();
    assert_eq!(
        fields,
        vec![
            AggregateSortField::AggregateType,
            AggregateSortField::AggregateType,
            AggregateSortField::AggregateId,
            AggregateSortField::AggregateId,
            AggregateSortField::Archived,
            AggregateSortField::CreatedAt,
            AggregateSortField::UpdatedAt,
        ]
    );
    assert!(sorts.iter().all(|s| !s.descending));
}

#[test]
fn parse_sort_direction_is_case_insensitive() {
    let sorts = parse_sort_text("id:DESC,id:Descending,id:dEsC,id:ASC,id:down,id:");
    let directions: Vec<bool> = sorts.iter().map(|s| s.descending).collect();
    assert_eq!(directions, vec![true, true, true, false, false, false]);
}

#[test]
fn parse_sort_field_is_case_insensitive_and_trimmed() {
    let sorts = parse_sort_text("  Created_At : desc  ,\tTYPE\n:\u{a0}descending ");
    assert_eq!(
        sorts,
        vec![
            AggregateSort { field: AggregateSortField::CreatedAt, descending: true },
            AggregateSort { field: AggregateSortField::AggregateType, descending: true },
        ]
    );
}

#[test]
fn parse_sort_splits_on_first_colon_only() {
    let sorts = parse_sort_text("id:desc:extra,archived:desc");
    assert_eq!(
        sorts,
        vec![
            AggregateSort { field: AggregateSortField::AggregateId, descending: false },
            AggregateSort { field: AggregateSortField::Archived, descending: true },
        ]
    );
}

#[test]
fn parse_sort_keeps_the_order_of_recognized_tokens() {
    let left = parse_sort_text("updated_at:desc,bogus,id");
    let right = parse_sort_text("nope:desc,type:desc");
    let mut joined = Vec::new();
    joined.extend(left.iter().copied());
    joined.extend(right.iter().copied());
    assert_eq!(parse_sort_text("updated_at:desc,bogus,id,nope:desc,type:desc"), joined);
    assert_eq!(
        joined,
        vec![
            AggregateSort { field: AggregateSortField::UpdatedAt, descending: true },
            AggregateSort { field: AggregateSortField::AggregateId, descending: false },
            AggregateSort { field: AggregateSortField::AggregateType, descending: true },
        ]
    );
}

#[test]
fn parse_sort_drops_field_with_non_ascii_lookalike() {
    assert!(parse_sort_text("\u{456}d:desc").is_empty());
    assert!(parse_sort_text(":desc").is_empty());
}

#[test]
fn sort_field_of_reads_lowercase_names_only() {
    assert_eq!(sort_field_of("type"), Some(AggregateSortField::AggregateType));
    assert_eq!(sort_field_of("Type"), None);
    assert_eq!(sort_field_of("created_at"), Some(AggregateSortField::CreatedAt));
    assert_eq!(sort_field_of(""), None);
}

#[test]
fn is_descending_reads_two_words() {
    assert!(is_descending("desc"));
    assert!(is_descending("descending"));
    assert!(!is_descending("asc"));
    assert!(!is_descending("DESC"));
    assert!(!is_descending(""));
}
