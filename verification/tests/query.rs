use axum_backend::notes::list_notes_plans;
use axum_backend::query::{
    total_count_value, BoundValue, Column, Filter, FilterValue, Pagination, Parameter, Predicate,
    QueryPlanBuilder, Search, Table, TOTAL_COUNT_HEADER,
};
use axum_backend::roles::Roles;
use axum_backend::users::{list_users_plans, user_filters, Role, User};

fn page() -> Pagination {
    Pagination { offset: 20, limit: 10 }
}

fn markers(text: &str) -> usize {
    text.chars().filter(|c| *c == '$').count()
}

fn numbers(text: &str) -> Vec<usize> {
    let mut found = Vec::new();
    for part in text.split('$').skip(1) {
        let digits: String = part.chars().take_while(|c| c.is_ascii_digit()).collect();
        found.push(digits.parse().unwrap());
    }
    found
}

#[test]
fn empty_filter_list_has_no_where_clause() {
    let builder = QueryPlanBuilder::new(Table::Users, page());
    let data = builder.data_plan();
    let count = builder.count_plan();
    assert_eq!(
        data.statement,
        "SELECT id, username, role FROM users ORDER BY id LIMIT $1 OFFSET $2"
    );
    assert_eq!(data.parameters, vec![Parameter::Limit(10), Parameter::Offset(20)]);
    assert_eq!(count.statement, "SELECT count(*) FROM users");
    assert_eq!(count.parameters, vec![]);
    assert!(!count.statement.contains("WHERE"));
}

#[test]
fn one_role_filter_shifts_the_pagination_placeholders() {
    let role = Role { role: Some(2) };
    let search = Search { search: None };
    let (data, count) = list_users_plans(page(), &role, &search);
    assert_eq!(
        data.statement,
        "SELECT id, username, role FROM users WHERE role=$1 ORDER BY id LIMIT $2 OFFSET $3"
    );
    assert_eq!(
        data.parameters,
        vec![
            Parameter::Filter(FilterValue::Int(2)),
            Parameter::Limit(10),
            Parameter::Offset(20),
        ]
    );
    assert_eq!(count.statement, "SELECT count(*) FROM users WHERE role=$1");
    assert_eq!(count.parameters, vec![Parameter::Filter(FilterValue::Int(2))]);
}

#[test]
fn two_filters_are_numbered_alike_in_both_plans() {
    let role = Role { role: Some(1) };
    let search = Search { search: Some("ab".to_string()) };
    let (data, count) = list_users_plans(page(), &role, &search);
    assert_eq!(
        data.statement,
        "SELECT id, username, role FROM users WHERE role=$1 AND username LIKE $2 ORDER BY id LIMIT $3 OFFSET $4"
    );
    assert_eq!(
        count.statement,
        "SELECT count(*) FROM users WHERE role=$1 AND username LIKE $2"
    );
    let filters = vec![
        Parameter::Filter(FilterValue::Int(1)),
        Parameter::Filter(FilterValue::TextSubstring("ab".to_string())),
    ];
    assert_eq!(count.parameters, filters);
    assert_eq!(data.parameters.len(), 4);
    assert_eq!(data.parameters[..2], filters[..]);
    assert_eq!(data.parameters[2], Parameter::Limit(10));
    assert_eq!(data.parameters[3], Parameter::Offset(20));
    assert!(!count.statement.contains("$3"));
    assert!(!count.statement.contains("$4"));
    assert!(!count.statement.contains("LIMIT"));
}

#[test]
fn search_alone_takes_the_first_placeholder() {
    let role = Role { role: None };
    let search = Search { search: Some("x".to_string()) };
    let (data, count) = list_users_plans(page(), &role, &search);
    assert_eq!(
        data.statement,
        "SELECT id, username, role FROM users WHERE username LIKE $1 ORDER BY id LIMIT $2 OFFSET $3"
    );
    assert_eq!(count.statement, "SELECT count(*) FROM users WHERE username LIKE $1");
}

#[test]
fn count_plan_has_one_placeholder_for_each_filter() {
    for n in 0..25usize {
        let mut builder = QueryPlanBuilder::new(Table::Users, page());
        for k in 0..n {
            builder = builder.filter(Predicate::Equals(Column::Role), FilterValue::Int(k as i64));
        }
        let data = builder.data_plan();
        let count = builder.count_plan();
        assert_eq!(markers(&count.statement), n);
        assert_eq!(count.parameters.len(), n);
        assert_eq!(markers(&data.statement), n + 2);
        assert_eq!(data.parameters.len(), n + 2);
    }
}

#[test]
fn placeholders_are_numbered_from_one_in_each_plan() {
    for n in 0..25usize {
        let mut builder = QueryPlanBuilder::new(Table::Notes, page());
        for k in 0..n {
            builder = builder.filter(Predicate::Like(Column::Text), FilterValue::Int(k as i64));
        }
        let expected: Vec<usize> = (1..=n).collect();
        assert_eq!(numbers(&builder.count_plan().statement), expected);
        let expected: Vec<usize> = (1..=n + 2).collect();
        assert_eq!(numbers(&builder.data_plan().statement), expected);
    }
}

#[test]
fn placeholders_beyond_nine_are_written_in_full() {
    let mut builder = QueryPlanBuilder::new(Table::Notes, page());
    for k in 0..10 {
        builder = builder.filter(Predicate::Equals(Column::UserId), FilterValue::Int(k));
    }
    let data = builder.data_plan();
    let count = builder.count_plan();
    assert!(count.statement.ends_with(" AND user_id=$9 AND user_id=$10"));
    assert!(data.statement.ends_with(" AND user_id=$10 ORDER BY id LIMIT $11 OFFSET $12"));
}

#[test]
fn the_same_filter_twice_stands_twice() {
    let builder = QueryPlanBuilder::new(Table::Users, page())
        .filter(Predicate::Equals(Column::Role), FilterValue::Int(1))
        .filter(Predicate::Equals(Column::Role), FilterValue::Int(1));
    let count = builder.count_plan();
    assert_eq!(count.statement, "SELECT count(*) FROM users WHERE role=$1 AND role=$2");
    assert_eq!(
        count.parameters,
        vec![Parameter::Filter(FilterValue::Int(1)), Parameter::Filter(FilterValue::Int(1))]
    );
}

#[test]
fn a_filter_list_is_taken_in_its_order() {
    let filters = vec![
        Filter { predicate: Predicate::Like(Column::Text), value: FilterValue::TextSubstring("q".to_string()) },
        Filter { predicate: Predicate::Equals(Column::UserId), value: FilterValue::Int(3) },
    ];
    let builder = QueryPlanBuilder::with_filters(Table::Notes, filters, page());
    assert_eq!(
        builder.data_plan().statement,
        "SELECT id, text FROM notes WHERE text LIKE $1 AND user_id=$2 ORDER BY id LIMIT $3 OFFSET $4"
    );
}

#[test]
fn values_never_reach_the_statement_text() {
    let role = Role { role: Some(2) };
    let search = Search { search: Some("'; DROP TABLE users; --$9".to_string()) };
    let (data, count) = list_users_plans(page(), &role, &search);
    assert!(!data.statement.contains("DROP"));
    assert!(!count.statement.contains("DROP"));
    assert_eq!(markers(&count.statement), 2);
    assert_eq!(
        count.parameters[1],
        Parameter::Filter(FilterValue::TextSubstring("'; DROP TABLE users; --$9".to_string()))
    );
}

#[test]
fn user_filters_keep_role_before_search() {
    let filters = user_filters(
        &Role { role: Some(0) },
        &Search { search: Some("z".to_string()) },
    );
    assert_eq!(
        filters,
        vec![
            Filter { predicate: Predicate::Equals(Column::Role), value: FilterValue::Int(0) },
            Filter {
                predicate: Predicate::Like(Column::Username),
                value: FilterValue::TextSubstring("z".to_string()),
            },
        ]
    );
    assert_eq!(user_filters(&Role { role: None }, &Search { search: None }), vec![]);
}

#[test]
fn notes_are_always_bound_to_their_owner() {
    let owner = User { id: 7, username: "ann".to_string(), role: Roles::Basic };
    let (data, count) = list_notes_plans(&owner, page(), &Search { search: None });
    assert_eq!(
        data.statement,
        "SELECT id, text FROM notes WHERE user_id=$1 ORDER BY id LIMIT $2 OFFSET $3"
    );
    assert_eq!(count.statement, "SELECT count(*) FROM notes WHERE user_id=$1");
    assert_eq!(count.parameters, vec![Parameter::Filter(FilterValue::Int(7))]);

    let (data, count) =
        list_notes_plans(&owner, page(), &Search { search: Some("milk".to_string()) });
    assert_eq!(
        data.statement,
        "SELECT id, text FROM notes WHERE user_id=$1 AND text LIKE $2 ORDER BY id LIMIT $3 OFFSET $4"
    );
    assert_eq!(
        count.statement,
        "SELECT count(*) FROM notes WHERE user_id=$1 AND text LIKE $2"
    );
    assert_eq!(
        data.parameters,
        vec![
            Parameter::Filter(FilterValue::Int(7)),
            Parameter::Filter(FilterValue::TextSubstring("milk".to_string())),
            Parameter::Limit(10),
            Parameter::Offset(20),
        ]
    );
}

#[test]
fn parameters_are_encoded_for_the_store() {
    assert_eq!(Parameter::Filter(FilterValue::Int(-4)).bound(), BoundValue::Int(-4));
    assert_eq!(
        Parameter::Filter(FilterValue::TextExact("ab".to_string())).bound(),
        BoundValue::Text("ab".to_string())
    );
    assert_eq!(
        Parameter::Filter(FilterValue::TextSubstring("ab".to_string())).bound(),
        BoundValue::Text("%ab%".to_string())
    );
    assert_eq!(
        Parameter::Filter(FilterValue::TextSubstring(String::new())).bound(),
        BoundValue::Text("%%".to_string())
    );
    assert_eq!(Parameter::Limit(10).bound(), BoundValue::Int(10));
    assert_eq!(Parameter::Offset(0).bound(), BoundValue::Int(0));
}

#[test]
fn total_count_is_written_in_decimal() {
    assert_eq!(TOTAL_COUNT_HEADER, "x-total-count");
    assert_eq!(total_count_value(0), "0");
    assert_eq!(total_count_value(137), "137");
    assert_eq!(total_count_value(-5), "-5");
    assert_eq!(total_count_value(i64::MAX), i64::MAX.to_string());
    assert_eq!(total_count_value(i64::MIN), i64::MIN.to_string());
}

#[test]
fn pagination_is_checked_on_request() {
    assert!(Pagination { offset: 0, limit: 0 }.check());
    assert!(Pagination { offset: 3, limit: 50 }.check());
    assert!(!Pagination { offset: -1, limit: 50 }.check());
    assert!(!Pagination { offset: 0, limit: -1 }.check());
}

#[test]
fn tables_and_predicates_have_fixed_texts() {
    assert_eq!(Table::Users.name(), "users");
    assert_eq!(Table::Notes.name(), "notes");
    assert_eq!(Table::Users.columns(), "id, username, role");
    assert_eq!(Table::Notes.columns(), "id, text");
    assert_eq!(Predicate::Equals(Column::Role).template(), "role=");
    assert_eq!(Predicate::Like(Column::Username).template(), "username LIKE ");
    assert_eq!(Predicate::Equals(Column::UserId).template(), "user_id=");
    assert_eq!(Predicate::Like(Column::Text).template(), "text LIKE ");
}
