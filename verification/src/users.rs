//! Principals, the requests about them, and the plans those requests run.

use vstd::prelude::*;
use crate::numbering::{lemma_one_placeholder, lemma_two_placeholders, placeholder};
use crate::query::{
    count_plan_of, data_plan_of, filter_views, one_value, two_values, Column, Filter, FilterValue,
    FilterValueView, FilterView, Pagination, ParameterView, Predicate, QueryPlan, QueryPlanBuilder,
    Search, Table,
};
use crate::roles::{RoleError, Roles};
use crate::text::nat_text;

verus! {

/// An authenticated identity.
#[derive(Debug, PartialEq, Eq)]
pub struct User {
    pub id: i32,
    pub username: String,
    pub role: Roles,
}

/// The model of [`User`] that contracts speak of.
pub struct UserView {
    pub id: int,
    pub username: Seq<char>,
    pub role: Roles,
}

impl View for User {
    type V = UserView;

    open spec fn view(&self) -> UserView {
        UserView { id: self.id as int, username: self.username@, role: self.role }
    }
}

impl Clone for User {
    fn clone(&self) -> (r: Self)
        ensures
            r@ == self@,
    {
        User { id: self.id, username: self.username.clone(), role: self.role }
    }
}

/// A principal as the store holds it, with the digest of its password.
#[derive(Debug, PartialEq, Eq)]
pub struct UserWithPassword {
    pub id: i32,
    pub username: String,
    pub password: String,
    pub role: Roles,
}

/// The model of [`UserWithPassword`] that contracts speak of.
pub struct UserWithPasswordView {
    pub id: int,
    pub username: Seq<char>,
    pub password: Seq<char>,
    pub role: Roles,
}

impl View for UserWithPassword {
    type V = UserWithPasswordView;

    open spec fn view(&self) -> UserWithPasswordView {
        UserWithPasswordView {
            id: self.id as int,
            username: self.username@,
            password: self.password@,
            role: self.role,
        }
    }
}

/// The request to delete a principal by name.
#[derive(Debug, Clone, PartialEq, Eq)]
pub struct DeleteUserPayload {
    pub username: String,
}

/// The request to promote a principal.
#[derive(Debug, Clone, Copy, PartialEq, Eq, Structural)]
pub struct PromoteUserPayload {
    pub id: i32,
}

/// The optional role filter of a listing request.
#[derive(Debug, Clone, Copy, PartialEq, Eq)]
pub struct Role {
    pub role: Option<i16>,
}

impl User {
    /// The principal of a stored row. The row's role number must be one of
    /// the hierarchy.
    pub fn from_row(id: i32, username: String, role: i16) -> (r: Result<User, RoleError>)
        ensures
            match Roles::of_ordinal(role as int) {
                Some(known) => r matches Ok(user) && user@ == (UserView {
                    id: id as int,
                    username: username@,
                    role: known,
                }),
                None => r == Err::<User, RoleError>(RoleError::UnknownRole),
            },
    {
        match Roles::from_ordinal(role) {
            Ok(known) => Ok(User { id, username, role: known }),
            Err(e) => Err(e),
        }
    }

    /// The principal that a sign-up has just created: it starts at the
    /// lowest role.
    pub fn registered(id: i32, username: String) -> (user: User)
        ensures
            user@ == (UserView { id: id as int, username: username@, role: Roles::Basic }),
    {
        User { id, username, role: Roles::Basic }
    }
}

impl UserWithPassword {
    /// The stored principal of a row. The row's role number must be one of
    /// the hierarchy.
    pub fn from_row(id: i32, username: String, password: String, role: i16) -> (r: Result<
        UserWithPassword,
        RoleError,
    >)
        ensures
            match Roles::of_ordinal(role as int) {
                Some(known) => r matches Ok(user) && user@ == (UserWithPasswordView {
                    id: id as int,
                    username: username@,
                    password: password@,
                    role: known,
                }),
                None => r == Err::<UserWithPassword, RoleError>(RoleError::UnknownRole),
            },
    {
        match Roles::from_ordinal(role) {
            Ok(known) => Ok(UserWithPassword { id, username, password, role: known }),
            Err(e) => Err(e),
        }
    }
}

/// A row of the table of principals, as the store hands it out: id, name and
/// role number.
#[derive(Debug, Clone, PartialEq, Eq)]
pub struct UserRow {
    pub id: i32,
    pub username: String,
    pub role: i16,
}

/// The principal that a row stands for, if its role number is one of the
/// hierarchy.
pub open spec fn principal_of(row: UserRow) -> Option<UserView> {
    match Roles::of_ordinal(row.role as int) {
        Some(role) => Some(UserView { id: row.id as int, username: row.username@, role }),
        None => None,
    }
}

/// The principals of the rows of a listing, in the rows' order. One row with
/// a role number outside the hierarchy fails the whole listing.
pub fn users_from_rows(rows: Vec<UserRow>) -> (r: Result<Vec<User>, RoleError>)
    ensures
        match r {
            Ok(users) => users@.len() == rows@.len() && forall|i: int|
                0 <= i < rows@.len() ==> principal_of(rows@[i]) == Some(#[trigger] users@[i]@),
            Err(e) => e == RoleError::UnknownRole && exists|i: int|
                0 <= i < rows@.len() && #[trigger] principal_of(rows@[i]) is None,
        },
{
    let mut users: Vec<User> = Vec::new();
    let mut i: usize = 0;
    while i < rows.len()
        invariant
            i <= rows.len(),
            users@.len() == i,
            forall|k: int| 0 <= k < i ==> principal_of(rows@[k]) == Some(#[trigger] users@[k]@),
        decreases rows.len() - i,
    {
        let row = &rows[i];
        match User::from_row(row.id, row.username.clone(), row.role) {
            Ok(user) => {
                users.push(user);
            },
            Err(e) => {
                assert(principal_of(rows@[i as int]) is None);
                return Err(e);
            },
        }
        i += 1;
    }
    Ok(users)
}

/// The filters of a listing of principals: the role, if one was asked for,
/// then the name search, if one was asked for.
pub open spec fn user_filters_of(role: Option<i16>, search: Option<Seq<char>>) -> Seq<
    FilterView,
> {
    let by_role = match role {
        Some(number) => seq![
            FilterView {
                predicate: Predicate::Equals(Column::Role),
                value: FilterValueView::Int(number as int),
            },
        ],
        None => Seq::empty(),
    };
    let by_name = match search {
        Some(needle) => seq![
            FilterView {
                predicate: Predicate::Like(Column::Username),
                value: FilterValueView::TextSubstring(needle),
            },
        ],
        None => Seq::empty(),
    };
    by_role + by_name
}

/// The search text of a request, as a model value.
pub open spec fn search_text(search: Search) -> Option<Seq<char>> {
    match search.search {
        Some(needle) => Some(needle@),
        None => None,
    }
}

/// Turns the optional inputs of a listing of principals into its filters.
pub fn user_filters(role: &Role, search: &Search) -> (filters: Vec<Filter>)
    ensures
        filter_views(filters@) == user_filters_of(role.role, search_text(*search)),
{
    let mut filters: Vec<Filter> = Vec::new();
    if let Some(number) = role.role {
        filters.push(
            Filter {
                predicate: Predicate::Equals(Column::Role),
                value: FilterValue::Int(number as i64),
            },
        );
    }
    if let Some(needle) = &search.search {
        filters.push(
            Filter {
                predicate: Predicate::Like(Column::Username),
                value: FilterValue::TextSubstring(needle.clone()),
            },
        );
    }
    assert(filter_views(filters@) =~= user_filters_of(role.role, search_text(*search)));
    filters
}

/// The two plans of a listing of principals: the page, then the count.
pub fn list_users_plans(pagination: Pagination, role: &Role, search: &Search) -> (plans: (
    QueryPlan,
    QueryPlan,
))
    ensures
        plans.0@ == data_plan_of(
            Table::Users,
            user_filters_of(role.role, search_text(*search)),
            pagination,
        ),
        plans.1@ == count_plan_of(Table::Users, user_filters_of(role.role, search_text(*search))),
        plans.0@.well_formed(),
        plans.1@.well_formed(),
{
    let builder = QueryPlanBuilder::with_filters(
        Table::Users,
        user_filters(role, search),
        pagination,
    );
    (builder.data_plan(), builder.count_plan())
}

/// The plan that reads one principal by id.
pub fn principal_lookup_plan(id: i32) -> (plan: QueryPlan)
    ensures
        plan@.statement == "SELECT id, username, role FROM users WHERE id = $1"@,
        plan@.parameters == seq![ParameterView::Filter(FilterValueView::Int(id as int))],
        plan@.well_formed(),
{
    let plan = QueryPlan {
        statement: String::from_str("SELECT id, username, role FROM users WHERE id = $1"),
        parameters: one_value(FilterValue::Int(id as i64)),
    };
    proof {
        reveal_strlit("SELECT id, username, role FROM users WHERE id = $1");
        reveal_strlit("SELECT id, username, role FROM users WHERE id = ");
        let before = "SELECT id, username, role FROM users WHERE id = "@;
        assert(nat_text(1) =~= seq!['1']);
        assert(plan@.statement =~= before + placeholder(1) + Seq::<char>::empty());
        lemma_one_placeholder(before, Seq::empty());
    }
    plan
}

/// The plan that reads the stored principal of a name, digest included.
pub fn credential_lookup_plan(username: &str) -> (plan: QueryPlan)
    ensures
        plan@.statement == "SELECT id, username, password, role FROM users WHERE username = $1"@,
        plan@.parameters == seq![ParameterView::Filter(FilterValueView::TextExact(username@))],
        plan@.well_formed(),
{
    let plan = QueryPlan {
        statement: String::from_str(
            "SELECT id, username, password, role FROM users WHERE username = $1",
        ),
        parameters: one_value(FilterValue::TextExact(String::from_str(username))),
    };
    proof {
        reveal_strlit("SELECT id, username, password, role FROM users WHERE username = $1");
        reveal_strlit("SELECT id, username, password, role FROM users WHERE username = ");
        let before = "SELECT id, username, password, role FROM users WHERE username = "@;
        assert(nat_text(1) =~= seq!['1']);
        assert(plan@.statement =~= before + placeholder(1) + Seq::<char>::empty());
        lemma_one_placeholder(before, Seq::empty());
    }
    plan
}

/// The plan that stores a new principal under a name, with the digest of its
/// password.
pub fn registration_plan(username: &str, digest: &str) -> (plan: QueryPlan)
    ensures
        plan@.statement
            == "INSERT INTO users (username, password) VALUES ($1, $2) RETURNING id, username"@,
        plan@.parameters == seq![
            ParameterView::Filter(FilterValueView::TextExact(username@)),
            ParameterView::Filter(FilterValueView::TextExact(digest@)),
        ],
        plan@.well_formed(),
{
    let plan = QueryPlan {
        statement: String::from_str(
            "INSERT INTO users (username, password) VALUES ($1, $2) RETURNING id, username",
        ),
        parameters: two_values(
            FilterValue::TextExact(String::from_str(username)),
            FilterValue::TextExact(String::from_str(digest)),
        ),
    };
    proof {
        reveal_strlit(
            "INSERT INTO users (username, password) VALUES ($1, $2) RETURNING id, username",
        );
        reveal_strlit("INSERT INTO users (username, password) VALUES (");
        reveal_strlit(", ");
        reveal_strlit(") RETURNING id, username");
        let before = "INSERT INTO users (username, password) VALUES ("@;
        let between = ", "@;
        let after = ") RETURNING id, username"@;
        assert(nat_text(1) =~= seq!['1']);
        assert(nat_text(2) =~= seq!['2']);
        assert(plan@.statement =~= before + placeholder(1) + between + placeholder(2) + after);
        lemma_two_placeholders(before, between, after);
    }
    plan
}

/// The plan that deletes the principal of a name and hands it back.
pub fn delete_user_plan(payload: &DeleteUserPayload) -> (plan: QueryPlan)
    ensures
        plan@.statement
            == "DELETE FROM users WHERE username=$1 RETURNING id, username, role"@,
        plan@.parameters == seq![
            ParameterView::Filter(FilterValueView::TextExact(payload.username@)),
        ],
        plan@.well_formed(),
{
    let plan = QueryPlan {
        statement: String::from_str(
            "DELETE FROM users WHERE username=$1 RETURNING id, username, role",
        ),
        parameters: one_value(FilterValue::TextExact(payload.username.clone())),
    };
    proof {
        reveal_strlit("DELETE FROM users WHERE username=$1 RETURNING id, username, role");
        reveal_strlit("DELETE FROM users WHERE username=");
        reveal_strlit(" RETURNING id, username, role");
        let before = "DELETE FROM users WHERE username="@;
        let after = " RETURNING id, username, role"@;
        assert(nat_text(1) =~= seq!['1']);
        assert(plan@.statement =~= before + placeholder(1) + after);
        lemma_one_placeholder(before, after);
    }
    plan
}

} // verus!
