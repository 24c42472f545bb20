//! Notes, the requests about them, and the plans those requests run. Every
//! plan is bound to the principal that owns the notes.

use vstd::prelude::*;
use crate::numbering::{lemma_two_placeholders, placeholder};
use crate::query::{
    count_plan_of, data_plan_of, filter_views, two_values, Column, Filter, FilterValue,
    FilterValueView, FilterView, Pagination, ParameterView, Predicate, QueryPlan, QueryPlanBuilder,
    Search, Table,
};
use crate::text::nat_text;
use crate::users::{search_text, User};

verus! {

/// A note as the store holds it.
#[derive(Debug, Clone, PartialEq, Eq)]
pub struct Note {
    pub id: i32,
    pub text: String,
}

/// The request to delete a note by id.
#[derive(Debug, Clone, Copy, PartialEq, Eq, Structural)]
pub struct DeleteNotePayload {
    pub id: i32,
}

/// The request to create a note.
#[derive(Debug, Clone, PartialEq, Eq)]
pub struct CreateNotePayload {
    pub text: String,
}

/// The filters of a listing of notes: first the owner, always, then the text
/// search, if one was asked for.
pub open spec fn note_filters_of(owner: int, search: Option<Seq<char>>) -> Seq<FilterView> {
    let by_owner = seq![
        FilterView {
            predicate: Predicate::Equals(Column::UserId),
            value: FilterValueView::Int(owner),
        },
    ];
    let by_text = match search {
        Some(needle) => seq![
            FilterView {
                predicate: Predicate::Like(Column::Text),
                value: FilterValueView::TextSubstring(needle),
            },
        ],
        None => Seq::empty(),
    };
    by_owner + by_text
}

/// Turns the owner and the optional search of a listing of notes into its
/// filters.
pub fn note_filters(owner: &User, search: &Search) -> (filters: Vec<Filter>)
    ensures
        filter_views(filters@) == note_filters_of(owner.id as int, search_text(*search)),
{
    let mut filters: Vec<Filter> = Vec::new();
    filters.push(
        Filter {
            predicate: Predicate::Equals(Column::UserId),
            value: FilterValue::Int(owner.id as i64),
        },
    );
    if let Some(needle) = &search.search {
        filters.push(
            Filter {
                predicate: Predicate::Like(Column::Text),
                value: FilterValue::TextSubstring(needle.clone()),
            },
        );
    }
    assert(filter_views(filters@) =~= note_filters_of(owner.id as int, search_text(*search)));
    filters
}

/// The two plans of a listing of the owner's notes: the page, then the count.
pub fn list_notes_plans(owner: &User, pagination: Pagination, search: &Search) -> (plans: (
    QueryPlan,
    QueryPlan,
))
    ensures
        plans.0@ == data_plan_of(
            Table::Notes,
            note_filters_of(owner.id as int, search_text(*search)),
            pagination,
        ),
        plans.1@ == count_plan_of(
            Table::Notes,
            note_filters_of(owner.id as int, search_text(*search)),
        ),
        plans.0@.well_formed(),
        plans.1@.well_formed(),
{
    let builder = QueryPlanBuilder::with_filters(
        Table::Notes,
        note_filters(owner, search),
        pagination,
    );
    (builder.data_plan(), builder.count_plan())
}

/// The plan that deletes one of the owner's notes and hands it back.
pub fn delete_note_plan(owner: &User, payload: &DeleteNotePayload) -> (plan: QueryPlan)
    ensures
        plan@.statement == "DELETE FROM notes WHERE id=$1 AND user_id=$2 RETURNING id, text"@,
        plan@.parameters == seq![
            ParameterView::Filter(FilterValueView::Int(payload.id as int)),
            ParameterView::Filter(FilterValueView::Int(owner.id as int)),
        ],
        plan@.well_formed(),
{
    let plan = QueryPlan {
        statement: String::from_str(
            "DELETE FROM notes WHERE id=$1 AND user_id=$2 RETURNING id, text",
        ),
        parameters: two_values(
            FilterValue::Int(payload.id as i64),
            FilterValue::Int(owner.id as i64),
        ),
    };
    proof {
        reveal_strlit("DELETE FROM notes WHERE id=$1 AND user_id=$2 RETURNING id, text");
        reveal_strlit("DELETE FROM notes WHERE id=");
        reveal_strlit(" AND user_id=");
        reveal_strlit(" RETURNING id, text");
        let before = "DELETE FROM notes WHERE id="@;
        let between = " AND user_id="@;
        let after = " RETURNING id, text"@;
        assert(nat_text(1) =~= seq!['1']);
        assert(nat_text(2) =~= seq!['2']);
        assert(plan@.statement =~= before + placeholder(1) + between + placeholder(2) + after);
        lemma_two_placeholders(before, between, after);
    }
    plan
}

/// The plan that stores a new note for the owner and hands it back.
pub fn create_note_plan(owner: &User, payload: &CreateNotePayload) -> (plan: QueryPlan)
    ensures
        plan@.statement
            == "INSERT INTO notes (text, user_id) VALUES ($1, $2) RETURNING id, text"@,
        plan@.parameters == seq![
            ParameterView::Filter(FilterValueView::TextExact(payload.text@)),
            ParameterView::Filter(FilterValueView::Int(owner.id as int)),
        ],
        plan@.well_formed(),
{
    let plan = QueryPlan {
        statement: String::from_str(
            "INSERT INTO notes (text, user_id) VALUES ($1, $2) RETURNING id, text",
        ),
        parameters: two_values(
            FilterValue::TextExact(payload.text.clone()),
            FilterValue::Int(owner.id as i64),
        ),
    };
    proof {
        reveal_strlit("INSERT INTO notes (text, user_id) VALUES ($1, $2) RETURNING id, text");
        reveal_strlit("INSERT INTO notes (text, user_id) VALUES (");
        reveal_strlit(", ");
        reveal_strlit(") RETURNING id, text");
        let before = "INSERT INTO notes (text, user_id) VALUES ("@;
        let between = ", "@;
        let after = ") RETURNING id, text"@;
        assert(nat_text(1) =~= seq!['1']);
        assert(nat_text(2) =~= seq!['2']);
        assert(plan@.statement =~= before + placeholder(1) + between + placeholder(2) + after);
        lemma_two_placeholders(before, between, after);
    }
    plan
}

} // verus!
