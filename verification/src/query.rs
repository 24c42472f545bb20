//! Query plans: a statement with positional placeholders and the values bound
//! to them, rendered from an ordered list of filters and a pagination.
//!
//! Caller-supplied values never reach the statement text. The text is made of
//! fixed fragments and placeholder numbers only; every value travels in the
//! plan's parameter list.

use vstd::prelude::*;
use crate::numbering::{
    ends_number, is_plain, lemma_numbers_match_count, lemma_placeholder_numbers_concat,
    lemma_placeholder_reads_back, lemma_plain_has_no_numbers, one_to, placeholder,
    placeholder_count, placeholder_numbers,
};
use crate::text::{int_text, integer_text, natural_text};

verus! {

/// A table of the store.
#[derive(Debug, Clone, Copy, PartialEq, Eq, Structural)]
pub enum Table {
    Users,
    Notes,
}

/// A column that a filter may test.
#[derive(Debug, Clone, Copy, PartialEq, Eq, Structural)]
pub enum Column {
    Role,
    Username,
    UserId,
    Text,
}

/// The shape of a predicate: what stands before its placeholder.
#[derive(Debug, Clone, Copy, PartialEq, Eq, Structural)]
pub enum Predicate {
    Equals(Column),
    Like(Column),
}

/// The operand of a predicate.
#[derive(Debug, PartialEq, Eq)]
pub enum FilterValue {
    Int(i64),
    TextExact(String),
    TextSubstring(String),
}

/// The model of [`FilterValue`] that contracts speak of.
pub enum FilterValueView {
    Int(int),
    TextExact(Seq<char>),
    TextSubstring(Seq<char>),
}

impl View for FilterValue {
    type V = FilterValueView;

    open spec fn view(&self) -> FilterValueView {
        match self {
            FilterValue::Int(i) => FilterValueView::Int(*i as int),
            FilterValue::TextExact(s) => FilterValueView::TextExact(s@),
            FilterValue::TextSubstring(s) => FilterValueView::TextSubstring(s@),
        }
    }
}

impl Clone for FilterValue {
    fn clone(&self) -> (r: Self)
        ensures
            r@ == self@,
    {
        match self {
            FilterValue::Int(i) => FilterValue::Int(*i),
            FilterValue::TextExact(s) => FilterValue::TextExact(s.clone()),
            FilterValue::TextSubstring(s) => FilterValue::TextSubstring(s.clone()),
        }
    }
}

/// One entry of a filter list: a predicate and the value bound to it.
#[derive(Debug, PartialEq, Eq)]
pub struct Filter {
    pub predicate: Predicate,
    pub value: FilterValue,
}

/// The model of [`Filter`] that contracts speak of.
pub struct FilterView {
    pub predicate: Predicate,
    pub value: FilterValueView,
}

impl View for Filter {
    type V = FilterView;

    open spec fn view(&self) -> FilterView {
        FilterView { predicate: self.predicate, value: self.value@ }
    }
}

impl Clone for Filter {
    fn clone(&self) -> (r: Self)
        ensures
            r@ == self@,
    {
        Filter { predicate: self.predicate, value: self.value.clone() }
    }
}

/// The views of a list of filters, in order.
pub open spec fn filter_views(filters: Seq<Filter>) -> Seq<FilterView> {
    Seq::new(filters.len(), |i: int| filters[i]@)
}

/// The window of rows that a listing returns.
#[derive(Debug, Clone, Copy, PartialEq, Eq, Structural)]
pub struct Pagination {
    pub offset: i64,
    pub limit: i64,
}

impl Pagination {
    /// Neither bound is negative.
    pub open spec fn is_valid(self) -> bool {
        self.limit >= 0 && self.offset >= 0
    }

    /// Tells whether neither bound is negative.
    pub fn check(&self) -> (ok: bool)
        ensures
            ok == self.is_valid(),
    {
        self.limit >= 0 && self.offset >= 0
    }
}

/// A value bound to one placeholder of a plan.
#[derive(Debug, PartialEq, Eq)]
pub enum Parameter {
    Filter(FilterValue),
    Limit(i64),
    Offset(i64),
}

/// The model of [`Parameter`] that contracts speak of.
pub enum ParameterView {
    Filter(FilterValueView),
    Limit(int),
    Offset(int),
}

impl View for Parameter {
    type V = ParameterView;

    open spec fn view(&self) -> ParameterView {
        match self {
            Parameter::Filter(v) => ParameterView::Filter(v@),
            Parameter::Limit(n) => ParameterView::Limit(*n as int),
            Parameter::Offset(n) => ParameterView::Offset(*n as int),
        }
    }
}

impl Clone for Parameter {
    fn clone(&self) -> (r: Self)
        ensures
            r@ == self@,
    {
        match self {
            Parameter::Filter(v) => Parameter::Filter(v.clone()),
            Parameter::Limit(n) => Parameter::Limit(*n),
            Parameter::Offset(n) => Parameter::Offset(*n),
        }
    }
}

/// The views of a list of parameters, in order.
pub open spec fn parameter_views(parameters: Seq<Parameter>) -> Seq<ParameterView> {
    Seq::new(parameters.len(), |i: int| parameters[i]@)
}

/// A statement and the values for its placeholders, in placeholder order.
#[derive(Debug, PartialEq, Eq)]
pub struct QueryPlan {
    pub statement: String,
    pub parameters: Vec<Parameter>,
}

/// The model of [`QueryPlan`] that contracts speak of.
pub struct QueryPlanView {
    pub statement: Seq<char>,
    pub parameters: Seq<ParameterView>,
}

impl View for QueryPlan {
    type V = QueryPlanView;

    open spec fn view(&self) -> QueryPlanView {
        QueryPlanView {
            statement: self.statement@,
            parameters: parameter_views(self.parameters@),
        }
    }
}

impl QueryPlanView {
    /// The statement has exactly one placeholder for each parameter, and the
    /// placeholders bear the numbers of the parameters in order: one, two and
    /// so on.
    pub open spec fn well_formed(self) -> bool {
        placeholder_numbers(self.statement) == one_to(self.parameters.len())
    }
}

impl Table {
    /// The table's name in statements.
    pub open spec fn name_text(self) -> Seq<char> {
        match self {
            Table::Users => "users"@,
            Table::Notes => "notes"@,
        }
    }

    /// The columns that a listing of the table selects.
    pub open spec fn columns_text(self) -> Seq<char> {
        match self {
            Table::Users => "id, username, role"@,
            Table::Notes => "id, text"@,
        }
    }

    /// The table's name in statements.
    pub fn name(self) -> (r: &'static str)
        ensures
            r@ == self.name_text(),
    {
        match self {
            Table::Users => "users",
            Table::Notes => "notes",
        }
    }

    /// The columns that a listing of the table selects.
    pub fn columns(self) -> (r: &'static str)
        ensures
            r@ == self.columns_text(),
    {
        match self {
            Table::Users => "id, username, role",
            Table::Notes => "id, text",
        }
    }
}

impl Column {
    /// The column's name in statements.
    pub open spec fn name_text(self) -> Seq<char> {
        match self {
            Column::Role => "role"@,
            Column::Username => "username"@,
            Column::UserId => "user_id"@,
            Column::Text => "text"@,
        }
    }

    /// The column's name in statements.
    pub fn name(self) -> (r: &'static str)
        ensures
            r@ == self.name_text(),
    {
        match self {
            Column::Role => "role",
            Column::Username => "username",
            Column::UserId => "user_id",
            Column::Text => "text",
        }
    }
}

impl Predicate {
    /// The column that the predicate tests.
    pub open spec fn column(self) -> Column {
        match self {
            Predicate::Equals(c) => c,
            Predicate::Like(c) => c,
        }
    }

    /// What stands between the column and the placeholder.
    pub open spec fn operator_text(self) -> Seq<char> {
        match self {
            Predicate::Equals(_) => "="@,
            Predicate::Like(_) => " LIKE "@,
        }
    }

    /// The text of the predicate up to its placeholder.
    pub open spec fn template_text(self) -> Seq<char> {
        self.column().name_text() + self.operator_text()
    }

    /// The text of the predicate up to its placeholder.
    pub fn template(self) -> (r: String)
        ensures
            r@ == self.template_text(),
    {
        match self {
            Predicate::Equals(c) => String::from_str(c.name()).concat("="),
            Predicate::Like(c) => String::from_str(c.name()).concat(" LIKE "),
        }
    }
}

/// The `WHERE` clause of a filter list: nothing for an empty list, else the
/// predicates joined by `AND`, the i-th with placeholder number i.
pub open spec fn where_clause(filters: Seq<FilterView>) -> Seq<char>
    decreases filters.len(),
{
    if filters.len() == 0 {
        Seq::empty()
    } else {
        let joiner = if filters.len() == 1 {
            " WHERE "@
        } else {
            " AND "@
        };
        where_clause(filters.drop_last()) + joiner + filters.last().predicate.template_text()
            + placeholder(filters.len())
    }
}

/// The statement that fetches one page of rows.
pub open spec fn data_statement(table: Table, filters: Seq<FilterView>) -> Seq<char> {
    "SELECT "@ + table.columns_text() + " FROM "@ + table.name_text() + where_clause(filters)
        + " ORDER BY id LIMIT "@ + placeholder(filters.len() + 1) + " OFFSET "@ + placeholder(
        filters.len() + 2,
    )
}

/// The statement that counts the rows which the filters select.
pub open spec fn count_statement(table: Table, filters: Seq<FilterView>) -> Seq<char> {
    "SELECT count(*) FROM "@ + table.name_text() + where_clause(filters)
}

/// The filter values as parameters, in filter order.
pub open spec fn filter_parameters(filters: Seq<FilterView>) -> Seq<ParameterView> {
    Seq::new(filters.len(), |i: int| ParameterView::Filter(filters[i].value))
}

/// The plan that fetches one page: the filter values, then limit, then offset.
pub open spec fn data_plan_of(
    table: Table,
    filters: Seq<FilterView>,
    pagination: Pagination,
) -> QueryPlanView {
    QueryPlanView {
        statement: data_statement(table, filters),
        parameters: filter_parameters(filters) + seq![
            ParameterView::Limit(pagination.limit as int),
            ParameterView::Offset(pagination.offset as int),
        ],
    }
}

/// The plan that counts: the filter values and nothing else.
pub open spec fn count_plan_of(table: Table, filters: Seq<FilterView>) -> QueryPlanView {
    QueryPlanView {
        statement: count_statement(table, filters),
        parameters: filter_parameters(filters),
    }
}

/// The optional free-text search of a listing request.
#[derive(Debug, Clone, PartialEq, Eq)]
pub struct Search {
    pub search: Option<String>,
}

/// What the store receives for one placeholder.
#[derive(Debug, PartialEq, Eq)]
pub enum BoundValue {
    Int(i64),
    Text(String),
}

/// The model of [`BoundValue`] that contracts speak of.
pub enum BoundValueView {
    Int(int),
    Text(Seq<char>),
}

impl View for BoundValue {
    type V = BoundValueView;

    open spec fn view(&self) -> BoundValueView {
        match self {
            BoundValue::Int(i) => BoundValueView::Int(*i as int),
            BoundValue::Text(s) => BoundValueView::Text(s@),
        }
    }
}

/// The pattern that matches every text which holds the needle.
pub open spec fn like_pattern(needle: Seq<char>) -> Seq<char> {
    seq!['%'] + needle + seq!['%']
}

/// The value that a parameter binds: a number as it is, an exact text as it
/// is, and for a substring test the pattern around the needle.
pub open spec fn bound_of(parameter: ParameterView) -> BoundValueView {
    match parameter {
        ParameterView::Filter(FilterValueView::Int(i)) => BoundValueView::Int(i),
        ParameterView::Filter(FilterValueView::TextExact(s)) => BoundValueView::Text(s),
        ParameterView::Filter(FilterValueView::TextSubstring(s)) => BoundValueView::Text(
            like_pattern(s),
        ),
        ParameterView::Limit(n) => BoundValueView::Int(n),
        ParameterView::Offset(n) => BoundValueView::Int(n),
    }
}

impl Parameter {
    /// Encodes the parameter for the store.
    pub fn bound(&self) -> (value: BoundValue)
        ensures
            value@ == bound_of(self@),
    {
        match self {
            Parameter::Filter(FilterValue::Int(i)) => BoundValue::Int(*i),
            Parameter::Filter(FilterValue::TextExact(s)) => BoundValue::Text(s.clone()),
            Parameter::Filter(FilterValue::TextSubstring(s)) => {
                proof {
                    reveal_strlit("%");
                }
                let pattern = String::from_str("%").concat(s.as_str()).concat("%");
                assert(pattern@ =~= like_pattern(s@));
                BoundValue::Text(pattern)
            },
            Parameter::Limit(n) => BoundValue::Int(*n),
            Parameter::Offset(n) => BoundValue::Int(*n),
        }
    }
}

/// Accumulates filters for one table and renders the two plans of a listing:
/// the page of rows and the matching count.
pub struct QueryPlanBuilder {
    table: Table,
    filters: Vec<Filter>,
    pagination: Pagination,
}

/// The model of [`QueryPlanBuilder`] that contracts speak of.
pub struct QueryPlanBuilderView {
    pub table: Table,
    pub filters: Seq<FilterView>,
    pub pagination: Pagination,
}

impl View for QueryPlanBuilder {
    type V = QueryPlanBuilderView;

    closed spec fn view(&self) -> QueryPlanBuilderView {
        QueryPlanBuilderView {
            table: self.table,
            filters: filter_views(self.filters@),
            pagination: self.pagination,
        }
    }
}

impl QueryPlanBuilder {
    /// A builder without filters.
    pub fn new(table: Table, pagination: Pagination) -> (r: Self)
        ensures
            r@ == (QueryPlanBuilderView { table, filters: Seq::empty(), pagination }),
    {
        let r = QueryPlanBuilder { table, filters: Vec::new(), pagination };
        assert(filter_views(r.filters@) =~= Seq::empty());
        r
    }

    /// Adds a filter behind those already there. Nothing is merged: the same
    /// predicate given twice stands twice.
    pub fn filter(self, predicate: Predicate, value: FilterValue) -> (r: Self)
        ensures
            r@ == (QueryPlanBuilderView {
                filters: self@.filters.push(FilterView { predicate, value: value@ }),
                ..self@
            }),
    {
        let mut filters = self.filters;
        let ghost before = filters@;
        filters.push(Filter { predicate, value });
        assert(filter_views(filters@) =~= filter_views(before).push(
            FilterView { predicate, value: value@ },
        ));
        QueryPlanBuilder { table: self.table, filters, pagination: self.pagination }
    }

    /// A builder over a finished filter list.
    pub fn with_filters(table: Table, filters: Vec<Filter>, pagination: Pagination) -> (r: Self)
        ensures
            r@ == (QueryPlanBuilderView { table, filters: filter_views(filters@), pagination }),
    {
        QueryPlanBuilder { table, filters, pagination }
    }

    /// The plan that fetches the page of rows.
    pub fn data_plan(&self) -> (plan: QueryPlan)
        ensures
            plan@ == data_plan_of(self@.table, self@.filters, self@.pagination),
            plan@.well_formed(),
            placeholder_count(plan@.statement) == self@.filters.len() + 2,
    {
        let ghost views = filter_views(self.filters@);
        let count = self.filters.len();
        let mut statement = String::from_str("SELECT ");
        statement.append(self.table.columns());
        statement.append(" FROM ");
        statement.append(self.table.name());
        let clause = render_where(&self.filters);
        statement.append(clause.as_str());
        statement.append(" ORDER BY id LIMIT ");
        append_placeholder(&mut statement, count as u128 + 1);
        statement.append(" OFFSET ");
        append_placeholder(&mut statement, count as u128 + 2);
        let mut parameters = filter_values(&self.filters);
        parameters.push(Parameter::Limit(self.pagination.limit));
        parameters.push(Parameter::Offset(self.pagination.offset));
        let plan = QueryPlan { statement, parameters };
        proof {
            assert(plan@.statement =~= data_statement(self.table, views));
            assert(plan@.parameters =~= data_plan_of(
                self.table,
                views,
                self.pagination,
            ).parameters);
            lemma_data_plan_well_formed(self.table, views, self.pagination);
        }
        plan
    }

    /// The plan that counts the rows which the filters select. Its
    /// placeholders are numbered on their own, from one; the pagination has
    /// no part in it.
    pub fn count_plan(&self) -> (plan: QueryPlan)
        ensures
            plan@ == count_plan_of(self@.table, self@.filters),
            plan@.well_formed(),
            placeholder_count(plan@.statement) == self@.filters.len(),
    {
        let ghost views = filter_views(self.filters@);
        let mut statement = String::from_str("SELECT count(*) FROM ");
        statement.append(self.table.name());
        let clause = render_where(&self.filters);
        statement.append(clause.as_str());
        let parameters = filter_values(&self.filters);
        let plan = QueryPlan { statement, parameters };
        proof {
            assert(plan@.statement =~= count_statement(self.table, views));
            lemma_count_plan_well_formed(self.table, views);
        }
        plan
    }
}

fn append_placeholder(text: &mut String, number: u128)
    ensures
        final(text)@ == old(text)@ + placeholder(number as nat),
{
    proof {
        reveal_strlit("$");
    }
    let digits = natural_text(number);
    text.append("$");
    text.append(digits.as_str());
    assert(text@ =~= old(text)@ + placeholder(number as nat));
}

fn render_where(filters: &Vec<Filter>) -> (clause: String)
    ensures
        clause@ == where_clause(filter_views(filters@)),
{
    let ghost views = filter_views(filters@);
    let mut clause = String::new();
    let mut i: usize = 0;
    while i < filters.len()
        invariant
            i <= filters.len(),
            views == filter_views(filters@),
            clause@ == where_clause(views.take(i as int)),
        decreases filters.len() - i,
    {
        if i == 0 {
            clause.append(" WHERE ");
        } else {
            clause.append(" AND ");
        }
        let template = filters[i].predicate.template();
        clause.append(template.as_str());
        append_placeholder(&mut clause, i as u128 + 1);
        proof {
            let upto = views.take(i as int + 1);
            assert(upto.drop_last() =~= views.take(i as int));
            assert(upto.last() == filters@[i as int]@);
        }
        i += 1;
    }
    assert(views.take(i as int) =~= views);
    clause
}

fn filter_values(filters: &Vec<Filter>) -> (parameters: Vec<Parameter>)
    ensures
        parameter_views(parameters@) == filter_parameters(filter_views(filters@)),
{
    let mut parameters: Vec<Parameter> = Vec::new();
    let mut i: usize = 0;
    while i < filters.len()
        invariant
            i <= filters.len(),
            parameters@.len() == i,
            forall|k: int|
                0 <= k < i ==> (#[trigger] parameters@[k])@ == ParameterView::Filter(
                    filters@[k].value@,
                ),
        decreases filters.len() - i,
    {
        parameters.push(Parameter::Filter(filters[i].value.clone()));
        i += 1;
    }
    assert(parameter_views(parameters@) =~= filter_parameters(filter_views(filters@)));
    parameters
}

/// The parameter list of one filter value.
pub fn one_value(value: FilterValue) -> (parameters: Vec<Parameter>)
    ensures
        parameter_views(parameters@) == seq![ParameterView::Filter(value@)],
{
    let mut parameters: Vec<Parameter> = Vec::new();
    parameters.push(Parameter::Filter(value));
    assert(parameter_views(parameters@) =~= seq![ParameterView::Filter(value@)]);
    parameters
}

/// The parameter list of two filter values, in the order given.
pub fn two_values(first: FilterValue, second: FilterValue) -> (parameters: Vec<Parameter>)
    ensures
        parameter_views(parameters@) == seq![
            ParameterView::Filter(first@),
            ParameterView::Filter(second@),
        ],
{
    let mut parameters: Vec<Parameter> = Vec::new();
    parameters.push(Parameter::Filter(first));
    parameters.push(Parameter::Filter(second));
    assert(parameter_views(parameters@) =~= seq![
        ParameterView::Filter(first@),
        ParameterView::Filter(second@),
    ]);
    parameters
}

/// The name of the response header that carries the total of a listing.
pub const TOTAL_COUNT_HEADER: &'static str = "x-total-count";

/// The value of the total-count header: the count in decimal, whatever page
/// was asked for.
pub fn total_count_value(count: i64) -> (value: String)
    ensures
        value@ == int_text(count as int),
{
    integer_text(count)
}

proof fn lemma_fragments_end_numbers()
    ensures
        forall|t: Table| ends_number(#[trigger] t.name_text()),
        forall|t: Table| ends_number(#[trigger] t.columns_text()),
        forall|p: Predicate| ends_number(#[trigger] p.template_text()),
        ends_number(" WHERE "@),
        ends_number(" AND "@),
        ends_number(" FROM "@),
        ends_number(" ORDER BY id LIMIT "@),
        ends_number(" OFFSET "@),
        is_plain("SELECT "@),
        is_plain("SELECT count(*) FROM "@),
        forall|t: Table| is_plain(#[trigger] t.name_text()),
        forall|t: Table| is_plain(#[trigger] t.columns_text()),
        forall|p: Predicate| is_plain(#[trigger] p.template_text()),
        is_plain(" WHERE "@),
        is_plain(" AND "@),
        is_plain(" FROM "@),
        is_plain(" ORDER BY id LIMIT "@),
        is_plain(" OFFSET "@),
{
    reveal_strlit("users");
    reveal_strlit("notes");
    reveal_strlit("id, username, role");
    reveal_strlit("id, text");
    reveal_strlit("role");
    reveal_strlit("username");
    reveal_strlit("user_id");
    reveal_strlit("text");
    reveal_strlit("=");
    reveal_strlit(" LIKE ");
    reveal_strlit(" WHERE ");
    reveal_strlit(" AND ");
    reveal_strlit("SELECT ");
    reveal_strlit(" FROM ");
    reveal_strlit("SELECT count(*) FROM ");
    reveal_strlit(" ORDER BY id LIMIT ");
    reveal_strlit(" OFFSET ");
}

proof fn lemma_where_clause_start(filters: Seq<FilterView>)
    ensures
        ends_number(where_clause(filters)),
    decreases filters.len(),
{
    if filters.len() > 0 {
        reveal_strlit(" WHERE ");
        reveal_strlit(" AND ");
        lemma_where_clause_start(filters.drop_last());
        if filters.len() == 1 {
            assert(where_clause(filters.drop_last()).len() == 0);
        }
    }
}

/// A `WHERE` clause holds one placeholder for each filter, numbered from one
/// in filter order.
pub proof fn lemma_where_clause_numbers(filters: Seq<FilterView>)
    ensures
        placeholder_numbers(where_clause(filters)) == one_to(filters.len()),
        placeholder_count(where_clause(filters)) == filters.len(),
    decreases filters.len(),
{
    lemma_numbers_match_count(where_clause(filters));
    if filters.len() == 0 {
        assert(placeholder_numbers(where_clause(filters)) =~= one_to(0));
    } else {
        let joiner = if filters.len() == 1 {
            " WHERE "@
        } else {
            " AND "@
        };
        let head = where_clause(filters.drop_last());
        let template = filters.last().predicate.template_text();
        let marker = placeholder(filters.len());
        lemma_where_clause_numbers(filters.drop_last());
        lemma_fragments_end_numbers();
        lemma_placeholder_reads_back(filters.len());
        lemma_plain_has_no_numbers(joiner);
        lemma_plain_has_no_numbers(template);
        lemma_placeholder_numbers_concat(head, joiner);
        lemma_placeholder_numbers_concat(head + joiner, template);
        lemma_placeholder_numbers_concat(head + joiner + template, marker);
        assert(placeholder_numbers(where_clause(filters)) =~= one_to(filters.len()));
    }
}

/// In each of the two plans of any filter list, the placeholders bear the
/// numbers one, two, three and so on in the order in which they stand in
/// the text: each statement is numbered on its own, from one, without gap
/// or repeat, so that the i-th placeholder is the place of the i-th
/// parameter.
pub proof fn lemma_placeholders_numbered_in_order(
    table: Table,
    filters: Seq<FilterView>,
    pagination: Pagination,
)
    ensures
        placeholder_numbers(count_plan_of(table, filters).statement) == one_to(filters.len()),
        placeholder_numbers(data_plan_of(table, filters, pagination).statement) == one_to(
            filters.len() + 2,
        ),
{
    lemma_fragments_end_numbers();
    lemma_where_clause_start(filters);
    lemma_where_clause_numbers(filters);
    let n = filters.len();
    lemma_placeholder_reads_back(n + 1);
    lemma_placeholder_reads_back(n + 2);
    lemma_plain_has_no_numbers("SELECT count(*) FROM "@);
    lemma_plain_has_no_numbers("SELECT "@);
    lemma_plain_has_no_numbers(" FROM "@);
    lemma_plain_has_no_numbers(" ORDER BY id LIMIT "@);
    lemma_plain_has_no_numbers(" OFFSET "@);
    lemma_plain_has_no_numbers(table.name_text());
    lemma_plain_has_no_numbers(table.columns_text());

    let count_head = "SELECT count(*) FROM "@ + table.name_text();
    lemma_placeholder_numbers_concat("SELECT count(*) FROM "@, table.name_text());
    lemma_placeholder_numbers_concat(count_head, where_clause(filters));
    assert(placeholder_numbers(count_plan_of(table, filters).statement) =~= one_to(n));

    let a = "SELECT "@ + table.columns_text();
    let b = a + " FROM "@;
    let c = b + table.name_text();
    let d = c + where_clause(filters);
    let e = d + " ORDER BY id LIMIT "@;
    let f = e + placeholder(n + 1);
    let g = f + " OFFSET "@;
    lemma_placeholder_numbers_concat("SELECT "@, table.columns_text());
    lemma_placeholder_numbers_concat(a, " FROM "@);
    lemma_placeholder_numbers_concat(b, table.name_text());
    lemma_placeholder_numbers_concat(c, where_clause(filters));
    lemma_placeholder_numbers_concat(d, " ORDER BY id LIMIT "@);
    lemma_placeholder_numbers_concat(e, placeholder(n + 1));
    lemma_placeholder_numbers_concat(f, " OFFSET "@);
    lemma_placeholder_numbers_concat(g, placeholder(n + 2));
    assert(placeholder_numbers(data_plan_of(table, filters, pagination).statement) =~= one_to(
        n + 2,
    ));
}

/// In the counting plan of any filter list the statement holds exactly as
/// many placeholders as there are filters, and so does the parameter list:
/// the pagination of the page plan adds nothing to it.
pub proof fn lemma_count_plan_well_formed(table: Table, filters: Seq<FilterView>)
    ensures
        placeholder_count(count_plan_of(table, filters).statement) == filters.len(),
        count_plan_of(table, filters).parameters.len() == filters.len(),
        count_plan_of(table, filters).well_formed(),
{
    lemma_placeholders_numbered_in_order(table, filters, Pagination { offset: 0, limit: 0 });
    lemma_numbers_match_count(count_plan_of(table, filters).statement);
}

/// In the page plan of any filter list the statement holds one placeholder
/// for each filter and two more, for limit and offset, and the parameter list
/// has the same length.
pub proof fn lemma_data_plan_well_formed(
    table: Table,
    filters: Seq<FilterView>,
    pagination: Pagination,
)
    ensures
        placeholder_count(data_plan_of(table, filters, pagination).statement) == filters.len()
            + 2,
        data_plan_of(table, filters, pagination).parameters.len() == filters.len() + 2,
        data_plan_of(table, filters, pagination).well_formed(),
{
    lemma_placeholders_numbered_in_order(table, filters, pagination);
    lemma_numbers_match_count(data_plan_of(table, filters, pagination).statement);
}

/// The statement texts go by the predicates alone: two filter lists with the
/// same predicates in the same order give the same two statements, whatever
/// values they bind. No value ever becomes part of a statement.
pub proof fn lemma_values_stay_out_of_statements(
    table: Table,
    a: Seq<FilterView>,
    b: Seq<FilterView>,
)
    requires
        a.len() == b.len(),
        forall|i: int| 0 <= i < a.len() ==> a[i].predicate == b[i].predicate,
    ensures
        where_clause(a) == where_clause(b),
        data_statement(table, a) == data_statement(table, b),
        count_statement(table, a) == count_statement(table, b),
    decreases a.len(),
{
    if a.len() > 0 {
        lemma_values_stay_out_of_statements(table, a.drop_last(), b.drop_last());
    }
}

/// Without filters neither statement has a `WHERE` clause, the counting plan
/// binds nothing, and limit and offset take the first two placeholders.
pub proof fn lemma_no_filters(table: Table, pagination: Pagination)
    ensures
        where_clause(Seq::empty()) == Seq::<char>::empty(),
        count_plan_of(table, Seq::empty()).statement == "SELECT count(*) FROM "@
            + table.name_text(),
        count_plan_of(table, Seq::empty()).parameters == Seq::<ParameterView>::empty(),
        data_plan_of(table, Seq::empty(), pagination).statement == "SELECT "@
            + table.columns_text() + " FROM "@ + table.name_text() + " ORDER BY id LIMIT "@
            + placeholder(1) + " OFFSET "@ + placeholder(2),
        data_plan_of(table, Seq::empty(), pagination).parameters == seq![
            ParameterView::Limit(pagination.limit as int),
            ParameterView::Offset(pagination.offset as int),
        ],
{
    let none = Seq::<FilterView>::empty();
    assert(where_clause(none) =~= Seq::<char>::empty());
    assert(count_plan_of(table, none).statement =~= "SELECT count(*) FROM "@ + table.name_text());
    assert(count_plan_of(table, none).parameters =~= Seq::<ParameterView>::empty());
    assert(data_plan_of(table, none, pagination).statement =~= "SELECT "@ + table.columns_text()
        + " FROM "@ + table.name_text() + " ORDER BY id LIMIT "@ + placeholder(1) + " OFFSET "@
        + placeholder(2));
    assert(data_plan_of(table, none, pagination).parameters =~= seq![
        ParameterView::Limit(pagination.limit as int),
        ParameterView::Offset(pagination.offset as int),
    ]);
}

/// The two plans of one filter list bind the same filter values at the same
/// placeholder numbers: the page plan's parameters are those of the counting
/// plan, then limit and offset, whose numbers the counting plan never uses.
pub proof fn lemma_plans_agree_on_filters(
    table: Table,
    filters: Seq<FilterView>,
    pagination: Pagination,
)
    ensures
        data_plan_of(table, filters, pagination).parameters.take(filters.len() as int)
            == count_plan_of(table, filters).parameters,
        data_plan_of(table, filters, pagination).parameters.len() == count_plan_of(
            table,
            filters,
        ).parameters.len() + 2,
        data_plan_of(table, filters, pagination).parameters[filters.len() as int]
            == ParameterView::Limit(pagination.limit as int),
        data_plan_of(table, filters, pagination).parameters[filters.len() as int + 1]
            == ParameterView::Offset(pagination.offset as int),
{
    assert(data_plan_of(table, filters, pagination).parameters.take(filters.len() as int)
        =~= count_plan_of(table, filters).parameters);
}

} // verus!
