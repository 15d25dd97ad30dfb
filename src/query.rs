//! The query value model: selected columns, filters, ordering, aggregation,
//! grouping and paging, as plain data that the SQL builder compiles.

use vstd::prelude::*;

verus! {

/// A dynamically typed scalar carried by a filter or bound as a parameter.
#[derive(Debug, Clone, PartialEq, Eq)]
pub enum QueryValue {
    Null,
    Bool(bool),
    Integer(i64),
    Text(String),
}

/// What a `QueryValue` holds, with text as a character sequence.
pub enum ScalarView {
    Null,
    Bool(bool),
    Integer(i64),
    Text(Seq<char>),
}

impl View for QueryValue {
    type V = ScalarView;

    open spec fn view(&self) -> ScalarView {
        match self {
            QueryValue::Null => ScalarView::Null,
            QueryValue::Bool(b) => ScalarView::Bool(*b),
            QueryValue::Integer(i) => ScalarView::Integer(*i),
            QueryValue::Text(s) => ScalarView::Text(s@),
        }
    }
}

impl QueryValue {
    /// A copy of this value.
    pub fn duplicate(&self) -> (r: QueryValue)
        ensures
            r == *self,
    {
        match self {
            QueryValue::Null => QueryValue::Null,
            QueryValue::Bool(b) => QueryValue::Bool(*b),
            QueryValue::Integer(i) => QueryValue::Integer(*i),
            QueryValue::Text(s) => QueryValue::Text(s.clone()),
        }
    }

    /// The text held by this value, if it is text.
    pub fn as_text(&self) -> (r: Option<&str>)
        ensures
            self is Text <==> r is Some,
            r matches Some(t) ==> self@ == ScalarView::Text(t@),
    {
        match self {
            QueryValue::Text(s) => Some(s.as_str()),
            _ => None,
        }
    }
}

/// Comparison and membership operators of a filter.
#[derive(Debug, Clone, Copy, PartialEq, Eq, Structural, Default)]
pub enum FilterOperator {
    #[default]
    Eq,
    Ne,
    Gt,
    Ng,
    Lt,
    Nl,
    Ge,
    Le,
    Like,
    StartsWith,
    EndsWith,
    NotLike,
    In,
    NotIn,
    IsNull,
    IsNotNull,
}

/// The SQL token of each operator.
pub open spec fn operator_token(op: FilterOperator) -> Seq<char> {
    match op {
        FilterOperator::Eq => "="@,
        FilterOperator::Ne => "<>"@,
        FilterOperator::Gt => ">"@,
        FilterOperator::Ng => "!>"@,
        FilterOperator::Lt => "<"@,
        FilterOperator::Nl => "!<"@,
        FilterOperator::Ge => ">="@,
        FilterOperator::Le => "<="@,
        FilterOperator::Like => "LIKE"@,
        FilterOperator::StartsWith => "LIKE"@,
        FilterOperator::EndsWith => "LIKE"@,
        FilterOperator::NotLike => "NOT LIKE"@,
        FilterOperator::In => "IN"@,
        FilterOperator::NotIn => "NOT IN"@,
        FilterOperator::IsNull => "IS NULL"@,
        FilterOperator::IsNotNull => "IS NOT NULL"@,
    }
}

impl FilterOperator {
    /// The SQL token of this operator.
    pub fn token(&self) -> (r: &'static str)
        ensures
            r@ == operator_token(*self),
    {
        match self {
            FilterOperator::Eq => "=",
            FilterOperator::Ne => "<>",
            FilterOperator::Gt => ">",
            FilterOperator::Ng => "!>",
            FilterOperator::Lt => "<",
            FilterOperator::Nl => "!<",
            FilterOperator::Ge => ">=",
            FilterOperator::Le => "<=",
            FilterOperator::Like => "LIKE",
            FilterOperator::StartsWith => "LIKE",
            FilterOperator::EndsWith => "LIKE",
            FilterOperator::NotLike => "NOT LIKE",
            FilterOperator::In => "IN",
            FilterOperator::NotIn => "NOT IN",
            FilterOperator::IsNull => "IS NULL",
            FilterOperator::IsNotNull => "IS NOT NULL",
        }
    }

    /// The SQL token of this operator, as an owned string.
    pub fn to_string(&self) -> (r: String)
        ensures
            r@ == operator_token(*self),
    {
        self.token().to_owned()
    }
}

/// The conjunction placed before a filter that is not the first.
#[derive(Debug, Clone, Copy, PartialEq, Eq, Structural, Default)]
pub enum Glue {
    #[default]
    And,
    Or,
    Not,
}

pub open spec fn glue_token(g: Glue) -> Seq<char> {
    match g {
        Glue::And => "AND"@,
        Glue::Or => "OR"@,
        Glue::Not => "NOT"@,
    }
}

impl Glue {
    pub fn token(&self) -> (r: &'static str)
        ensures
            r@ == glue_token(*self),
    {
        match self {
            Glue::And => "AND",
            Glue::Or => "OR",
            Glue::Not => "NOT",
        }
    }

    pub fn to_string(&self) -> (r: String)
        ensures
            r@ == glue_token(*self),
    {
        self.token().to_owned()
    }
}

/// Sort direction of an ORDER BY entry.
#[derive(Debug, Clone, Copy, PartialEq, Eq, Structural, Default)]
pub enum OrderDirection {
    #[default]
    Asc,
    Desc,
}

/// Aggregate functions.
#[derive(Debug, Clone, Copy, PartialEq, Eq, Structural, Default)]
pub enum AggregateOperation {
    #[default]
    Count,
    Sum,
    Avg,
    Min,
    Max,
}

pub open spec fn aggregate_token(op: AggregateOperation) -> Seq<char> {
    match op {
        AggregateOperation::Count => "COUNT"@,
        AggregateOperation::Sum => "SUM"@,
        AggregateOperation::Avg => "AVG"@,
        AggregateOperation::Min => "MIN"@,
        AggregateOperation::Max => "MAX"@,
    }
}

impl AggregateOperation {
    pub fn token(&self) -> (r: &'static str)
        ensures
            r@ == aggregate_token(*self),
    {
        match self {
            AggregateOperation::Count => "COUNT",
            AggregateOperation::Sum => "SUM",
            AggregateOperation::Avg => "AVG",
            AggregateOperation::Min => "MIN",
            AggregateOperation::Max => "MAX",
        }
    }

    pub fn to_string(&self) -> (r: String)
        ensures
            r@ == aggregate_token(*self),
    {
        self.token().to_owned()
    }
}

/// A selected column with an optional alias.
#[derive(Debug, Clone, PartialEq, Eq, Default)]
pub struct Select {
    pub column: String,
    pub alias: Option<String>,
}

/// `column` or `column AS alias`.
pub open spec fn aliased_text(column: Seq<char>, alias: Option<String>) -> Seq<char> {
    match alias {
        Some(a) => column + " AS "@ + a@,
        None => column,
    }
}

/// Copies an optional string slice into an optional owned string.
pub fn owned_alias(alias: Option<&str>) -> (r: Option<String>)
    ensures
        alias is Some <==> r is Some,
        r matches Some(a) ==> a@ == alias->Some_0@,
{
    match alias {
        Some(a) => Some(a.to_owned()),
        None => None,
    }
}

/// Renders `column` or `column AS alias`.
pub fn render_aliased(column: &String, alias: &Option<String>) -> (r: String)
    ensures
        r@ == aliased_text(column@, *alias),
{
    let mut out = column.clone();
    match alias {
        Some(a) => {
            out.append(" AS ");
            out.append(a.as_str());
        },
        None => {},
    }
    out
}

impl Select {
    pub open spec fn text(&self) -> Seq<char> {
        aliased_text(self.column@, self.alias)
    }

    /// `column` or `column AS alias`.
    pub fn to_string(&self) -> (r: String)
        ensures
            r@ == self.text(),
    {
        render_aliased(&self.column, &self.alias)
    }
}

/// A grouping column with an optional alias.
#[derive(Debug, Clone, PartialEq, Eq, Default)]
pub struct Group {
    pub column: String,
    pub alias: Option<String>,
}

impl Group {
    pub open spec fn text(&self) -> Seq<char> {
        aliased_text(self.column@, self.alias)
    }

    /// `column` or `column AS alias`.
    pub fn to_string(&self) -> (r: String)
        ensures
            r@ == self.text(),
    {
        render_aliased(&self.column, &self.alias)
    }
}

/// An ordering entry.
#[derive(Debug, Clone, PartialEq, Eq, Default)]
pub struct OrderBy {
    pub column: String,
    pub direction: OrderDirection,
}

impl OrderBy {
    pub open spec fn text(&self) -> Seq<char> {
        match self.direction {
            OrderDirection::Asc => self.column@ + " ASC"@,
            OrderDirection::Desc => self.column@ + " DESC"@,
        }
    }

    /// `column ASC` or `column DESC`.
    pub fn to_string(&self) -> (r: String)
        ensures
            r@ == self.text(),
    {
        let mut out = self.column.clone();
        match self.direction {
            OrderDirection::Asc => out.append(" ASC"),
            OrderDirection::Desc => out.append(" DESC"),
        }
        out
    }
}

/// An aggregate over a column, with an optional alias.
#[derive(Debug, Clone, PartialEq, Eq, Default)]
pub struct Aggregate {
    pub operation: AggregateOperation,
    pub column: String,
    pub alias: Option<String>,
}

impl Aggregate {
    pub open spec fn text(&self) -> Seq<char> {
        aliased_text(aggregate_token(self.operation) + "("@ + self.column@ + ")"@, self.alias)
    }

    /// `OP(column)` or `OP(column) AS alias`.
    pub fn to_string(&self) -> (r: String)
        ensures
            r@ == self.text(),
    {
        let mut out = self.operation.to_string();
        out.append("(");
        out.append(self.column.as_str());
        out.append(")");
        match &self.alias {
            Some(a) => {
                out.append(" AS ");
                out.append(a.as_str());
            },
            None => {},
        }
        out
    }
}

/// A predicate on one column.
///
/// Comparison and pattern operators read `value`; `In` and `NotIn` read
/// `values`; `IsNull` and `IsNotNull` read neither. `glue` is the
/// conjunction placed before this filter when it is not the first.
#[derive(Debug, Clone, PartialEq, Eq, Default)]
pub struct Filter {
    pub column: String,
    pub operator: FilterOperator,
    pub value: Option<QueryValue>,
    pub values: Option<Vec<QueryValue>>,
    pub glue: Option<Glue>,
}

impl Filter {
    pub fn builder() -> (r: FilterBuilder)
        ensures
            r.is_blank(),
    {
        FilterBuilder::blank()
    }

    /// A filter with one operand.
    pub open spec fn is_unary(&self, column: Seq<char>, op: FilterOperator, value: QueryValue, glue: Option<Glue>) -> bool {
        &&& self.column@ == column
        &&& self.operator == op
        &&& self.value == Some(value)
        &&& self.values is None
        &&& self.glue == glue
    }

    fn unary(column: &str, op: FilterOperator, value: QueryValue, glue: Option<Glue>) -> (r: Filter)
        ensures
            r.is_unary(column@, op, value, glue),
    {
        Filter { column: column.to_owned(), operator: op, value: Some(value), values: None, glue }
    }

    pub fn equal(column: &str, value: QueryValue, glue: Option<Glue>) -> (r: Filter)
        ensures
            r.is_unary(column@, FilterOperator::Eq, value, glue),
    {
        Filter::unary(column, FilterOperator::Eq, value, glue)
    }

    pub fn not_equal(column: &str, value: QueryValue, glue: Option<Glue>) -> (r: Filter)
        ensures
            r.is_unary(column@, FilterOperator::Ne, value, glue),
    {
        Filter::unary(column, FilterOperator::Ne, value, glue)
    }

    pub fn greater_than(column: &str, value: QueryValue, glue: Option<Glue>) -> (r: Filter)
        ensures
            r.is_unary(column@, FilterOperator::Gt, value, glue),
    {
        Filter::unary(column, FilterOperator::Gt, value, glue)
    }

    pub fn less_than(column: &str, value: QueryValue, glue: Option<Glue>) -> (r: Filter)
        ensures
            r.is_unary(column@, FilterOperator::Lt, value, glue),
    {
        Filter::unary(column, FilterOperator::Lt, value, glue)
    }

    pub fn greater_than_or_equal(column: &str, value: QueryValue, glue: Option<Glue>) -> (r: Filter)
        ensures
            r.is_unary(column@, FilterOperator::Ge, value, glue),
    {
        Filter::unary(column, FilterOperator::Ge, value, glue)
    }

    pub fn less_than_or_equal(column: &str, value: QueryValue, glue: Option<Glue>) -> (r: Filter)
        ensures
            r.is_unary(column@, FilterOperator::Le, value, glue),
    {
        Filter::unary(column, FilterOperator::Le, value, glue)
    }

    pub fn like(column: &str, value: QueryValue, glue: Option<Glue>) -> (r: Filter)
        ensures
            r.is_unary(column@, FilterOperator::Like, value, glue),
    {
        Filter::unary(column, FilterOperator::Like, value, glue)
    }

    pub fn starts_with(column: &str, value: QueryValue, glue: Option<Glue>) -> (r: Filter)
        ensures
            r.is_unary(column@, FilterOperator::StartsWith, value, glue),
    {
        Filter::unary(column, FilterOperator::StartsWith, value, glue)
    }

    pub fn ends_with(column: &str, value: QueryValue, glue: Option<Glue>) -> (r: Filter)
        ensures
            r.is_unary(column@, FilterOperator::EndsWith, value, glue),
    {
        Filter::unary(column, FilterOperator::EndsWith, value, glue)
    }

    pub fn not_like(column: &str, value: QueryValue, glue: Option<Glue>) -> (r: Filter)
        ensures
            r.is_unary(column@, FilterOperator::NotLike, value, glue),
    {
        Filter::unary(column, FilterOperator::NotLike, value, glue)
    }

    /// A set-membership filter.
    pub open spec fn is_membership(&self, column: Seq<char>, op: FilterOperator, values: Vec<QueryValue>, glue: Option<Glue>) -> bool {
        &&& self.column@ == column
        &&& self.operator == op
        &&& self.value is None
        &&& self.values == Some(values)
        &&& self.glue == glue
    }

    pub fn in_list(column: &str, values: Vec<QueryValue>, glue: Option<Glue>) -> (r: Filter)
        ensures
            r.is_membership(column@, FilterOperator::In, values, glue),
    {
        Filter { column: column.to_owned(), operator: FilterOperator::In, value: None, values: Some(values), glue }
    }

    pub fn not_in_list(column: &str, values: Vec<QueryValue>, glue: Option<Glue>) -> (r: Filter)
        ensures
            r.is_membership(column@, FilterOperator::NotIn, values, glue),
    {
        Filter { column: column.to_owned(), operator: FilterOperator::NotIn, value: None, values: Some(values), glue }
    }

    /// A filter with no operand.
    pub open spec fn is_nullary(&self, column: Seq<char>, op: FilterOperator, glue: Option<Glue>) -> bool {
        &&& self.column@ == column
        &&& self.operator == op
        &&& self.value is None
        &&& self.values is None
        &&& self.glue == glue
    }

    pub fn is_null(column: &str, glue: Option<Glue>) -> (r: Filter)
        ensures
            r.is_nullary(column@, FilterOperator::IsNull, glue),
    {
        Filter { column: column.to_owned(), operator: FilterOperator::IsNull, value: None, values: None, glue }
    }

    pub fn is_not_null(column: &str, glue: Option<Glue>) -> (r: Filter)
        ensures
            r.is_nullary(column@, FilterOperator::IsNotNull, glue),
    {
        Filter { column: column.to_owned(), operator: FilterOperator::IsNotNull, value: None, values: None, glue }
    }
}

/// Step-by-step construction of a `Filter`.
pub struct FilterBuilder {
    column: String,
    operator: FilterOperator,
    value: Option<QueryValue>,
    values: Option<Vec<QueryValue>>,
    glue: Option<Glue>,
}

impl FilterBuilder {
    /// The filter that `build` would return now.
    pub closed spec fn pending(&self) -> Filter {
        Filter {
            column: self.column,
            operator: self.operator,
            value: self.value,
            values: self.values,
            glue: self.glue,
        }
    }

    /// No column, the default operator, and no operands or glue.
    pub open spec fn is_blank(&self) -> bool {
        &&& self.pending().column@.len() == 0
        &&& self.pending().operator == FilterOperator::Eq
        &&& self.pending().value is None
        &&& self.pending().values is None
        &&& self.pending().glue is None
    }

    pub fn blank() -> (r: FilterBuilder)
        ensures
            r.is_blank(),
    {
        FilterBuilder {
            column: String::new(),
            operator: FilterOperator::Eq,
            value: None,
            values: None,
            glue: None,
        }
    }

    pub fn column(self, column: &str) -> (r: FilterBuilder)
        ensures
            r.pending().column@ == column@,
            r.pending().operator == self.pending().operator,
            r.pending().value == self.pending().value,
            r.pending().values == self.pending().values,
            r.pending().glue == self.pending().glue,
    {
        FilterBuilder { column: column.to_owned(), ..self }
    }

    pub fn operator(self, operator: FilterOperator) -> (r: FilterBuilder)
        ensures
            r.pending() == (Filter { operator, ..self.pending() }),
    {
        FilterBuilder { operator, ..self }
    }

    pub fn value(self, value: QueryValue) -> (r: FilterBuilder)
        ensures
            r.pending() == (Filter { value: Some(value), ..self.pending() }),
    {
        FilterBuilder { value: Some(value), ..self }
    }

    pub fn values(self, values: Vec<QueryValue>) -> (r: FilterBuilder)
        ensures
            r.pending() == (Filter { values: Some(values), ..self.pending() }),
    {
        FilterBuilder { values: Some(values), ..self }
    }

    pub fn glue(self, glue: Glue) -> (r: FilterBuilder)
        ensures
            r.pending() == (Filter { glue: Some(glue), ..self.pending() }),
    {
        FilterBuilder { glue: Some(glue), ..self }
    }

    pub fn build(self) -> (r: Filter)
        ensures
            r == self.pending(),
    {
        Filter {
            column: self.column,
            operator: self.operator,
            value: self.value,
            values: self.values,
            glue: self.glue,
        }
    }
}

impl From<FilterBuilder> for Filter {
    fn from(builder: FilterBuilder) -> (r: Filter) {
        builder.build()
    }
}

impl vstd::std_specs::convert::FromSpecImpl<FilterBuilder> for Filter {
    open spec fn obeys_from_spec() -> bool {
        true
    }

    open spec fn from_spec(builder: FilterBuilder) -> Filter {
        builder.pending()
    }
}

/// A complete query description. An absent list means that its clause is
/// not emitted; the builder never produces a present empty list.
#[derive(Debug, Clone, PartialEq, Eq, Default)]
pub struct HttpQuery {
    pub select: Option<Vec<Select>>,
    pub filters: Option<Vec<Filter>>,
    pub orders: Option<Vec<OrderBy>>,
    pub aggregates: Option<Vec<Aggregate>>,
    pub groups: Option<Vec<Group>>,
    pub limit: Option<i64>,
    pub offset: Option<i64>,
}

/// `Some(v)` when `v` is not empty, else `None`.
pub open spec fn present<T>(v: Vec<T>) -> Option<Vec<T>> {
    if v@.len() > 0 {
        Some(v)
    } else {
        None
    }
}

fn non_empty<T>(v: Vec<T>) -> (r: Option<Vec<T>>)
    ensures
        r == present(v),
{
    if v.len() > 0 {
        Some(v)
    } else {
        None
    }
}

impl HttpQuery {
    pub fn builder() -> (r: HttpQueryBuilder)
        ensures
            r.is_empty(),
    {
        HttpQueryBuilder {
            select: Vec::new(),
            filters: Vec::new(),
            orders: Vec::new(),
            aggregates: Vec::new(),
            groups: Vec::new(),
            limit: None,
            offset: None,
        }
    }
}

/// Step-by-step construction of an `HttpQuery`; each call appends to its list.
pub struct HttpQueryBuilder {
    select: Vec<Select>,
    filters: Vec<Filter>,
    orders: Vec<OrderBy>,
    aggregates: Vec<Aggregate>,
    groups: Vec<Group>,
    limit: Option<i64>,
    offset: Option<i64>,
}

impl HttpQueryBuilder {
    pub closed spec fn selects(&self) -> Seq<Select> {
        self.select@
    }

    pub closed spec fn filter_list(&self) -> Seq<Filter> {
        self.filters@
    }

    pub closed spec fn order_list(&self) -> Seq<OrderBy> {
        self.orders@
    }

    pub closed spec fn aggregate_list(&self) -> Seq<Aggregate> {
        self.aggregates@
    }

    pub closed spec fn group_list(&self) -> Seq<Group> {
        self.groups@
    }

    pub closed spec fn limit_value(&self) -> Option<i64> {
        self.limit
    }

    pub closed spec fn offset_value(&self) -> Option<i64> {
        self.offset
    }

    /// Nothing added yet.
    pub open spec fn is_empty(&self) -> bool {
        &&& self.selects().len() == 0
        &&& self.filter_list().len() == 0
        &&& self.order_list().len() == 0
        &&& self.aggregate_list().len() == 0
        &&& self.group_list().len() == 0
        &&& self.limit_value() is None
        &&& self.offset_value() is None
    }

    /// `other` holds the same filters, orders, aggregates, groups and paging
    /// as `self`.
    pub open spec fn same_besides_select(&self, other: &Self) -> bool {
        &&& other.filter_list() == self.filter_list()
        &&& other.order_list() == self.order_list()
        &&& other.aggregate_list() == self.aggregate_list()
        &&& other.group_list() == self.group_list()
        &&& other.limit_value() == self.limit_value()
        &&& other.offset_value() == self.offset_value()
    }

    pub fn select(self, column: &str, alias: Option<&str>) -> (r: HttpQueryBuilder)
        ensures
            r.selects().len() == self.selects().len() + 1,
            r.selects().drop_last() == self.selects(),
            r.selects().last().column@ == column@,
            r.selects().last().alias is Some <==> alias is Some,
            r.selects().last().alias matches Some(a) ==> a@ == alias->Some_0@,
            self.same_besides_select(&r),
    {
        let mut b = self;
        let item = Select { column: column.to_owned(), alias: owned_alias(alias) };
        b.select.push(item);
        proof {
            assert(b.select@.drop_last() =~= self.select@);
        }
        b
    }

    pub fn filter<F>(self, filter: F) -> (r: HttpQueryBuilder)
        where
            F: FnOnce(FilterBuilder) -> Filter,
        requires
            forall|b: FilterBuilder| b.is_blank() ==> call_requires(filter, (b,)),
        ensures
            r.filter_list().len() == self.filter_list().len() + 1,
            r.filter_list().drop_last() == self.filter_list(),
            exists|b: FilterBuilder| b.is_blank() && call_ensures(filter, (b,), r.filter_list().last()),
            r.selects() == self.selects(),
            r.order_list() == self.order_list(),
            r.aggregate_list() == self.aggregate_list(),
            r.group_list() == self.group_list(),
            r.limit_value() == self.limit_value(),
            r.offset_value() == self.offset_value(),
    {
        let mut b = self;
        let start = FilterBuilder::blank();
        let made = filter(start);
        b.filters.push(made);
        proof {
            assert(b.filters@.drop_last() =~= self.filters@);
        }
        b
    }

    pub fn order(self, column: &str, direction: OrderDirection) -> (r: HttpQueryBuilder)
        ensures
            r.order_list().len() == self.order_list().len() + 1,
            r.order_list().drop_last() == self.order_list(),
            r.order_list().last().column@ == column@,
            r.order_list().last().direction == direction,
            r.selects() == self.selects(),
            r.filter_list() == self.filter_list(),
            r.aggregate_list() == self.aggregate_list(),
            r.group_list() == self.group_list(),
            r.limit_value() == self.limit_value(),
            r.offset_value() == self.offset_value(),
    {
        let mut b = self;
        b.orders.push(OrderBy { column: column.to_owned(), direction });
        proof {
            assert(b.orders@.drop_last() =~= self.orders@);
        }
        b
    }

    pub fn aggregate(self, aggregate: Aggregate) -> (r: HttpQueryBuilder)
        ensures
            r.aggregate_list() == self.aggregate_list().push(aggregate),
            r.selects() == self.selects(),
            r.filter_list() == self.filter_list(),
            r.order_list() == self.order_list(),
            r.group_list() == self.group_list(),
            r.limit_value() == self.limit_value(),
            r.offset_value() == self.offset_value(),
    {
        let mut b = self;
        b.aggregates.push(aggregate);
        b
    }

    pub fn group(self, column: &str, alias: Option<&str>) -> (r: HttpQueryBuilder)
        ensures
            r.group_list().len() == self.group_list().len() + 1,
            r.group_list().drop_last() == self.group_list(),
            r.group_list().last().column@ == column@,
            r.group_list().last().alias is Some <==> alias is Some,
            r.group_list().last().alias matches Some(a) ==> a@ == alias->Some_0@,
            r.selects() == self.selects(),
            r.filter_list() == self.filter_list(),
            r.order_list() == self.order_list(),
            r.aggregate_list() == self.aggregate_list(),
            r.limit_value() == self.limit_value(),
            r.offset_value() == self.offset_value(),
    {
        let mut b = self;
        b.groups.push(Group { column: column.to_owned(), alias: owned_alias(alias) });
        proof {
            assert(b.groups@.drop_last() =~= self.groups@);
        }
        b
    }

    pub fn limit(self, limit: i64) -> (r: HttpQueryBuilder)
        ensures
            r.limit_value() == Some(limit),
            r.offset_value() == self.offset_value(),
            r.selects() == self.selects(),
            r.filter_list() == self.filter_list(),
            r.order_list() == self.order_list(),
            r.aggregate_list() == self.aggregate_list(),
            r.group_list() == self.group_list(),
    {
        HttpQueryBuilder { limit: Some(limit), ..self }
    }

    pub fn offset(self, offset: i64) -> (r: HttpQueryBuilder)
        ensures
            r.offset_value() == Some(offset),
            r.limit_value() == self.limit_value(),
            r.selects() == self.selects(),
            r.filter_list() == self.filter_list(),
            r.order_list() == self.order_list(),
            r.aggregate_list() == self.aggregate_list(),
            r.group_list() == self.group_list(),
    {
        HttpQueryBuilder { offset: Some(offset), ..self }
    }

    /// The query, with each empty list made absent.
    pub fn build(self) -> (r: HttpQuery)
        ensures
            r.select matches Some(v) ==> v@ == self.selects() && v@.len() > 0,
            r.select is None <==> self.selects().len() == 0,
            r.filters matches Some(v) ==> v@ == self.filter_list() && v@.len() > 0,
            r.filters is None <==> self.filter_list().len() == 0,
            r.orders matches Some(v) ==> v@ == self.order_list() && v@.len() > 0,
            r.orders is None <==> self.order_list().len() == 0,
            r.aggregates matches Some(v) ==> v@ == self.aggregate_list() && v@.len() > 0,
            r.aggregates is None <==> self.aggregate_list().len() == 0,
            r.groups matches Some(v) ==> v@ == self.group_list() && v@.len() > 0,
            r.groups is None <==> self.group_list().len() == 0,
            r.limit == self.limit_value(),
            r.offset == self.offset_value(),
    {
        HttpQuery {
            select: non_empty(self.select),
            filters: non_empty(self.filters),
            orders: non_empty(self.orders),
            aggregates: non_empty(self.aggregates),
            groups: non_empty(self.groups),
            limit: self.limit,
            offset: self.offset,
        }
    }
}

/// Query-string parameter that carries a serialised filter.
pub struct FIlterParam {
    pub filter: String,
}

/// Location of the database file.
pub struct Settings {
    pub db_path: String,
    pub db_file: String,
}

} // verus!
