//! Compiles a table name and an `HttpQuery` into SQL text with positional
//! `?` placeholders and the ordered list of values bound to them.
//!
//! Table and column names are trusted identifiers: they are copied into the
//! text as they are, neither escaped nor checked.

use vstd::prelude::*;

use crate::query::{
    aggregate_token, glue_token, operator_token, Aggregate, Filter, FilterOperator, Glue, Group,
    HttpQuery, OrderBy, QueryValue, ScalarView, Select,
};

verus! {

/// The items joined by `sep`, in order.
pub open spec fn join(items: Seq<Seq<char>>, sep: Seq<char>) -> Seq<char>
    decreases items.len(),
{
    if items.len() == 0 {
        Seq::empty()
    } else if items.len() == 1 {
        items[0]
    } else {
        join(items.drop_last(), sep) + sep + items.last()
    }
}

/// The character sequences of some strings.
pub open spec fn views(v: Seq<String>) -> Seq<Seq<char>> {
    v.map_values(|s: String| s@)
}

proof fn lemma_join_extend(items: Seq<Seq<char>>, sep: Seq<char>, i: int)
    requires
        1 <= i < items.len(),
    ensures
        join(items.take(i + 1), sep) == join(items.take(i), sep) + sep + items[i],
{
    assert(items.take(i + 1).drop_last() =~= items.take(i));
}

/// Joins strings with a separator.
pub fn join_strings(items: &Vec<String>, sep: &str) -> (r: String)
    ensures
        r@ == join(views(items@), sep@),
{
    let ghost all = views(items@);
    if items.len() == 0 {
        return String::new();
    }
    let mut out = items[0].clone();
    proof {
        assert(all.take(1) =~= seq![all[0]]);
    }
    let mut i: usize = 1;
    while i < items.len()
        invariant
            1 <= i <= items.len(),
            all == views(items@),
            out@ == join(all.take(i as int), sep@),
        decreases items.len() - i,
    {
        proof {
            lemma_join_extend(all, sep@, i as int);
        }
        out.append(sep);
        out.append(items[i].as_str());
        i = i + 1;
    }
    proof {
        assert(all.take(items.len() as int) =~= all);
    }
    out
}

/// `n` placeholders separated by `, `.
pub open spec fn placeholders(n: nat) -> Seq<char>
    decreases n,
{
    if n == 0 {
        Seq::empty()
    } else if n == 1 {
        "?"@
    } else {
        placeholders((n - 1) as nat) + ", ?"@
    }
}

fn render_placeholders(n: usize) -> (r: String)
    requires
        n > 0,
    ensures
        r@ == placeholders(n as nat),
{
    let mut out = String::new();
    out.append("?");
    let mut i: usize = 1;
    while i < n
        invariant
            1 <= i <= n,
            out@ == placeholders(i as nat),
        decreases n - i,
    {
        out.append(", ?");
        i = i + 1;
    }
    out
}

/// The glue placed before a filter that is not the first: its own, else AND.
pub open spec fn effective_glue(f: Filter) -> Glue {
    match f.glue {
        Some(g) => g,
        None => Glue::And,
    }
}

/// `[glue ]column operator` for the filter at `index`.
pub open spec fn filter_head(f: Filter, index: int) -> Seq<char> {
    let prefix = if index > 0 {
        glue_token(effective_glue(f)) + " "@
    } else {
        Seq::empty()
    };
    prefix + f.column@ + " "@ + operator_token(f.operator)
}

pub open spec fn is_null_test(op: FilterOperator) -> bool {
    op is IsNull || op is IsNotNull
}

pub open spec fn is_membership(op: FilterOperator) -> bool {
    op is In || op is NotIn
}

pub open spec fn is_pattern(op: FilterOperator) -> bool {
    op is Like || op is NotLike || op is StartsWith || op is EndsWith
}

/// The filter carries what its operator reads: a non-empty `values` for
/// `In` and `NotIn`, a text `value` for the pattern operators, a `value`
/// for the comparisons, nothing for the null tests.
pub open spec fn filter_valid(f: Filter) -> bool {
    if is_null_test(f.operator) {
        true
    } else if is_membership(f.operator) {
        f.values matches Some(v) && v@.len() > 0
    } else if is_pattern(f.operator) {
        f.value matches Some(v) && v is Text
    } else {
        f.value is Some
    }
}

/// The text of the filter at `index` of the list.
pub open spec fn filter_text(f: Filter, index: int) -> Seq<char> {
    if is_null_test(f.operator) {
        filter_head(f, index)
    } else if is_membership(f.operator) {
        filter_head(f, index) + " ("@ + placeholders(f.values->Some_0@.len()) + ")"@
    } else {
        filter_head(f, index) + " ?"@
    }
}

/// The text held by a filter's value, for the pattern operators.
pub open spec fn pattern_text(f: Filter) -> Seq<char> {
    match f.value {
        Some(QueryValue::Text(s)) => s@,
        _ => Seq::empty(),
    }
}

/// The parameters that the filter binds, in order.
pub open spec fn filter_params(f: Filter) -> Seq<ScalarView> {
    if is_null_test(f.operator) {
        Seq::empty()
    } else if is_membership(f.operator) {
        f.values->Some_0@.map_values(|v: QueryValue| v@)
    } else if f.operator is Like || f.operator is NotLike {
        seq![ScalarView::Text("%"@ + pattern_text(f) + "%"@)]
    } else if f.operator is StartsWith {
        seq![ScalarView::Text(pattern_text(f) + "%"@)]
    } else if f.operator is EndsWith {
        seq![ScalarView::Text("%"@ + pattern_text(f))]
    } else {
        seq![f.value->Some_0@]
    }
}

pub open spec fn filters_valid(fs: Seq<Filter>) -> bool {
    forall|i: int| 0 <= i < fs.len() ==> #[trigger] filter_valid(fs[i])
}

/// The position of the first filter that is not valid.
pub open spec fn is_first_invalid(fs: Seq<Filter>, i: int) -> bool {
    &&& 0 <= i < fs.len()
    &&& !filter_valid(fs[i])
    &&& forall|j: int| 0 <= j < i ==> #[trigger] filter_valid(fs[j])
}

pub open spec fn filter_texts(fs: Seq<Filter>) -> Seq<Seq<char>> {
    Seq::new(fs.len(), |i: int| filter_text(fs[i], i))
}

pub open spec fn filters_params(fs: Seq<Filter>) -> Seq<ScalarView>
    decreases fs.len(),
{
    if fs.len() == 0 {
        Seq::empty()
    } else {
        filters_params(fs.drop_last()) + filter_params(fs.last())
    }
}

/// The list of a present option, else the empty sequence.
pub open spec fn listed<T>(v: Option<Vec<T>>) -> Seq<T> {
    match v {
        Some(v) => v@,
        None => Seq::empty(),
    }
}

/// The columns of the select list: the plain columns, then the aggregates
/// when the query is analytic.
pub open spec fn select_fields(q: HttpQuery, analytic: bool) -> Seq<Seq<char>> {
    let cols = listed(q.select).map_values(|s: Select| s.text());
    let aggs = if analytic {
        listed(q.aggregates).map_values(|a: Aggregate| a.text())
    } else {
        Seq::empty()
    };
    cols + aggs
}

pub open spec fn select_clause(q: HttpQuery, analytic: bool) -> Seq<char> {
    let fields = select_fields(q, analytic);
    "SELECT "@ + if fields.len() == 0 {
        "*"@
    } else {
        join(fields, ", "@)
    }
}

pub open spec fn where_clause(q: HttpQuery) -> Seq<char> {
    let fs = listed(q.filters);
    if fs.len() == 0 {
        Seq::empty()
    } else {
        "WHERE "@ + join(filter_texts(fs), ", "@)
    }
}

pub open spec fn group_clause(q: HttpQuery) -> Seq<char> {
    let gs = listed(q.groups);
    if gs.len() == 0 {
        Seq::empty()
    } else {
        "GROUP BY "@ + join(gs.map_values(|g: Group| g.text()), ", "@)
    }
}

pub open spec fn order_clause(q: HttpQuery) -> Seq<char> {
    let os = listed(q.orders);
    if os.len() == 0 {
        Seq::empty()
    } else {
        "ORDER BY "@ + join(os.map_values(|o: OrderBy| o.text()), ", "@)
    }
}

pub open spec fn limit_clause(q: HttpQuery) -> Seq<char> {
    if q.limit is Some {
        "LIMIT ?"@
    } else {
        Seq::empty()
    }
}

pub open spec fn offset_clause(q: HttpQuery) -> Seq<char> {
    if q.offset is Some {
        "OFFSET ?"@
    } else {
        Seq::empty()
    }
}

/// A clause as a one-item list, or no item when it is empty.
pub open spec fn optional(c: Seq<char>) -> Seq<Seq<char>> {
    if c.len() > 0 {
        seq![c]
    } else {
        Seq::empty()
    }
}

/// The clauses of the statement, in their fixed order.
pub open spec fn clauses(table: Seq<char>, q: HttpQuery, analytic: bool) -> Seq<Seq<char>> {
    seq![select_clause(q, analytic), "FROM "@ + table] + optional(where_clause(q)) + optional(
        group_clause(q),
    ) + optional(order_clause(q)) + optional(limit_clause(q)) + optional(offset_clause(q))
}

/// The SQL text of the statement.
pub open spec fn sql_text(table: Seq<char>, q: HttpQuery, analytic: bool) -> Seq<char> {
    join(clauses(table, q, analytic), " "@)
}

/// The values bound to the placeholders, in order: the filters', then the
/// limit, then the offset.
pub open spec fn query_params(q: HttpQuery) -> Seq<ScalarView> {
    let limit = match q.limit {
        Some(l) => seq![ScalarView::Integer(l)],
        None => Seq::empty(),
    };
    let offset = match q.offset {
        Some(o) => seq![ScalarView::Integer(o)],
        None => Seq::empty(),
    };
    filters_params(listed(q.filters)) + limit + offset
}

/// Every filter of the query carries what its operator reads.
pub open spec fn query_valid(q: HttpQuery) -> bool {
    filters_valid(listed(q.filters))
}

/// The error for the first filter that does not carry what its operator
/// reads: it names the filter's column.
pub open spec fn is_invalid_filter_error(q: HttpQuery, e: SqliteQueryBuilderError) -> bool {
    exists|i: int|
        is_first_invalid(listed(q.filters), i) && e == SqliteQueryBuilderError::InvalidFilter(
            listed(q.filters)[i].column,
        )
}

/// Errors of query compilation.
#[derive(Debug, Clone, PartialEq, Eq)]
pub enum SqliteQueryBuilderError {
    /// A filter lacks the operand its operator reads; holds its column.
    InvalidFilter(String),
}

impl SqliteQueryBuilderError {
    /// A description of the error: `Invalid filter: ` and the column.
    pub fn message(&self) -> (r: String)
        ensures
            r@ == "Invalid filter: "@ + match self {
                SqliteQueryBuilderError::InvalidFilter(c) => c@,
            },
    {
        match self {
            SqliteQueryBuilderError::InvalidFilter(c) => prefixed("Invalid filter: ", c.as_str()),
        }
    }
}

/// A value bound to a placeholder.
#[derive(Debug, Clone, PartialEq, Eq)]
pub struct SqliteValue(pub QueryValue);

pub open spec fn param_views(p: Seq<SqliteValue>) -> Seq<ScalarView> {
    p.map_values(|v: SqliteValue| v.0@)
}

/// Working state of one compilation.
pub struct SqLiteQueryBuilder {
    pub table: String,
    pub query: HttpQuery,
    pub params: Vec<SqliteValue>,
    pub is_analytic: bool,
    pub is_filtered: bool,
}

/// Compiling is repeatable: builders that agree on table, query, analytic
/// flag and the parameters already bound compile to the same outcome, the
/// same text and the same parameters. In particular two builders made by
/// `new` from the same table and query do.
pub proof fn lemma_build_idempotent(a: SqLiteQueryBuilder, b: SqLiteQueryBuilder)
    requires
        a.table@ == b.table@,
        a.query == b.query,
        a.is_analytic == b.is_analytic,
        param_views(a.params@) == param_views(b.params@),
    ensures
        query_valid(a.query) == query_valid(b.query),
        sql_text(a.table@, a.query, a.is_analytic) == sql_text(b.table@, b.query, b.is_analytic),
        param_views(a.params@) + query_params(a.query) == param_views(b.params@) + query_params(
            b.query,
        ),
{
}

proof fn lemma_filters_params_extend(fs: Seq<Filter>, i: int)
    requires
        0 <= i < fs.len(),
    ensures
        filters_params(fs.take(i + 1)) == filters_params(fs.take(i)) + filter_params(fs[i]),
{
    assert(fs.take(i + 1).drop_last() =~= fs.take(i));
}

pub proof fn lemma_views_push(v: Seq<String>, s: String)
    ensures
        views(v.push(s)) == views(v) + seq![s@],
{
    assert(views(v.push(s)) =~= views(v) + seq![s@]);
}

proof fn lemma_param_views_push(v: Seq<SqliteValue>, p: SqliteValue)
    ensures
        param_views(v.push(p)) == param_views(v) + seq![p.0@],
{
    assert(param_views(v.push(p)) =~= param_views(v) + seq![p.0@]);
}

/// A copy of a parameter list.
fn copy_params(p: &Vec<SqliteValue>) -> (r: Vec<SqliteValue>)
    ensures
        r@ == p@,
{
    let mut out: Vec<SqliteValue> = Vec::new();
    let mut i: usize = 0;
    while i < p.len()
        invariant
            i <= p.len(),
            out@ == p@.take(i as int),
        decreases p.len() - i,
    {
        let item = SqliteValue(p[i].0.duplicate());
        proof {
            assert(p@.take(i + 1) =~= p@.take(i as int).push(item));
        }
        out.push(item);
        i = i + 1;
    }
    proof {
        assert(p@.take(p.len() as int) =~= p@);
    }
    out
}

/// `after` holds `before` followed by zero or more values.
pub open spec fn extends(after: Seq<SqliteValue>, before: Seq<SqliteValue>) -> bool {
    before.len() <= after.len() && after.take(before.len() as int) == before
}

proof fn lemma_extends_push(after: Seq<SqliteValue>, before: Seq<SqliteValue>, v: SqliteValue)
    requires
        extends(after, before),
    ensures
        extends(after.push(v), before),
{
    assert(after.push(v).take(before.len() as int) =~= after.take(before.len() as int));
}

proof fn lemma_extends_refl(a: Seq<SqliteValue>)
    ensures
        extends(a, a),
{
    assert(a.take(a.len() as int) =~= a);
}

proof fn lemma_extends_trans(c: Seq<SqliteValue>, b: Seq<SqliteValue>, a: Seq<SqliteValue>)
    requires
        extends(c, b),
        extends(b, a),
    ensures
        extends(c, a),
{
    assert(c.take(a.len() as int) =~= c.take(b.len() as int).take(a.len() as int));
}

/// Renders `[glue ]column operator` for the filter at `index`.
fn render_filter_head(filter: &Filter, index: usize) -> (r: String)
    ensures
        r@ == filter_head(*filter, index as int),
{
    let mut out = String::new();
    if index > 0 {
        match &filter.glue {
            Some(g) => out.append(g.token()),
            None => out.append(Glue::And.token()),
        }
        out.append(" ");
    }
    out.append(filter.column.as_str());
    out.append(" ");
    out.append(filter.operator.token());
    proof {
        assert(out@ =~= filter_head(*filter, index as int));
    }
    out
}

/// Renders the filter at `index` and appends the values it binds to
/// `params`.
fn bind_filter(filter: &Filter, index: usize, params: &mut Vec<SqliteValue>) -> (r: Result<
    String,
    SqliteQueryBuilderError,
>)
    ensures
        r is Ok <==> filter_valid(*filter),
        r matches Ok(s) ==> s@ == filter_text(*filter, index as int) && param_views(final(params)@)
            == param_views(old(params)@) + filter_params(*filter),
        r matches Err(e) ==> e == SqliteQueryBuilderError::InvalidFilter(filter.column),
        r is Err ==> final(params)@ == old(params)@,
        extends(final(params)@, old(params)@),
{
    proof {
        lemma_extends_refl(params@);
    }
    let mut text = render_filter_head(filter, index);
    let op = filter.operator;
    if op == FilterOperator::IsNull || op == FilterOperator::IsNotNull {
        proof {
            assert(param_views(params@) =~= param_views(params@) + filter_params(*filter));
        }
        return Ok(text);
    }
    if op == FilterOperator::In || op == FilterOperator::NotIn {
        match &filter.values {
            Some(values) => {
                if values.len() == 0 {
                    return Err(SqliteQueryBuilderError::InvalidFilter(filter.column.clone()));
                }
                text.append(" (");
                let marks = render_placeholders(values.len());
                text.append(marks.as_str());
                text.append(")");
                let ghost start = params@;
                let mut i: usize = 0;
                while i < values.len()
                    invariant
                        i <= values.len(),
                        param_views(params@) == param_views(start) + values@.take(
                            i as int,
                        ).map_values(|v: QueryValue| v@),
                        extends(params@, start),
                    decreases values.len() - i,
                {
                    let item = SqliteValue(values[i].duplicate());
                    proof {
                        lemma_param_views_push(params@, item);
                        lemma_extends_push(params@, start, item);
                        assert(values@.take(i + 1).map_values(|v: QueryValue| v@) =~= values@.take(
                            i as int,
                        ).map_values(|v: QueryValue| v@).push(values@[i as int]@));
                    }
                    params.push(item);
                    i = i + 1;
                }
                proof {
                    assert(values@.take(values.len() as int) =~= values@);
                }
                return Ok(text);
            },
            None => {
                return Err(SqliteQueryBuilderError::InvalidFilter(filter.column.clone()));
            },
        }
    }
    let value = match &filter.value {
        Some(v) => v,
        None => {
            return Err(SqliteQueryBuilderError::InvalidFilter(filter.column.clone()));
        },
    };
    text.append(" ?");
    let bound = if op == FilterOperator::Like || op == FilterOperator::NotLike
        || op == FilterOperator::StartsWith || op == FilterOperator::EndsWith {
        let pattern = match value.as_text() {
            Some(t) => t,
            None => {
                return Err(SqliteQueryBuilderError::InvalidFilter(filter.column.clone()));
            },
        };
        let mut wrapped = String::new();
        if op != FilterOperator::StartsWith {
            wrapped.append("%");
        }
        wrapped.append(pattern);
        if op != FilterOperator::EndsWith {
            wrapped.append("%");
        }
        QueryValue::Text(wrapped)
    } else {
        value.duplicate()
    };
    let ghost before = params@;
    let item = SqliteValue(bound);
    params.push(item);
    proof {
        lemma_param_views_push(before, item);
        assert(seq![item.0@] =~= filter_params(*filter));
        assert(params@.take(before.len() as int) =~= before);
    }
    Ok(text)
}

fn select_texts(v: &Vec<Select>, out: &mut Vec<String>)
    ensures
        views(final(out)@) == views(old(out)@) + v@.map_values(|s: Select| s.text()),
{
    let ghost start = views(out@);
    let mut i: usize = 0;
    while i < v.len()
        invariant
            i <= v.len(),
            views(out@) == start + v@.take(i as int).map_values(|s: Select| s.text()),
        decreases v.len() - i,
    {
        let t = v[i].to_string();
        proof {
            lemma_views_push(out@, t);
            assert(v@.take(i + 1).map_values(|s: Select| s.text()) =~= v@.take(i as int).map_values(
                |s: Select| s.text(),
            ).push(v@[i as int].text()));
        }
        out.push(t);
        i = i + 1;
    }
    proof {
        assert(v@.take(v.len() as int) =~= v@);
    }
}

fn aggregate_texts(v: &Vec<Aggregate>, out: &mut Vec<String>)
    ensures
        views(final(out)@) == views(old(out)@) + v@.map_values(|a: Aggregate| a.text()),
{
    let ghost start = views(out@);
    let mut i: usize = 0;
    while i < v.len()
        invariant
            i <= v.len(),
            views(out@) == start + v@.take(i as int).map_values(|a: Aggregate| a.text()),
        decreases v.len() - i,
    {
        let t = v[i].to_string();
        proof {
            lemma_views_push(out@, t);
            assert(v@.take(i + 1).map_values(|a: Aggregate| a.text()) =~= v@.take(
                i as int,
            ).map_values(|a: Aggregate| a.text()).push(v@[i as int].text()));
        }
        out.push(t);
        i = i + 1;
    }
    proof {
        assert(v@.take(v.len() as int) =~= v@);
    }
}

fn group_texts(v: &Vec<Group>) -> (r: Vec<String>)
    ensures
        views(r@) == v@.map_values(|g: Group| g.text()),
{
    let mut out: Vec<String> = Vec::new();
    let mut i: usize = 0;
    while i < v.len()
        invariant
            i <= v.len(),
            views(out@) == v@.take(i as int).map_values(|g: Group| g.text()),
        decreases v.len() - i,
    {
        let t = v[i].to_string();
        proof {
            lemma_views_push(out@, t);
            assert(v@.take(i + 1).map_values(|g: Group| g.text()) =~= v@.take(i as int).map_values(
                |g: Group| g.text(),
            ).push(v@[i as int].text()));
        }
        out.push(t);
        i = i + 1;
    }
    proof {
        assert(v@.take(v.len() as int) =~= v@);
    }
    out
}

fn order_texts(v: &Vec<OrderBy>) -> (r: Vec<String>)
    ensures
        views(r@) == v@.map_values(|o: OrderBy| o.text()),
{
    let mut out: Vec<String> = Vec::new();
    let mut i: usize = 0;
    while i < v.len()
        invariant
            i <= v.len(),
            views(out@) == v@.take(i as int).map_values(|o: OrderBy| o.text()),
        decreases v.len() - i,
    {
        let t = v[i].to_string();
        proof {
            lemma_views_push(out@, t);
            assert(v@.take(i + 1).map_values(|o: OrderBy| o.text()) =~= v@.take(
                i as int,
            ).map_values(|o: OrderBy| o.text()).push(v@[i as int].text()));
        }
        out.push(t);
        i = i + 1;
    }
    proof {
        assert(v@.take(v.len() as int) =~= v@);
    }
    out
}

/// `prefix` followed by `body`.
fn prefixed(prefix: &str, body: &str) -> (r: String)
    ensures
        r@ == prefix@ + body@,
{
    let mut out = String::new();
    out.append(prefix);
    out.append(body);
    proof {
        assert(out@ =~= prefix@ + body@);
    }
    out
}

impl SqLiteQueryBuilder {
    /// A builder for `query` over `table`, with no parameters bound yet.
    pub fn new(table: String, query: HttpQuery) -> (r: SqLiteQueryBuilder)
        ensures
            r.table == table,
            r.query == query,
            r.params@.len() == 0,
            r.is_analytic == query.aggregates is Some,
            r.is_filtered == query.filters is Some,
    {
        let is_analytic = query.aggregates.is_some();
        let is_filtered = query.filters.is_some();
        SqLiteQueryBuilder { table, query, params: Vec::new(), is_analytic, is_filtered }
    }

    fn get_select_string(&self) -> (r: String)
        ensures
            r@ == select_clause(self.query, self.is_analytic),
    {
        let mut fields: Vec<String> = Vec::new();
        match &self.query.select {
            Some(v) => select_texts(v, &mut fields),
            None => {},
        }
        if self.is_analytic {
            match &self.query.aggregates {
                Some(v) => aggregate_texts(v, &mut fields),
                None => {},
            }
        }
        proof {
            assert(views(fields@) =~= select_fields(self.query, self.is_analytic));
        }
        if fields.len() == 0 {
            prefixed("SELECT ", "*")
        } else {
            let joined = join_strings(&fields, ", ");
            prefixed("SELECT ", joined.as_str())
        }
    }

    fn get_where_string(&mut self) -> (r: Result<String, SqliteQueryBuilderError>)
        ensures
            final(self).table == old(self).table,
            final(self).query == old(self).query,
            final(self).is_analytic == old(self).is_analytic,
            final(self).is_filtered == old(self).is_filtered,
            r is Ok <==> query_valid(old(self).query),
            r matches Ok(s) ==> s@ == where_clause(old(self).query) && param_views(
                final(self).params@,
            ) == param_views(old(self).params@) + filters_params(listed(old(self).query.filters)),
            r matches Err(e) ==> is_invalid_filter_error(old(self).query, e),
            extends(final(self).params@, old(self).params@),
    {
        proof {
            lemma_extends_refl(self.params@);
        }
        let filters = match &self.query.filters {
            Some(fs) => fs,
            None => {
                return Ok(String::new());
            },
        };
        if filters.len() == 0 {
            return Ok(String::new());
        }
        let ghost fs = filters@;
        let ghost start = param_views(self.params@);
        let mut parts: Vec<String> = Vec::new();
        let mut i: usize = 0;
        while i < filters.len()
            invariant
                i <= filters.len(),
                fs == filters@,
                self.table == old(self).table,
                self.query == old(self).query,
                self.is_analytic == old(self).is_analytic,
                self.is_filtered == old(self).is_filtered,
                old(self).query.filters == Some(*filters),
                views(parts@) == filter_texts(fs).take(i as int),
                filters_valid(fs.take(i as int)),
                param_views(self.params@) == start + filters_params(fs.take(i as int)),
                extends(self.params@, old(self).params@),
            decreases filters.len() - i,
        {
            let ghost prior = self.params@;
            let fragment = bind_filter(&filters[i], i, &mut self.params);
            proof {
                lemma_extends_trans(self.params@, prior, old(self).params@);
            }
            match fragment {
                Ok(text) => {
                    proof {
                        lemma_filters_params_extend(fs, i as int);
                        lemma_views_push(parts@, text);
                        assert(filter_texts(fs).take(i + 1) =~= filter_texts(fs).take(i as int).push(
                            text@,
                        ));
                        assert(filters_valid(fs.take(i + 1))) by {
                            assert forall|k: int| 0 <= k < i + 1 implies #[trigger] filter_valid(
                                fs.take(i + 1)[k],
                            ) by {
                                if k < i {
                                    assert(fs.take(i + 1)[k] == fs.take(i as int)[k]);
                                }
                            }
                        }
                    }
                    parts.push(text);
                },
                Err(e) => {
                    proof {
                        assert(is_first_invalid(fs, i as int)) by {
                            assert forall|j: int| 0 <= j < i implies #[trigger] filter_valid(
                                fs[j],
                            ) by {
                                assert(fs.take(i as int)[j] == fs[j]);
                            }
                        }
                    }
                    return Err(e);
                },
            }
            i = i + 1;
        }
        proof {
            assert(fs.take(fs.len() as int) =~= fs);
            assert(filter_texts(fs).take(fs.len() as int) =~= filter_texts(fs));
        }
        let joined = join_strings(&parts, ", ");
        Ok(prefixed("WHERE ", joined.as_str()))
    }

    fn get_group_string(&self) -> (r: String)
        ensures
            r@ == group_clause(self.query),
    {
        match &self.query.groups {
            Some(gs) => {
                if gs.len() == 0 {
                    return String::new();
                }
                let texts = group_texts(gs);
                let joined = join_strings(&texts, ", ");
                prefixed("GROUP BY ", joined.as_str())
            },
            None => String::new(),
        }
    }

    fn get_order_string(&self) -> (r: String)
        ensures
            r@ == order_clause(self.query),
    {
        match &self.query.orders {
            Some(os) => {
                if os.len() == 0 {
                    return String::new();
                }
                let texts = order_texts(os);
                let joined = join_strings(&texts, ", ");
                prefixed("ORDER BY ", joined.as_str())
            },
            None => String::new(),
        }
    }

    fn get_limit_string(&mut self) -> (r: String)
        ensures
            r@ == limit_clause(old(self).query),
            final(self).table == old(self).table,
            final(self).query == old(self).query,
            final(self).is_analytic == old(self).is_analytic,
            final(self).is_filtered == old(self).is_filtered,
            param_views(final(self).params@) == param_views(old(self).params@) + match old(
                self,
            ).query.limit {
                Some(l) => seq![ScalarView::Integer(l)],
                None => Seq::empty(),
            },
            extends(final(self).params@, old(self).params@),
    {
        match self.query.limit {
            Some(limit) => {
                proof {
                    lemma_param_views_push(self.params@, SqliteValue(QueryValue::Integer(limit)));
                    assert(self.params@.push(SqliteValue(QueryValue::Integer(limit))).take(
                        self.params@.len() as int,
                    ) =~= self.params@);
                }
                self.params.push(SqliteValue(QueryValue::Integer(limit)));
                "LIMIT ?".to_owned()
            },
            None => {
                proof {
                    assert(param_views(self.params@) =~= param_views(self.params@) + Seq::empty());
                    assert(self.params@.take(self.params@.len() as int) =~= self.params@);
                }
                String::new()
            },
        }
    }

    /// Appends `clause` to `parts` unless it is empty.
    fn push_clause(parts: &mut Vec<String>, clause: String)
        ensures
            views(final(parts)@) == views(old(parts)@) + optional(clause@),
    {
        if clause.as_str().is_empty() {
            proof {
                assert(views(parts@) =~= views(parts@) + optional(clause@));
            }
        } else {
            proof {
                lemma_views_push(parts@, clause);
            }
            parts.push(clause);
        }
    }

    /// Compiles the query: the SQL text and every parameter bound so far,
    /// those of this call after those already held.
    ///
    /// Fails on the first filter that lacks the operand its operator reads.
    pub fn build_sqlite_query(&mut self) -> (r: Result<(String, Vec<SqliteValue>), SqliteQueryBuilderError>)
        ensures
            final(self).table == old(self).table,
            final(self).query == old(self).query,
            final(self).is_analytic == old(self).is_analytic,
            final(self).is_filtered == old(self).is_filtered,
            r is Ok <==> query_valid(old(self).query),
            r matches Ok((sql, params)) ==> {
                &&& sql@ == sql_text(old(self).table@, old(self).query, old(self).is_analytic)
                &&& param_views(params@) == param_views(old(self).params@) + query_params(
                    old(self).query,
                )
                &&& params@ == final(self).params@
            },
            r matches Err(e) ==> is_invalid_filter_error(old(self).query, e),
            extends(final(self).params@, old(self).params@),
    {
        let ghost q = self.query;
        let ghost t = self.table@;
        let ghost p0 = self.params@;
        let ghost analytic = self.is_analytic;
        let mut parts: Vec<String> = Vec::new();
        let select = self.get_select_string();
        let from = prefixed("FROM ", self.table.as_str());
        proof {
            lemma_views_push(parts@, select);
            lemma_views_push(parts@.push(select), from);
        }
        parts.push(select);
        parts.push(from);
        let where_query = match self.get_where_string() {
            Ok(w) => w,
            Err(e) => {
                return Err(e);
            },
        };
        Self::push_clause(&mut parts, where_query);
        let ghost p1 = self.params@;
        let group_query = self.get_group_string();
        Self::push_clause(&mut parts, group_query);
        let order_query = self.get_order_string();
        Self::push_clause(&mut parts, order_query);
        let limit_query = self.get_limit_string();
        Self::push_clause(&mut parts, limit_query);
        let ghost p2 = self.params@;
        let offset_query = self.get_offset_string();
        Self::push_clause(&mut parts, offset_query);
        proof {
            lemma_extends_trans(p2, p1, p0);
            lemma_extends_trans(self.params@, p2, p0);
            assert(views(parts@) =~= clauses(t, q, analytic));
        }
        let sql = join_strings(&parts, " ");
        let params = copy_params(&self.params);
        Ok((sql, params))
    }

    fn get_offset_string(&mut self) -> (r: String)
        ensures
            r@ == offset_clause(old(self).query),
            final(self).table == old(self).table,
            final(self).query == old(self).query,
            final(self).is_analytic == old(self).is_analytic,
            final(self).is_filtered == old(self).is_filtered,
            param_views(final(self).params@) == param_views(old(self).params@) + match old(
                self,
            ).query.offset {
                Some(o) => seq![ScalarView::Integer(o)],
                None => Seq::empty(),
            },
            extends(final(self).params@, old(self).params@),
    {
        match self.query.offset {
            Some(offset) => {
                proof {
                    lemma_param_views_push(self.params@, SqliteValue(QueryValue::Integer(offset)));
                    assert(self.params@.push(SqliteValue(QueryValue::Integer(offset))).take(
                        self.params@.len() as int,
                    ) =~= self.params@);
                }
                self.params.push(SqliteValue(QueryValue::Integer(offset)));
                "OFFSET ?".to_owned()
            },
            None => {
                proof {
                    assert(param_views(self.params@) =~= param_views(self.params@) + Seq::empty());
                    assert(self.params@.take(self.params@.len() as int) =~= self.params@);
                }
                String::new()
            },
        }
    }
}

} // verus!
