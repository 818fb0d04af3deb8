//! The composable query builder: strongly typed tables, columns, conditions
//! and parameters that serialize to SQL text only as a final step, keeping
//! identifier quoting and parameter-placeholder numbering in one place.
//!
//! Every built statement is parameterized: values never enter the SQL text;
//! they come out as an ordered parameter list the caller binds one by one.

use vstd::prelude::*;

use crate::strutil::{i64_to_string, join_strings, spec_idec, spec_join, spec_udec, usize_to_string};

verus! {

broadcast use vstd::prelude::Seq::lemma_push_map_commute;

/// The model of a table reference.
#[verifier::ext_equal]
pub struct TableRefModel {
    pub name: Seq<char>,
    pub alias: Seq<char>,
}

/// A table under an alias, as a query refers to it.
#[derive(Debug)]
pub struct Table {
    pub name: String,
    pub alias: String,
}

impl View for Table {
    type V = TableRefModel;

    open spec fn view(&self) -> TableRefModel {
        TableRefModel { name: self.name@, alias: self.alias@ }
    }
}

/// The quoted table name under its alias.
pub open spec fn spec_table_qualified(t: TableRefModel) -> Seq<char> {
    "\""@ + t.name + "\" AS \""@ + t.alias + "\""@
}

impl Clone for Table {
    fn clone(&self) -> (r: Self)
        ensures
            r@ == self@,
    {
        Table { name: self.name.clone(), alias: self.alias.clone() }
    }
}

impl Table {
    pub fn new(name: &str, alias: &str) -> (r: Table)
        ensures
            r@ == (TableRefModel { name: name@, alias: alias@ }),
    {
        Table { name: String::from_str(name), alias: String::from_str(alias) }
    }

    /// The qualified table reference: quoted name `AS` quoted alias.
    pub fn qualified(&self) -> (r: String)
        ensures
            r@ == spec_table_qualified(self@),
    {
        let mut s = String::from_str("\"");
        s.append(self.name.as_str());
        s.append("\" AS \"");
        s.append(self.alias.as_str());
        s.append("\"");
        s
    }
}

/// The model of a column reference.
#[verifier::ext_equal]
pub struct ColumnRefModel {
    pub qualifier: Seq<char>,
    pub name: Seq<char>,
}

/// A column under a table alias, as a query refers to it.
#[derive(Debug)]
pub struct Column {
    pub qualifier: String,
    pub name: String,
}

impl View for Column {
    type V = ColumnRefModel;

    open spec fn view(&self) -> ColumnRefModel {
        ColumnRefModel { qualifier: self.qualifier@, name: self.name@ }
    }
}

impl Clone for Column {
    fn clone(&self) -> (r: Self)
        ensures
            r@ == self@,
    {
        Column { qualifier: self.qualifier.clone(), name: self.name.clone() }
    }
}

/// The qualified column reference: alias, dot, quoted column name.
pub open spec fn spec_column_qualified(c: ColumnRefModel) -> Seq<char> {
    c.qualifier + ".\""@ + c.name + "\""@
}

impl Column {
    pub fn new(qualifier: &str, name: &str) -> (r: Column)
        ensures
            r@ == (ColumnRefModel { qualifier: qualifier@, name: name@ }),
    {
        Column { qualifier: String::from_str(qualifier), name: String::from_str(name) }
    }

    /// The qualified column reference.
    pub fn qualified(&self) -> (r: String)
        ensures
            r@ == spec_column_qualified(self@),
    {
        let mut s = self.qualifier.clone();
        s.append(".\"");
        s.append(self.name.as_str());
        s.append("\"");
        s
    }
}

/// The model of a value a condition compares against.
#[verifier::ext_equal]
pub enum ConditionValueModel {
    Text(Seq<char>),
    Integer(i64),
    Boolean(bool),
    Null,
}

/// A value a condition compares against.
#[derive(Debug)]
pub enum ConditionValue {
    Text(String),
    Integer(i64),
    Boolean(bool),
    Null,
}

impl View for ConditionValue {
    type V = ConditionValueModel;

    open spec fn view(&self) -> ConditionValueModel {
        match self {
            ConditionValue::Text(s) => ConditionValueModel::Text(s@),
            ConditionValue::Integer(i) => ConditionValueModel::Integer(*i),
            ConditionValue::Boolean(b) => ConditionValueModel::Boolean(*b),
            ConditionValue::Null => ConditionValueModel::Null,
        }
    }
}

/// The model of a bound SQL parameter.
#[verifier::ext_equal]
pub enum SqlParameterModel {
    Text(Seq<char>),
    Integer(i64),
    Boolean(bool),
    Null,
}

/// A SQL parameter, bound to the statement in placeholder order.
#[derive(Debug)]
pub enum SqlParameter {
    Text(String),
    Integer(i64),
    Boolean(bool),
    Null,
}

impl View for SqlParameter {
    type V = SqlParameterModel;

    open spec fn view(&self) -> SqlParameterModel {
        match self {
            SqlParameter::Text(s) => SqlParameterModel::Text(s@),
            SqlParameter::Integer(i) => SqlParameterModel::Integer(*i),
            SqlParameter::Boolean(b) => SqlParameterModel::Boolean(*b),
            SqlParameter::Null => SqlParameterModel::Null,
        }
    }
}

/// The parameter a condition value binds.
pub open spec fn spec_value_param(v: ConditionValueModel) -> SqlParameterModel {
    match v {
        ConditionValueModel::Text(s) => SqlParameterModel::Text(s),
        ConditionValueModel::Integer(i) => SqlParameterModel::Integer(i),
        ConditionValueModel::Boolean(b) => SqlParameterModel::Boolean(b),
        ConditionValueModel::Null => SqlParameterModel::Null,
    }
}

impl SqlParameter {
    /// Turn a condition value into the parameter it binds.
    pub fn from_value(value: &ConditionValue) -> (r: SqlParameter)
        ensures
            r@ == spec_value_param(value@),
    {
        match value {
            ConditionValue::Text(s) => SqlParameter::Text(s.clone()),
            ConditionValue::Integer(i) => SqlParameter::Integer(*i),
            ConditionValue::Boolean(b) => SqlParameter::Boolean(*b),
            ConditionValue::Null => SqlParameter::Null,
        }
    }
}

/// The model of a condition.
#[verifier::ext_equal]
pub enum ConditionModel {
    Equals { column: ColumnRefModel, value: ConditionValueModel },
    GreaterThan { column: ColumnRefModel, value: i64 },
    LessThan { column: ColumnRefModel, value: i64 },
    GreaterThanOrEqual { column: ColumnRefModel, value: i64 },
    LessThanOrEqual { column: ColumnRefModel, value: i64 },
    Contains { column: ColumnRefModel, value: Seq<char> },
    In { column: ColumnRefModel, values: Seq<ConditionValueModel> },
    IsNull { column: ColumnRefModel },
    IsNotNull { column: ColumnRefModel },
    Or(Box<ConditionModel>, Box<ConditionModel>),
}

/// A `WHERE` condition; several are joined by `AND`.
#[derive(Debug)]
pub enum Condition {
    /// column = value
    Equals { column: Column, value: ConditionValue },
    /// column > value
    GreaterThan { column: Column, value: i64 },
    /// column < value
    LessThan { column: Column, value: i64 },
    /// column >= value
    GreaterThanOrEqual { column: Column, value: i64 },
    /// column <= value
    LessThanOrEqual { column: Column, value: i64 },
    /// column ILIKE %value%
    Contains { column: Column, value: String },
    /// column IN (values)
    In { column: Column, values: Vec<ConditionValue> },
    /// column IS NULL
    IsNull { column: Column },
    /// column IS NOT NULL
    IsNotNull { column: Column },
    /// two conditions joined by OR
    Or(Box<Condition>, Box<Condition>),
}

impl View for Condition {
    type V = ConditionModel;

    open spec fn view(&self) -> ConditionModel
        decreases self,
    {
        match self {
            Condition::Equals { column, value } => ConditionModel::Equals {
                column: column@,
                value: value@,
            },
            Condition::GreaterThan { column, value } => ConditionModel::GreaterThan {
                column: column@,
                value: *value,
            },
            Condition::LessThan { column, value } => ConditionModel::LessThan {
                column: column@,
                value: *value,
            },
            Condition::GreaterThanOrEqual { column, value } => ConditionModel::GreaterThanOrEqual {
                column: column@,
                value: *value,
            },
            Condition::LessThanOrEqual { column, value } => ConditionModel::LessThanOrEqual {
                column: column@,
                value: *value,
            },
            Condition::Contains { column, value } => ConditionModel::Contains {
                column: column@,
                value: value@,
            },
            Condition::In { column, values } => ConditionModel::In {
                column: column@,
                values: values@.map_values(|v: ConditionValue| v@),
            },
            Condition::IsNull { column } => ConditionModel::IsNull { column: column@ },
            Condition::IsNotNull { column } => ConditionModel::IsNotNull { column: column@ },
            Condition::Or(l, r) => ConditionModel::Or(Box::new((**l)@), Box::new((**r)@)),
        }
    }
}

/// How many parameters a condition binds.
pub open spec fn spec_param_count(c: ConditionModel) -> nat
    decreases c,
{
    match c {
        ConditionModel::Equals { .. } => 1,
        ConditionModel::GreaterThan { .. } => 1,
        ConditionModel::LessThan { .. } => 1,
        ConditionModel::GreaterThanOrEqual { .. } => 1,
        ConditionModel::LessThanOrEqual { .. } => 1,
        ConditionModel::Contains { .. } => 1,
        ConditionModel::In { values, .. } => values.len(),
        ConditionModel::IsNull { .. } => 0,
        ConditionModel::IsNotNull { .. } => 0,
        ConditionModel::Or(l, r) => spec_param_count(*l) + spec_param_count(*r),
    }
}

/// The placeholders `$counter` through `$counter+k-1`.
pub open spec fn spec_placeholders(counter: nat, k: nat) -> Seq<Seq<char>> {
    Seq::new(k, |i: int| "$"@ + spec_udec((counter + i) as nat))
}

/// The SQL text of a condition, numbering its placeholders from `counter`.
pub open spec fn spec_condition_sql(c: ConditionModel, counter: nat) -> Seq<char>
    decreases c,
{
    match c {
        ConditionModel::Equals { column, .. } => spec_column_qualified(column) + " = $"@
            + spec_udec(counter),
        ConditionModel::GreaterThan { column, .. } => spec_column_qualified(column) + " > $"@
            + spec_udec(counter),
        ConditionModel::LessThan { column, .. } => spec_column_qualified(column) + " < $"@
            + spec_udec(counter),
        ConditionModel::GreaterThanOrEqual { column, .. } => spec_column_qualified(column)
            + " >= $"@ + spec_udec(counter),
        ConditionModel::LessThanOrEqual { column, .. } => spec_column_qualified(column) + " <= $"@
            + spec_udec(counter),
        ConditionModel::Contains { column, .. } => spec_column_qualified(column) + " ILIKE $"@
            + spec_udec(counter),
        ConditionModel::In { column, values } => spec_column_qualified(column) + " IN ("@
            + spec_join(spec_placeholders(counter, values.len()), ", "@) + ")"@,
        ConditionModel::IsNull { column } => spec_column_qualified(column) + " IS NULL"@,
        ConditionModel::IsNotNull { column } => spec_column_qualified(column) + " IS NOT NULL"@,
        ConditionModel::Or(l, r) => "("@ + spec_condition_sql(*l, counter) + " OR "@
            + spec_condition_sql(*r, counter + spec_param_count(*l)) + ")"@,
    }
}

/// The parameters a condition binds, in placeholder order.
pub open spec fn spec_condition_params(c: ConditionModel) -> Seq<SqlParameterModel>
    decreases c,
{
    match c {
        ConditionModel::Equals { value, .. } => seq![spec_value_param(value)],
        ConditionModel::GreaterThan { value, .. } => seq![SqlParameterModel::Integer(value)],
        ConditionModel::LessThan { value, .. } => seq![SqlParameterModel::Integer(value)],
        ConditionModel::GreaterThanOrEqual { value, .. } => seq![
            SqlParameterModel::Integer(value),
        ],
        ConditionModel::LessThanOrEqual { value, .. } => seq![SqlParameterModel::Integer(value)],
        ConditionModel::Contains { value, .. } => seq![
            SqlParameterModel::Text("%"@ + value + "%"@),
        ],
        ConditionModel::In { values, .. } => values.map_values(
            |v: ConditionValueModel| spec_value_param(v),
        ),
        ConditionModel::IsNull { .. } => Seq::empty(),
        ConditionModel::IsNotNull { .. } => Seq::empty(),
        ConditionModel::Or(l, r) => spec_condition_params(*l) + spec_condition_params(*r),
    }
}

impl Condition {
    /// Serialize the condition, advancing the placeholder counter by the
    /// number of parameters bound.
    pub fn to_sql(&self, param_counter: &mut usize) -> (r: (String, Vec<SqlParameter>))
        requires
            *old(param_counter) + spec_param_count(self@) <= usize::MAX,
        ensures
            r.0@ == spec_condition_sql(self@, *old(param_counter) as nat),
            r.1@.map_values(|p: SqlParameter| p@) == spec_condition_params(self@),
            *final(param_counter) == *old(param_counter) + spec_param_count(self@),
        decreases self,
    {
        match self {
            Condition::Equals { column, value } => {
                let mut s = column.qualified();
                s.append(" = $");
                let digits = usize_to_string(*param_counter);
                s.append(digits.as_str());
                *param_counter = *param_counter + 1;
                let mut params: Vec<SqlParameter> = Vec::new();
                params.push(SqlParameter::from_value(value));
                proof {
                    assert(params@.map_values(|p: SqlParameter| p@) =~= spec_condition_params(
                        self@,
                    ));
                }
                (s, params)
            },
            Condition::GreaterThan { column, value } => {
                let mut s = column.qualified();
                s.append(" > $");
                let digits = usize_to_string(*param_counter);
                s.append(digits.as_str());
                *param_counter = *param_counter + 1;
                let mut params: Vec<SqlParameter> = Vec::new();
                params.push(SqlParameter::Integer(*value));
                proof {
                    assert(params@.map_values(|p: SqlParameter| p@) =~= spec_condition_params(
                        self@,
                    ));
                }
                (s, params)
            },
            Condition::LessThan { column, value } => {
                let mut s = column.qualified();
                s.append(" < $");
                let digits = usize_to_string(*param_counter);
                s.append(digits.as_str());
                *param_counter = *param_counter + 1;
                let mut params: Vec<SqlParameter> = Vec::new();
                params.push(SqlParameter::Integer(*value));
                proof {
                    assert(params@.map_values(|p: SqlParameter| p@) =~= spec_condition_params(
                        self@,
                    ));
                }
                (s, params)
            },
            Condition::GreaterThanOrEqual { column, value } => {
                let mut s = column.qualified();
                s.append(" >= $");
                let digits = usize_to_string(*param_counter);
                s.append(digits.as_str());
                *param_counter = *param_counter + 1;
                let mut params: Vec<SqlParameter> = Vec::new();
                params.push(SqlParameter::Integer(*value));
                proof {
                    assert(params@.map_values(|p: SqlParameter| p@) =~= spec_condition_params(
                        self@,
                    ));
                }
                (s, params)
            },
            Condition::LessThanOrEqual { column, value } => {
                let mut s = column.qualified();
                s.append(" <= $");
                let digits = usize_to_string(*param_counter);
                s.append(digits.as_str());
                *param_counter = *param_counter + 1;
                let mut params: Vec<SqlParameter> = Vec::new();
                params.push(SqlParameter::Integer(*value));
                proof {
                    assert(params@.map_values(|p: SqlParameter| p@) =~= spec_condition_params(
                        self@,
                    ));
                }
                (s, params)
            },
            Condition::Contains { column, value } => {
                let mut s = column.qualified();
                s.append(" ILIKE $");
                let digits = usize_to_string(*param_counter);
                s.append(digits.as_str());
                *param_counter = *param_counter + 1;
                let mut pattern = String::from_str("%");
                pattern.append(value.as_str());
                pattern.append("%");
                let mut params: Vec<SqlParameter> = Vec::new();
                params.push(SqlParameter::Text(pattern));
                proof {
                    assert(params@.map_values(|p: SqlParameter| p@) =~= spec_condition_params(
                        self@,
                    ));
                }
                (s, params)
            },
            Condition::In { column, values } => {
                let ghost vmodels = values@.map_values(|v: ConditionValue| v@);
                let ghost start = *param_counter as nat;
                let mut pieces: Vec<String> = Vec::new();
                let mut params: Vec<SqlParameter> = Vec::new();
                let n = values.len();
                let mut i: usize = 0;
                while i < n
                    invariant
                        i <= n,
                        n == values.len(),
                        vmodels == values@.map_values(|v: ConditionValue| v@),
                        *param_counter == start + i,
                        start + n <= usize::MAX,
                        pieces@.map_values(|s: String| s@) =~= spec_placeholders(start, i as nat),
                        params@.map_values(|p: SqlParameter| p@) =~= vmodels.take(
                            i as int,
                        ).map_values(|v: ConditionValueModel| spec_value_param(v)),
                    decreases n - i,
                {
                    let mut piece = String::from_str("$");
                    let digits = usize_to_string(*param_counter);
                    piece.append(digits.as_str());
                    pieces.push(piece);
                    *param_counter = *param_counter + 1;
                    params.push(SqlParameter::from_value(&values[i]));
                    proof {
                        assert(pieces@.map_values(|s: String| s@) =~= spec_placeholders(
                            start,
                            (i + 1) as nat,
                        ));
                        assert(vmodels.take(i + 1).drop_last() =~= vmodels.take(i as int));
                        assert(params@.map_values(|p: SqlParameter| p@) =~= vmodels.take(
                            i + 1,
                        ).map_values(|v: ConditionValueModel| spec_value_param(v)));
                    }
                    i = i + 1;
                }
                proof {
                    assert(vmodels.take(n as int) =~= vmodels);
                }
                let mut s = column.qualified();
                s.append(" IN (");
                let joined = join_strings(&pieces, ", ");
                s.append(joined.as_str());
                s.append(")");
                (s, params)
            },
            Condition::IsNull { column } => {
                let mut s = column.qualified();
                s.append(" IS NULL");
                proof {
                    assert(Seq::<SqlParameter>::empty().map_values(|p: SqlParameter| p@)
                        =~= spec_condition_params(self@));
                }
                (s, Vec::new())
            },
            Condition::IsNotNull { column } => {
                let mut s = column.qualified();
                s.append(" IS NOT NULL");
                proof {
                    assert(Seq::<SqlParameter>::empty().map_values(|p: SqlParameter| p@)
                        =~= spec_condition_params(self@));
                }
                (s, Vec::new())
            },
            Condition::Or(l, r) => {
                let (left_sql, mut left_params) = l.to_sql(param_counter);
                let (right_sql, mut right_params) = r.to_sql(param_counter);
                let mut s = String::from_str("(");
                s.append(left_sql.as_str());
                s.append(" OR ");
                s.append(right_sql.as_str());
                s.append(")");
                let ghost lp = left_params@.map_values(|p: SqlParameter| p@);
                let ghost rp = right_params@.map_values(|p: SqlParameter| p@);
                left_params.append(&mut right_params);
                proof {
                    assert(left_params@.map_values(|p: SqlParameter| p@) =~= lp + rp);
                }
                (s, left_params)
            },
        }
    }
}

/// Sort direction of an `ORDER BY` item.
#[derive(Clone, Copy, Debug, PartialEq, Eq, Structural)]
pub enum SortDirection {
    Ascending,
    Descending,
}

/// The model of an `ORDER BY` item.
#[verifier::ext_equal]
pub struct OrderByModel {
    pub column: ColumnRefModel,
    pub direction: SortDirection,
}

/// One `ORDER BY` item.
#[derive(Debug)]
pub struct OrderBy {
    pub column: Column,
    pub direction: SortDirection,
}

impl View for OrderBy {
    type V = OrderByModel;

    open spec fn view(&self) -> OrderByModel {
        OrderByModel { column: self.column@, direction: self.direction }
    }
}

/// The text of one `ORDER BY` item.
pub open spec fn spec_order_by_sql(o: OrderByModel) -> Seq<char> {
    spec_column_qualified(o.column) + (if o.direction is Ascending {
        " ASC"@
    } else {
        " DESC"@
    })
}

/// How a join combines rows.
#[derive(Clone, Copy, Debug, PartialEq, Eq, Structural)]
pub enum JoinType {
    Inner,
    Left,
    Right,
}

/// The model of a join.
#[verifier::ext_equal]
pub struct JoinModel {
    pub join_type: JoinType,
    pub target_table: TableRefModel,
    pub main_column: ColumnRefModel,
    pub target_column: ColumnRefModel,
}

/// A join towards another table.
#[derive(Debug)]
pub struct Join {
    pub join_type: JoinType,
    pub target_table: Table,
    pub main_column: Column,
    pub target_column: Column,
}

impl View for Join {
    type V = JoinModel;

    open spec fn view(&self) -> JoinModel {
        JoinModel {
            join_type: self.join_type,
            target_table: self.target_table@,
            main_column: self.main_column@,
            target_column: self.target_column@,
        }
    }
}

/// The text of one join clause.
pub open spec fn spec_join_sql(j: JoinModel) -> Seq<char> {
    (match j.join_type {
        JoinType::Inner => " INNER JOIN "@,
        JoinType::Left => " LEFT JOIN "@,
        JoinType::Right => " RIGHT JOIN "@,
    }) + spec_table_qualified(j.target_table) + " ON "@ + spec_column_qualified(j.main_column)
        + " = "@ + spec_column_qualified(j.target_column)
}

/// The join clauses, in order.
pub open spec fn spec_joins_sql(js: Seq<JoinModel>) -> Seq<char>
    decreases js.len(),
{
    if js.len() == 0 {
        Seq::empty()
    } else {
        spec_joins_sql(js.drop_last()) + spec_join_sql(js.last())
    }
}

/// The model of a whole query under construction.
#[verifier::ext_equal]
pub struct QueryBuilderModel {
    pub from_table: TableRefModel,
    pub select: Seq<ColumnRefModel>,
    pub where_conditions: Seq<ConditionModel>,
    pub order_by: Seq<OrderByModel>,
    pub limit: Option<i64>,
    pub offset: Option<i64>,
    pub joins: Seq<JoinModel>,
}

/// A composable SELECT statement over the derived table layout.
#[derive(Debug)]
pub struct QueryBuilder {
    pub from_table: Table,
    pub select: Vec<Column>,
    pub where_conditions: Vec<Condition>,
    pub order_by: Vec<OrderBy>,
    pub limit: Option<i64>,
    pub offset: Option<i64>,
    pub joins: Vec<Join>,
}

impl View for QueryBuilder {
    type V = QueryBuilderModel;

    open spec fn view(&self) -> QueryBuilderModel {
        QueryBuilderModel {
            from_table: self.from_table@,
            select: self.select@.map_values(|c: Column| c@),
            where_conditions: self.where_conditions@.map_values(|c: Condition| c@),
            order_by: self.order_by@.map_values(|o: OrderBy| o@),
            limit: self.limit,
            offset: self.offset,
            joins: self.joins@.map_values(|j: Join| j@),
        }
    }
}

/// How many parameters a condition list binds in all.
pub open spec fn spec_params_count(cs: Seq<ConditionModel>) -> nat
    decreases cs.len(),
{
    if cs.len() == 0 {
        0
    } else {
        spec_params_count(cs.drop_last()) + spec_param_count(cs.last())
    }
}

/// The rendered conditions, each numbered after the parameters of the ones
/// before it, starting from `counter`.
pub open spec fn spec_condition_pieces(cs: Seq<ConditionModel>, counter: nat) -> Seq<Seq<char>>
    decreases cs.len(),
{
    if cs.len() == 0 {
        Seq::empty()
    } else {
        spec_condition_pieces(cs.drop_last(), counter).push(
            spec_condition_sql(cs.last(), counter + spec_params_count(cs.drop_last())),
        )
    }
}

/// The parameters of a condition list, in placeholder order.
pub open spec fn spec_conditions_params(cs: Seq<ConditionModel>) -> Seq<SqlParameterModel>
    decreases cs.len(),
{
    if cs.len() == 0 {
        Seq::empty()
    } else {
        spec_conditions_params(cs.drop_last()) + spec_condition_params(cs.last())
    }
}

/// The full SQL text of a built query. Placeholders are numbered from one,
/// left to right.
pub open spec fn spec_build_sql(m: QueryBuilderModel) -> Seq<char> {
    "SELECT "@ + spec_join(
        m.select.map_values(|c: ColumnRefModel| spec_column_qualified(c)),
        ", "@,
    ) + " FROM "@ + spec_table_qualified(m.from_table) + spec_joins_sql(m.joins) + (if m
        .where_conditions.len() > 0 {
        " WHERE "@ + spec_join(spec_condition_pieces(m.where_conditions, 1), " AND "@)
    } else {
        Seq::empty()
    }) + (if m.order_by.len() > 0 {
        " ORDER BY "@ + spec_join(
            m.order_by.map_values(|o: OrderByModel| spec_order_by_sql(o)),
            ", "@,
        )
    } else {
        Seq::empty()
    }) + (match m.limit {
        Some(l) => " LIMIT "@ + spec_idec(l as int),
        None => Seq::empty(),
    }) + (match m.offset {
        Some(o) => " OFFSET "@ + spec_idec(o as int),
        None => Seq::empty(),
    })
}

/// The ordered parameters of a built query.
pub open spec fn spec_build_params(m: QueryBuilderModel) -> Seq<SqlParameterModel> {
    spec_conditions_params(m.where_conditions)
}

impl QueryBuilder {
    /// Start a query over one table.
    pub fn from_table(table: Table) -> (r: QueryBuilder)
        ensures
            r@ == (QueryBuilderModel {
                from_table: table@,
                select: Seq::empty(),
                where_conditions: Seq::empty(),
                order_by: Seq::empty(),
                limit: None,
                offset: None,
                joins: Seq::empty(),
            }),
    {
        let r = QueryBuilder {
            from_table: table,
            select: Vec::new(),
            where_conditions: Vec::new(),
            order_by: Vec::new(),
            limit: None,
            offset: None,
            joins: Vec::new(),
        };
        proof {
            assert(r@.select =~= Seq::<ColumnRefModel>::empty());
            assert(r@.where_conditions =~= Seq::<ConditionModel>::empty());
            assert(r@.order_by =~= Seq::<OrderByModel>::empty());
            assert(r@.joins =~= Seq::<JoinModel>::empty());
        }
        r
    }

    /// Select the given columns.
    pub fn select(self, columns: Vec<Column>) -> (r: QueryBuilder)
        ensures
            r@ == (QueryBuilderModel {
                select: columns@.map_values(|c: Column| c@),
                ..self@
            }),
    {
        QueryBuilder { select: columns, ..self }
    }

    /// Add one `WHERE` condition; conditions are joined by `AND`.
    pub fn where_condition(self, condition: Condition) -> (r: QueryBuilder)
        ensures
            r@ == (QueryBuilderModel {
                where_conditions: self@.where_conditions.push(condition@),
                ..self@
            }),
    {
        let mut where_conditions = self.where_conditions;
        where_conditions.push(condition);
        let r = QueryBuilder { where_conditions, ..self };
        r
    }

    /// Add one join.
    pub fn join(self, join: Join) -> (r: QueryBuilder)
        ensures
            r@ == (QueryBuilderModel { joins: self@.joins.push(join@), ..self@ }),
    {
        let mut joins = self.joins;
        joins.push(join);
        QueryBuilder { joins, ..self }
    }

    /// Add one `ORDER BY` item.
    pub fn order_by(self, item: OrderBy) -> (r: QueryBuilder)
        ensures
            r@ == (QueryBuilderModel { order_by: self@.order_by.push(item@), ..self@ }),
    {
        let mut order_by = self.order_by;
        order_by.push(item);
        QueryBuilder { order_by, ..self }
    }

    /// Cap the number of rows.
    pub fn limit(self, limit: i64) -> (r: QueryBuilder)
        ensures
            r@ == (QueryBuilderModel { limit: Some(limit), ..self@ }),
    {
        QueryBuilder { limit: Some(limit), ..self }
    }

    /// Skip leading rows.
    pub fn offset(self, offset: i64) -> (r: QueryBuilder)
        ensures
            r@ == (QueryBuilderModel { offset: Some(offset), ..self@ }),
    {
        QueryBuilder { offset: Some(offset), ..self }
    }

    /// Serialize the query: the SQL text, and the parameters to bind in
    /// placeholder order.
    #[verifier::rlimit(100)]
    pub fn build(self) -> (r: (String, Vec<SqlParameter>))
        requires
            1 + spec_params_count(self@.where_conditions) <= usize::MAX,
        ensures
            r.0@ == spec_build_sql(self@),
            r.1@.map_values(|p: SqlParameter| p@) == spec_build_params(self@),
    {
        let ghost m = self@;
        let mut sql = String::from_str("SELECT ");

        let mut select_pieces: Vec<String> = Vec::new();
        let mut i: usize = 0;
        while i < self.select.len()
            invariant
                i <= self.select.len(),
                m == self@,
                select_pieces@.map_values(|s: String| s@) =~= m.select.take(i as int).map_values(
                    |c: ColumnRefModel| spec_column_qualified(c),
                ),
            decreases self.select.len() - i,
        {
            select_pieces.push(self.select[i].qualified());
            proof {
                assert(m.select.take(i + 1).drop_last() =~= m.select.take(i as int));
                assert(select_pieces@.map_values(|s: String| s@) =~= m.select.take(
                    i + 1,
                ).map_values(|c: ColumnRefModel| spec_column_qualified(c)));
            }
            i = i + 1;
        }
        proof {
            assert(m.select.take(m.select.len() as int) =~= m.select);
        }
        let joined_select = join_strings(&select_pieces, ", ");
        sql.append(joined_select.as_str());

        sql.append(" FROM ");
        let from_qualified = self.from_table.qualified();
        sql.append(from_qualified.as_str());

        let ghost after_from = sql@;
        let mut i: usize = 0;
        while i < self.joins.len()
            invariant
                i <= self.joins.len(),
                m == self@,
                sql@ =~= after_from + spec_joins_sql(m.joins.take(i as int)),
            decreases self.joins.len() - i,
        {
            let j = &self.joins[i];
            sql.append(
                match j.join_type {
                    JoinType::Inner => " INNER JOIN ",
                    JoinType::Left => " LEFT JOIN ",
                    JoinType::Right => " RIGHT JOIN ",
                },
            );
            let tq = j.target_table.qualified();
            sql.append(tq.as_str());
            sql.append(" ON ");
            let mq = j.main_column.qualified();
            sql.append(mq.as_str());
            sql.append(" = ");
            let cq = j.target_column.qualified();
            sql.append(cq.as_str());
            proof {
                assert(m.joins.take(i + 1).drop_last() =~= m.joins.take(i as int));
                assert(m.joins.take(i + 1).last() == m.joins[i as int]);
            }
            i = i + 1;
        }
        proof {
            assert(m.joins.take(m.joins.len() as int) =~= m.joins);
        }

        let mut params: Vec<SqlParameter> = Vec::new();
        if self.where_conditions.len() > 0 {
            sql.append(" WHERE ");
            let mut param_counter: usize = 1;
            let mut where_pieces: Vec<String> = Vec::new();
            let mut i: usize = 0;
            while i < self.where_conditions.len()
                invariant
                    i <= self.where_conditions.len(),
                    m == self@,
                    1 + spec_params_count(m.where_conditions) <= usize::MAX,
                    param_counter == 1 + spec_params_count(m.where_conditions.take(i as int)),
                    where_pieces@.map_values(|s: String| s@) =~= spec_condition_pieces(
                        m.where_conditions.take(i as int),
                        1,
                    ),
                    params@.map_values(|p: SqlParameter| p@) =~= spec_conditions_params(
                        m.where_conditions.take(i as int),
                    ),
                decreases self.where_conditions.len() - i,
            {
                proof {
                    lemma_params_count_prefix(m.where_conditions, i as int);
                }
                let (piece, mut piece_params) = self.where_conditions[i].to_sql(
                    &mut param_counter,
                );
                where_pieces.push(piece);
                params.append(&mut piece_params);
                proof {
                    assert(m.where_conditions.take(i + 1).drop_last() =~= m.where_conditions.take(
                        i as int,
                    ));
                    assert(m.where_conditions.take(i + 1).last() == m.where_conditions[i as int]);
                    assert(where_pieces@.map_values(|s: String| s@) =~= spec_condition_pieces(
                        m.where_conditions.take(i + 1),
                        1,
                    ));
                    assert(params@.map_values(|p: SqlParameter| p@) =~= spec_conditions_params(
                        m.where_conditions.take(i + 1),
                    ));
                }
                i = i + 1;
            }
            proof {
                assert(m.where_conditions.take(m.where_conditions.len() as int)
                    =~= m.where_conditions);
            }
            let joined_where = join_strings(&where_pieces, " AND ");
            sql.append(joined_where.as_str());
        } else {
            proof {
                assert(params@.map_values(|p: SqlParameter| p@) =~= spec_conditions_params(
                    m.where_conditions,
                ));
            }
        }

        if self.order_by.len() > 0 {
            sql.append(" ORDER BY ");
            let mut order_pieces: Vec<String> = Vec::new();
            let mut i: usize = 0;
            while i < self.order_by.len()
                invariant
                    i <= self.order_by.len(),
                    m == self@,
                    order_pieces@.map_values(|s: String| s@) =~= m.order_by.take(
                        i as int,
                    ).map_values(|o: OrderByModel| spec_order_by_sql(o)),
                decreases self.order_by.len() - i,
            {
                let mut piece = self.order_by[i].column.qualified();
                piece.append(
                    match self.order_by[i].direction {
                        SortDirection::Ascending => " ASC",
                        SortDirection::Descending => " DESC",
                    },
                );
                order_pieces.push(piece);
                proof {
                    assert(m.order_by.take(i + 1).drop_last() =~= m.order_by.take(i as int));
                    assert(order_pieces@.map_values(|s: String| s@) =~= m.order_by.take(
                        i + 1,
                    ).map_values(|o: OrderByModel| spec_order_by_sql(o)));
                }
                i = i + 1;
            }
            proof {
                assert(m.order_by.take(m.order_by.len() as int) =~= m.order_by);
            }
            let joined_order = join_strings(&order_pieces, ", ");
            sql.append(joined_order.as_str());
        }

        match self.limit {
            Some(l) => {
                sql.append(" LIMIT ");
                let digits = i64_to_string(l);
                sql.append(digits.as_str());
            },
            None => {},
        }
        match self.offset {
            Some(o) => {
                sql.append(" OFFSET ");
                let digits = i64_to_string(o);
                sql.append(digits.as_str());
            },
            None => {},
        }

        (sql, params)
    }
}

/// The parameters of a prefix never outnumber those of the whole list.
proof fn lemma_params_count_prefix(cs: Seq<ConditionModel>, i: int)
    requires
        0 <= i < cs.len(),
    ensures
        spec_params_count(cs.take(i)) + spec_param_count(cs[i]) <= spec_params_count(cs),
    decreases cs.len(),
{
    if i == cs.len() - 1 {
        assert(cs.take(i) =~= cs.drop_last());
    } else {
        lemma_params_count_prefix(cs.drop_last(), i);
        assert(cs.drop_last().take(i) =~= cs.take(i));
    }
}

} // verus!
