//! The filter language: a JSON object from column names to plain values or
//! operator objects, and its compilation to a parameterized predicate.

use crate::error::AdapterError;
use crate::json::{json_shape, read_node, JsonNode, JsonShape};
use crate::text::{join, join_repeated, joined, repeated, string_views, text_equals};
use crate::value::{
    encode_all, encode_json, json_value_to_sqlite, json_values_to_sqlite, sql_views, SqlModel,
    SqlValue,
};
use vstd::prelude::*;
use vstd::string::StringExecFns;

verus! {

/// The operators that may stand together on one column. Each is optional.
#[derive(Debug, PartialEq)]
pub struct FilterOperators {
    pub eq: Option<serde_json::Value>,
    pub ne: Option<serde_json::Value>,
    pub gt: Option<serde_json::Value>,
    pub gte: Option<serde_json::Value>,
    pub lt: Option<serde_json::Value>,
    pub lte: Option<serde_json::Value>,
    pub in_list: Option<Vec<serde_json::Value>>,
    pub like: Option<String>,
}

/// What a filter asks of one column.
#[derive(Debug, PartialEq)]
pub enum FilterValue {
    /// The column equals this value.
    Direct(serde_json::Value),
    /// The column meets at least one of these operators.
    Operator(FilterOperators),
}

/// A filter: one entry per column, all of which a row has to meet. The
/// entries are kept in the order in which they were given, so that the
/// same filter compiles to the same predicate on every run.
#[derive(Debug, PartialEq)]
pub struct QueryFilter {
    pub conditions: Vec<(String, FilterValue)>,
}

/// The mathematical counterpart of [`FilterOperators`].
pub struct OperatorsModel {
    pub eq: Option<serde_json::Value>,
    pub ne: Option<serde_json::Value>,
    pub gt: Option<serde_json::Value>,
    pub gte: Option<serde_json::Value>,
    pub lt: Option<serde_json::Value>,
    pub lte: Option<serde_json::Value>,
    pub in_list: Option<Seq<serde_json::Value>>,
    pub like: Option<Seq<char>>,
}

/// The mathematical counterpart of [`FilterValue`].
pub enum FilterModel {
    Direct(serde_json::Value),
    Operator(OperatorsModel),
}

impl View for FilterOperators {
    type V = OperatorsModel;

    open spec fn view(&self) -> OperatorsModel {
        OperatorsModel {
            eq: self.eq,
            ne: self.ne,
            gt: self.gt,
            gte: self.gte,
            lt: self.lt,
            lte: self.lte,
            in_list: match self.in_list {
                Some(items) => Some(items@),
                None => None,
            },
            like: match self.like {
                Some(pattern) => Some(pattern@),
                None => None,
            },
        }
    }
}

impl View for FilterValue {
    type V = FilterModel;

    open spec fn view(&self) -> FilterModel {
        match self {
            FilterValue::Direct(value) => FilterModel::Direct(*value),
            FilterValue::Operator(ops) => FilterModel::Operator(ops@),
        }
    }
}

/// The views of a filter's entries, in order.
pub open spec fn condition_views(conditions: Seq<(String, FilterValue)>) -> Seq<
    (Seq<char>, FilterModel),
> {
    conditions.map_values(|c: (String, FilterValue)| (c.0@, c.1@))
}

impl View for QueryFilter {
    type V = Seq<(Seq<char>, FilterModel)>;

    open spec fn view(&self) -> Seq<(Seq<char>, FilterModel)> {
        condition_views(self.conditions@)
    }
}

impl QueryFilter {
    /// A filter names each column once.
    pub open spec fn wf(&self) -> bool {
        forall|i: int, j: int|
            0 <= i < j < self@.len() ==> (#[trigger] self@[i]).0 != (#[trigger] self@[j]).0
    }
}

impl OperatorsModel {
    /// No operator at all.
    pub open spec fn none() -> OperatorsModel {
        OperatorsModel {
            eq: None,
            ne: None,
            gt: None,
            gte: None,
            lt: None,
            lte: None,
            in_list: None,
            like: None,
        }
    }
}

impl Default for FilterOperators {
    fn default() -> (ops: FilterOperators)
        ensures
            ops@ == OperatorsModel::none(),
    {
        FilterOperators {
            eq: None,
            ne: None,
            gt: None,
            gte: None,
            lt: None,
            lte: None,
            in_list: None,
            like: None,
        }
    }
}

// ---------------------------------------------------------------------
// Reading a filter from JSON
// ---------------------------------------------------------------------

/// A key names an operator where it begins with `$`.
pub open spec fn is_operator_key(key: Seq<char>) -> bool {
    key.len() > 0 && key[0] == '$'
}

/// Some member's key begins with `$`.
pub open spec fn has_operator_key(members: Seq<(Seq<char>, serde_json::Value)>) -> bool {
    exists|i: int| 0 <= i < members.len() && is_operator_key(#[trigger] members[i].0)
}

/// The value of the first member whose key is `key`.
pub open spec fn member_named(members: Seq<(Seq<char>, serde_json::Value)>, key: Seq<char>)
    -> Option<serde_json::Value>
    decreases members.len(),
{
    if members.len() == 0 {
        None
    } else {
        match member_named(members.drop_last(), key) {
            Some(value) => Some(value),
            None => if members.last().0 == key {
                Some(members.last().1)
            } else {
                None
            },
        }
    }
}

/// An operand as given: a member that is absent or `null` gives none.
pub open spec fn operand_of(member: Option<serde_json::Value>) -> Option<serde_json::Value> {
    match member {
        Some(value) => if json_shape(value) is Null {
            None
        } else {
            Some(value)
        },
        None => None,
    }
}

/// A member fits `$in` where it is absent, `null` or an array.
pub open spec fn fits_list(member: Option<serde_json::Value>) -> bool {
    match member {
        Some(value) => json_shape(value) is Null || json_shape(value) is Array,
        None => true,
    }
}

/// A member fits `$like` where it is absent, `null` or a string.
pub open spec fn fits_pattern(member: Option<serde_json::Value>) -> bool {
    match member {
        Some(value) => json_shape(value) is Null || json_shape(value) is String,
        None => true,
    }
}

/// The items of a `$in` member.
pub open spec fn list_of(member: Option<serde_json::Value>) -> Option<Seq<serde_json::Value>> {
    match member {
        Some(value) => match json_shape(value) {
            JsonShape::Array(items) => Some(items),
            _ => None,
        },
        None => None,
    }
}

/// The text of a `$like` member.
pub open spec fn pattern_of(member: Option<serde_json::Value>) -> Option<Seq<char>> {
    match member {
        Some(value) => match json_shape(value) {
            JsonShape::String(text) => Some(text),
            _ => None,
        },
        None => None,
    }
}

/// The operators that an object's members spell out, or `None` where
/// `$in` is not a list or `$like` is not a string. Members under other
/// keys are passed over.
pub open spec fn operators_of(members: Seq<(Seq<char>, serde_json::Value)>) -> Option<
    OperatorsModel,
> {
    if fits_list(member_named(members, "$in"@)) && fits_pattern(member_named(members, "$like"@)) {
        Some(
            OperatorsModel {
                eq: operand_of(member_named(members, "$eq"@)),
                ne: operand_of(member_named(members, "$ne"@)),
                gt: operand_of(member_named(members, "$gt"@)),
                gte: operand_of(member_named(members, "$gte"@)),
                lt: operand_of(member_named(members, "$lt"@)),
                lte: operand_of(member_named(members, "$lte"@)),
                in_list: list_of(member_named(members, "$in"@)),
                like: pattern_of(member_named(members, "$like"@)),
            },
        )
    } else {
        None
    }
}

/// How a raw JSON value is read as the condition on one column: an object
/// with a key that begins with `$` is read as operators where that works;
/// every other value, and such an object where it does not, is a plain
/// value to compare with.
pub open spec fn classify(value: serde_json::Value) -> FilterModel {
    match json_shape(value) {
        JsonShape::Object(members) => if has_operator_key(members) {
            match operators_of(members) {
                Some(ops) => FilterModel::Operator(ops),
                None => FilterModel::Direct(value),
            }
        } else {
            FilterModel::Direct(value)
        },
        _ => FilterModel::Direct(value),
    }
}

/// The filter that a raw JSON value spells out, where it is an object.
pub open spec fn filter_of(value: serde_json::Value) -> Option<Seq<(Seq<char>, FilterModel)>> {
    match json_shape(value) {
        JsonShape::Object(members) => Some(
            members.map_values(|m: (Seq<char>, serde_json::Value)| (m.0, classify(m.1))),
        ),
        _ => None,
    }
}

fn key_is_operator(key: &str) -> (b: bool)
    ensures
        b == is_operator_key(key@),
{
    if key.unicode_len() == 0 {
        false
    } else {
        key.get_char(0) == '$'
    }
}

fn any_operator_key(members: &Vec<(String, serde_json::Value)>) -> (found: bool)
    ensures
        found == has_operator_key(crate::json::member_views(members@)),
{
    let ghost views = crate::json::member_views(members@);
    let mut i: usize = 0;
    while i < members.len()
        invariant
            i <= members.len(),
            views == crate::json::member_views(members@),
            forall|k: int| 0 <= k < i ==> !is_operator_key(#[trigger] views[k].0),
        decreases members.len() - i,
    {
        if key_is_operator(members[i].0.as_str()) {
            assert(is_operator_key(views[i as int].0));
            return true;
        }
        i = i + 1;
    }
    false
}

fn find_member<'a>(members: &'a Vec<(String, serde_json::Value)>, key: &str) -> (found: Option<
    &'a serde_json::Value,
>)
    ensures
        match found {
            Some(value) => member_named(crate::json::member_views(members@), key@) == Some(
                *value,
            ),
            None => member_named(crate::json::member_views(members@), key@) is None,
        },
{
    let ghost views = crate::json::member_views(members@);
    let mut found: Option<&'a serde_json::Value> = None;
    let mut i: usize = 0;
    while i < members.len()
        invariant
            i <= members.len(),
            views == crate::json::member_views(members@),
            match found {
                Some(value) => member_named(views.subrange(0, i as int), key@) == Some(*value),
                None => member_named(views.subrange(0, i as int), key@) is None,
            },
        decreases members.len() - i,
    {
        proof {
            assert(views.subrange(0, i + 1).drop_last() =~= views.subrange(0, i as int));
        }
        if found.is_none() {
            let same = text_equals(members[i].0.as_str(), key);
            if same {
                found = Some(&members[i].1);
            }
        }
        i = i + 1;
    }
    proof {
        assert(views.subrange(0, members.len() as int) =~= views);
    }
    found
}

fn read_operand(members: &Vec<(String, serde_json::Value)>, key: &str) -> (operand: Option<
    serde_json::Value,
>)
    ensures
        operand == operand_of(member_named(crate::json::member_views(members@), key@)),
{
    match find_member(members, key) {
        Some(value) => {
            match read_node(value) {
                JsonNode::Null => None,
                _ => Some(value.clone()),
            }
        },
        None => None,
    }
}

fn read_list(members: &Vec<(String, serde_json::Value)>, key: &str) -> (list: Result<
    Option<Vec<serde_json::Value>>,
    (),
>)
    ensures
        list is Ok <==> fits_list(member_named(crate::json::member_views(members@), key@)),
        list matches Ok(Some(items)) ==> list_of(
            member_named(crate::json::member_views(members@), key@),
        ) == Some(items@),
        list matches Ok(None) ==> list_of(
            member_named(crate::json::member_views(members@), key@),
        ) is None,
{
    match find_member(members, key) {
        Some(value) => {
            match read_node(value) {
                JsonNode::Null => Ok(None),
                JsonNode::Array(items) => Ok(Some(items)),
                _ => Err(()),
            }
        },
        None => Ok(None),
    }
}

fn read_pattern(members: &Vec<(String, serde_json::Value)>, key: &str) -> (pattern: Result<
    Option<String>,
    (),
>)
    ensures
        pattern is Ok <==> fits_pattern(member_named(crate::json::member_views(members@), key@)),
        pattern matches Ok(Some(text)) ==> pattern_of(
            member_named(crate::json::member_views(members@), key@),
        ) == Some(text@),
        pattern matches Ok(None) ==> pattern_of(
            member_named(crate::json::member_views(members@), key@),
        ) is None,
{
    match find_member(members, key) {
        Some(value) => {
            match read_node(value) {
                JsonNode::Null => Ok(None),
                JsonNode::String(text) => Ok(Some(text)),
                _ => Err(()),
            }
        },
        None => Ok(None),
    }
}

impl FilterOperators {
    /// Reads the operators that the members of a JSON object spell out.
    /// `None` where `$in` is not a list or `$like` is not a string.
    pub fn from_members(members: &Vec<(String, serde_json::Value)>) -> (ops: Option<
        FilterOperators,
    >)
        ensures
            match operators_of(crate::json::member_views(members@)) {
                Some(model) => ops matches Some(read) && read@ == model,
                None => ops is None,
            },
    {
        let in_list = match read_list(members, "$in") {
            Ok(list) => list,
            Err(_) => {
                return None;
            },
        };
        let like = match read_pattern(members, "$like") {
            Ok(pattern) => pattern,
            Err(_) => {
                return None;
            },
        };
        Some(
            FilterOperators {
                eq: read_operand(members, "$eq"),
                ne: read_operand(members, "$ne"),
                gt: read_operand(members, "$gt"),
                gte: read_operand(members, "$gte"),
                lt: read_operand(members, "$lt"),
                lte: read_operand(members, "$lte"),
                in_list,
                like,
            },
        )
    }
}

impl FilterValue {
    /// Reads the condition on one column from its raw JSON value.
    pub fn from_json(value: &serde_json::Value) -> (condition: FilterValue)
        ensures
            condition@ == classify(*value),
    {
        match read_node(value) {
            JsonNode::Object(members) => {
                if any_operator_key(&members) {
                    match FilterOperators::from_members(&members) {
                        Some(ops) => FilterValue::Operator(ops),
                        None => FilterValue::Direct(value.clone()),
                    }
                } else {
                    FilterValue::Direct(value.clone())
                }
            },
            _ => FilterValue::Direct(value.clone()),
        }
    }
}

impl QueryFilter {
    /// Reads a filter from a JSON object: one condition per member, in the
    /// order of the members. Any other JSON value is refused.
    pub fn from_json(value: &serde_json::Value) -> (filter: Result<QueryFilter, AdapterError>)
        ensures
            match filter_of(*value) {
                Some(model) => filter matches Ok(read) && read@ == model && read.wf(),
                None => filter == Err::<QueryFilter, AdapterError>(
                    AdapterError::FilterNotAnObject,
                ),
            },
    {
        match read_node(value) {
            JsonNode::Object(members) => {
                let ghost views = crate::json::member_views(members@);
                let mut conditions: Vec<(String, FilterValue)> = Vec::new();
                let mut i: usize = 0;
                while i < members.len()
                    invariant
                        i <= members.len(),
                        views == crate::json::member_views(members@),
                        conditions.len() == i,
                        forall|k: int|
                            0 <= k < i ==> (#[trigger] conditions@[k]).0@ == views[k].0
                                && conditions@[k].1@ == classify(views[k].1),
                    decreases members.len() - i,
                {
                    let condition = FilterValue::from_json(&members[i].1);
                    conditions.push((members[i].0.clone(), condition));
                    i = i + 1;
                }
                let filter = QueryFilter { conditions };
                proof {
                    assert forall|i: int, j: int| 0 <= i < j < filter@.len() implies (
                    #[trigger] filter@[i]).0 != (#[trigger] filter@[j]).0 by {
                    }
                }
                Ok(filter)
            },
            _ => Err(AdapterError::FilterNotAnObject),
        }
    }
}

// ---------------------------------------------------------------------
// Compiling a filter
// ---------------------------------------------------------------------

/// A list holding `text` where `present`, else nothing.
pub open spec fn when(present: bool, text: Seq<char>) -> Seq<Seq<char>> {
    if present {
        seq![text]
    } else {
        Seq::empty()
    }
}

/// The parameter that an operand binds, where there is one.
pub open spec fn operand_params(operand: Option<serde_json::Value>) -> Seq<SqlModel> {
    match operand {
        Some(value) => seq![encode_json(value)],
        None => Seq::empty(),
    }
}

/// Set membership with one placeholder per item.
pub open spec fn list_condition(column: Seq<char>, count: nat) -> Seq<char> {
    column + " IN ("@ + joined(repeated("?"@, count), ", "@) + ")"@
}

/// The comparisons on one column, one per operator present, in the order
/// `$eq`, `$ne`, `$gt`, `$gte`, `$lt`, `$lte`, `$in`, `$like`.
pub open spec fn operator_conditions(column: Seq<char>, ops: OperatorsModel) -> Seq<Seq<char>> {
    when(ops.eq is Some, column + " = ?"@) + when(ops.ne is Some, column + " != ?"@) + when(
        ops.gt is Some,
        column + " > ?"@,
    ) + when(ops.gte is Some, column + " >= ?"@) + when(ops.lt is Some, column + " < ?"@) + when(
        ops.lte is Some,
        column + " <= ?"@,
    ) + (match ops.in_list {
        Some(items) => seq![list_condition(column, items.len())],
        None => Seq::empty(),
    }) + when(ops.like is Some, column + " LIKE ?"@)
}

/// The parameters of those comparisons, in the order of their placeholders.
pub open spec fn operator_params(ops: OperatorsModel) -> Seq<SqlModel> {
    operand_params(ops.eq) + operand_params(ops.ne) + operand_params(ops.gt) + operand_params(
        ops.gte,
    ) + operand_params(ops.lt) + operand_params(ops.lte) + (match ops.in_list {
        Some(items) => encode_all(items),
        None => Seq::empty(),
    }) + (match ops.like {
        Some(pattern) => seq![SqlModel::Text(pattern)],
        None => Seq::empty(),
    })
}

/// Conditions in brackets with `link` between them; with no condition at
/// all, the condition that always holds.
pub open spec fn grouped(conditions: Seq<Seq<char>>, link: Seq<char>) -> Seq<char> {
    if conditions.len() == 0 {
        "1=1"@
    } else {
        "("@ + joined(conditions, link) + ")"@
    }
}

/// The predicate for the operators on one column: any one of them is
/// enough.
pub open spec fn operator_clause(column: Seq<char>, ops: OperatorsModel) -> Seq<char> {
    grouped(operator_conditions(column, ops), ") OR ("@)
}

/// The predicate for one entry of a filter.
pub open spec fn condition_text(column: Seq<char>, condition: FilterModel) -> Seq<char> {
    match condition {
        FilterModel::Direct(_) => column + " = ?"@,
        FilterModel::Operator(ops) => operator_clause(column, ops),
    }
}

/// The parameters for one entry of a filter.
pub open spec fn condition_params(condition: FilterModel) -> Seq<SqlModel> {
    match condition {
        FilterModel::Direct(value) => seq![encode_json(value)],
        FilterModel::Operator(ops) => operator_params(ops),
    }
}

/// The predicates of a filter's entries, in order.
pub open spec fn where_conditions(filter: Seq<(Seq<char>, FilterModel)>) -> Seq<Seq<char>> {
    filter.map_values(|c: (Seq<char>, FilterModel)| condition_text(c.0, c.1))
}

/// The parameters of a filter's entries, in order.
pub open spec fn where_params(filter: Seq<(Seq<char>, FilterModel)>) -> Seq<SqlModel>
    decreases filter.len(),
{
    if filter.len() == 0 {
        Seq::empty()
    } else {
        where_params(filter.drop_last()) + condition_params(filter.last().1)
    }
}

/// The predicate of a filter: every entry has to hold.
pub open spec fn where_text(filter: Seq<(Seq<char>, FilterModel)>) -> Seq<char> {
    grouped(where_conditions(filter), ") AND ("@)
}

fn comparison(column: &str, suffix: &str) -> (text: String)
    ensures
        text@ == column@ + suffix@,
{
    let mut text = String::from_str(column);
    text.append(suffix);
    text
}

fn push_comparison(
    conditions: &mut Vec<String>,
    params: &mut Vec<SqlValue>,
    column: &str,
    suffix: &str,
    operand: &Option<serde_json::Value>,
)
    ensures
        string_views(final(conditions)@) == string_views(old(conditions)@) + when(
            operand is Some,
            column@ + suffix@,
        ),
        sql_views(final(params)@) == sql_views(old(params)@) + operand_params(*operand),
{
    match operand {
        Some(value) => {
            conditions.push(comparison(column, suffix));
            params.push(json_value_to_sqlite(value));
            proof {
                assert(sql_views(params@) =~= sql_views(old(params)@) + operand_params(*operand));
            }
        },
        None => {
            proof {
                assert(string_views(conditions@) =~= string_views(old(conditions)@) + when(
                    false,
                    column@ + suffix@,
                ));
            }
        },
    }
}

fn group(conditions: &Vec<String>, link: &str) -> (text: String)
    ensures
        text@ == grouped(string_views(conditions@), link@),
{
    if conditions.len() == 0 {
        String::from_str("1=1")
    } else {
        let mut text = String::from_str("(");
        let inner = join(conditions, link);
        text.append(inner.as_str());
        text.append(")");
        text
    }
}

/// Compiles the operators on one column to a predicate with positional
/// placeholders and the parameters that fill them.
pub fn build_operator_conditions(column: &str, ops: &FilterOperators) -> (compiled: (
    String,
    Vec<SqlValue>,
))
    ensures
        compiled.0@ == operator_clause(column@, ops@),
        sql_views(compiled.1@) == operator_params(ops@),
{
    let mut conditions: Vec<String> = Vec::new();
    let mut params: Vec<SqlValue> = Vec::new();
    push_comparison(&mut conditions, &mut params, column, " = ?", &ops.eq);
    push_comparison(&mut conditions, &mut params, column, " != ?", &ops.ne);
    push_comparison(&mut conditions, &mut params, column, " > ?", &ops.gt);
    push_comparison(&mut conditions, &mut params, column, " >= ?", &ops.gte);
    push_comparison(&mut conditions, &mut params, column, " < ?", &ops.lt);
    push_comparison(&mut conditions, &mut params, column, " <= ?", &ops.lte);
    let ghost before_list = string_views(conditions@);
    let ghost params_before_list = sql_views(params@);
    match &ops.in_list {
        Some(items) => {
            let mut text = String::from_str(column);
            text.append(" IN (");
            let marks = join_repeated("?", items.len(), ", ");
            text.append(marks.as_str());
            text.append(")");
            conditions.push(text);
            let mut encoded = json_values_to_sqlite(items);
            let ghost added = sql_views(encoded@);
            params.append(&mut encoded);
            proof {
                assert(string_views(conditions@) =~= before_list + seq![
                    list_condition(column@, items@.len()),
                ]);
                assert(sql_views(params@) =~= params_before_list + added);
            }
        },
        None => {},
    }
    let ghost before_like = string_views(conditions@);
    match &ops.like {
        Some(pattern) => {
            conditions.push(comparison(column, " LIKE ?"));
            params.push(SqlValue::Text(pattern.clone()));
            proof {
                assert(string_views(conditions@) =~= before_like + when(
                    true,
                    column@ + " LIKE ?"@,
                ));
            }
        },
        None => {},
    }
    (group(&conditions, ") OR ("), params)
}

/// Compiles a filter to a predicate with positional placeholders and the
/// parameters that fill them, in the order of the filter's entries.
pub fn build_where_clause(filter: &QueryFilter) -> (compiled: (String, Vec<SqlValue>))
    ensures
        compiled.0@ == where_text(filter@),
        sql_views(compiled.1@) == where_params(filter@),
{
    let ghost model = filter@;
    let mut conditions: Vec<String> = Vec::new();
    let mut params: Vec<SqlValue> = Vec::new();
    let mut i: usize = 0;
    while i < filter.conditions.len()
        invariant
            i <= filter.conditions.len(),
            model == filter@,
            conditions.len() == i,
            forall|k: int|
                0 <= k < i ==> (#[trigger] conditions@[k])@ == condition_text(
                    model[k].0,
                    model[k].1,
                ),
            sql_views(params@) == where_params(model.subrange(0, i as int)),
        decreases filter.conditions.len() - i,
    {
        proof {
            assert(model.subrange(0, i + 1).drop_last() =~= model.subrange(0, i as int));
        }
        let column = filter.conditions[i].0.as_str();
        match &filter.conditions[i].1 {
            FilterValue::Direct(value) => {
                conditions.push(comparison(column, " = ?"));
                params.push(json_value_to_sqlite(value));
            },
            FilterValue::Operator(ops) => {
                let (text, mut column_params) = build_operator_conditions(column, ops);
                conditions.push(text);
                params.append(&mut column_params);
            },
        }
        i = i + 1;
    }
    proof {
        assert(model.subrange(0, filter.conditions.len() as int) =~= model);
        assert(string_views(conditions@) =~= where_conditions(model));
    }
    (group(&conditions, ") AND ("), params)
}

/// The empty filter compiles to the condition that always holds, with no
/// parameters.
pub proof fn lemma_empty_filter_always_holds()
    ensures
        where_text(Seq::empty()) == "1=1"@,
        where_params(Seq::empty()) == Seq::<SqlModel>::empty(),
{
}

/// Two operators on one column are alternatives: the column's predicate is
/// the first comparison or the second, and the whole filter is that one
/// group.
pub proof fn lemma_operators_on_one_column_are_alternatives(
    column: Seq<char>,
    lower: serde_json::Value,
    upper: serde_json::Value,
)
    ensures
        ({
            let ops = OperatorsModel {
                gt: Some(lower),
                lt: Some(upper),
                ..OperatorsModel::none()
            };
            &&& operator_clause(column, ops) == "("@ + (column + " > ?"@ + ") OR ("@ + (column
                + " < ?"@)) + ")"@
            &&& operator_params(ops) == seq![encode_json(lower), encode_json(upper)]
            &&& where_text(seq![(column, FilterModel::Operator(ops))]) == "("@ + operator_clause(
                column,
                ops,
            ) + ")"@
        }),
{
    let ops = OperatorsModel { gt: Some(lower), lt: Some(upper), ..OperatorsModel::none() };
    let conditions = seq![column + " > ?"@, column + " < ?"@];
    reveal_with_fuel(joined, 3);
    let filter = seq![(column, FilterModel::Operator(ops))];
}

/// Conditions on two columns are both required: the predicate is the first
/// column's condition and the second's, with the parameters in that order.
pub proof fn lemma_columns_are_conjoined(
    first: (Seq<char>, FilterModel),
    second: (Seq<char>, FilterModel),
)
    ensures
        where_text(seq![first, second]) == "("@ + (condition_text(first.0, first.1) + ") AND ("@
            + condition_text(second.0, second.1)) + ")"@,
        where_params(seq![first, second]) == condition_params(first.1) + condition_params(
            second.1,
        ),
{
    let filter = seq![first, second];
    let conditions = seq![
        condition_text(first.0, first.1),
        condition_text(second.0, second.1),
    ];
    reveal_with_fuel(joined, 3);
    reveal_with_fuel(where_params, 3);
}

} // verus!
