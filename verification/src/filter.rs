//! Filters: query parameters, and the predicates they compile to.
//!
//! A caller describes a filter by three parallel lists: field names, operators and
//! literal values. Compiling checks the lists and yields a conjunction of conditions
//! in which every field name is a plain name, every operator is one of a fixed
//! set and every value stays a literal. Rendering a predicate never writes a
//! value into the text: each value is referred to by a numbered placeholder and
//! handed over separately.

use vstd::prelude::*;
use vstd::string::*;
use crate::error::Error;
use crate::text::{decimal, int_text, same_text};

verus! {

/// The filter that a caller sends: three parallel lists, and how many rows to return
/// from which position in what order.
#[derive(Debug, PartialEq, Eq)]
pub struct QueryParams {
    pub limit: Option<i64>,
    pub offset: Option<i64>,
    pub order: Option<String>,
    pub sort: Option<String>,
    pub field: Option<Vec<String>>,
    pub operator: Option<Vec<String>>,
    pub value: Option<Vec<String>>,
}

/// The texts of an optional list; an absent list holds none.
pub open spec fn texts(list: Option<Vec<String>>) -> Seq<Seq<char>> {
    match list {
        Some(items) => items.deep_view(),
        None => Seq::empty(),
    }
}

/// The text of an optional string.
pub open spec fn optional_text(text: Option<String>) -> Option<Seq<char>> {
    match text {
        Some(s) => Some(s@),
        None => None,
    }
}

/// A comparison that a condition may make.
#[derive(Clone, Copy, Debug, PartialEq, Eq, Structural, Hash)]
pub enum Operator {
    Eq,
    Ne,
    Gt,
    Ge,
    Lt,
    Le,
}

impl Operator {
    /// The operator that a text names, if it names one.
    pub open spec fn parse_spec(symbol: Seq<char>) -> Option<Operator> {
        if symbol == "="@ {
            Some(Operator::Eq)
        } else if symbol == "!="@ {
            Some(Operator::Ne)
        } else if symbol == ">"@ {
            Some(Operator::Gt)
        } else if symbol == ">="@ {
            Some(Operator::Ge)
        } else if symbol == "<"@ {
            Some(Operator::Lt)
        } else if symbol == "<="@ {
            Some(Operator::Le)
        } else {
            None
        }
    }

    /// The text that names the operator.
    pub open spec fn symbol(self) -> Seq<char> {
        match self {
            Operator::Eq => "="@,
            Operator::Ne => "!="@,
            Operator::Gt => ">"@,
            Operator::Ge => ">="@,
            Operator::Lt => "<"@,
            Operator::Le => "<="@,
        }
    }

    /// Reads an operator; `None` for a text outside the fixed set.
    pub fn parse(symbol: &str) -> (op: Option<Operator>)
        ensures
            op == Operator::parse_spec(symbol@),
    {
        if same_text(symbol, "=") {
            Some(Operator::Eq)
        } else if same_text(symbol, "!=") {
            Some(Operator::Ne)
        } else if same_text(symbol, ">") {
            Some(Operator::Gt)
        } else if same_text(symbol, ">=") {
            Some(Operator::Ge)
        } else if same_text(symbol, "<") {
            Some(Operator::Lt)
        } else if same_text(symbol, "<=") {
            Some(Operator::Le)
        } else {
            None
        }
    }

    /// The text that names the operator.
    pub fn as_str(&self) -> (symbol: &'static str)
        ensures
            symbol@ == self.symbol(),
    {
        match self {
            Operator::Eq => "=",
            Operator::Ne => "!=",
            Operator::Gt => ">",
            Operator::Ge => ">=",
            Operator::Lt => "<",
            Operator::Le => "<=",
        }
    }
}

/// Every operator is named by its own symbol and by no other's.
pub proof fn lemma_symbol_parses(op: Operator)
    ensures
        Operator::parse_spec(op.symbol()) == Some(op),
{
    reveal_strlit("=");
    reveal_strlit("!=");
    reveal_strlit(">");
    reveal_strlit(">=");
    reveal_strlit("<");
    reveal_strlit("<=");
    assert("="@.len() == 1 && ">"@.len() == 1 && "<"@.len() == 1);
    assert("!="@.len() == 2 && ">="@.len() == 2 && "<="@.len() == 2);
    assert("="@[0] == '=' && ">"@[0] == '>' && "<"@[0] == '<');
    assert("!="@[0] == '!' && ">="@[0] == '>' && "<="@[0] == '<');
}

/// Whether a character may stand in a field name: a letter of the Latin
/// alphabet, a digit, or an underscore.
pub open spec fn is_name_char(c: char) -> bool {
    ('a' <= c && c <= 'z') || ('A' <= c && c <= 'Z') || ('0' <= c && c <= '9') || c == '_'
}

/// Whether a text is a plain name: not empty, made of letters, digits and
/// underscores, and not starting with a digit. No other text is taken for a
/// field name, so that a field name can stand in a rendered predicate as it is.
pub open spec fn is_field_name(name: Seq<char>) -> bool {
    &&& name.len() > 0
    &&& !('0' <= name[0] && name[0] <= '9')
    &&& forall|i: int| 0 <= i < name.len() ==> is_name_char(#[trigger] name[i])
}

/// Whether a text is a plain name.
pub fn names_field(name: &str) -> (plain: bool)
    ensures
        plain == is_field_name(name@),
{
    let n = name.unicode_len();
    if n == 0 {
        return false;
    }
    let first = name.get_char(0);
    if '0' <= first && first <= '9' {
        return false;
    }
    let mut i: usize = 0;
    while i < n
        invariant
            0 <= i <= n,
            n == name@.len(),
            forall|j: int| 0 <= j < i ==> is_name_char(#[trigger] name@[j]),
        decreases n - i,
    {
        let c = name.get_char(i);
        let fits = ('a' <= c && c <= 'z') || ('A' <= c && c <= 'Z') || ('0' <= c && c <= '9') || c
            == '_';
        if !fits {
            return false;
        }
        i += 1;
    }
    true
}

/// What a condition says: a field, a comparison, a literal.
pub struct ConditionModel {
    pub field: Seq<char>,
    pub operator: Operator,
    pub value: Seq<char>,
}

/// One comparison of a field with a literal value.
#[derive(Debug, PartialEq, Eq)]
pub struct Condition {
    pub field: String,
    pub operator: Operator,
    pub value: String,
}

impl View for Condition {
    type V = ConditionModel;

    open spec fn view(&self) -> ConditionModel {
        ConditionModel { field: self.field@, operator: self.operator, value: self.value@ }
    }
}

impl Clone for Condition {
    fn clone(&self) -> (copy: Self)
        ensures
            copy@ == self@,
    {
        Condition { field: self.field.clone(), operator: self.operator, value: self.value.clone() }
    }
}

/// A compiled filter: the conjunction of its conditions, in order.
/// With no condition it holds of every row.
#[derive(Debug, PartialEq, Eq)]
pub struct Predicate {
    pub conditions: Vec<Condition>,
}

impl View for Predicate {
    type V = Seq<ConditionModel>;

    open spec fn view(&self) -> Seq<ConditionModel> {
        Seq::new(self.conditions@.len(), |i: int| self.conditions@[i]@)
    }
}

/// Whether a row meets a predicate, where `row` tells which single conditions the
/// row meets: it meets the predicate when it meets every condition of it.
pub open spec fn holds(predicate: Seq<ConditionModel>, row: spec_fn(ConditionModel) -> bool) -> bool {
    forall|i: int| 0 <= i < predicate.len() ==> #[trigger] row(predicate[i])
}

impl QueryParams {
    /// The field names, in order.
    pub open spec fn field_names(self) -> Seq<Seq<char>> {
        texts(self.field)
    }

    /// The operator texts, in order.
    pub open spec fn operators(self) -> Seq<Seq<char>> {
        texts(self.operator)
    }

    /// The literal values, in order.
    pub open spec fn values(self) -> Seq<Seq<char>> {
        texts(self.value)
    }

    /// The three lists have one length.
    pub open spec fn lengths_agree(self) -> bool {
        self.field_names().len() == self.operators().len() && self.field_names().len()
            == self.values().len()
    }

    /// The parameters describe a filter: the lists have one length, every field
    /// name is a plain name, and every operator is one of the fixed set.
    pub open spec fn valid(self) -> bool {
        &&& self.lengths_agree()
        &&& forall|i: int|
            0 <= i < self.field_names().len() ==> is_field_name(#[trigger] self.field_names()[i])
        &&& forall|i: int|
            0 <= i < self.operators().len() ==> Operator::parse_spec(
                #[trigger] self.operators()[i],
            ) is Some
    }

    /// The conditions that the parameters describe, in the order of the lists.
    pub open spec fn conditions(self) -> Seq<ConditionModel> {
        Seq::new(
            self.field_names().len(),
            |i: int|
                ConditionModel {
                    field: self.field_names()[i],
                    operator: Operator::parse_spec(self.operators()[i]).unwrap(),
                    value: self.values()[i],
                },
        )
    }

    /// How many rows a listing returns: 10 unless the caller says otherwise.
    pub open spec fn row_limit(self) -> i64 {
        match self.limit {
            Some(n) => n,
            None => 10,
        }
    }

    /// How many rows a listing skips: none unless the caller says otherwise.
    pub open spec fn row_offset(self) -> i64 {
        match self.offset {
            Some(n) => n,
            None => 0,
        }
    }
}

impl Default for QueryParams {
    /// Parameters that filter nothing and leave every choice to the defaults.
    fn default() -> (params: QueryParams)
        ensures
            params.limit is None,
            params.offset is None,
            params.order is None,
            params.sort is None,
            params.field is None,
            params.operator is None,
            params.value is None,
    {
        QueryParams {
            limit: None,
            offset: None,
            order: None,
            sort: None,
            field: None,
            operator: None,
            value: None,
        }
    }
}

/// The items of an optional list, or of `empty` when the list is absent.
fn items_or<'a>(list: &'a Option<Vec<String>>, empty: &'a Vec<String>) -> (items: &'a Vec<String>)
    requires
        empty@.len() == 0,
    ensures
        items.deep_view() == texts(*list),
{
    match list {
        Some(items) => items,
        None => {
            assert(empty.deep_view() =~= Seq::<Seq<char>>::empty());
            empty
        },
    }
}

/// Compiles query parameters into a predicate.
///
/// The parameters are rejected exactly when the three lists differ in length, a
/// field name is not a plain name, or an operator is outside the fixed set.
/// Otherwise the predicate holds one condition for each position of the lists,
/// in their order; empty lists give the predicate that holds of every row.
pub fn compile(params: &QueryParams) -> (compiled: Result<Predicate, Error>)
    ensures
        compiled is Ok <==> params.valid(),
        compiled matches Ok(predicate) ==> predicate@ == params.conditions(),
        compiled matches Err(e) ==> e == Error::InvalidFilterSpec,
{
    let empty: Vec<String> = Vec::new();
    let fields = items_or(&params.field, &empty);
    let operators = items_or(&params.operator, &empty);
    let values = items_or(&params.value, &empty);
    if fields.len() != operators.len() || fields.len() != values.len() {
        return Err(Error::InvalidFilterSpec);
    }
    let mut conditions: Vec<Condition> = Vec::new();
    let mut i: usize = 0;
    while i < fields.len()
        invariant
            0 <= i <= fields.len(),
            fields.len() == operators.len(),
            fields.len() == values.len(),
            fields.deep_view() == params.field_names(),
            operators.deep_view() == params.operators(),
            values.deep_view() == params.values(),
            conditions@.len() == i,
            forall|j: int|
                0 <= j < i ==> Operator::parse_spec(#[trigger] params.operators()[j]) is Some,
            forall|j: int| 0 <= j < i ==> is_field_name(#[trigger] params.field_names()[j]),
            forall|j: int| 0 <= j < i ==> (#[trigger] conditions@[j])@ == params.conditions()[j],
        decreases fields.len() - i,
    {
        assert(operators.deep_view()[i as int] == operators@[i as int]@);
        assert(fields.deep_view()[i as int] == fields@[i as int]@);
        assert(values.deep_view()[i as int] == values@[i as int]@);
        if !names_field(fields[i].as_str()) {
            return Err(Error::InvalidFilterSpec);
        }
        match Operator::parse(operators[i].as_str()) {
            None => {
                return Err(Error::InvalidFilterSpec);
            },
            Some(operator) => {
                conditions.push(
                    Condition { field: fields[i].clone(), operator, value: values[i].clone() },
                );
            },
        }
        i += 1;
    }
    let predicate = Predicate { conditions };
    assert(predicate@ =~= params.conditions());
    Ok(predicate)
}

/// Whether the parameters describe a filter: the three lists have one length,
/// every field name is a plain name, and every operator is one of the fixed set.
pub fn validate_query_params(params: QueryParams) -> (valid: bool)
    ensures
        valid == params.valid(),
{
    compile(&params).is_ok()
}

impl Predicate {
    /// The predicate that holds of every row.
    pub fn new() -> (predicate: Predicate)
        ensures
            predicate@ == Seq::<ConditionModel>::empty(),
    {
        let predicate = Predicate { conditions: Vec::new() };
        assert(predicate@ =~= Seq::<ConditionModel>::empty());
        predicate
    }

    /// The conjunction of this predicate and one more condition, which comes last.
    pub fn and(self, field: &str, operator: Operator, value: String) -> (narrowed: Predicate)
        ensures
            narrowed@ == self@.push(ConditionModel { field: field@, operator, value: value@ }),
    {
        let ghost before = self@;
        let mut conditions = self.conditions;
        conditions.push(Condition { field: String::from_str(field), operator, value });
        let narrowed = Predicate { conditions };
        assert(narrowed@ =~= before.push(ConditionModel { field: field@, operator, value: value@ }));
        narrowed
    }

    /// The number of conditions.
    pub fn len(&self) -> (n: usize)
        ensures
            n == self@.len(),
    {
        self.conditions.len()
    }

    /// The literal values of the conditions, in order: the value at position `i` is
    /// the one that the placeholder numbered `i + 1` of the rendered text stands for.
    pub fn bindings(&self) -> (values: Vec<String>)
        ensures
            values.deep_view() == literal_values(self@),
    {
        let mut values: Vec<String> = Vec::new();
        let mut i: usize = 0;
        while i < self.conditions.len()
            invariant
                0 <= i <= self.conditions.len(),
                values@.len() == i,
                forall|j: int| 0 <= j < i ==> (#[trigger] values@[j])@ == self.conditions@[j].value@,
            decreases self.conditions.len() - i,
        {
            values.push(self.conditions[i].value.clone());
            i += 1;
        }
        assert(values.deep_view() =~= literal_values(self@));
        values
    }

    /// The predicate as text, with a numbered placeholder in place of each value.
    pub fn render(&self) -> (text: String)
        ensures
            text@ == rendered(self@),
    {
        if self.conditions.len() == 0 {
            return String::from_str("true");
        }
        let mut text = String::new();
        let mut i: usize = 0;
        while i < self.conditions.len()
            invariant
                0 <= i <= self.conditions.len(),
                text@ == conjunction(self@, i as int),
            decreases self.conditions.len() - i,
        {
            if i > 0 {
                text.append(" AND ");
            }
            let condition = &self.conditions[i];
            assert(self@[i as int] == condition@);
            text.append(condition.field.as_str());
            text.append(" ");
            text.append(condition.operator.as_str());
            text.append(" $");
            let number = int_text((i + 1) as i128);
            text.append(number.as_str());
            proof {
                let clause_text = clause(self@[i as int], i as int);
                assert(clause_text =~= condition.field@ + " "@ + condition.operator.symbol() + " $"@
                    + decimal(i + 1));
                if i > 0 {
                    assert(text@ =~= conjunction(self@, i as int) + " AND "@ + clause_text);
                } else {
                    assert(conjunction(self@, 0) =~= Seq::<char>::empty());
                    assert(text@ =~= clause_text);
                }
            }
            i += 1;
        }
        text
    }
}

/// The literal values of a predicate's conditions, in order.
pub open spec fn literal_values(predicate: Seq<ConditionModel>) -> Seq<Seq<char>> {
    Seq::new(predicate.len(), |i: int| predicate[i].value)
}

/// The text of the condition at position `index`: the field, the operator and the
/// placeholder numbered `index + 1`, separated by single spaces.
pub open spec fn clause(condition: ConditionModel, index: int) -> Seq<char> {
    condition.field + " "@ + condition.operator.symbol() + " $"@ + decimal(index + 1)
}

/// The text of the first `n` conditions, joined by ` AND `.
pub open spec fn conjunction(predicate: Seq<ConditionModel>, n: int) -> Seq<char>
    decreases n,
{
    if n <= 0 {
        Seq::empty()
    } else if n == 1 {
        clause(predicate[0], 0)
    } else {
        conjunction(predicate, n - 1) + " AND "@ + clause(predicate[n - 1], n - 1)
    }
}

/// The text of a predicate: `true` when it has no condition, else its conditions
/// joined by ` AND `.
pub open spec fn rendered(predicate: Seq<ConditionModel>) -> Seq<char> {
    if predicate.len() == 0 {
        "true"@
    } else {
        conjunction(predicate, predicate.len() as int)
    }
}

/// The text of the filter that the parameters describe, with a numbered placeholder
/// in place of each value; `true` when they filter nothing.
pub fn parse_query_params(params: QueryParams) -> (text: String)
    requires
        params.valid(),
    ensures
        text@ == rendered(params.conditions()),
{
    match compile(&params) {
        Ok(predicate) => predicate.render(),
        Err(_) => String::from_str("false"),
    }
}

/// A listing: which rows, how many, and from where.
#[derive(Debug, PartialEq, Eq)]
pub struct ListQuery {
    pub predicate: Predicate,
    pub limit: i64,
    pub offset: i64,
}

/// The listing that query parameters ask for. The limit is 10 and the offset 0
/// where the parameters name none; neither is checked for sign or size.
pub fn list_query(params: &QueryParams) -> (query: Result<ListQuery, Error>)
    ensures
        query is Ok <==> params.valid(),
        query matches Ok(q) ==> q.predicate@ == params.conditions() && q.limit
            == params.row_limit() && q.offset == params.row_offset(),
        query matches Err(e) ==> e == Error::InvalidFilterSpec,
{
    let limit = match params.limit {
        Some(n) => n,
        None => 10,
    };
    let offset = match params.offset {
        Some(n) => n,
        None => 0,
    };
    match compile(params) {
        Ok(predicate) => Ok(ListQuery { predicate, limit, offset }),
        Err(e) => Err(e),
    }
}

/// The one condition that a row's `id` equals a number.
pub open spec fn id_is(id: int) -> Seq<ConditionModel> {
    seq![ConditionModel { field: "id"@, operator: Operator::Eq, value: decimal(id) }]
}

impl ListQuery {
    /// The listing of the rows that meet a predicate, with the default limit of 10
    /// and no offset.
    pub fn of(predicate: Predicate) -> (query: ListQuery)
        ensures
            query.predicate == predicate,
            query.limit == 10,
            query.offset == 0,
    {
        ListQuery { predicate, limit: 10, offset: 0 }
    }

    /// The listing of the rows whose `id` equals a number.
    pub fn by_id(id: i32) -> (query: ListQuery)
        ensures
            query.predicate@ == id_is(id as int),
            query.limit == 10,
            query.offset == 0,
    {
        let predicate = Predicate::new().and("id", Operator::Eq, int_text(id as i128));
        assert(predicate@ =~= id_is(id as int));
        ListQuery::of(predicate)
    }
}

/// Parameters whose lists differ in length are always rejected as an invalid filter.
pub proof fn lemma_mismatched_lengths_rejected(params: QueryParams)
    requires
        !params.lengths_agree(),
    ensures
        !params.valid(),
{
}

/// A row meets a predicate narrowed by one more condition exactly when it meets
/// the predicate and the condition.
pub proof fn lemma_narrowed_holds(
    predicate: Seq<ConditionModel>,
    condition: ConditionModel,
    row: spec_fn(ConditionModel) -> bool,
)
    ensures
        holds(predicate.push(condition), row) <==> holds(predicate, row) && row(condition),
{
    let narrowed = predicate.push(condition);
    if holds(narrowed, row) {
        assert forall|i: int| 0 <= i < predicate.len() implies #[trigger] row(predicate[i]) by {
            assert(narrowed[i] == predicate[i]);
        }
        assert(narrowed[predicate.len() as int] == condition);
    }
}

/// Parameters without conditions describe a filter that every row meets.
pub proof fn lemma_empty_filter_holds_of_every_row(
    params: QueryParams,
    row: spec_fn(ConditionModel) -> bool,
)
    requires
        params.field_names().len() == 0,
        params.operators().len() == 0,
        params.values().len() == 0,
    ensures
        params.valid(),
        params.conditions().len() == 0,
        holds(params.conditions(), row),
        rendered(params.conditions()) == "true"@,
{
}

} // verus!
