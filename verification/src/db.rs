//! The repository: what is said to the store, and how its answers are read.
//!
//! Nothing here touches the store. Each operation is a [`Statement`]: a
//! fixed text with numbered placeholders, and the values that fill them.
//! What a caller sends never becomes part of a statement's text; it travels
//! as a parameter. The program around this crate sends the statement and
//! hands back what the store returned, as rows of plain values or as a
//! [`Failure`].

use crate::amount::Amount;
use crate::model::{text_view, views, BudgetView, CategoryView};
use vstd::prelude::*;
use vstd::string::{StrSliceExecFns, StringExecFns};

verus! {

/// How a statement begins that creates a table only where none of that
/// name exists, and otherwise leaves the store as it is.
pub const CREATE_IF_ABSENT: &'static str = "CREATE TABLE IF NOT EXISTS ";

/// Creates the table of categories unless it is there already.
pub const CREATE_CATEGORY_TABLE: &'static str =
    "CREATE TABLE IF NOT EXISTS Category (id SERIAL PRIMARY KEY, category TEXT NOT NULL)";

/// Creates the table of budget lines unless it is there already. Its
/// category column refers to the table of categories, which must exist.
pub const CREATE_BUDGET_TABLE: &'static str =
    "CREATE TABLE IF NOT EXISTS Budget (id SERIAL PRIMARY KEY, price decimal NOT NULL, title TEXT, categoryId integer REFERENCES Category)";

pub const SELECT_CATEGORIES: &'static str = "SELECT * FROM Category";

pub const INSERT_CATEGORY: &'static str = "INSERT INTO Category (category) VALUES ($1)";

pub const SELECT_BUDGETS: &'static str = "SELECT * FROM Budget";

pub const SELECT_SINGLE_BUDGET: &'static str = "SELECT * FROM Budget WHERE id = $1";

pub const INSERT_BUDGET: &'static str =
    "INSERT INTO Budget (price, categoryId, title) VALUES ($1, $2, $3) RETURNING id";

pub const UPDATE_BUDGET: &'static str =
    "UPDATE Budget SET price = $1, categoryId = $2, title = $3 WHERE id = $4";

pub const DELETE_BUDGET: &'static str = "DELETE FROM Budget WHERE id = $1";

pub const SELECT_SUM_OF_PRICE: &'static str = "SELECT SUM(price) FROM Budget";

/// Why an operation did not give a result.
#[derive(Clone, Copy, Debug, PartialEq, Eq, Structural)]
pub enum Failure {
    /// No row has the id that was asked for.
    NotFound,
    /// The store refused the statement because a constraint of the schema
    /// would be broken, such as a budget line naming a category that does
    /// not exist.
    ConstraintViolation,
    /// A price has no fixed-point form.
    Conversion,
    /// The store could not be reached, or failed in any other way.
    StoreUnavailable,
}

/// A value that fills a placeholder of a statement.
#[derive(Clone, Debug, PartialEq, Eq)]
pub enum Param {
    Int(i32),
    Text(String),
    Decimal(Amount),
}

/// What a [`Param`] holds, as a plain mathematical value.
pub enum ParamView {
    Int(i32),
    Text(Seq<char>),
    Decimal(Amount),
}

impl View for Param {
    type V = ParamView;

    open spec fn view(&self) -> ParamView {
        match *self {
            Param::Int(i) => ParamView::Int(i),
            Param::Text(t) => ParamView::Text(t@),
            Param::Decimal(a) => ParamView::Decimal(a),
        }
    }
}

/// One statement for the store: `params[0]` fills `$1`, `params[1]` fills
/// `$2`, and so on.
#[derive(Clone, Debug, PartialEq, Eq)]
pub struct Statement {
    pub text: &'static str,
    pub params: Vec<Param>,
}

/// What a [`Statement`] holds, as plain mathematical values.
pub struct StatementView {
    pub text: Seq<char>,
    pub params: Seq<ParamView>,
}

impl View for Statement {
    type V = StatementView;

    open spec fn view(&self) -> StatementView {
        StatementView { text: self.text@, params: views(self.params@) }
    }
}

/// A row of the table of categories.
#[derive(Clone, Debug, PartialEq, Eq)]
pub struct CategoryRow {
    pub id: i32,
    pub category: String,
}

impl View for CategoryRow {
    type V = CategoryView;

    open spec fn view(&self) -> CategoryView {
        CategoryView { id: Some(self.id), category: self.category@ }
    }
}

/// A row of the table of budget lines.
#[allow(non_snake_case)]
#[derive(Clone, Debug, PartialEq, Eq)]
pub struct BudgetRow {
    pub id: i32,
    pub price: Amount,
    pub categoryId: i32,
    pub title: Option<String>,
}

impl View for BudgetRow {
    type V = BudgetView;

    open spec fn view(&self) -> BudgetView {
        BudgetView {
            id: self.id,
            price: self.price,
            categoryId: self.categoryId,
            title: text_view(self.title),
        }
    }
}

/// The statement that creates the table of categories.
pub open spec fn category_table() -> StatementView {
    StatementView { text: CREATE_CATEGORY_TABLE@, params: seq![] }
}

/// The statement that creates the table of budget lines.
pub open spec fn budget_table() -> StatementView {
    StatementView { text: CREATE_BUDGET_TABLE@, params: seq![] }
}

/// The statement that lists every category.
pub open spec fn category_listing() -> StatementView {
    StatementView { text: SELECT_CATEGORIES@, params: seq![] }
}

/// The statement that stores a new category under `category`.
pub open spec fn category_insertion(category: Seq<char>) -> StatementView {
    StatementView { text: INSERT_CATEGORY@, params: seq![ParamView::Text(category)] }
}

/// The statement that lists every budget line.
pub open spec fn budget_listing() -> StatementView {
    StatementView { text: SELECT_BUDGETS@, params: seq![] }
}

/// The statement that fetches the budget line `id`.
pub open spec fn budget_lookup(id: i32) -> StatementView {
    StatementView { text: SELECT_SINGLE_BUDGET@, params: seq![ParamView::Int(id)] }
}

/// The statement that stores a new budget line and asks for its id.
pub open spec fn budget_insertion(price: Amount, category_id: i32, title: Seq<char>)
    -> StatementView {
    StatementView {
        text: INSERT_BUDGET@,
        params: seq![
            ParamView::Decimal(price),
            ParamView::Int(category_id),
            ParamView::Text(title),
        ],
    }
}

/// The statement that replaces price, category and title of the budget
/// line `id`.
pub open spec fn budget_replacement(id: i32, price: Amount, category_id: i32, title: Seq<char>)
    -> StatementView {
    StatementView {
        text: UPDATE_BUDGET@,
        params: seq![
            ParamView::Decimal(price),
            ParamView::Int(category_id),
            ParamView::Text(title),
            ParamView::Int(id),
        ],
    }
}

/// The statement that deletes the budget line `id`.
pub open spec fn budget_removal(id: i32) -> StatementView {
    StatementView { text: DELETE_BUDGET@, params: seq![ParamView::Int(id)] }
}

/// The statement that adds up the prices of all budget lines.
pub open spec fn price_total() -> StatementView {
    StatementView { text: SELECT_SUM_OF_PRICE@, params: seq![] }
}

/// The row that an insertion of a category asks the store to keep, under
/// the id that the store gives it: the label is what fills the statement's
/// only placeholder. `None` for any other statement.
pub open spec fn stored_category(statement: StatementView, id: i32) -> Option<CategoryView> {
    if statement.text == INSERT_CATEGORY@ && statement.params.len() == 1 {
        match statement.params[0] {
            ParamView::Text(category) => Some(CategoryView { id: Some(id), category }),
            _ => None,
        }
    } else {
        None
    }
}

/// The row that an insertion of a budget line asks the store to keep, under
/// the id that the store gives it: the statement's text names the columns
/// price, category and title, in this order, for its three placeholders.
/// `None` for any other statement.
pub open spec fn stored_budget(statement: StatementView, id: i32) -> Option<BudgetView> {
    if statement.text == INSERT_BUDGET@ && statement.params.len() == 3 {
        match (statement.params[0], statement.params[1], statement.params[2]) {
            (ParamView::Decimal(price), ParamView::Int(category_id), ParamView::Text(title)) => Some(
                BudgetView { id, price, categoryId: category_id, title: Some(title) },
            ),
            _ => None,
        }
    } else {
        None
    }
}

/// What a replacement asks the store to keep in the place of `row`: the
/// first three placeholders are price, category and title, the fourth is the
/// id of the line to replace. A row with another id stays as it is. `None`
/// for any other statement.
pub open spec fn replaced_budget(statement: StatementView, row: BudgetView) -> Option<BudgetView> {
    if statement.text == UPDATE_BUDGET@ && statement.params.len() == 4 {
        match (
            statement.params[0],
            statement.params[1],
            statement.params[2],
            statement.params[3],
        ) {
            (
                ParamView::Decimal(price),
                ParamView::Int(category_id),
                ParamView::Text(title),
                ParamView::Int(id),
            ) => if id == row.id {
                Some(BudgetView { id, price, categoryId: category_id, title: Some(title) })
            } else {
                Some(row)
            },
            _ => None,
        }
    } else {
        None
    }
}

fn statement(text: &'static str, params: Vec<Param>) -> (st: Statement)
    ensures
        st@ == (StatementView { text: text@, params: views(params@) }),
{
    Statement { text, params }
}

/// Prepares the creation of the table of categories.
pub fn create_category_table() -> (st: Statement)
    ensures
        st@ == category_table(),
{
    let st = statement(CREATE_CATEGORY_TABLE, Vec::new());
    assert(st@.params =~= seq![]);
    st
}

/// Prepares the creation of the table of budget lines.
pub fn create_budget_table() -> (st: Statement)
    ensures
        st@ == budget_table(),
{
    let st = statement(CREATE_BUDGET_TABLE, Vec::new());
    assert(st@.params =~= seq![]);
    st
}

/// Prepares the listing of all categories.
pub fn select_categories() -> (st: Statement)
    ensures
        st@ == category_listing(),
{
    let st = statement(SELECT_CATEGORIES, Vec::new());
    assert(st@.params =~= seq![]);
    st
}

/// Prepares the insertion of a category labelled `category`.
pub fn insert_category(category: &str) -> (st: Statement)
    ensures
        st@ == category_insertion(category@),
{
    let mut params: Vec<Param> = Vec::new();
    params.push(Param::Text(String::from_str(category)));
    let st = statement(INSERT_CATEGORY, params);
    assert(st@.params =~= seq![ParamView::Text(category@)]);
    st
}

/// Prepares the listing of all budget lines.
pub fn select_budgets() -> (st: Statement)
    ensures
        st@ == budget_listing(),
{
    let st = statement(SELECT_BUDGETS, Vec::new());
    assert(st@.params =~= seq![]);
    st
}

/// Prepares the fetching of the budget line `id`.
pub fn select_single_budget(id: i32) -> (st: Statement)
    ensures
        st@ == budget_lookup(id),
{
    let mut params: Vec<Param> = Vec::new();
    params.push(Param::Int(id));
    let st = statement(SELECT_SINGLE_BUDGET, params);
    assert(st@.params =~= seq![ParamView::Int(id)]);
    st
}

/// Prepares the insertion of a budget line.
pub fn insert_budget(price: Amount, category_id: i32, title: &str) -> (st: Statement)
    ensures
        st@ == budget_insertion(price, category_id, title@),
{
    let mut params: Vec<Param> = Vec::new();
    params.push(Param::Decimal(price));
    params.push(Param::Int(category_id));
    params.push(Param::Text(String::from_str(title)));
    let st = statement(INSERT_BUDGET, params);
    assert(st@.params =~= budget_insertion(price, category_id, title@).params);
    st
}

/// Prepares the replacement of price, category and title of the budget
/// line `id`.
pub fn update_budget(id: i32, price: Amount, category_id: i32, title: &str) -> (st: Statement)
    ensures
        st@ == budget_replacement(id, price, category_id, title@),
{
    let mut params: Vec<Param> = Vec::new();
    params.push(Param::Decimal(price));
    params.push(Param::Int(category_id));
    params.push(Param::Text(String::from_str(title)));
    params.push(Param::Int(id));
    let st = statement(UPDATE_BUDGET, params);
    assert(st@.params =~= budget_replacement(id, price, category_id, title@).params);
    st
}

/// Prepares the deletion of the budget line `id`.
pub fn delete_budget(id: i32) -> (st: Statement)
    ensures
        st@ == budget_removal(id),
{
    let mut params: Vec<Param> = Vec::new();
    params.push(Param::Int(id));
    let st = statement(DELETE_BUDGET, params);
    assert(st@.params =~= seq![ParamView::Int(id)]);
    st
}

/// Prepares the summing of all prices.
pub fn select_sum_of_price() -> (st: Statement)
    ensures
        st@ == price_total(),
{
    let st = statement(SELECT_SUM_OF_PRICE, Vec::new());
    assert(st@.params =~= seq![]);
    st
}

/// The row that a lookup by id found: the first of the rows that came back,
/// or `NotFound` where none did.
pub open spec fn found(rows: Seq<BudgetView>) -> Result<BudgetView, Failure> {
    if rows.len() == 0 {
        Err(Failure::NotFound)
    } else {
        Ok(rows[0])
    }
}

/// What a lookup gave, seen through the view of the row.
pub open spec fn lookup_view(outcome: Result<BudgetRow, Failure>) -> Result<BudgetView, Failure> {
    match outcome {
        Ok(row) => Ok(row@),
        Err(failure) => Err(failure),
    }
}

/// Reads the answer to a lookup by id. An empty answer is no fault of the
/// store: it means that no budget line has the id, and is told apart from a
/// failure of the store as `NotFound`.
pub fn single_budget(rows: Vec<BudgetRow>) -> (outcome: Result<BudgetRow, Failure>)
    ensures
        lookup_view(outcome) == found(views(rows@)),
{
    let mut rows = rows;
    if rows.len() == 0 {
        Err(Failure::NotFound)
    } else {
        Ok(rows.remove(0))
    }
}

/// The kind of failure that the store's five-character state code stands
/// for. Codes that begin with `23` report a broken constraint. Any other
/// code, and a failure that comes without a code, counts as the store being
/// unavailable.
pub open spec fn classified(state: Option<Seq<char>>) -> Failure {
    match state {
        Some(code) => if code.len() >= 2 && code[0] == '2' && code[1] == '3' {
            Failure::ConstraintViolation
        } else {
            Failure::StoreUnavailable
        },
        None => Failure::StoreUnavailable,
    }
}

/// The state code, seen as a sequence of characters.
pub open spec fn state_view(state: Option<&str>) -> Option<Seq<char>> {
    match state {
        Some(code) => Some(code@),
        None => None,
    }
}

/// Sorts a failure of the store by the state code that came with it.
pub fn classify(state: Option<&str>) -> (failure: Failure)
    ensures
        failure == classified(state_view(state)),
{
    match state {
        Some(code) => {
            if code.unicode_len() >= 2 && code.get_char(0) == '2' && code.get_char(1) == '3' {
                Failure::ConstraintViolation
            } else {
                Failure::StoreUnavailable
            }
        },
        None => Failure::StoreUnavailable,
    }
}

/// No statement is put together from what a caller sent. Whatever the
/// label, the title, the price or the ids, the text of a statement is the
/// same fixed text, and what was sent is found among its parameters alone.
pub proof fn lemma_statements_are_parameterised(
    id: i32,
    price: Amount,
    category_id: i32,
    category: Seq<char>,
    title: Seq<char>,
)
    ensures
        category_insertion(category).text == INSERT_CATEGORY@,
        category_insertion(category).params == seq![ParamView::Text(category)],
        budget_lookup(id).text == SELECT_SINGLE_BUDGET@,
        budget_lookup(id).params == seq![ParamView::Int(id)],
        budget_insertion(price, category_id, title).text == INSERT_BUDGET@,
        budget_insertion(price, category_id, title).params == seq![
            ParamView::Decimal(price),
            ParamView::Int(category_id),
            ParamView::Text(title),
        ],
        budget_replacement(id, price, category_id, title).text == UPDATE_BUDGET@,
        budget_replacement(id, price, category_id, title).params == seq![
            ParamView::Decimal(price),
            ParamView::Int(category_id),
            ParamView::Text(title),
            ParamView::Int(id),
        ],
        budget_removal(id).text == DELETE_BUDGET@,
        budget_removal(id).params == seq![ParamView::Int(id)],
{
}

} // verus!
