//! The request handlers: from a request to the statement that serves it,
//! and from the store's answer to the reply.
//!
//! A handler keeps nothing between requests. Whatever went wrong, the
//! caller sees a failure envelope with a message that depends only on the
//! operation; what exactly failed is for the log alone.

use crate::amount::Amount;
use crate::db::{insert_budget, insert_category};
use crate::db::{budget_insertion, budget_replacement, category_insertion};
use crate::db::{found, replaced_budget, stored_budget, stored_category};
use crate::db::{BudgetRow, CategoryRow, Failure, Statement, StatementView};
use crate::model::{views, Budget, BudgetRequest, BudgetView, Category, CategoryView};
use crate::model::NewCategoryRequest;
use crate::response::{failed, failure, refusal, reply_view, succeeded, success};
use crate::response::{BudgetAmountResponse, BudgetAmountView};
use crate::response::{BudgetListResponse, BudgetListView};
use crate::response::{BudgetResponse, BudgetResponseView};
use crate::response::{CategoryListResponse, CategoryListView};
use crate::response::{ErrorResponse, GeneralResponse, MessageView, Reply, ReplyView};
use crate::response::{FAIL, NOT_FOUND, OK, SUCCESS};
use crate::text::{i32_text, int_text, nat_text, u64_text};
use vstd::prelude::*;
use vstd::string::StringExecFns;

verus! {

/// Said when a list could not be fetched.
pub const FETCH_FAILED: &'static str = "fail to fetch data";

/// Said when a record could not be stored.
pub const INSERT_FAILED: &'static str = "fail to insert data";

/// Said when a budget line could not be fetched by its id.
pub const NO_SUCH_BUDGET: &'static str = "Data no found";

/// Said when a budget line could not be replaced.
pub const UPDATE_FAILED: &'static str = "fail to update data";

/// Said when a budget line could not be deleted.
pub const DELETE_FAILED: &'static str = "fail to delete data";

/// Said when the sum of prices could not be had.
pub const SUM_FAILED: &'static str = "fail to get data";

/// Said when the price of a request has no fixed-point form.
pub const BAD_INPUT: &'static str = "bad input";

/// Said, followed by a number, when a record has been stored.
pub const INSERTED: &'static str = "New record inserted. Id: ";

/// Said when a budget line has been replaced.
pub const UPDATED: &'static str = "Record update.";

/// Said when a budget line has been deleted.
pub const DELETED: &'static str = "Record deleted.";

/// The rows that the store returned, or its failure, seen through the
/// views of the rows.
pub open spec fn listed<T: View>(outcome: Result<Vec<T>, Failure>) -> Result<Seq<T::V>, Failure> {
    match outcome {
        Ok(rows) => Ok(views(rows@)),
        Err(failure) => Err(failure),
    }
}

/// The reply to a request for all categories: every row as a category, in
/// the order of the rows, with their number.
pub open spec fn category_list_reply(outcome: Result<Seq<CategoryView>, Failure>) -> ReplyView<
    CategoryListView,
> {
    match outcome {
        Ok(rows) => Ok(
            (OK, CategoryListView { status: SUCCESS@, size: rows.len(), categories: rows }),
        ),
        Err(_) => failed(FETCH_FAILED@),
    }
}

/// The reply to a request to create a category. The store reports how many
/// rows it wrote, and the message repeats that number.
pub open spec fn create_category_reply(outcome: Result<u64, Failure>) -> ReplyView<MessageView> {
    match outcome {
        Ok(count) => succeeded(INSERTED@ + nat_text(count as nat)),
        Err(_) => failed(INSERT_FAILED@),
    }
}

/// The reply to a request for all budget lines: every row as a budget
/// line, in the order of the rows, with their number.
pub open spec fn budget_list_reply(outcome: Result<Seq<BudgetView>, Failure>) -> ReplyView<
    BudgetListView,
> {
    match outcome {
        Ok(rows) => Ok((OK, BudgetListView { status: SUCCESS@, size: rows.len(), budgets: rows })),
        Err(_) => failed(FETCH_FAILED@),
    }
}

/// The reply to a request for one budget line.
pub open spec fn single_budget_reply(outcome: Result<BudgetView, Failure>) -> ReplyView<
    BudgetResponseView,
> {
    match outcome {
        Ok(row) => Ok((OK, BudgetResponseView { status: SUCCESS@, data: row })),
        Err(_) => failed(NO_SUCH_BUDGET@),
    }
}

/// The message of a failed operation on a budget line that takes a price:
/// a price without a fixed-point form is the caller's fault and is called
/// bad input; for anything else the operation's own message is given.
pub open spec fn write_failure(failure: Failure, otherwise: Seq<char>) -> Seq<char> {
    if failure == Failure::Conversion {
        BAD_INPUT@
    } else {
        otherwise
    }
}

/// The reply to a request to create a budget line. The message names the id
/// that the store gave the new line.
pub open spec fn create_budget_reply(outcome: Result<i32, Failure>) -> ReplyView<MessageView> {
    match outcome {
        Ok(id) => succeeded(INSERTED@ + int_text(id as int)),
        Err(failure) => failed(write_failure(failure, INSERT_FAILED@)),
    }
}

/// The reply to a request to replace a budget line.
pub open spec fn update_budget_reply(outcome: Result<(), Failure>) -> ReplyView<MessageView> {
    match outcome {
        Ok(_) => succeeded(UPDATED@),
        Err(failure) => failed(write_failure(failure, UPDATE_FAILED@)),
    }
}

/// The reply to a request to delete a budget line.
pub open spec fn remove_budget_reply(outcome: Result<(), Failure>) -> ReplyView<MessageView> {
    match outcome {
        Ok(_) => succeeded(DELETED@),
        Err(_) => failed(DELETE_FAILED@),
    }
}

/// The reply to a request for the sum of all prices. Where there is no
/// budget line the store has nothing to add up and returns no number; the
/// sum is then zero.
pub open spec fn amount_reply(outcome: Result<Option<Amount>, Failure>) -> ReplyView<
    BudgetAmountView,
> {
    match outcome {
        Ok(Some(sum)) => Ok((OK, BudgetAmountView { status: SUCCESS@, amount: sum })),
        Ok(None) => Ok((OK, BudgetAmountView { status: SUCCESS@, amount: Amount::of(0, 0) })),
        Err(_) => failed(SUM_FAILED@),
    }
}

/// What a request to create a budget line asks of the store. Where the
/// price has no fixed-point form there is nothing to ask: the conversion
/// has failed.
pub open spec fn budget_creation(price: Option<Amount>, category_id: i32, title: Seq<char>)
    -> Result<StatementView, Failure> {
    match price {
        Some(p) => Ok(budget_insertion(p, category_id, title)),
        None => Err(Failure::Conversion),
    }
}

/// What a request to replace the budget line `id` asks of the store. Where
/// the price has no fixed-point form there is nothing to ask: the
/// conversion has failed.
pub open spec fn budget_update(id: i32, price: Option<Amount>, category_id: i32, title: Seq<char>)
    -> Result<StatementView, Failure> {
    match price {
        Some(p) => Ok(budget_replacement(id, p, category_id, title)),
        None => Err(Failure::Conversion),
    }
}

/// A statement, or the failure that stands in its place, seen through the
/// view of the statement.
pub open spec fn request_view(request: Result<Statement, Failure>) -> Result<
    StatementView,
    Failure,
> {
    match request {
        Ok(statement) => Ok(statement@),
        Err(failure) => Err(failure),
    }
}

/// Answers a request for all categories, given what the store returned.
pub fn get_category_list(outcome: Result<Vec<CategoryRow>, Failure>) -> (reply: Reply<
    CategoryListResponse,
>)
    ensures
        reply_view(reply) == category_list_reply(listed(outcome)),
{
    match outcome {
        Ok(rows) => {
            let ghost all = rows@;
            let mut categories: Vec<Category> = Vec::new();
            for row in it: rows
                invariant
                    it.seq() == all,
                    categories@.len() == it.index(),
                    forall|j: int| 0 <= j < categories@.len() ==> categories@[j]@ == all[j]@,
            {
                categories.push(Category::new(row.id, row.category));
            }
            let response = CategoryListResponse {
                status: String::from_str(SUCCESS),
                size: categories.len(),
                categories,
            };
            assert(response@.categories =~= views(all));
            Ok((OK, response))
        },
        Err(_) => Err(failure(FETCH_FAILED)),
    }
}

/// Turns a request to create a category into the statement that stores it.
pub fn create_category_request(body: &NewCategoryRequest) -> (statement: Statement)
    ensures
        statement@ == category_insertion(body.category@),
{
    insert_category(body.category.as_str())
}

/// Answers a request to create a category, given the number of rows that
/// the store reported as written.
pub fn create_category(outcome: Result<u64, Failure>) -> (reply: Reply<GeneralResponse>)
    ensures
        reply_view(reply) == create_category_reply(outcome),
{
    match outcome {
        Ok(count) => {
            let number: String = u64_text(count);
            Ok(success(String::from_str(INSERTED).concat(number.as_str())))
        },
        Err(_) => Err(failure(INSERT_FAILED)),
    }
}

/// Answers a request for all budget lines, given what the store returned.
pub fn get_budget_list(outcome: Result<Vec<BudgetRow>, Failure>) -> (reply: Reply<
    BudgetListResponse,
>)
    ensures
        reply_view(reply) == budget_list_reply(listed(outcome)),
{
    match outcome {
        Ok(rows) => {
            let ghost all = rows@;
            let mut budgets: Vec<Budget> = Vec::new();
            for row in it: rows
                invariant
                    it.seq() == all,
                    budgets@.len() == it.index(),
                    forall|j: int| 0 <= j < budgets@.len() ==> budgets@[j]@ == all[j]@,
            {
                budgets.push(
                    Budget {
                        id: row.id,
                        price: row.price,
                        categoryId: row.categoryId,
                        title: row.title,
                    },
                );
            }
            let response = BudgetListResponse {
                status: String::from_str(SUCCESS),
                size: budgets.len(),
                budgets,
            };
            assert(response@.budgets =~= views(all));
            Ok((OK, response))
        },
        Err(_) => Err(failure(FETCH_FAILED)),
    }
}

/// Answers a request for one budget line, given what its lookup gave.
pub fn get_single_budget(outcome: Result<BudgetRow, Failure>) -> (reply: Reply<BudgetResponse>)
    ensures
        reply_view(reply) == single_budget_reply(crate::db::lookup_view(outcome)),
{
    match outcome {
        Ok(row) => {
            let budget = Budget {
                id: row.id,
                price: row.price,
                categoryId: row.categoryId,
                title: row.title,
            };
            Ok((OK, BudgetResponse { status: String::from_str(SUCCESS), data: budget }))
        },
        Err(_) => Err(failure(NO_SUCH_BUDGET)),
    }
}

/// Turns a request to create a budget line into the statement that stores
/// it. With a price that has no fixed-point form the store is not asked:
/// the request has failed already, and [`create_budget`] answers it.
pub fn create_budget_request(body: &BudgetRequest) -> (request: Result<Statement, Failure>)
    ensures
        request_view(request) == budget_creation(body.price, body.categoryId, body.title@),
{
    match body.price {
        Some(price) => Ok(insert_budget(price, body.categoryId, body.title.as_str())),
        None => Err(Failure::Conversion),
    }
}

fn write_failed(failure: Failure, otherwise: &'static str) -> (reply: (u16, ErrorResponse))
    ensures
        (reply.0, reply.1@) == refusal(write_failure(failure, otherwise@)),
{
    match failure {
        Failure::Conversion => crate::response::failure(BAD_INPUT),
        _ => crate::response::failure(otherwise),
    }
}

/// Answers a request to create a budget line, given the id that the store
/// assigned, or what went wrong.
pub fn create_budget(outcome: Result<i32, Failure>) -> (reply: Reply<GeneralResponse>)
    ensures
        reply_view(reply) == create_budget_reply(outcome),
{
    match outcome {
        Ok(id) => {
            let number: String = i32_text(id);
            Ok(success(String::from_str(INSERTED).concat(number.as_str())))
        },
        Err(failure) => Err(write_failed(failure, INSERT_FAILED)),
    }
}

/// Turns a request to replace the budget line `id` into the statement that
/// does so. With a price that has no fixed-point form the store is not
/// asked: the request has failed already, and [`update_budget`] answers it.
pub fn update_budget_request(id: i32, body: &BudgetRequest) -> (request: Result<
    Statement,
    Failure,
>)
    ensures
        request_view(request) == budget_update(id, body.price, body.categoryId, body.title@),
{
    match body.price {
        Some(price) => Ok(
            crate::db::update_budget(id, price, body.categoryId, body.title.as_str()),
        ),
        None => Err(Failure::Conversion),
    }
}

/// Answers a request to replace a budget line. The store does not say
/// whether a line had the id: replacing a line that is not there succeeds
/// and changes nothing.
pub fn update_budget(outcome: Result<(), Failure>) -> (reply: Reply<GeneralResponse>)
    ensures
        reply_view(reply) == update_budget_reply(outcome),
{
    match outcome {
        Ok(_) => Ok(success(String::from_str(UPDATED))),
        Err(failure) => Err(write_failed(failure, UPDATE_FAILED)),
    }
}

/// Answers a request to delete a budget line. The store does not say
/// whether a line had the id: deleting a line that is not there succeeds
/// and changes nothing.
pub fn remove_budget(outcome: Result<(), Failure>) -> (reply: Reply<GeneralResponse>)
    ensures
        reply_view(reply) == remove_budget_reply(outcome),
{
    match outcome {
        Ok(_) => Ok(success(String::from_str(DELETED))),
        Err(_) => Err(failure(DELETE_FAILED)),
    }
}

/// Answers a request for the sum of all prices, given what the store
/// added up: `None` where it had no budget line to add.
pub fn get_amount(outcome: Result<Option<Amount>, Failure>) -> (reply: Reply<BudgetAmountResponse>)
    ensures
        reply_view(reply) == amount_reply(outcome),
{
    match outcome {
        Ok(sum) => {
            let amount = match sum {
                Some(a) => a,
                None => Amount::zero(),
            };
            Ok((OK, BudgetAmountResponse { status: String::from_str(SUCCESS), amount }))
        },
        Err(_) => Err(failure(SUM_FAILED)),
    }
}

/// A category that the store has taken comes back under the label that was
/// sent. Let the store keep the row that the insertion of `label` asks for,
/// under an id that no earlier row has. The list of all categories is then
/// the list of the earlier ones with one more entry at its end; that entry
/// has the label and the new id, and no other entry has that id.
pub proof fn lemma_category_round_trip(label: Seq<char>, id: i32, earlier: Seq<CategoryView>)
    requires
        forall|j: int| 0 <= j < earlier.len() ==> earlier[j].id != Some(id),
    ensures
        stored_category(category_insertion(label), id) == Some(
            CategoryView { id: Some(id), category: label },
        ),
        category_list_reply(Ok(earlier.push(stored_category(category_insertion(label), id)->0)))
            == Ok::<(u16, CategoryListView), (u16, MessageView)>(
            (
                OK,
                CategoryListView {
                    status: SUCCESS@,
                    size: earlier.len() + 1,
                    categories: earlier.push(CategoryView { id: Some(id), category: label }),
                },
            ),
        ),
        forall|j: int|
            0 <= j <= earlier.len() ==> (#[trigger] earlier.push(
                CategoryView { id: Some(id), category: label },
            )[j].id == Some(id) <==> j == earlier.len()),
{
}

/// A budget line that the store has taken comes back as it was sent. Let
/// the store keep the row that the request asks for, under the id `id`, and
/// return it when the line is looked up. The reply then holds a budget line
/// with that id and with the price, the category and the title of the
/// request.
pub proof fn lemma_budget_round_trip(price: Amount, category_id: i32, title: Seq<char>, id: i32)
    ensures
        budget_creation(Some(price), category_id, title) matches Ok(statement) && stored_budget(
            statement,
            id,
        ) matches Some(row) && single_budget_reply(found(seq![row])) == Ok::<
            (u16, BudgetResponseView),
            (u16, MessageView),
        >(
            (
                OK,
                BudgetResponseView {
                    status: SUCCESS@,
                    data: BudgetView { id, price, categoryId: category_id, title: Some(title) },
                },
            ),
        ),
{
}

/// A budget line that has been replaced comes back with what replaced it.
/// Let the store put in the place of `row` what the request asks for, and
/// return it when the line is looked up. The reply then holds a budget line
/// with the id of `row` and with the price, the category and the title of
/// the request.
pub proof fn lemma_replacement_round_trip(
    row: BudgetView,
    price: Amount,
    category_id: i32,
    title: Seq<char>,
)
    ensures
        budget_update(row.id, Some(price), category_id, title) matches Ok(statement)
            && replaced_budget(statement, row) matches Some(replaced) && single_budget_reply(
            found(seq![replaced]),
        ) == Ok::<(u16, BudgetResponseView), (u16, MessageView)>(
            (
                OK,
                BudgetResponseView {
                    status: SUCCESS@,
                    data: BudgetView {
                        id: row.id,
                        price,
                        categoryId: category_id,
                        title: Some(title),
                    },
                },
            ),
        ),
{
}

/// A request whose price has no fixed-point form never reaches the store:
/// it fails as a conversion, and is answered as bad input, which is not the
/// answer of a store that could not insert or update.
pub proof fn lemma_bad_price_is_bad_input(id: i32, category_id: i32, title: Seq<char>)
    ensures
        budget_creation(None, category_id, title) == Err::<StatementView, Failure>(
            Failure::Conversion,
        ),
        budget_update(id, None, category_id, title) == Err::<StatementView, Failure>(
            Failure::Conversion,
        ),
        create_budget_reply(Err(Failure::Conversion)) == failed::<MessageView>(BAD_INPUT@),
        update_budget_reply(Err(Failure::Conversion)) == failed::<MessageView>(BAD_INPUT@),
        BAD_INPUT@ != INSERT_FAILED@,
        BAD_INPUT@ != UPDATE_FAILED@,
{
    reveal_strlit("bad input");
    reveal_strlit("fail to insert data");
    reveal_strlit("fail to update data");
    assert(BAD_INPUT@.len() != INSERT_FAILED@.len());
    assert(BAD_INPUT@.len() != UPDATE_FAILED@.len());
}

/// A lookup that finds no row is answered with the failure envelope and the
/// status code of a failure; one that finds a row is answered with that
/// row. So a budget line that was never stored, or was deleted, is reported
/// as not found.
pub proof fn lemma_missing_budget_is_not_found(rows: Seq<BudgetView>)
    ensures
        rows.len() == 0 ==> found(rows) == Err::<BudgetView, Failure>(Failure::NotFound),
        rows.len() == 0 ==> single_budget_reply(found(rows)) == Err::<
            (u16, BudgetResponseView),
            (u16, MessageView),
        >((NOT_FOUND, MessageView { status: FAIL@, message: NO_SUCH_BUDGET@ })),
        rows.len() > 0 ==> single_budget_reply(found(rows)) == Ok::<
            (u16, BudgetResponseView),
            (u16, MessageView),
        >((OK, BudgetResponseView { status: SUCCESS@, data: rows[0] })),
{
}

/// The sum of no prices is zero, and asking for it is no failure. Any other
/// sum reaches the caller as the store returned it.
pub proof fn lemma_sum_of_nothing_is_zero(sum: Amount)
    ensures
        amount_reply(Ok(None)) matches Ok((code, body)) && code == OK && body.status == SUCCESS@
            && body.amount.digits() == 0 && body.amount.places() == 0,
        amount_reply(Ok(Some(sum))) == Ok::<(u16, BudgetAmountView), (u16, MessageView)>(
            (OK, BudgetAmountView { status: SUCCESS@, amount: sum }),
        ),
{
    Amount::lemma_of(0, 0);
}

/// Whatever made an operation fail, the caller gets a failure envelope with
/// the status code of a failure and the message of the operation. Nothing of
/// the cause is in it, and a failure is never answered as a success.
pub proof fn lemma_failures_are_enveloped(failure: Failure)
    ensures
        category_list_reply(Err(failure)) == failed::<CategoryListView>(FETCH_FAILED@),
        create_category_reply(Err(failure)) == failed::<MessageView>(INSERT_FAILED@),
        budget_list_reply(Err(failure)) == failed::<BudgetListView>(FETCH_FAILED@),
        single_budget_reply(Err(failure)) == failed::<BudgetResponseView>(NO_SUCH_BUDGET@),
        create_budget_reply(Err(failure)) == failed::<MessageView>(
            if failure == Failure::Conversion {
                BAD_INPUT@
            } else {
                INSERT_FAILED@
            },
        ),
        update_budget_reply(Err(failure)) == failed::<MessageView>(
            if failure == Failure::Conversion {
                BAD_INPUT@
            } else {
                UPDATE_FAILED@
            },
        ),
        remove_budget_reply(Err(failure)) == failed::<MessageView>(DELETE_FAILED@),
        amount_reply(Err(failure)) == failed::<BudgetAmountView>(SUM_FAILED@),
        forall|message: Seq<char>| #[trigger]
            failed::<MessageView>(message) matches Err((code, body)) && code == NOT_FOUND
                && body.status == FAIL@ && body.message == message,
{
}

} // verus!
