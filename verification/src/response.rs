//! The JSON envelopes that answer a request, and the status codes that go
//! with them.
//!
//! Every answer carries a `status` field, `"success"` or `"fail"`. A failure
//! carries nothing else but a message; a success carries a message, one
//! record, a list with its length, or an amount.

use crate::amount::Amount;
use crate::model::{views, Budget, BudgetView, Category, CategoryView};
use vstd::prelude::*;
use vstd::string::StringExecFns;

verus! {

/// The status code sent with every success envelope.
pub const OK: u16 = 200;

/// The status code sent with every failure envelope.
pub const NOT_FOUND: u16 = 404;

/// The `status` field of a success envelope.
pub const SUCCESS: &'static str = "success";

/// The `status` field of a failure envelope.
pub const FAIL: &'static str = "fail";

/// What the caller gets: a status code with a success envelope, or a status
/// code with a failure envelope.
pub type Reply<T> = Result<(u16, T), (u16, ErrorResponse)>;

/// A [`Reply`], as plain mathematical values.
pub type ReplyView<V> = Result<(u16, V), (u16, MessageView)>;

/// The envelope of every failure.
#[derive(Clone, Debug, PartialEq, Eq)]
pub struct ErrorResponse {
    pub status: String,
    pub message: String,
}

/// The envelope of a success that has only a message to give.
#[derive(Clone, Debug, PartialEq, Eq)]
pub struct GeneralResponse {
    pub status: String,
    pub message: String,
}

/// What an [`ErrorResponse`] or a [`GeneralResponse`] holds.
pub struct MessageView {
    pub status: Seq<char>,
    pub message: Seq<char>,
}

impl View for ErrorResponse {
    type V = MessageView;

    open spec fn view(&self) -> MessageView {
        MessageView { status: self.status@, message: self.message@ }
    }
}

impl View for GeneralResponse {
    type V = MessageView;

    open spec fn view(&self) -> MessageView {
        MessageView { status: self.status@, message: self.message@ }
    }
}

/// The envelope of a list of categories.
#[derive(Clone, Debug, PartialEq, Eq)]
pub struct CategoryListResponse {
    pub status: String,
    pub size: usize,
    pub categories: Vec<Category>,
}

/// What a [`CategoryListResponse`] holds.
pub struct CategoryListView {
    pub status: Seq<char>,
    pub size: nat,
    pub categories: Seq<CategoryView>,
}

impl View for CategoryListResponse {
    type V = CategoryListView;

    open spec fn view(&self) -> CategoryListView {
        CategoryListView {
            status: self.status@,
            size: self.size as nat,
            categories: views(self.categories@),
        }
    }
}

/// The envelope of a list of budget lines.
#[derive(Clone, Debug, PartialEq, Eq)]
pub struct BudgetListResponse {
    pub status: String,
    pub size: usize,
    pub budgets: Vec<Budget>,
}

/// What a [`BudgetListResponse`] holds.
pub struct BudgetListView {
    pub status: Seq<char>,
    pub size: nat,
    pub budgets: Seq<BudgetView>,
}

impl View for BudgetListResponse {
    type V = BudgetListView;

    open spec fn view(&self) -> BudgetListView {
        BudgetListView {
            status: self.status@,
            size: self.size as nat,
            budgets: views(self.budgets@),
        }
    }
}

/// The envelope of a single budget line.
#[derive(Clone, Debug, PartialEq, Eq)]
pub struct BudgetResponse {
    pub status: String,
    pub data: Budget,
}

/// What a [`BudgetResponse`] holds.
pub struct BudgetResponseView {
    pub status: Seq<char>,
    pub data: BudgetView,
}

impl View for BudgetResponse {
    type V = BudgetResponseView;

    open spec fn view(&self) -> BudgetResponseView {
        BudgetResponseView { status: self.status@, data: self.data@ }
    }
}

/// The envelope of the sum of all prices.
#[derive(Clone, Debug, PartialEq, Eq)]
pub struct BudgetAmountResponse {
    pub status: String,
    pub amount: Amount,
}

/// What a [`BudgetAmountResponse`] holds.
pub struct BudgetAmountView {
    pub status: Seq<char>,
    pub amount: Amount,
}

impl View for BudgetAmountResponse {
    type V = BudgetAmountView;

    open spec fn view(&self) -> BudgetAmountView {
        BudgetAmountView { status: self.status@, amount: self.amount }
    }
}

/// A [`Reply`] seen through the views of its envelopes.
pub open spec fn reply_view<T: View>(reply: Reply<T>) -> ReplyView<T::V> {
    match reply {
        Ok((code, body)) => Ok((code, body@)),
        Err((code, body)) => Err((code, body@)),
    }
}

/// The failure envelope that carries `message`, with its status code.
pub open spec fn refusal(message: Seq<char>) -> (u16, MessageView) {
    (NOT_FOUND, MessageView { status: FAIL@, message })
}

/// The failure that carries `message`.
pub open spec fn failed<V>(message: Seq<char>) -> ReplyView<V> {
    Err(refusal(message))
}

/// The success that has only `message` to give.
pub open spec fn succeeded(message: Seq<char>) -> ReplyView<MessageView> {
    Ok((OK, MessageView { status: SUCCESS@, message }))
}

/// Builds the failure envelope that carries `message`, with its status code.
pub fn failure(message: &str) -> (r: (u16, ErrorResponse))
    ensures
        (r.0, r.1@) == refusal(message@),
{
    (NOT_FOUND, ErrorResponse { status: String::from_str(FAIL), message: String::from_str(message) })
}

/// Builds the success envelope that carries `message`, with its status code.
pub fn success(message: String) -> (r: (u16, GeneralResponse))
    ensures
        r.0 == OK,
        r.1@ == (MessageView { status: SUCCESS@, message: message@ }),
{
    (OK, GeneralResponse { status: String::from_str(SUCCESS), message })
}

} // verus!
