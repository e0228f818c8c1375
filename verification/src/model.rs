//! The records of the service and the bodies of the requests that create
//! or replace them.

use crate::amount::Amount;
use vstd::prelude::*;

verus! {

/// The views of the items of a sequence, in the same order.
pub open spec fn views<T: View>(items: Seq<T>) -> Seq<T::V> {
    Seq::new(items.len(), |i: int| items[i]@)
}

/// The view of a text that may be absent.
pub open spec fn text_view(text: Option<String>) -> Option<Seq<char>> {
    match text {
        Some(t) => Some(t@),
        None => None,
    }
}

/// A label under which budget lines are grouped.
#[derive(Clone, Debug, PartialEq, Eq)]
pub struct Category {
    /// Assigned by the store; absent only on a category not yet stored.
    pub id: Option<i32>,
    pub category: String,
}

/// What a [`Category`] holds, as plain mathematical values.
pub struct CategoryView {
    pub id: Option<i32>,
    pub category: Seq<char>,
}

impl View for Category {
    type V = CategoryView;

    open spec fn view(&self) -> CategoryView {
        CategoryView { id: self.id, category: self.category@ }
    }
}

impl Category {
    /// A stored category: the id the store gave it, and its label.
    pub fn new(id: i32, category: String) -> (c: Category)
        ensures
            c@ == (CategoryView { id: Some(id), category: category@ }),
    {
        Category { id: Some(id), category }
    }
}

/// The body of a request to create a category. The id is the store's to
/// give, so the request has none.
#[derive(Clone, Debug, PartialEq, Eq)]
pub struct NewCategoryRequest {
    pub category: String,
}

/// One budget line.
#[allow(non_snake_case)]
#[derive(Clone, Debug, PartialEq, Eq)]
pub struct Budget {
    /// Assigned by the store.
    pub id: i32,
    pub price: Amount,
    /// The id of the category this line belongs to.
    pub categoryId: i32,
    pub title: Option<String>,
}

/// What a [`Budget`] holds, as plain mathematical values.
#[allow(non_snake_case)]
pub struct BudgetView {
    pub id: i32,
    pub price: Amount,
    pub categoryId: i32,
    pub title: Option<Seq<char>>,
}

impl View for Budget {
    type V = BudgetView;

    open spec fn view(&self) -> BudgetView {
        BudgetView {
            id: self.id,
            price: self.price,
            categoryId: self.categoryId,
            title: text_view(self.title),
        }
    }
}

impl Budget {
    /// A budget line with a title.
    pub fn new(id: i32, price: Amount, category_id: i32, title: String) -> (b: Budget)
        ensures
            b@ == (BudgetView { id, price, categoryId: category_id, title: Some(title@) }),
    {
        Budget { id, price, categoryId: category_id, title: Some(title) }
    }
}

/// The body of a request to create or replace a budget line.
#[allow(non_snake_case)]
#[derive(Clone, Debug, PartialEq, Eq)]
pub struct BudgetRequest {
    /// The price that was sent, in fixed-point form; `None` where the number
    /// sent has no such form (it is not finite, or too large to hold).
    pub price: Option<Amount>,
    pub categoryId: i32,
    pub title: String,
}

} // verus!
