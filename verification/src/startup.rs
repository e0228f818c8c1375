//! Getting the schema in place before the first request is served.
//!
//! Two tables are needed, and the table of budget lines refers to the table
//! of categories, so the categories come first. Each table is created only
//! if it is not there yet, which makes the whole sequence safe to repeat on
//! every start. A table that cannot be created ends the start: no request
//! is served against a schema that is not there.
//!
//! The program around this crate drives the sequence: it asks for the
//! statement that is due, sends it to the store, and reports how that went.

use crate::db::{budget_table, category_table, create_budget_table, create_category_table};
use crate::db::{Failure, Statement, StatementView, CREATE_IF_ABSENT};
use vstd::prelude::*;

verus! {

/// How far the start has come.
#[derive(Clone, Copy, Debug, PartialEq, Eq, Structural)]
pub enum Startup {
    /// No table has been asked for yet.
    Begun,
    /// The table of categories is in place.
    CategoriesReady,
    /// Both tables are in place: requests can be served.
    Ready,
    /// A table could not be created: the process must not go on.
    Failed,
}

/// The view of a statement that may be absent.
pub open spec fn due_view(statement: Option<Statement>) -> Option<StatementView> {
    match statement {
        Some(s) => Some(s@),
        None => None,
    }
}

impl Startup {
    /// The statement that is due in this state, if any.
    pub open spec fn due(self) -> Option<StatementView> {
        match self {
            Startup::Begun => Some(category_table()),
            Startup::CategoriesReady => Some(budget_table()),
            Startup::Ready => None,
            Startup::Failed => None,
        }
    }

    /// The state that follows once the statement that was due has been sent
    /// and `outcome` came back. A state in which nothing is due does not
    /// change any more.
    pub open spec fn after(self, outcome: Result<(), Failure>) -> Startup {
        match self {
            Startup::Begun => if outcome is Ok {
                Startup::CategoriesReady
            } else {
                Startup::Failed
            },
            Startup::CategoriesReady => if outcome is Ok {
                Startup::Ready
            } else {
                Startup::Failed
            },
            Startup::Ready => Startup::Ready,
            Startup::Failed => Startup::Failed,
        }
    }

    /// The state reached from this one after the given outcomes, in order.
    pub open spec fn after_all(self, outcomes: Seq<Result<(), Failure>>) -> Startup
        decreases outcomes.len(),
    {
        if outcomes.len() == 0 {
            self
        } else {
            self.after(outcomes[0]).after_all(outcomes.drop_first())
        }
    }

    /// The state in which every start begins.
    pub fn begin() -> (state: Startup)
        ensures
            state == Startup::Begun,
    {
        Startup::Begun
    }

    /// The statement to send next, or `None` where the start is over.
    pub fn statement(&self) -> (statement: Option<Statement>)
        ensures
            due_view(statement) == self.due(),
    {
        match self {
            Startup::Begun => Some(create_category_table()),
            Startup::CategoriesReady => Some(create_budget_table()),
            Startup::Ready => None,
            Startup::Failed => None,
        }
    }

    /// Takes note of how the statement that was due went.
    pub fn advance(self, outcome: Result<(), Failure>) -> (next: Startup)
        ensures
            next == self.after(outcome),
    {
        match self {
            Startup::Begun => match outcome {
                Ok(_) => Startup::CategoriesReady,
                Err(_) => Startup::Failed,
            },
            Startup::CategoriesReady => match outcome {
                Ok(_) => Startup::Ready,
                Err(_) => Startup::Failed,
            },
            Startup::Ready => Startup::Ready,
            Startup::Failed => Startup::Failed,
        }
    }

    /// Whether requests can be served.
    pub fn is_ready(&self) -> (ready: bool)
        ensures
            ready == (*self == Startup::Ready),
    {
        match self {
            Startup::Ready => true,
            _ => false,
        }
    }

    /// Whether the start has failed for good.
    pub fn has_failed(&self) -> (failed: bool)
        ensures
            failed == (*self == Startup::Failed),
    {
        match self {
            Startup::Failed => true,
            _ => false,
        }
    }

    /// A start that is over stays as it ended, whatever is reported to it.
    pub proof fn lemma_over_is_final(self, outcomes: Seq<Result<(), Failure>>)
        requires
            self.due() is None,
        ensures
            self.after_all(outcomes) == self,
        decreases outcomes.len(),
    {
        if outcomes.len() > 0 {
            self.after(outcomes[0]).lemma_over_is_final(outcomes.drop_first());
        }
    }

    /// The tables are asked for in their order, categories first, and
    /// requests are served exactly when both were created: the start is
    /// ready after some outcomes if and only if there are at least two and
    /// the first two are successes. One failure among the first two ends the
    /// start for good.
    pub proof fn lemma_ready_needs_both_tables(outcomes: Seq<Result<(), Failure>>)
        ensures
            Startup::Begun.due() == Some(category_table()),
            Startup::Begun.after(Ok(())).due() == Some(budget_table()),
            Startup::Begun.after_all(outcomes) == Startup::Ready <==> outcomes.len() >= 2
                && outcomes[0] is Ok && outcomes[1] is Ok,
            Startup::Begun.after_all(outcomes) == Startup::Failed <==> (outcomes.len() >= 1
                && outcomes[0] is Err) || (outcomes.len() >= 2 && outcomes[1] is Err),
    {
        if outcomes.len() >= 1 {
            let first = Startup::Begun.after(outcomes[0]);
            let rest = outcomes.drop_first();
            assert(Startup::Begun.after_all(outcomes) == first.after_all(rest));
            if rest.len() >= 1 {
                let second = first.after(rest[0]);
                assert(rest[0] == outcomes[1]);
                assert(first.after_all(rest) == second.after_all(rest.drop_first()));
                second.lemma_over_is_final(rest.drop_first());
            } else {
                assert(first.after_all(rest) == first);
            }
        }
    }

    /// Both statements of the start begin with the words by which the store
    /// creates a table only where it is absent, and neither carries a
    /// parameter, so every start sends the same two texts. That the store
    /// then leaves the rows of an earlier start alone is the store's doing.
    pub proof fn lemma_tables_created_if_absent()
        ensures
            CREATE_IF_ABSENT@.is_prefix_of(category_table().text),
            CREATE_IF_ABSENT@.is_prefix_of(budget_table().text),
            category_table().params.len() == 0,
            budget_table().params.len() == 0,
    {
        reveal_strlit("CREATE TABLE IF NOT EXISTS ");
        reveal_strlit(
            "CREATE TABLE IF NOT EXISTS Category (id SERIAL PRIMARY KEY, category TEXT NOT NULL)",
        );
        reveal_strlit(
            "CREATE TABLE IF NOT EXISTS Budget (id SERIAL PRIMARY KEY, price decimal NOT NULL, title TEXT, categoryId integer REFERENCES Category)",
        );
        assert(CREATE_IF_ABSENT@ =~= category_table().text.subrange(0, 27));
        assert(CREATE_IF_ABSENT@ =~= budget_table().text.subrange(0, 27));
    }
}

} // verus!
