use budget_service::amount::Amount;
use budget_service::db::{
    classify, create_budget_table, create_category_table, delete_budget, insert_budget,
    insert_category, select_budgets, select_categories, select_single_budget,
    select_sum_of_price, single_budget, update_budget, BudgetRow, Failure, Param, Statement,
};

fn price() -> Amount {
    Amount::new(1250, 2).unwrap()
}

fn row(id: i32, title: &str) -> BudgetRow {
    BudgetRow { id, price: price(), categoryId: 1, title: Some(title.to_string()) }
}

#[test]
fn schema_statements_create_only_what_is_absent() {
    let category = create_category_table();
    assert_eq!(
        category.text,
        "CREATE TABLE IF NOT EXISTS Category (id SERIAL PRIMARY KEY, category TEXT NOT NULL)"
    );
    assert!(category.params.is_empty());
    let budget = create_budget_table();
    assert_eq!(
        budget.text,
        "CREATE TABLE IF NOT EXISTS Budget (id SERIAL PRIMARY KEY, price decimal NOT NULL, title TEXT, categoryId integer REFERENCES Category)"
    );
    assert!(budget.params.is_empty());
}

#[test]
fn listings_take_no_parameter() {
    assert_eq!(
        select_categories(),
        Statement { text: "SELECT * FROM Category", params: vec![] }
    );
    assert_eq!(select_budgets(), Statement { text: "SELECT * FROM Budget", params: vec![] });
    assert_eq!(
        select_sum_of_price(),
        Statement { text: "SELECT SUM(price) FROM Budget", params: vec![] }
    );
}

#[test]
fn category_insertion_carries_the_label_as_its_parameter() {
    assert_eq!(
        insert_category("Food"),
        Statement {
            text: "INSERT INTO Category (category) VALUES ($1)",
            params: vec![Param::Text("Food".to_string())],
        }
    );
}

#[test]
fn hostile_label_stays_out_of_the_statement_text() {
    let hostile = "x'); DROP TABLE Budget; --";
    let statement = insert_category(hostile);
    assert_eq!(statement.text, insert_category("Food").text);
    assert_eq!(statement.params, vec![Param::Text(hostile.to_string())]);
}

#[test]
fn hostile_title_stays_out_of_the_statement_text() {
    let hostile = "'; DELETE FROM Category; --";
    let inserted = insert_budget(price(), 1, hostile);
    assert_eq!(inserted.text, insert_budget(price(), 2, "Lunch").text);
    assert_eq!(inserted.params[2], Param::Text(hostile.to_string()));
    let updated = update_budget(1, price(), 1, hostile);
    assert_eq!(updated.text, update_budget(9, price(), 2, "Lunch").text);
    assert_eq!(updated.params[2], Param::Text(hostile.to_string()));
}

#[test]
fn budget_lookup_carries_the_id() {
    assert_eq!(
        select_single_budget(7),
        Statement { text: "SELECT * FROM Budget WHERE id = $1", params: vec![Param::Int(7)] }
    );
}

#[test]
fn budget_insertion_carries_price_category_and_title_in_column_order() {
    assert_eq!(
        insert_budget(price(), 3, "Lunch"),
        Statement {
            text: "INSERT INTO Budget (price, categoryId, title) VALUES ($1, $2, $3) RETURNING id",
            params: vec![
                Param::Decimal(price()),
                Param::Int(3),
                Param::Text("Lunch".to_string()),
            ],
        }
    );
}

#[test]
fn budget_replacement_carries_the_id_last() {
    assert_eq!(
        update_budget(8, price(), 3, "Dinner"),
        Statement {
            text: "UPDATE Budget SET price = $1, categoryId = $2, title = $3 WHERE id = $4",
            params: vec![
                Param::Decimal(price()),
                Param::Int(3),
                Param::Text("Dinner".to_string()),
                Param::Int(8),
            ],
        }
    );
}

#[test]
fn budget_removal_carries_the_id() {
    assert_eq!(
        delete_budget(-4),
        Statement { text: "DELETE FROM Budget WHERE id = $1", params: vec![Param::Int(-4)] }
    );
}

#[test]
fn empty_title_and_label_are_carried_as_they_are() {
    assert_eq!(insert_category("").params, vec![Param::Text(String::new())]);
    assert_eq!(insert_budget(price(), 0, "").params[2], Param::Text(String::new()));
}

#[test]
fn lookup_without_rows_is_not_found() {
    assert_eq!(single_budget(vec![]), Err(Failure::NotFound));
}

#[test]
fn lookup_with_one_row_gives_that_row() {
    assert_eq!(single_budget(vec![row(1, "Lunch")]), Ok(row(1, "Lunch")));
}

#[test]
fn lookup_with_several_rows_gives_the_first() {
    assert_eq!(single_budget(vec![row(5, "a"), row(6, "b"), row(7, "c")]), Ok(row(5, "a")));
}

#[test]
fn state_codes_of_class_twenty_three_are_constraint_violations() {
    assert_eq!(classify(Some("23503")), Failure::ConstraintViolation);
    assert_eq!(classify(Some("23502")), Failure::ConstraintViolation);
    assert_eq!(classify(Some("23505")), Failure::ConstraintViolation);
    assert_eq!(classify(Some("23")), Failure::ConstraintViolation);
}

#[test]
fn other_state_codes_count_as_store_unavailable() {
    assert_eq!(classify(Some("08006")), Failure::StoreUnavailable);
    assert_eq!(classify(Some("42P01")), Failure::StoreUnavailable);
    assert_eq!(classify(Some("32000")), Failure::StoreUnavailable);
    assert_eq!(classify(Some("22003")), Failure::StoreUnavailable);
    assert_eq!(classify(Some("2")), Failure::StoreUnavailable);
    assert_eq!(classify(Some("")), Failure::StoreUnavailable);
}

#[test]
fn failure_without_a_state_code_counts_as_store_unavailable() {
    assert_eq!(classify(None), Failure::StoreUnavailable);
}
