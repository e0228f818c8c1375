use budget_service::amount::Amount;
use budget_service::db::{
    insert_budget, update_budget as replacement, BudgetRow, CategoryRow, Failure,
};
use budget_service::handler::{
    create_budget, create_budget_request, create_category, create_category_request, get_amount,
    get_budget_list, get_category_list, get_single_budget, remove_budget, update_budget,
    update_budget_request,
};
use budget_service::model::{Budget, BudgetRequest, Category, NewCategoryRequest};
use budget_service::response::{
    failure, success, BudgetAmountResponse, BudgetListResponse, BudgetResponse,
    CategoryListResponse, ErrorResponse, GeneralResponse,
};

fn price(mantissa: i128, scale: u32) -> Amount {
    Amount::new(mantissa, scale).unwrap()
}

fn failed(message: &str) -> (u16, ErrorResponse) {
    (404, ErrorResponse { status: "fail".to_string(), message: message.to_string() })
}

fn done(message: &str) -> (u16, GeneralResponse) {
    (200, GeneralResponse { status: "success".to_string(), message: message.to_string() })
}

fn every_failure() -> [Failure; 4] {
    [
        Failure::NotFound,
        Failure::ConstraintViolation,
        Failure::Conversion,
        Failure::StoreUnavailable,
    ]
}

#[test]
fn envelopes_are_built_with_their_status_and_code() {
    assert_eq!(failure("nope"), failed("nope"));
    assert_eq!(success("fine".to_string()), done("fine"));
}

#[test]
fn category_list_holds_every_row_in_order_with_their_number() {
    let rows = vec![
        CategoryRow { id: 2, category: "Rent".to_string() },
        CategoryRow { id: 1, category: "Food".to_string() },
        CategoryRow { id: 3, category: "Food".to_string() },
    ];
    let expected = CategoryListResponse {
        status: "success".to_string(),
        size: 3,
        categories: vec![
            Category { id: Some(2), category: "Rent".to_string() },
            Category { id: Some(1), category: "Food".to_string() },
            Category { id: Some(3), category: "Food".to_string() },
        ],
    };
    assert_eq!(get_category_list(Ok(rows)), Ok((200, expected)));
}

#[test]
fn empty_category_list_is_a_success_of_size_zero() {
    let expected =
        CategoryListResponse { status: "success".to_string(), size: 0, categories: vec![] };
    assert_eq!(get_category_list(Ok(vec![])), Ok((200, expected)));
}

#[test]
fn category_list_fails_with_its_message_whatever_the_cause() {
    for cause in every_failure() {
        assert_eq!(get_category_list(Err(cause)), Err(failed("fail to fetch data")));
    }
}

#[test]
fn category_request_becomes_an_insertion_of_its_label() {
    let body = NewCategoryRequest { category: "Food".to_string() };
    let statement = create_category_request(&body);
    assert_eq!(statement, budget_service::db::insert_category("Food"));
}

#[test]
fn created_category_is_reported_with_the_number_the_store_gave() {
    assert_eq!(create_category(Ok(1)), Ok(done("New record inserted. Id: 1")));
    assert_eq!(create_category(Ok(0)), Ok(done("New record inserted. Id: 0")));
    assert_eq!(
        create_category(Ok(u64::MAX)),
        Ok(done("New record inserted. Id: 18446744073709551615"))
    );
}

#[test]
fn category_creation_fails_with_its_message_whatever_the_cause() {
    for cause in every_failure() {
        assert_eq!(create_category(Err(cause)), Err(failed("fail to insert data")));
    }
}

#[test]
fn budget_list_holds_every_row_in_order_with_their_number() {
    let rows = vec![
        BudgetRow { id: 4, price: price(1250, 2), categoryId: 1, title: Some("Lunch".to_string()) },
        BudgetRow { id: 9, price: price(-3, 0), categoryId: 2, title: None },
    ];
    let expected = BudgetListResponse {
        status: "success".to_string(),
        size: 2,
        budgets: vec![
            Budget::new(4, price(1250, 2), 1, "Lunch".to_string()),
            Budget { id: 9, price: price(-3, 0), categoryId: 2, title: None },
        ],
    };
    assert_eq!(get_budget_list(Ok(rows)), Ok((200, expected)));
}

#[test]
fn empty_budget_list_is_a_success_of_size_zero() {
    let expected = BudgetListResponse { status: "success".to_string(), size: 0, budgets: vec![] };
    assert_eq!(get_budget_list(Ok(vec![])), Ok((200, expected)));
}

#[test]
fn budget_list_fails_with_its_message_whatever_the_cause() {
    for cause in every_failure() {
        assert_eq!(get_budget_list(Err(cause)), Err(failed("fail to fetch data")));
    }
}

#[test]
fn single_budget_is_returned_as_the_row_holds_it() {
    let row =
        BudgetRow { id: 1, price: price(1250, 2), categoryId: 1, title: Some("Lunch".to_string()) };
    let expected = BudgetResponse {
        status: "success".to_string(),
        data: Budget {
            id: 1,
            price: price(1250, 2),
            categoryId: 1,
            title: Some("Lunch".to_string()),
        },
    };
    assert_eq!(get_single_budget(Ok(row)), Ok((200, expected)));
}

#[test]
fn single_budget_without_a_title_keeps_it_absent() {
    let row = BudgetRow { id: 2, price: price(0, 0), categoryId: 5, title: None };
    let reply = get_single_budget(Ok(row)).unwrap();
    assert_eq!(reply.1.data.title, None);
    assert_eq!(reply.1.data.categoryId, 5);
}

#[test]
fn missing_budget_is_a_failure_with_the_code_of_not_found() {
    assert_eq!(get_single_budget(Err(Failure::NotFound)), Err(failed("Data no found")));
    for cause in every_failure() {
        assert_eq!(get_single_budget(Err(cause)), Err(failed("Data no found")));
    }
}

#[test]
fn budget_request_becomes_an_insertion_of_what_it_holds() {
    let body =
        BudgetRequest { price: Some(price(1250, 2)), categoryId: 1, title: "Lunch".to_string() };
    assert_eq!(create_budget_request(&body), Ok(insert_budget(price(1250, 2), 1, "Lunch")));
}

#[test]
fn budget_request_without_a_price_fails_as_a_conversion() {
    let body = BudgetRequest { price: None, categoryId: 1, title: "Lunch".to_string() };
    assert_eq!(create_budget_request(&body), Err(Failure::Conversion));
    assert_eq!(update_budget_request(1, &body), Err(Failure::Conversion));
}

#[test]
fn created_budget_is_reported_with_its_id() {
    assert_eq!(create_budget(Ok(1)), Ok(done("New record inserted. Id: 1")));
    assert_eq!(create_budget(Ok(1203)), Ok(done("New record inserted. Id: 1203")));
    assert_eq!(create_budget(Ok(-7)), Ok(done("New record inserted. Id: -7")));
}

#[test]
fn failed_conversion_is_bad_input_and_not_a_failed_insertion() {
    assert_eq!(create_budget(Err(Failure::Conversion)), Err(failed("bad input")));
    assert_eq!(update_budget(Err(Failure::Conversion)), Err(failed("bad input")));
}

#[test]
fn refused_insertion_is_a_failed_insertion() {
    assert_eq!(
        create_budget(Err(Failure::ConstraintViolation)),
        Err(failed("fail to insert data"))
    );
    assert_eq!(create_budget(Err(Failure::StoreUnavailable)), Err(failed("fail to insert data")));
    assert_eq!(create_budget(Err(Failure::NotFound)), Err(failed("fail to insert data")));
}

#[test]
fn update_request_becomes_a_replacement_of_what_it_holds() {
    let body =
        BudgetRequest { price: Some(price(999, 1)), categoryId: 2, title: "Dinner".to_string() };
    assert_eq!(update_budget_request(8, &body), Ok(replacement(8, price(999, 1), 2, "Dinner")));
}

#[test]
fn update_succeeds_whether_or_not_a_line_had_the_id() {
    assert_eq!(update_budget(Ok(())), Ok(done("Record update.")));
}

#[test]
fn update_fails_with_its_message() {
    assert_eq!(
        update_budget(Err(Failure::ConstraintViolation)),
        Err(failed("fail to update data"))
    );
    assert_eq!(update_budget(Err(Failure::StoreUnavailable)), Err(failed("fail to update data")));
    assert_eq!(update_budget(Err(Failure::NotFound)), Err(failed("fail to update data")));
}

#[test]
fn removal_succeeds_whether_or_not_a_line_had_the_id() {
    assert_eq!(remove_budget(Ok(())), Ok(done("Record deleted.")));
}

#[test]
fn removal_fails_with_its_message_whatever_the_cause() {
    for cause in every_failure() {
        assert_eq!(remove_budget(Err(cause)), Err(failed("fail to delete data")));
    }
}

#[test]
fn sum_reaches_the_caller_as_the_store_gave_it() {
    let expected =
        BudgetAmountResponse { status: "success".to_string(), amount: price(4275, 2) };
    assert_eq!(get_amount(Ok(Some(price(4275, 2)))), Ok((200, expected)));
}

#[test]
fn sum_of_no_budget_line_is_zero_and_no_failure() {
    let expected = BudgetAmountResponse { status: "success".to_string(), amount: Amount::zero() };
    assert_eq!(get_amount(Ok(None)), Ok((200, expected)));
}

#[test]
fn sum_fails_with_its_message_whatever_the_cause() {
    for cause in every_failure() {
        assert_eq!(get_amount(Err(cause)), Err(failed("fail to get data")));
    }
}
