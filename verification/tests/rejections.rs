use loyalty_exchange::Error;
use loyalty_exchange::LoyaltyTokenExchange;

const USER: u64 = 1;

/// A two-brand engine where the user holds 100 points for brand 1.
fn funded_engine() -> LoyaltyTokenExchange {
    let mut engine = LoyaltyTokenExchange::new();
    engine.register_brand("One".to_string());
    engine.register_brand("Two".to_string());
    engine.issue_tokens(true, USER, 1, 100).unwrap();
    engine
}

fn assert_balances_unchanged(engine: &LoyaltyTokenExchange) {
    assert_eq!(engine.view_user_balance(USER, 1), 100);
    assert_eq!(engine.view_user_balance(USER, 2), 0);
}

#[test]
fn issue_to_unknown_brand_is_inactive() {
    let mut engine = funded_engine();
    let result = engine.issue_tokens(true, USER, 3, 10);
    assert_eq!(result, Err(Error::InactiveBrand));
    assert_balances_unchanged(&engine);
}

#[test]
fn issue_nonpositive_amount_is_invalid() {
    let mut engine = funded_engine();
    assert_eq!(engine.issue_tokens(true, USER, 1, 0), Err(Error::InvalidAmount));
    assert_eq!(engine.issue_tokens(true, USER, 1, -5), Err(Error::InvalidAmount));
    assert_balances_unchanged(&engine);
}

#[test]
fn issue_without_authorization() {
    let mut engine = funded_engine();
    let result = engine.issue_tokens(false, USER, 1, 10);
    assert_eq!(result, Err(Error::Unauthorized));
    assert_balances_unchanged(&engine);
}

#[test]
fn issue_overflowing_the_balance() {
    let mut engine = funded_engine();
    engine.issue_tokens(true, USER, 2, i64::MAX).unwrap();
    let result = engine.issue_tokens(true, USER, 2, 1);
    assert_eq!(result, Err(Error::AmountOverflow));
    assert_eq!(engine.view_user_balance(USER, 2), i64::MAX);
}

#[test]
fn exchange_nonpositive_amount_is_invalid() {
    let mut engine = funded_engine();
    assert_eq!(engine.exchange_tokens(true, USER, 1, 2, 0), Err(Error::InvalidAmount));
    assert_eq!(engine.exchange_tokens(true, USER, 1, 2, -3), Err(Error::InvalidAmount));
    assert_balances_unchanged(&engine);
}

#[test]
fn exchange_to_the_same_brand() {
    let mut engine = funded_engine();
    let result = engine.exchange_tokens(true, USER, 1, 1, 10);
    assert_eq!(result, Err(Error::SameBrandExchange));
    assert_balances_unchanged(&engine);
}

#[test]
fn exchange_with_an_unknown_brand_on_either_side() {
    let mut engine = funded_engine();
    assert_eq!(engine.exchange_tokens(true, USER, 3, 2, 10), Err(Error::InactiveBrand));
    assert_eq!(engine.exchange_tokens(true, USER, 1, 3, 10), Err(Error::InactiveBrand));
    assert_balances_unchanged(&engine);
}

#[test]
fn exchange_more_than_the_source_holds() {
    let mut engine = funded_engine();
    let result = engine.exchange_tokens(true, USER, 1, 2, 101);
    assert_eq!(result, Err(Error::InsufficientBalance));
    assert_balances_unchanged(&engine);
}

#[test]
fn exchange_without_authorization() {
    let mut engine = funded_engine();
    let result = engine.exchange_tokens(false, USER, 1, 2, 10);
    assert_eq!(result, Err(Error::Unauthorized));
    assert_balances_unchanged(&engine);
}

#[test]
fn exchange_overflowing_the_destination() {
    let mut engine = funded_engine();
    engine.issue_tokens(true, USER, 2, i64::MAX).unwrap();
    let result = engine.exchange_tokens(true, USER, 1, 2, 10);
    assert_eq!(result, Err(Error::AmountOverflow));
    assert_eq!(engine.view_user_balance(USER, 1), 100);
    assert_eq!(engine.view_user_balance(USER, 2), i64::MAX);
}

#[test]
fn rejections_report_the_first_failed_check() {
    let mut engine = funded_engine();
    // An exchange that is wrong in several ways reports the first failed
    // check: authorization, then amount, then distinctness, then activation.
    assert_eq!(engine.exchange_tokens(false, USER, 9, 9, 0), Err(Error::Unauthorized));
    assert_eq!(engine.exchange_tokens(true, USER, 9, 9, 0), Err(Error::InvalidAmount));
    assert_eq!(engine.exchange_tokens(true, USER, 9, 9, 5), Err(Error::SameBrandExchange));
    assert_eq!(engine.exchange_tokens(true, USER, 9, 8, 5), Err(Error::InactiveBrand));
    // An issue that is wrong in several ways reports the brand before the
    // amount.
    assert_eq!(engine.issue_tokens(true, USER, 9, 0), Err(Error::InactiveBrand));
    assert_balances_unchanged(&engine);
}
