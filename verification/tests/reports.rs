use celophane::amount::{default_quote_base, Amount};
use celophane::quote::{direction_flag, exchange_report, QuoteDirection};
use celophane::registry::TokenKind;
use celophane::report::{balance_report, settle_balance, FetchOutcome};

#[test]
fn settle_keeps_a_returned_balance() {
    let a = Amount::from_u64(42);
    assert_eq!(settle_balance(FetchOutcome::Balance(a)), Some(a));
}

#[test]
fn settle_drops_a_failed_lookup() {
    assert_eq!(settle_balance(FetchOutcome::LookupFailed), None);
}

#[test]
fn settle_drops_a_failed_call() {
    assert_eq!(settle_balance(FetchOutcome::CallFailed), None);
}

#[test]
fn zero_holdings_report_zero_for_each_token() {
    let zero = Amount::zero();
    let lines = balance_report(Some(zero), Some(zero), Some(zero));
    assert_eq!(lines.len(), 3);
    for line in lines {
        assert!(line.amount.is_zero());
    }
}

#[test]
fn missing_registry_name_omits_its_line() {
    let a = Amount::from_u64(9);
    let lines = balance_report(Some(a), None, Some(a));
    assert_eq!(lines.len(), 2);
    assert!(lines.iter().all(|l| l.token != TokenKind::CUsd));
    assert_eq!(lines[0].token, TokenKind::Celo);
    assert_eq!(lines[1].token, TokenKind::CEur);
}

#[test]
fn all_fetches_failed_reports_nothing() {
    let lines = balance_report(None, None, None);
    assert_eq!(lines.len(), 0);
}

#[test]
fn report_keeps_token_order() {
    let a = Amount::from_u64(1);
    let b = Amount::from_u64(2);
    let c = Amount::from_u64(3);
    let lines = balance_report(Some(a), Some(b), Some(c));
    assert_eq!(lines[0].token, TokenKind::Celo);
    assert_eq!(lines[0].amount, a);
    assert_eq!(lines[1].token, TokenKind::CUsd);
    assert_eq!(lines[1].amount, b);
    assert_eq!(lines[2].token, TokenKind::CEur);
    assert_eq!(lines[2].amount, c);
}

#[test]
fn direction_flags_tell_the_directions_apart() {
    assert!(direction_flag(QuoteDirection::CeloToCusd));
    assert!(!direction_flag(QuoteDirection::CusdToCelo));
}

#[test]
fn zero_quote_reports_zero_both_ways() {
    let zero = Amount::zero();
    let lines = exchange_report(zero, zero, zero);
    assert_eq!(lines.len(), 2);
    assert!(lines[0].quote.is_zero());
    assert!(lines[1].quote.is_zero());
}

#[test]
fn quote_report_lines_carry_their_own_direction() {
    let base = default_quote_base();
    let cusd = Amount::from_u64(250);
    let celo = Amount::from_u64(400);
    let lines = exchange_report(base, cusd, celo);
    assert_eq!(lines[0].direction, QuoteDirection::CeloToCusd);
    assert_eq!(lines[0].base, base);
    assert_eq!(lines[0].quote, cusd);
    assert_eq!(lines[1].direction, QuoteDirection::CusdToCelo);
    assert_eq!(lines[1].base, base);
    assert_eq!(lines[1].quote, celo);
}

#[test]
fn quote_report_is_independent_of_call_order() {
    let base = default_quote_base();
    let cusd = Amount::from_u64(250);
    let celo = Amount::from_u64(400);
    let first = exchange_report(base, cusd, celo);
    let second = exchange_report(base, cusd, celo);
    assert_eq!(first, second);
    let swapped = exchange_report(base, celo, cusd);
    assert_eq!(swapped[0].quote, first[1].quote);
    assert_eq!(swapped[1].quote, first[0].quote);
}
