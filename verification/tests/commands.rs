use celophane::address::Address;
use celophane::amount::Amount;
use celophane::command::{
    default_endpoint, dispatch, AccountBalanceArgs, AccountCommand, Action, Command,
    ExchangeCommand, ExchangeShowArgs,
};
use celophane::registry::{display_label, registry_key, ContractId, TokenKind};

#[test]
fn balance_command_queries_its_account() {
    let addr = Address::from_hex(b"0x1111111111111111111111111111111111111111").unwrap();
    let cmd = Command::Account(AccountCommand::Balance(AccountBalanceArgs {
        address: addr.clone(),
    }));
    match dispatch(cmd) {
        Action::QueryBalances(a) => assert_eq!(a.as_bytes(), addr.as_bytes()),
        Action::QueryQuotes(_) => panic!("balance command dispatched to a quote query"),
    }
}

#[test]
fn exchange_command_queries_its_amount() {
    let amount = Amount::from_u64(5);
    let cmd = Command::Exchange(ExchangeCommand::Show(ExchangeShowArgs { amount }));
    match dispatch(cmd) {
        Action::QueryQuotes(a) => assert_eq!(a, amount),
        Action::QueryBalances(_) => panic!("exchange command dispatched to a balance query"),
    }
}

#[test]
fn default_endpoint_is_the_local_node() {
    assert_eq!(default_endpoint(), "http://localhost:8545");
}

#[test]
fn registry_keys_name_the_contracts() {
    assert_eq!(registry_key(ContractId::Token(TokenKind::Celo)), "GoldToken");
    assert_eq!(registry_key(ContractId::Token(TokenKind::CUsd)), "StableToken");
    assert_eq!(registry_key(ContractId::Token(TokenKind::CEur)), "StableTokenEUR");
    assert_eq!(registry_key(ContractId::Exchange), "Exchange");
}

#[test]
fn display_labels_name_the_tokens() {
    assert_eq!(display_label(TokenKind::Celo), "CELO");
    assert_eq!(display_label(TokenKind::CUsd), "cUSD");
    assert_eq!(display_label(TokenKind::CEur), "cEUR");
}
