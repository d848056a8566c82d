use vstd::prelude::*;

verus! {

/// The three tokens the balance command reports: the native coin and the
/// two stablecoins.
#[derive(Clone, Copy, PartialEq, Eq, Structural, Debug)]
pub enum TokenKind {
    Celo,
    CUsd,
    CEur,
}

/// A contract resolved through the on-chain registry: one of the tokens,
/// or the Mento exchange.
#[derive(Clone, Copy, PartialEq, Eq, Structural, Debug)]
pub enum ContractId {
    Token(TokenKind),
    Exchange,
}

/// The name under which the registry lists the contract.
pub open spec fn registry_key_spec(c: ContractId) -> Seq<char> {
    match c {
        ContractId::Token(TokenKind::Celo) => "GoldToken"@,
        ContractId::Token(TokenKind::CUsd) => "StableToken"@,
        ContractId::Token(TokenKind::CEur) => "StableTokenEUR"@,
        ContractId::Exchange => "Exchange"@,
    }
}

/// The name under which the registry lists the contract.
pub fn registry_key(c: ContractId) -> (r: &'static str)
    ensures
        r@ == registry_key_spec(c),
{
    match c {
        ContractId::Token(TokenKind::Celo) => "GoldToken",
        ContractId::Token(TokenKind::CUsd) => "StableToken",
        ContractId::Token(TokenKind::CEur) => "StableTokenEUR",
        ContractId::Exchange => "Exchange",
    }
}

/// The label under which the balance report prints the token.
pub open spec fn display_label_spec(t: TokenKind) -> Seq<char> {
    match t {
        TokenKind::Celo => "CELO"@,
        TokenKind::CUsd => "cUSD"@,
        TokenKind::CEur => "cEUR"@,
    }
}

/// The label under which the balance report prints the token.
pub fn display_label(t: TokenKind) -> (r: &'static str)
    ensures
        r@ == display_label_spec(t),
{
    match t {
        TokenKind::Celo => "CELO",
        TokenKind::CUsd => "cUSD",
        TokenKind::CEur => "cEUR",
    }
}

} // verus!
