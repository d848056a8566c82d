use crate::address::Address;
use crate::amount::Amount;
use vstd::prelude::*;

verus! {

/// Arguments of the balance command: the queried account.
pub struct AccountBalanceArgs {
    pub address: Address,
}

/// Account management commands.
pub enum AccountCommand {
    Balance(AccountBalanceArgs),
}

/// Arguments of the exchange display command: the base quantity quotes
/// are reported on.
pub struct ExchangeShowArgs {
    pub amount: Amount,
}

/// Exchange interaction commands.
pub enum ExchangeCommand {
    Show(ExchangeShowArgs),
}

/// The command tree the front end parses.
pub enum Command {
    Account(AccountCommand),
    Exchange(ExchangeCommand),
}

/// The single remote query a command dispatches to.
pub enum Action {
    QueryBalances(Address),
    QueryQuotes(Amount),
}

/// The query a command dispatches to: a balance command queries the
/// balances of its account, an exchange display queries both quotes for
/// its base quantity.
pub open spec fn dispatch_spec(cmd: Command) -> Action {
    match cmd {
        Command::Account(AccountCommand::Balance(args)) => Action::QueryBalances(args.address),
        Command::Exchange(ExchangeCommand::Show(args)) => Action::QueryQuotes(args.amount),
    }
}

/// Dispatch a parsed command to the remote query it stands for.
pub fn dispatch(cmd: Command) -> (r: Action)
    ensures
        r == dispatch_spec(cmd),
{
    match cmd {
        Command::Account(AccountCommand::Balance(args)) => Action::QueryBalances(args.address),
        Command::Exchange(ExchangeCommand::Show(args)) => Action::QueryQuotes(args.amount),
    }
}

/// The endpoint connected to when none is named.
pub fn default_endpoint() -> (r: &'static str)
    ensures
        r@ == "http://localhost:8545"@,
{
    "http://localhost:8545"
}

} // verus!
