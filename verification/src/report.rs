use crate::amount::Amount;
use crate::registry::TokenKind;
use vstd::prelude::*;

verus! {

/// What fetching one token's balance came to: the token resolved and
/// returned a balance, the registry lookup failed, or the balance call
/// itself failed.
#[derive(Clone, Copy, PartialEq, Eq, Structural, Debug)]
pub enum FetchOutcome {
    Balance(Amount),
    LookupFailed,
    CallFailed,
}

/// The balance handler's suppression policy on one outcome: a returned
/// balance is kept, any failure is dropped.
pub open spec fn settle_balance_spec(o: FetchOutcome) -> Option<Amount> {
    match o {
        FetchOutcome::Balance(a) => Some(a),
        FetchOutcome::LookupFailed => None,
        FetchOutcome::CallFailed => None,
    }
}

/// Apply the balance handler's suppression policy: a returned balance is
/// kept, a failed lookup or a failed call is silently dropped.
pub fn settle_balance(o: FetchOutcome) -> (r: Option<Amount>)
    ensures
        r == settle_balance_spec(o),
{
    match o {
        FetchOutcome::Balance(a) => Some(a),
        FetchOutcome::LookupFailed => None,
        FetchOutcome::CallFailed => None,
    }
}

/// One printed line of the balance report.
#[derive(Clone, Copy, PartialEq, Eq, Structural, Debug)]
pub struct BalanceLine {
    pub token: TokenKind,
    pub amount: Amount,
}

/// The report's line for one token: present exactly when a balance came
/// back.
pub open spec fn token_lines(t: TokenKind, o: Option<Amount>) -> Seq<BalanceLine> {
    match o {
        Some(a) => seq![BalanceLine { token: t, amount: a }],
        None => Seq::empty(),
    }
}

/// The whole balance report: the lines of the three tokens in the fixed
/// order native coin, dollar stablecoin, euro stablecoin, a token's line
/// omitted when its balance is absent.
pub open spec fn balance_report_spec(
    celo: Option<Amount>,
    cusd: Option<Amount>,
    ceur: Option<Amount>,
) -> Seq<BalanceLine> {
    token_lines(TokenKind::Celo, celo) + token_lines(TokenKind::CUsd, cusd) + token_lines(
        TokenKind::CEur,
        ceur,
    )
}

/// Assemble the balance report from the three settled balances.
pub fn balance_report(celo: Option<Amount>, cusd: Option<Amount>, ceur: Option<Amount>) -> (r: Vec<
    BalanceLine,
>)
    ensures
        r@ == balance_report_spec(celo, cusd, ceur),
{
    let mut lines: Vec<BalanceLine> = Vec::new();
    if let Some(a) = celo {
        lines.push(BalanceLine { token: TokenKind::Celo, amount: a });
    }
    if let Some(a) = cusd {
        lines.push(BalanceLine { token: TokenKind::CUsd, amount: a });
    }
    if let Some(a) = ceur {
        lines.push(BalanceLine { token: TokenKind::CEur, amount: a });
    }
    proof {
        assert(lines@ =~= balance_report_spec(celo, cusd, ceur));
    }
    lines
}

/// A token whose fetch returned no balance is omitted rather than
/// reported: no line of the report names it, and the report is still
/// produced.
pub proof fn absent_token_omitted(
    celo: Option<Amount>,
    cusd: Option<Amount>,
    ceur: Option<Amount>,
    t: TokenKind,
)
    requires
        balance_of_token(t, celo, cusd, ceur) is None,
    ensures
        forall|i: int|
            0 <= i < balance_report_spec(celo, cusd, ceur).len() ==> (#[trigger] balance_report_spec(
                celo,
                cusd,
                ceur,
            )[i]).token != t,
{
}

/// The settled balance belonging to one token.
pub open spec fn balance_of_token(
    t: TokenKind,
    celo: Option<Amount>,
    cusd: Option<Amount>,
    ceur: Option<Amount>,
) -> Option<Amount> {
    match t {
        TokenKind::Celo => celo,
        TokenKind::CUsd => cusd,
        TokenKind::CEur => ceur,
    }
}

/// A token whose fetch returned a balance is reported: exactly one line
/// of the report names it, and that line carries the returned amount.
pub proof fn returned_balance_reported(
    celo: Option<Amount>,
    cusd: Option<Amount>,
    ceur: Option<Amount>,
    t: TokenKind,
    a: Amount,
)
    requires
        balance_of_token(t, celo, cusd, ceur) == Some(a),
    ensures
        exists|i: int|
            0 <= i < balance_report_spec(celo, cusd, ceur).len() && (
            #[trigger] balance_report_spec(celo, cusd, ceur)[i]) == (BalanceLine {
                token: t,
                amount: a,
            }),
        forall|i: int, j: int|
            0 <= i < balance_report_spec(celo, cusd, ceur).len() && 0 <= j < balance_report_spec(
                celo,
                cusd,
                ceur,
            ).len() && (#[trigger] balance_report_spec(celo, cusd, ceur)[i]).token == (
            #[trigger] balance_report_spec(celo, cusd, ceur)[j]).token ==> i == j,
{
    let r = balance_report_spec(celo, cusd, ceur);
    match t {
        TokenKind::Celo => {
            assert(r[0] == (BalanceLine { token: t, amount: a }));
        },
        TokenKind::CUsd => {
            if celo is Some {
                assert(r[1] == (BalanceLine { token: t, amount: a }));
            } else {
                assert(r[0] == (BalanceLine { token: t, amount: a }));
            }
        },
        TokenKind::CEur => {
            if celo is Some && cusd is Some {
                assert(r[2] == (BalanceLine { token: t, amount: a }));
            } else if celo is Some || cusd is Some {
                assert(r[1] == (BalanceLine { token: t, amount: a }));
            } else {
                assert(r[0] == (BalanceLine { token: t, amount: a }));
            }
        },
    }
}

/// When every balance that came back is zero, every line of the report
/// carries a zero amount.
pub proof fn zero_balances_report_zero(
    celo: Option<Amount>,
    cusd: Option<Amount>,
    ceur: Option<Amount>,
)
    requires
        celo matches Some(a) ==> a.value() == 0,
        cusd matches Some(a) ==> a.value() == 0,
        ceur matches Some(a) ==> a.value() == 0,
    ensures
        forall|i: int|
            0 <= i < balance_report_spec(celo, cusd, ceur).len() ==> (#[trigger] balance_report_spec(
                celo,
                cusd,
                ceur,
            )[i]).amount.value() == 0,
{
}

} // verus!
