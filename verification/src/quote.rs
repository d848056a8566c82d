use crate::amount::Amount;
use vstd::prelude::*;

verus! {

/// The direction of an exchange quote between the native coin and the
/// dollar stablecoin.
#[derive(Clone, Copy, PartialEq, Eq, Structural, Debug)]
pub enum QuoteDirection {
    CeloToCusd,
    CusdToCelo,
}

/// The flag the exchange contract's quote method takes for the direction:
/// `true` asks how much stable token the base quantity of native coin
/// buys.
pub open spec fn direction_flag_spec(d: QuoteDirection) -> bool {
    d == QuoteDirection::CeloToCusd
}

/// The flag the exchange contract's quote method takes for the direction.
pub fn direction_flag(d: QuoteDirection) -> (r: bool)
    ensures
        r == direction_flag_spec(d),
{
    match d {
        QuoteDirection::CeloToCusd => true,
        QuoteDirection::CusdToCelo => false,
    }
}

/// One printed line of the quote report: the base quantity sold in the
/// given direction buys the quoted quantity.
#[derive(Clone, Copy, PartialEq, Eq, Structural, Debug)]
pub struct QuoteLine {
    pub direction: QuoteDirection,
    pub base: Amount,
    pub quote: Amount,
}

/// The whole quote report: one line per direction, native coin to stable
/// token first, both for the same base quantity.
pub open spec fn exchange_report_spec(base: Amount, cusd_quote: Amount, celo_quote: Amount) -> Seq<
    QuoteLine,
> {
    seq![
        QuoteLine { direction: QuoteDirection::CeloToCusd, base, quote: cusd_quote },
        QuoteLine { direction: QuoteDirection::CusdToCelo, base, quote: celo_quote },
    ]
}

/// Assemble the quote report from the two quoted amounts.
pub fn exchange_report(base: Amount, cusd_quote: Amount, celo_quote: Amount) -> (r: Vec<QuoteLine>)
    ensures
        r@ == exchange_report_spec(base, cusd_quote, celo_quote),
{
    let mut lines: Vec<QuoteLine> = Vec::new();
    lines.push(QuoteLine { direction: QuoteDirection::CeloToCusd, base, quote: cusd_quote });
    lines.push(QuoteLine { direction: QuoteDirection::CusdToCelo, base, quote: celo_quote });
    proof {
        assert(lines@ =~= exchange_report_spec(base, cusd_quote, celo_quote));
    }
    lines
}

/// The report changes no quoted amount: when the exchange answers zero
/// in both directions, both report lines carry a zero quote, whatever
/// the base quantity was.
pub proof fn zero_quotes_report_zero(base: Amount, cusd_quote: Amount, celo_quote: Amount)
    requires
        cusd_quote.value() == 0,
        celo_quote.value() == 0,
    ensures
        forall|i: int|
            0 <= i < exchange_report_spec(base, cusd_quote, celo_quote).len() ==> (
            #[trigger] exchange_report_spec(base, cusd_quote, celo_quote)[i]).quote.value() == 0,
{
}

/// The two quote directions are independent: each line of the report is
/// determined by the base quantity and its own direction's quoted amount
/// alone, so neither the other call's result nor the order in which the
/// two concurrent calls return can change it.
pub proof fn quote_lines_independent(base: Amount, a: Amount, a2: Amount, b: Amount, b2: Amount)
    ensures
        exchange_report_spec(base, a, b)[0] == exchange_report_spec(base, a, b2)[0],
        exchange_report_spec(base, a, b)[1] == exchange_report_spec(base, a2, b)[1],
{
}

} // verus!
