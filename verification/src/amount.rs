use vstd::arithmetic::div_mod::{lemma_fundamental_div_mod, lemma_fundamental_div_mod_converse};
use vstd::prelude::*;

verus! {

/// One more than the largest quantity: two to the two hundred and
/// fifty-sixth power.
pub open spec fn amount_limit() -> int {
    0x10000000000000000int * 0x10000000000000000 * 0x10000000000000000 * 0x10000000000000000
}

/// Whether the byte is an ASCII decimal digit.
pub open spec fn is_dec_digit(b: u8) -> bool {
    0x30 <= b && b <= 0x39
}

/// Whether the byte string is well-formed decimal: nonempty and all
/// digits.
pub open spec fn is_dec_str(s: Seq<u8>) -> bool {
    s.len() > 0 && (forall|i: int| 0 <= i < s.len() ==> is_dec_digit(#[trigger] s[i]))
}

/// The number a string of ASCII decimal digits denotes.
pub open spec fn dec_value(s: Seq<u8>) -> int
    recommends
        forall|i: int| 0 <= i < s.len() ==> is_dec_digit(#[trigger] s[i]),
    decreases s.len(),
{
    if s.len() == 0 {
        0
    } else {
        dec_value(s.drop_last()) * 10 + (s.last() - 0x30)
    }
}

/// The decimal digits of a number, as ASCII bytes, most significant
/// first: no leading zeros, a single `0` for zero.
pub open spec fn dec_digits(n: nat) -> Seq<u8>
    decreases n,
{
    if n < 10 {
        seq![(0x30 + n) as u8]
    } else {
        dec_digits(n / 10) + seq![(0x30 + n % 10) as u8]
    }
}

/// A 256-bit unsigned token quantity in smallest units (10^-18 of the
/// display unit), stored as four little-endian 64-bit words. Balances and
/// exchange quotes are values of this type.
#[derive(Clone, Copy, PartialEq, Eq, Structural, Debug)]
pub struct Amount {
    pub w0: u64,
    pub w1: u64,
    pub w2: u64,
    pub w3: u64,
}

impl Amount {
    /// The mathematical value this quantity denotes.
    pub open spec fn value(self) -> nat {
        (self.w0 + self.w1 * 0x10000000000000000 + self.w2 * 0x100000000000000000000000000000000
            + self.w3 * 0x1000000000000000000000000000000000000000000000000) as nat
    }

    /// The zero quantity.
    pub fn zero() -> (r: Amount)
        ensures
            r.value() == 0,
    {
        Amount { w0: 0, w1: 0, w2: 0, w3: 0 }
    }

    /// A quantity small enough to fit one word.
    pub fn from_u64(x: u64) -> (r: Amount)
        ensures
            r.value() == x,
    {
        Amount { w0: x, w1: 0, w2: 0, w3: 0 }
    }

    /// A quantity from its four little-endian 64-bit words.
    pub fn from_words(w0: u64, w1: u64, w2: u64, w3: u64) -> (r: Amount)
        ensures
            r == (Amount { w0, w1, w2, w3 }),
    {
        Amount { w0, w1, w2, w3 }
    }

    /// Whether this quantity is zero.
    pub fn is_zero(&self) -> (r: bool)
        ensures
            r <==> self.value() == 0,
    {
        self.w0 == 0 && self.w1 == 0 && self.w2 == 0 && self.w3 == 0
    }

    /// The quantity times ten plus one digit, or `None` when the result
    /// leaves 256 bits.
    pub fn mul10_add(&self, d: u8) -> (r: Option<Amount>)
        requires
            d < 10,
        ensures
            r is Some <==> self.value() * 10 + d < amount_limit(),
            r matches Some(a) ==> a.value() == self.value() * 10 + d,
    {
        let x0: u128 = (self.w0 as u128) * 10 + (d as u128);
        let y0: u64 = (x0 % 0x10000000000000000) as u64;
        let c0: u64 = (x0 / 0x10000000000000000) as u64;
        let x1: u128 = (self.w1 as u128) * 10 + (c0 as u128);
        let y1: u64 = (x1 % 0x10000000000000000) as u64;
        let c1: u64 = (x1 / 0x10000000000000000) as u64;
        let x2: u128 = (self.w2 as u128) * 10 + (c1 as u128);
        let y2: u64 = (x2 % 0x10000000000000000) as u64;
        let c2: u64 = (x2 / 0x10000000000000000) as u64;
        let x3: u128 = (self.w3 as u128) * 10 + (c2 as u128);
        let y3: u64 = (x3 % 0x10000000000000000) as u64;
        let c3: u64 = (x3 / 0x10000000000000000) as u64;
        proof {
            lemma_fundamental_div_mod(x0 as int, 0x10000000000000000);
            lemma_fundamental_div_mod(x1 as int, 0x10000000000000000);
            lemma_fundamental_div_mod(x2 as int, 0x10000000000000000);
            lemma_fundamental_div_mod(x3 as int, 0x10000000000000000);
            assert(self.value() * 10 + d == (Amount { w0: y0, w1: y1, w2: y2, w3: y3 }).value()
                + c3 * 0x10000000000000000 * 0x10000000000000000 * 0x10000000000000000
                * 0x10000000000000000);
        }
        if c3 != 0 {
            None
        } else {
            Some(Amount { w0: y0, w1: y1, w2: y2, w3: y3 })
        }
    }

    /// One step of long division: the quantity divided by ten, with the
    /// remainder digit.
    pub fn divmod10(&self) -> (res: (Amount, u8))
        ensures
            res.0.value() == self.value() / 10,
            res.1 == self.value() % 10,
            res.1 < 10,
    {
        let x3: u128 = self.w3 as u128;
        let q3: u64 = (x3 / 10) as u64;
        let r3: u64 = (x3 % 10) as u64;
        let x2: u128 = (r3 as u128) * 0x10000000000000000 + (self.w2 as u128);
        let q2: u64 = (x2 / 10) as u64;
        let r2: u64 = (x2 % 10) as u64;
        let x1: u128 = (r2 as u128) * 0x10000000000000000 + (self.w1 as u128);
        let q1: u64 = (x1 / 10) as u64;
        let r1: u64 = (x1 % 10) as u64;
        let x0: u128 = (r1 as u128) * 0x10000000000000000 + (self.w0 as u128);
        let q0: u64 = (x0 / 10) as u64;
        let r0: u8 = (x0 % 10) as u8;
        let q = Amount { w0: q0, w1: q1, w2: q2, w3: q3 };
        proof {
            lemma_fundamental_div_mod(x3 as int, 10);
            lemma_fundamental_div_mod(x2 as int, 10);
            lemma_fundamental_div_mod(x1 as int, 10);
            lemma_fundamental_div_mod(x0 as int, 10);
            assert(self.value() == q.value() * 10 + r0);
            lemma_fundamental_div_mod_converse(
                self.value() as int,
                10,
                q.value() as int,
                r0 as int,
            );
        }
        (q, r0)
    }

    /// Parse a quantity from decimal ASCII text. Succeeds exactly on
    /// nonempty all-digit input whose value fits 256 bits.
    pub fn from_decimal(s: &[u8]) -> (r: Option<Amount>)
        ensures
            r is Some <==> is_dec_str(s@) && dec_value(s@) < amount_limit(),
            r matches Some(a) ==> a.value() == dec_value(s@),
    {
        if s.len() == 0 {
            return None;
        }
        let mut acc = Amount::zero();
        let mut i: usize = 0;
        while i < s.len()
            invariant
                i <= s@.len(),
                s@.len() > 0,
                forall|j: int| 0 <= j < i ==> is_dec_digit(#[trigger] s@[j]),
                acc.value() == dec_value(s@.subrange(0, i as int)),
            decreases s@.len() - i,
        {
            let b = s[i];
            if b < 0x30 || b > 0x39 {
                return None;
            }
            let d = b - 0x30;
            let next = match acc.mul10_add(d) {
                Some(a) => a,
                None => {
                    proof {
                        if is_dec_str(s@) {
                            lemma_dec_value_extend(s@, i + 1);
                            assert(s@.subrange(0, i as int + 1).drop_last() =~= s@.subrange(
                                0,
                                i as int,
                            ));
                        }
                    }
                    return None;
                },
            };
            proof {
                assert(s@.subrange(0, i as int + 1).drop_last() =~= s@.subrange(0, i as int));
            }
            acc = next;
            i = i + 1;
        }
        proof {
            assert(s@.subrange(0, s@.len() as int) =~= s@);
        }
        Some(acc)
    }

    /// Render the quantity in decimal, as ASCII digit bytes, most
    /// significant first.
    pub fn to_decimal(&self) -> (r: Vec<u8>)
        ensures
            r@ == dec_digits(self.value()),
    {
        let mut rev: Vec<u8> = Vec::new();
        let (q, d) = self.divmod10();
        rev.push(0x30 + d);
        let mut cur: Amount = q;
        proof {
            lemma_fundamental_div_mod(self.value() as int, 10);
            assert(rev@.reverse() =~= seq![(0x30 + self.value() % 10) as u8]);
        }
        while !cur.is_zero()
            invariant
                cur.value() == 0 ==> dec_digits(self.value()) == rev@.reverse(),
                cur.value() > 0 ==> dec_digits(self.value()) == dec_digits(cur.value())
                    + rev@.reverse(),
            decreases cur.value(),
        {
            let (q2, d2) = cur.divmod10();
            proof {
                lemma_fundamental_div_mod(cur.value() as int, 10);
            }
            let ghost prev = cur.value();
            let ghost prev_rev = rev@;
            rev.push(0x30 + d2);
            cur = q2;
            proof {
                assert(rev@.reverse() =~= seq![(0x30 + prev % 10) as u8] + prev_rev.reverse());
                if cur.value() == 0 {
                    assert(dec_digits(prev) =~= seq![(0x30 + prev % 10) as u8]);
                } else {
                    assert(dec_digits(prev) =~= dec_digits(prev / 10) + seq![
                        (0x30 + prev % 10) as u8,
                    ]);
                }
                assert(dec_digits(self.value()) =~= (if cur.value() == 0 {
                    rev@.reverse()
                } else {
                    dec_digits(cur.value()) + rev@.reverse()
                }));
            }
        }
        let mut out: Vec<u8> = Vec::new();
        let mut i: usize = rev.len();
        while i > 0
            invariant
                i <= rev@.len(),
                out@.len() == rev@.len() - i,
                forall|j: int| 0 <= j < out@.len() ==> out@[j] == rev@[rev@.len() - 1 - j],
            decreases i,
        {
            i = i - 1;
            out.push(rev[i]);
        }
        proof {
            assert(out@ =~= rev@.reverse());
        }
        out
    }
}

/// A string of decimal digits denotes a number that is not negative.
proof fn lemma_dec_value_nonneg(s: Seq<u8>)
    requires
        forall|j: int| 0 <= j < s.len() ==> is_dec_digit(#[trigger] s[j]),
    ensures
        dec_value(s) >= 0,
    decreases s.len(),
{
    if s.len() > 0 {
        lemma_dec_value_nonneg(s.drop_last());
    }
}

/// Reading further digits never shrinks the denoted number.
proof fn lemma_dec_value_extend(s: Seq<u8>, i: int)
    requires
        0 <= i <= s.len(),
        forall|j: int| 0 <= j < s.len() ==> is_dec_digit(#[trigger] s[j]),
    ensures
        dec_value(s.subrange(0, i)) <= dec_value(s),
    decreases s.len() - i,
{
    if i == s.len() {
        assert(s.subrange(0, i) =~= s);
    } else {
        lemma_dec_value_extend(s, i + 1);
        assert(s.subrange(0, i + 1).drop_last() =~= s.subrange(0, i));
        assert(forall|j: int|
            0 <= j < i ==> is_dec_digit(#[trigger] s.subrange(0, i)[j]));
        lemma_dec_value_nonneg(s.subrange(0, i));
    }
}

/// Round trip: the decimal rendering of a number is a well-formed
/// decimal string, and parsing it gives the number back.
pub proof fn decimal_round_trip(n: nat)
    ensures
        is_dec_str(dec_digits(n)),
        dec_value(dec_digits(n)) == n,
    decreases n,
{
    if n < 10 {
        assert(dec_digits(n).len() == 1);
        assert(dec_digits(n).drop_last() =~= Seq::<u8>::empty());
        assert(dec_digits(n).last() == (0x30 + n) as u8);
        assert(dec_value(dec_digits(n)) == dec_value(Seq::<u8>::empty()) * 10 + ((0x30 + n) as u8
            - 0x30));
    } else {
        decimal_round_trip(n / 10);
        assert(dec_digits(n).drop_last() =~= dec_digits(n / 10));
        assert(dec_digits(n).last() == (0x30 + n % 10) as u8);
        lemma_fundamental_div_mod(n as int, 10);
        assert(dec_value(dec_digits(n)) == dec_value(dec_digits(n / 10)) * 10 + (dec_digits(
            n,
        ).last() - 0x30));
    }
}

/// The base quantity quoted by default: one display unit, 10^18 smallest
/// units.
pub fn default_quote_base() -> (r: Amount)
    ensures
        r.value() == 1000000000000000000,
{
    Amount::from_u64(1000000000000000000)
}

} // verus!
