//! Reading a price, exactly.
//!
//! A numeral is `digits [ "." digits ] [ ("e" | "E") [ "+" | "-" ] digits ]`,
//! with an exponent of at most four digits. A price is a numeral, or a minus
//! sign and a numeral. It is held as a whole number of units and the power
//! of ten that a unit is, so that no digit is lost and no size is too large.
//!
//! `read_numeral` finds the parts of a numeral by position. That it reads
//! the texts of this form, each as it is spelt, and no others, is proved in
//! `lemma_reads_what_is_spelt` and `lemma_read_is_spelt`.

use crate::big::{big_add, big_from, big_mul, big_sub, big_value};
use crate::decimal::{
    is_digit, lemma_pow10_increases, lemma_value_bound, lemma_value_step, numeral_value, pow10,
};
use crate::model::{Decimal, DecimalView};
use num_bigint::BigInt;
use vstd::prelude::*;

verus! {

/// The longest exponent that is read, in digits.
pub const MAX_EXPONENT_DIGITS: usize = 4;

/// How many digits stand in `s` from position `from` on, without a gap.
pub open spec fn digit_run(s: Seq<char>, from: int) -> nat
    decreases s.len() - from,
{
    if 0 <= from < s.len() && is_digit(s[from]) {
        1 + digit_run(s, from + 1)
    } else {
        0
    }
}

/// The parts of a numeral: its digits before and after the point, taken
/// together, how many of them stand after the point, and its exponent.
pub struct Numeral {
    pub digits: Seq<char>,
    pub fraction_len: nat,
    pub exponent: int,
}

/// The numeral that `s` spells, if it spells one from end to end.
pub open spec fn read_numeral(s: Seq<char>) -> Option<Numeral> {
    let whole_len = digit_run(s, 0) as int;
    let pointed = whole_len < s.len() && s[whole_len] == '.';
    let fraction_len = if pointed {
        digit_run(s, whole_len + 1) as int
    } else {
        0
    };
    let mantissa_end = if pointed {
        whole_len + 1 + fraction_len
    } else {
        whole_len
    };
    let raised = mantissa_end < s.len() && (s[mantissa_end] == 'e' || s[mantissa_end] == 'E');
    let signed = raised && mantissa_end + 1 < s.len() && (s[mantissa_end + 1] == '+' || s[mantissa_end
        + 1] == '-');
    let exponent_at = if signed {
        mantissa_end + 2
    } else {
        mantissa_end + 1
    };
    let exponent_len = if raised {
        digit_run(s, exponent_at) as int
    } else {
        0
    };
    let end = if raised {
        exponent_at + exponent_len
    } else {
        mantissa_end
    };
    let fraction = if pointed {
        s.subrange(whole_len + 1, mantissa_end)
    } else {
        Seq::empty()
    };
    let magnitude = if raised {
        numeral_value(s.subrange(exponent_at, end)) as int
    } else {
        0
    };
    if whole_len >= 1 && (pointed ==> fraction_len >= 1) && (raised ==> 1 <= exponent_len
        <= MAX_EXPONENT_DIGITS) && end == s.len() {
        Some(
            Numeral {
                digits: s.subrange(0, whole_len) + fraction,
                fraction_len: fraction_len as nat,
                exponent: if signed && s[mantissa_end + 1] == '-' {
                    -magnitude
                } else {
                    magnitude
                },
            },
        )
    } else {
        None
    }
}

/// The number that a text denotes, as a whole number of units and the power
/// of ten that a unit is: a numeral, or a numeral after a minus sign, taken
/// below zero. Every digit counts; nothing is rounded.
pub open spec fn price_of_text(s: Seq<char>) -> Option<DecimalView> {
    let negative = s.len() > 0 && s[0] == '-';
    let numeral = if negative {
        read_numeral(s.subrange(1, s.len() as int))
    } else {
        read_numeral(s)
    };
    match numeral {
        Some(n) => Some(
            DecimalView {
                units: if negative {
                    -(numeral_value(n.digits) as int)
                } else {
                    numeral_value(n.digits) as int
                },
                exponent: n.exponent - n.fraction_len,
            },
        ),
        None => None,
    }
}

/// Within a run of digits every character is a digit.
proof fn lemma_run_holds_digits(s: Seq<char>, from: int, at: int)
    requires
        0 <= from <= at < from + digit_run(s, from),
    ensures
        at < s.len(),
        is_digit(s[at]),
    decreases at - from,
{
    if from < at {
        lemma_run_holds_digits(s, from + 1, at);
    }
}

/// A run of digits that ends at the end of the text, or in front of another
/// character, is as long as it looks.
pub(crate) proof fn lemma_run_length(s: Seq<char>, from: int, k: nat)
    requires
        0 <= from,
        from + k <= s.len(),
        forall|i: int| from <= i < from + k ==> is_digit(#[trigger] s[i]),
        from + k == s.len() || !is_digit(s[from + k]),
    ensures
        digit_run(s, from) == k,
    decreases k,
{
    if k > 0 {
        lemma_run_length(s, from + 1, (k - 1) as nat);
    }
}

/// The position after the digits that stand in `text` from `from` on.
fn skip_digits(text: &Vec<char>, from: usize) -> (end: usize)
    requires
        from <= text@.len(),
    ensures
        end == from + digit_run(text@, from as int),
        end <= text@.len(),
{
    let mut i: usize = from;
    while i < text.len() && '0' <= text[i] && text[i] <= '9'
        invariant
            from <= i <= text@.len(),
            digit_run(text@, from as int) == (i - from) + digit_run(text@, i as int),
        decreases text@.len() - i,
    {
        i += 1;
    }
    i
}

/// A copy of `text[from .. to]`.
fn copy_range(text: &Vec<char>, from: usize, to: usize) -> (r: Vec<char>)
    requires
        from <= to <= text@.len(),
    ensures
        r@ == text@.subrange(from as int, to as int),
{
    let mut copy: Vec<char> = Vec::new();
    let mut i: usize = from;
    while i < to
        invariant
            from <= i <= to <= text@.len(),
            copy@ == text@.subrange(from as int, i as int),
        decreases to - i,
    {
        copy.push(text[i]);
        i += 1;
    }
    copy
}

/// The number that the digits `text[from .. to]` denote, for at most
/// `MAX_EXPONENT_DIGITS` of them.
fn short_value(text: &Vec<char>, from: usize, to: usize) -> (r: i64)
    requires
        from <= to <= text@.len(),
        to - from <= MAX_EXPONENT_DIGITS,
        to <= from + digit_run(text@, from as int),
    ensures
        r == numeral_value(text@.subrange(from as int, to as int)),
        0 <= r < 10000,
{
    let ghost part = text@.subrange(from as int, to as int);
    let mut acc: i64 = 0;
    let mut i: usize = from;
    proof {
        assert(part.take(0).len() == 0);
        assert(pow10(4) == 10000) by {
            reveal_with_fuel(pow10, 5);
        }
    }
    while i < to
        invariant
            from <= i <= to <= text@.len(),
            to - from <= 4,
            to <= from + digit_run(text@, from as int),
            part == text@.subrange(from as int, to as int),
            acc == numeral_value(part.take(i - from)),
            pow10(4) == 10000,
        decreases to - i,
    {
        proof {
            lemma_run_holds_digits(text@, from as int, i as int);
            lemma_value_step(part, i - from);
            lemma_value_bound(part.take(i - from));
            lemma_pow10_increases((i - from) as nat, 3);
            assert(pow10(4) == 10 * pow10(3));
        }
        acc = acc * 10 + (text[i] as u32 - '0' as u32) as i64;
        i += 1;
    }
    proof {
        assert(part.take(to - from) == part);
        lemma_value_bound(part);
        lemma_pow10_increases(part.len(), 4);
    }
    acc
}

/// The parts of the numeral that `text` spells: its digits, how many of them
/// stand after the point, and its exponent.
fn read_parts(text: &Vec<char>) -> (r: Option<(Vec<char>, usize, i64)>)
    ensures
        r is Some <==> read_numeral(text@) is Some,
        r matches Some(parts) ==> {
            &&& parts.0@ == read_numeral(text@).unwrap().digits
            &&& parts.1 == read_numeral(text@).unwrap().fraction_len
            &&& parts.2 == read_numeral(text@).unwrap().exponent
            &&& -10000 < parts.2 < 10000
            &&& forall|i: int| 0 <= i < parts.0@.len() ==> is_digit(#[trigger] parts.0@[i])
        },
{
    let n: usize = text.len();
    let whole_end: usize = skip_digits(text, 0);
    if whole_end == 0 {
        return None;
    }
    let pointed: bool = whole_end < n && text[whole_end] == '.';
    let mantissa_end: usize = if pointed {
        skip_digits(text, whole_end + 1)
    } else {
        whole_end
    };
    if pointed && mantissa_end == whole_end + 1 {
        return None;
    }
    let raised: bool = mantissa_end < n && (text[mantissa_end] == 'e' || text[mantissa_end] == 'E');
    let signed: bool = raised && mantissa_end + 1 < n && (text[mantissa_end + 1] == '+'
        || text[mantissa_end + 1] == '-');
    let exponent_at: usize = if signed {
        mantissa_end + 2
    } else if raised {
        mantissa_end + 1
    } else {
        mantissa_end
    };
    let end: usize = if raised {
        skip_digits(text, exponent_at)
    } else {
        mantissa_end
    };
    if raised && (end == exponent_at || end - exponent_at > MAX_EXPONENT_DIGITS) {
        return None;
    }
    if end != n {
        return None;
    }
    let magnitude: i64 = if raised {
        short_value(text, exponent_at, end)
    } else {
        0
    };
    let exponent: i64 = if signed && text[mantissa_end + 1] == '-' {
        -magnitude
    } else {
        magnitude
    };
    let fraction_len: usize = mantissa_end - whole_end - if pointed {
        1
    } else {
        0
    };
    let mut digits: Vec<char> = copy_range(text, 0, whole_end);
    let fraction: Vec<char> = if pointed {
        copy_range(text, whole_end + 1, mantissa_end)
    } else {
        Vec::new()
    };
    let mut tail: Vec<char> = fraction;
    digits.append(&mut tail);
    proof {
        assert forall|i: int| 0 <= i < digits@.len() implies is_digit(#[trigger] digits@[i]) by {
            if i < whole_end {
                lemma_run_holds_digits(text@, 0, i);
            } else {
                lemma_run_holds_digits(text@, whole_end + 1, i + 1);
            }
        }
    }
    Some((digits, fraction_len, exponent))
}

/// The number that `digits` denote.
fn digits_to_big(digits: &Vec<char>) -> (r: BigInt)
    requires
        forall|i: int| 0 <= i < digits@.len() ==> is_digit(#[trigger] digits@[i]),
    ensures
        big_value(r) == numeral_value(digits@),
{
    let ten: BigInt = big_from(10);
    let mut acc: BigInt = big_from(0);
    let mut i: usize = 0;
    assert(digits@.take(0).len() == 0);
    while i < digits.len()
        invariant
            i <= digits@.len(),
            forall|j: int| 0 <= j < digits@.len() ==> is_digit(#[trigger] digits@[j]),
            big_value(ten) == 10,
            big_value(acc) == numeral_value(digits@.take(i as int)),
        decreases digits@.len() - i,
    {
        proof {
            lemma_value_step(digits@, i as int);
        }
        let digit: BigInt = big_from((digits[i] as u32 - '0' as u32) as u64);
        let shifted: BigInt = big_mul(&acc, &ten);
        acc = big_add(&shifted, &digit);
        i += 1;
    }
    assert(digits@.take(digits@.len() as int) == digits@);
    acc
}

/// Reads a price: a numeral, or a minus sign and a numeral. The price is
/// held as it is written, digit by digit.
pub fn parse_price(text: &Vec<char>) -> (r: Option<Decimal>)
    ensures
        r is Some <==> price_of_text(text@) is Some,
        r matches Some(price) ==> Some(price@) == price_of_text(text@),
{
    let negative: bool = text.len() > 0 && text[0] == '-';
    let parts: Option<(Vec<char>, usize, i64)> = if negative {
        let rest: Vec<char> = copy_range(text, 1, text.len());
        read_parts(&rest)
    } else {
        read_parts(text)
    };
    match parts {
        Some((digits, fraction_len, exponent)) => {
            let amount: BigInt = digits_to_big(&digits);
            let units: BigInt = if negative {
                big_sub(&big_from(0), &amount)
            } else {
                amount
            };
            let zero: BigInt = big_from(0);
            let raised: BigInt = if exponent < 0 {
                big_sub(&zero, &big_from((-exponent) as u64))
            } else {
                big_from(exponent as u64)
            };
            let places: BigInt = big_from(fraction_len as u64);
            Some(Decimal { units, exponent: big_sub(&raised, &places) })
        },
        None => None,
    }
}

/// The exponent of a numeral as it is written: the mark `e` or `E`, a sign or
/// none, and digits.
pub struct ExponentSpelling {
    pub mark: char,
    pub sign: Option<char>,
    pub digits: Seq<char>,
}

/// A numeral as it is written: digits, then a point and digits or neither,
/// then an exponent or none.
pub struct Spelling {
    pub whole: Seq<char>,
    pub fraction: Option<Seq<char>>,
    pub exponent: Option<ExponentSpelling>,
}

/// Whether every character of `s` is a decimal digit.
pub open spec fn all_digits(s: Seq<char>) -> bool {
    forall|i: int| 0 <= i < s.len() ==> is_digit(#[trigger] s[i])
}

/// Whether the parts are those of a numeral: no run of digits is empty, and
/// the exponent has no more than `MAX_EXPONENT_DIGITS` digits.
pub open spec fn well_spelt(p: Spelling) -> bool {
    &&& p.whole.len() >= 1
    &&& all_digits(p.whole)
    &&& p.fraction matches Some(fraction) ==> fraction.len() >= 1 && all_digits(fraction)
    &&& p.exponent matches Some(e) ==> {
        &&& e.mark == 'e' || e.mark == 'E'
        &&& e.sign matches Some(sign) ==> sign == '+' || sign == '-'
        &&& 1 <= e.digits.len() <= MAX_EXPONENT_DIGITS
        &&& all_digits(e.digits)
    }
}

/// The text of an exponent.
pub open spec fn exponent_text(e: ExponentSpelling) -> Seq<char> {
    seq![e.mark] + (match e.sign {
        Some(sign) => seq![sign],
        None => Seq::empty(),
    }) + e.digits
}

/// The text of a numeral.
pub open spec fn spelling_text(p: Spelling) -> Seq<char> {
    p.whole + (match p.fraction {
        Some(fraction) => seq!['.'] + fraction,
        None => Seq::empty(),
    }) + (match p.exponent {
        Some(e) => exponent_text(e),
        None => Seq::empty(),
    })
}

/// What a numeral that is written so is read as.
pub open spec fn spelling_numeral(p: Spelling) -> Numeral {
    let fraction = match p.fraction {
        Some(fraction) => fraction,
        None => Seq::empty(),
    };
    Numeral {
        digits: p.whole + fraction,
        fraction_len: fraction.len(),
        exponent: match p.exponent {
            Some(e) => if e.sign == Some('-') {
                -(numeral_value(e.digits) as int)
            } else {
                numeral_value(e.digits) as int
            },
            None => 0,
        },
    }
}

/// The text of a numeral is read as the numeral that it spells.
#[verifier::rlimit(80)]
#[verifier::spinoff_prover]
pub proof fn lemma_reads_what_is_spelt(p: Spelling)
    requires
        well_spelt(p),
    ensures
        read_numeral(spelling_text(p)) == Some(spelling_numeral(p)),
{
    let s = spelling_text(p);
    let whole_len = p.whole.len() as int;
    let fraction = match p.fraction {
        Some(fraction) => fraction,
        None => Seq::empty(),
    };
    let pointed_part = match p.fraction {
        Some(fraction) => seq!['.'] + fraction,
        None => Seq::empty(),
    };
    let raised_part = match p.exponent {
        Some(e) => exponent_text(e),
        None => Seq::empty(),
    };
    let mantissa_end = whole_len + pointed_part.len();
    assert(s == p.whole + pointed_part + raised_part);
    assert(s.len() == mantissa_end + raised_part.len());
    assert forall|i: int| 0 <= i < whole_len implies is_digit(#[trigger] s[i]) by {
        assert(s[i] == p.whole[i]);
    }
    let ghost after: Seq<char> = pointed_part + raised_part;
    assert(s == p.whole + after);
    if whole_len < s.len() {
        assert(s[whole_len] == after[0]);
        if p.fraction is Some {
            assert(after[0] == '.');
        } else {
            assert(after[0] == raised_part[0]);
            assert(raised_part[0] == p.exponent.unwrap().mark);
        }
    }
    lemma_run_length(s, 0, whole_len as nat);
    if p.fraction is Some {
        assert forall|i: int| whole_len + 1 <= i < mantissa_end implies is_digit(#[trigger] s[i]) by {
            assert(s[i] == fraction[i - whole_len - 1]);
        }
        if mantissa_end < s.len() {
            assert(s[mantissa_end] == raised_part[0]);
            assert(raised_part[0] == p.exponent.unwrap().mark);
        }
        lemma_run_length(s, whole_len + 1, fraction.len());
        assert(s.subrange(whole_len + 1, mantissa_end) == fraction);
    }
    assert(s.subrange(0, whole_len) == p.whole);
    match p.exponent {
        Some(e) => {
            let sign_len: int = if e.sign is Some {
                1
            } else {
                0
            };
            let exponent_at = mantissa_end + 1 + sign_len;
            assert(raised_part.len() == 1 + sign_len + e.digits.len());
            assert(s[mantissa_end] == raised_part[0]);
            assert(raised_part[0] == e.mark);
            assert(s[mantissa_end + 1] == raised_part[1]);
            if e.sign is Some {
                assert(raised_part[1] == e.sign.unwrap());
            } else {
                assert(raised_part[1] == e.digits[0]);
            }
            assert forall|i: int| exponent_at <= i < s.len() implies is_digit(#[trigger] s[i]) by {
                assert(s[i] == raised_part[i - mantissa_end]);
                assert(raised_part[i - mantissa_end] == e.digits[i - exponent_at]);
            }
            lemma_run_length(s, exponent_at, e.digits.len());
            assert(s.subrange(exponent_at, s.len() as int) == e.digits);
        },
        None => {},
    }
}

/// A text that is read as a numeral is the text of a numeral.
pub proof fn lemma_read_is_spelt(s: Seq<char>) -> (p: Spelling)
    requires
        read_numeral(s) is Some,
    ensures
        well_spelt(p),
        spelling_text(p) == s,
        spelling_numeral(p) == read_numeral(s).unwrap(),
{
    let whole_len = digit_run(s, 0) as int;
    let pointed = whole_len < s.len() && s[whole_len] == '.';
    let mantissa_end = if pointed {
        whole_len + 1 + digit_run(s, whole_len + 1)
    } else {
        whole_len
    };
    let raised = mantissa_end < s.len() && (s[mantissa_end] == 'e' || s[mantissa_end] == 'E');
    let signed = raised && mantissa_end + 1 < s.len() && (s[mantissa_end + 1] == '+' || s[mantissa_end
        + 1] == '-');
    let exponent_at = if signed {
        mantissa_end + 2
    } else {
        mantissa_end + 1
    };
    let p = Spelling {
        whole: s.subrange(0, whole_len),
        fraction: if pointed {
            Some(s.subrange(whole_len + 1, mantissa_end))
        } else {
            None
        },
        exponent: if raised {
            Some(
                ExponentSpelling {
                    mark: s[mantissa_end],
                    sign: if signed {
                        Some(s[mantissa_end + 1])
                    } else {
                        None
                    },
                    digits: s.subrange(exponent_at, s.len() as int),
                },
            )
        } else {
            None
        },
    };
    assert forall|i: int| 0 <= i < p.whole.len() implies is_digit(#[trigger] p.whole[i]) by {
        lemma_run_holds_digits(s, 0, i);
    }
    if pointed {
        let fraction = p.fraction.unwrap();
        assert forall|i: int| 0 <= i < fraction.len() implies is_digit(#[trigger] fraction[i]) by {
            lemma_run_holds_digits(s, whole_len + 1, whole_len + 1 + i);
        }
    }
    if raised {
        let digits = p.exponent.unwrap().digits;
        assert forall|i: int| 0 <= i < digits.len() implies is_digit(#[trigger] digits[i]) by {
            lemma_run_holds_digits(s, exponent_at, exponent_at + i);
        }
    }
    assert(spelling_text(p) =~= s);
    lemma_reads_what_is_spelt(p);
    p
}

} // verus!
