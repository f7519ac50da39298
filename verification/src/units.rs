//! Amounts in the ledger's smallest unit and in its display unit.

use vstd::prelude::*;
use vstd::string::StringExecFns;

verus! {

/// Number of smallest units in one display unit of the ledger.
pub const UNITS_PER_DISPLAY_UNIT: u64 = 1_000_000_000;

/// A balance split into whole display units and the remaining smallest units.
#[derive(Clone, Copy, Debug, PartialEq, Eq)]
pub struct DisplayAmount {
    pub whole: u64,
    pub fraction: u64,
}

/// The exact split of `amount` smallest units into display units.
pub open spec fn display_amount_of(amount: u64) -> DisplayAmount {
    DisplayAmount {
        whole: (amount as int / UNITS_PER_DISPLAY_UNIT as int) as u64,
        fraction: (amount as int % UNITS_PER_DISPLAY_UNIT as int) as u64,
    }
}

/// Converts an amount in smallest units to display units without rounding.
pub fn to_display_amount(amount: u64) -> (result: DisplayAmount)
    ensures
        result == display_amount_of(amount),
        result.whole * UNITS_PER_DISPLAY_UNIT + result.fraction == amount,
        result.fraction < UNITS_PER_DISPLAY_UNIT,
{
    let whole: u64 = amount / UNITS_PER_DISPLAY_UNIT;
    let fraction: u64 = amount % UNITS_PER_DISPLAY_UNIT;
    proof {
        vstd::arithmetic::div_mod::lemma_fundamental_div_mod(amount as int, UNITS_PER_DISPLAY_UNIT as int);
    }
    DisplayAmount { whole, fraction }
}

/// The number of digits behind the decimal point of a display amount.
pub const FRACTION_DIGITS: usize = 9;

/// The character of the decimal digit `d`.
pub open spec fn digit_char(d: nat) -> char {
    if d == 0 {
        '0'
    } else if d == 1 {
        '1'
    } else if d == 2 {
        '2'
    } else if d == 3 {
        '3'
    } else if d == 4 {
        '4'
    } else if d == 5 {
        '5'
    } else if d == 6 {
        '6'
    } else if d == 7 {
        '7'
    } else if d == 8 {
        '8'
    } else {
        '9'
    }
}

/// The decimal digits of `n`, without leading zeros.
pub open spec fn decimal_text(n: nat) -> Seq<char>
    decreases n,
{
    if n < 10 {
        seq![digit_char(n)]
    } else {
        decimal_text(n / 10).push(digit_char(n % 10))
    }
}

/// The last `width` decimal digits of `f`, with leading zeros.
pub open spec fn fraction_digits(f: nat, width: nat) -> Seq<char>
    decreases width,
{
    if width == 0 {
        Seq::empty()
    } else {
        fraction_digits(f / 10, (width - 1) as nat).push(digit_char(f % 10))
    }
}

/// The last `width` decimal digits of `f`, with leading zeros and without
/// trailing zeros.
pub open spec fn fraction_text(f: nat, width: nat) -> Seq<char>
    decreases width,
{
    if width == 0 {
        Seq::empty()
    } else if f % 10 == 0 {
        fraction_text(f / 10, (width - 1) as nat)
    } else {
        fraction_digits(f, width)
    }
}

/// A display amount in decimal notation: the whole units, and behind a point
/// the fraction, where there is one.
pub open spec fn amount_text(amount: DisplayAmount) -> Seq<char> {
    if amount.fraction == 0 {
        decimal_text(amount.whole as nat)
    } else {
        decimal_text(amount.whole as nat) + "."@ + fraction_text(
            amount.fraction as nat,
            FRACTION_DIGITS as nat,
        )
    }
}

fn digit_text(d: u64) -> (text: &'static str)
    requires
        d < 10,
    ensures
        text@ == seq![digit_char(d as nat)],
{
    proof {
        reveal_strlit("0");
        reveal_strlit("1");
        reveal_strlit("2");
        reveal_strlit("3");
        reveal_strlit("4");
        reveal_strlit("5");
        reveal_strlit("6");
        reveal_strlit("7");
        reveal_strlit("8");
        reveal_strlit("9");
    }
    let text = if d == 0 {
        "0"
    } else if d == 1 {
        "1"
    } else if d == 2 {
        "2"
    } else if d == 3 {
        "3"
    } else if d == 4 {
        "4"
    } else if d == 5 {
        "5"
    } else if d == 6 {
        "6"
    } else if d == 7 {
        "7"
    } else if d == 8 {
        "8"
    } else {
        "9"
    };
    assert(text@ =~= seq![digit_char(d as nat)]);
    text
}

/// Writes `n` in decimal digits.
pub fn render_decimal(n: u64) -> (text: String)
    ensures
        text@ == decimal_text(n as nat),
    decreases n,
{
    if n < 10 {
        digit_text(n).to_owned()
    } else {
        let mut text = render_decimal(n / 10);
        text.append(digit_text(n % 10));
        assert(text@ =~= decimal_text(n as nat));
        text
    }
}

fn render_fraction_digits(f: u64, width: usize) -> (text: String)
    ensures
        text@ == fraction_digits(f as nat, width as nat),
    decreases width,
{
    if width == 0 {
        let text = String::new();
        assert(text@ =~= fraction_digits(f as nat, width as nat));
        text
    } else {
        let mut text = render_fraction_digits(f / 10, width - 1);
        text.append(digit_text(f % 10));
        assert(text@ =~= fraction_digits(f as nat, width as nat));
        text
    }
}

fn render_fraction(f: u64, width: usize) -> (text: String)
    ensures
        text@ == fraction_text(f as nat, width as nat),
    decreases width,
{
    if width == 0 {
        let text = String::new();
        assert(text@ =~= fraction_text(f as nat, width as nat));
        text
    } else if f % 10 == 0 {
        render_fraction(f / 10, width - 1)
    } else {
        render_fraction_digits(f, width)
    }
}

/// Writes an amount of smallest units in display units, exactly: the whole
/// units, and behind a point the fraction without trailing zeros, where there
/// is one.
pub fn render_amount(amount: u64) -> (text: String)
    ensures
        text@ == amount_text(display_amount_of(amount)),
{
    let split = to_display_amount(amount);
    let mut text = render_decimal(split.whole);
    if split.fraction != 0 {
        text.append(".");
        text.append(render_fraction(split.fraction, FRACTION_DIGITS).as_str());
    }
    text
}

} // verus!
