//! Decimal text of integers, as `format!("{}", n)` writes them: used for
//! the names of a stage's destinations and of Pulsar clients.

use vstd::prelude::*;
use vstd::string::StringExecFns;

verus! {

/// The character of a decimal digit.
pub open spec fn digit_char(d: nat) -> char {
    if d == 0 {
        '0'
    } else if d == 1 {
        '1'
    } else if d == 2 {
        '2'
    } else if d == 3 {
        '3'
    } else if d == 4 {
        '4'
    } else if d == 5 {
        '5'
    } else if d == 6 {
        '6'
    } else if d == 7 {
        '7'
    } else if d == 8 {
        '8'
    } else {
        '9'
    }
}

/// The decimal text of a natural number, without leading zeros.
pub open spec fn decimal(n: nat) -> Seq<char>
    decreases n,
{
    if n < 10 {
        seq![digit_char(n)]
    } else {
        decimal(n / 10).push(digit_char(n % 10))
    }
}

/// The decimal text of an integer, with a leading `-` when negative.
pub open spec fn signed_decimal(n: int) -> Seq<char> {
    if n < 0 {
        seq!['-'] + decimal((-n) as nat)
    } else {
        decimal(n as nat)
    }
}

/// The text of one digit.
fn digit_text(d: u64) -> (s: &'static str)
    requires
        d < 10,
    ensures
        s@ == seq![digit_char(d as nat)],
{
    proof {
        reveal_strlit("0");
        reveal_strlit("1");
        reveal_strlit("2");
        reveal_strlit("3");
        reveal_strlit("4");
        reveal_strlit("5");
        reveal_strlit("6");
        reveal_strlit("7");
        reveal_strlit("8");
        reveal_strlit("9");
    }
    let s = if d == 0 {
        "0"
    } else if d == 1 {
        "1"
    } else if d == 2 {
        "2"
    } else if d == 3 {
        "3"
    } else if d == 4 {
        "4"
    } else if d == 5 {
        "5"
    } else if d == 6 {
        "6"
    } else if d == 7 {
        "7"
    } else if d == 8 {
        "8"
    } else {
        "9"
    };
    assert(s@ =~= seq![digit_char(d as nat)]);
    s
}

/// Writes a natural number in decimal.
pub fn render_decimal(n: u64) -> (s: String)
    ensures
        s@ == decimal(n as nat),
    decreases n,
{
    if n < 10 {
        <String as StringExecFns>::from_str(digit_text(n))
    } else {
        let mut s = render_decimal(n / 10);
        s.append(digit_text(n % 10));
        s
    }
}

/// Writes an `i32` in decimal, as `format!("{}", n)` does.
pub fn render_i32(n: i32) -> (s: String)
    ensures
        s@ == signed_decimal(n as int),
{
    if n < 0 {
        let magnitude: i64 = -(n as i64);
        let digits = render_decimal(magnitude as u64);
        proof {
            reveal_strlit("-");
        }
        let mut s = <String as StringExecFns>::from_str("-");
        s.append(digits.as_str());
        assert(s@ =~= signed_decimal(n as int));
        s
    } else {
        render_decimal(n as u64)
    }
}

/// Decimal text is written most significant digit first with the digits
/// `0`-`9` as their ASCII characters: the last character is the units digit,
/// what precedes it is the text of the number divided by ten, a number below
/// ten is one character, and only zero starts with `0`. A negative number
/// is a `-` followed by the text of its magnitude.
pub proof fn law_decimal_digits(n: nat, m: int)
    ensures
        forall|d: nat| d < 10 ==> #[trigger] digit_char(d) as int == 48 + d,
        decimal(n).last() == digit_char(n % 10),
        n >= 10 ==> decimal(n).drop_last() == decimal(n / 10),
        n < 10 <==> decimal(n).len() == 1,
        decimal(n)[0] == '0' ==> n == 0,
        m < 0 ==> signed_decimal(m)[0] == '-' && signed_decimal(m).drop_first() == decimal((-m) as nat),
        m >= 0 ==> signed_decimal(m) == decimal(m as nat),
    decreases n,
{
    lemma_decimal_len(n);
    if n >= 10 {
        law_decimal_digits(n / 10, m);
        lemma_decimal_len(n / 10);
        assert(decimal(n)[0] == decimal(n / 10)[0]);
    }
    if m < 0 {
        assert((seq!['-'] + decimal((-m) as nat)).drop_first() =~= decimal((-m) as nat));
    }
}

proof fn lemma_decimal_len(n: nat)
    ensures
        decimal(n).len() >= 1,
        n >= 10 ==> decimal(n).len() >= 2,
    decreases n,
{
    if n >= 10 {
        lemma_decimal_len(n / 10);
    }
}

/// Different numbers have different decimal texts.
pub proof fn law_decimal_injective(a: nat, b: nat)
    ensures
        decimal(a) == decimal(b) ==> a == b,
    decreases a + b,
{
    if decimal(a) == decimal(b) {
        lemma_decimal_len(a);
        lemma_decimal_len(b);
        if a < 10 && b < 10 {
            assert(decimal(a)[0] == digit_char(a));
            assert(decimal(b)[0] == digit_char(b));
        } else if a >= 10 && b >= 10 {
            let da = decimal(a);
            let db = decimal(b);
            assert(da.drop_last() =~= decimal(a / 10));
            assert(db.drop_last() =~= decimal(b / 10));
            assert(da.last() == digit_char(a % 10));
            assert(db.last() == digit_char(b % 10));
            law_decimal_injective(a / 10, b / 10);
        } else if a < 10 {
            lemma_decimal_len(b / 10);
            assert(decimal(b).len() >= 2);
        } else {
            lemma_decimal_len(a / 10);
            assert(decimal(a).len() >= 2);
        }
    }
}

} // verus!
