use vstd::prelude::*;
use vstd::string::*;

verus! {

/// Whether two strings hold the same characters.
pub fn same_text(a: &str, b: &str) -> (r: bool)
    ensures
        r == (a@ == b@),
{
    let n = a.unicode_len();
    let m = b.unicode_len();
    if n != m {
        return false;
    }
    let mut i: usize = 0;
    while i < n
        invariant
            n == a@.len(),
            m == b@.len(),
            n == m,
            i <= n,
            forall|k: int| 0 <= k < i ==> a@[k] == b@[k],
        decreases n - i,
    {
        if a.get_char(i) != b.get_char(i) {
            return false;
        }
        i = i + 1;
    }
    assert(a@ =~= b@);
    true
}

/// The decimal digit for a value below ten.
pub open spec fn digit_char(d: nat) -> char {
    if d == 0 {
        '0'
    } else if d == 1 {
        '1'
    } else if d == 2 {
        '2'
    } else if d == 3 {
        '3'
    } else if d == 4 {
        '4'
    } else if d == 5 {
        '5'
    } else if d == 6 {
        '6'
    } else if d == 7 {
        '7'
    } else if d == 8 {
        '8'
    } else {
        '9'
    }
}

/// The decimal digits of a natural number, most significant first, without
/// leading zeros (zero is written "0").
pub open spec fn decimal(n: nat) -> Seq<char>
    decreases n,
{
    if n < 10 {
        seq![digit_char(n)]
    } else {
        decimal(n / 10) + seq![digit_char(n % 10)]
    }
}

fn digit_str(d: u64) -> (r: &'static str)
    requires
        d < 10,
    ensures
        r@ == seq![digit_char(d as nat)],
{
    proof {
        reveal_strlit("0");
        reveal_strlit("1");
        reveal_strlit("2");
        reveal_strlit("3");
        reveal_strlit("4");
        reveal_strlit("5");
        reveal_strlit("6");
        reveal_strlit("7");
        reveal_strlit("8");
        reveal_strlit("9");
    }
    let r = if d == 0 {
        "0"
    } else if d == 1 {
        "1"
    } else if d == 2 {
        "2"
    } else if d == 3 {
        "3"
    } else if d == 4 {
        "4"
    } else if d == 5 {
        "5"
    } else if d == 6 {
        "6"
    } else if d == 7 {
        "7"
    } else if d == 8 {
        "8"
    } else {
        "9"
    };
    assert(r@ =~= seq![digit_char(d as nat)]);
    r
}

/// Appends the decimal digits of `n`.
pub fn push_decimal(out: &mut String, n: u64)
    ensures
        final(out)@ == old(out)@ + decimal(n as nat),
    decreases n,
{
    if n >= 10 {
        push_decimal(out, n / 10);
    }
    out.append(digit_str(n % 10));
    assert(final(out)@ =~= old(out)@ + decimal(n as nat));
}

/// A value in hundredths rounded to the nearest tenth, halves upward.
pub open spec fn rounded_tenths(hundredths: int) -> int {
    (hundredths + 5) / 10
}

pub open spec fn abs(x: int) -> nat {
    if x < 0 {
        (-x) as nat
    } else {
        x as nat
    }
}

/// A value given in hundredths, written with exactly one decimal place:
/// a minus sign for a negative value (also where it rounds to zero), the
/// whole part, a point and the tenths digit.
pub open spec fn one_decimal(hundredths: int) -> Seq<char> {
    let m = abs(rounded_tenths(hundredths));
    (if hundredths < 0 {
        seq!['-']
    } else {
        Seq::<char>::empty()
    }) + decimal(m / 10) + seq!['.', digit_char(m % 10)]
}

pub open spec fn is_digit(c: char) -> bool {
    '0' <= c && c <= '9'
}

proof fn lemma_decimal_digits(n: nat)
    ensures
        decimal(n).len() >= 1,
        forall|k: int| 0 <= k < decimal(n).len() ==> is_digit(#[trigger] decimal(n)[k]),
    decreases n,
{
    if n >= 10 {
        lemma_decimal_digits(n / 10);
        let d = decimal(n);
        assert forall|k: int| 0 <= k < d.len() implies is_digit(#[trigger] d[k]) by {
            if k < decimal(n / 10).len() {
                assert(d[k] == decimal(n / 10)[k]);
            }
        }
    }
}

/// A value written with one decimal place ends in a point and exactly one
/// digit; before the point stand only digits, at least one, after an
/// optional minus sign.
pub proof fn lemma_one_decimal_shape(hundredths: int)
    ensures
        ({
            let s = one_decimal(hundredths);
            let sign: int = if hundredths < 0 { 1 } else { 0 };
            &&& s.len() >= sign + 3
            &&& s[s.len() - 2] == '.'
            &&& is_digit(s[s.len() - 1])
            &&& hundredths < 0 ==> s[0] == '-'
            &&& forall|k: int| sign <= k < s.len() - 2 ==> is_digit(#[trigger] s[k])
        }),
{
    let m = abs(rounded_tenths(hundredths));
    lemma_decimal_digits(m / 10);
    let s = one_decimal(hundredths);
    let sign: int = if hundredths < 0 { 1 } else { 0 };
    let d = decimal(m / 10);
    assert forall|k: int| sign <= k < s.len() - 2 implies is_digit(#[trigger] s[k]) by {
        assert(s[k] == d[k - sign]);
    }
}

/// Appends a value given in hundredths, written with one decimal place.
pub fn push_one_decimal(out: &mut String, hundredths: i64)
    ensures
        final(out)@ == old(out)@ + one_decimal(hundredths as int),
{
    let ghost before = out@;
    let m: u64;
    if hundredths < 0 {
        let mag: u64 = (-(hundredths as i128)) as u64;
        m = (mag + 4) / 10;
        assert(abs(rounded_tenths(hundredths as int)) == m) by {
            let h = hundredths as int;
            assert(mag as int == -h);
            assert((h + 5) / 10 == -(((mag as int) + 4) / 10));
        }
        proof {
            reveal_strlit("-");
        }
        out.append("-");
    } else {
        m = ((hundredths as u64) + 5) / 10;
    }
    push_decimal(out, m / 10);
    proof {
        reveal_strlit(".");
    }
    out.append(".");
    out.append(digit_str(m % 10));
    assert(out@ =~= before + one_decimal(hundredths as int));
}

} // verus!
