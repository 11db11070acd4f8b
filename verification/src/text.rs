//! Numbers as text: the digits of a number in a radix, and the number that digits stand for.

use vstd::prelude::*;
use vstd::string::*;

verus! {

/// The lower-case character of the digit `d`, for `d` below sixteen.
pub open spec fn digit_char(d: int) -> char {
    if d < 10 {
        (48 + d) as char
    } else {
        (87 + d) as char
    }
}

/// The digits of `n` in `radix`, most significant first, without leading zeros.
pub open spec fn number_text(n: nat, radix: nat) -> Seq<char>
    decreases n,
{
    if radix < 2 || n < radix {
        seq![digit_char(n as int)]
    } else {
        proof {
            assert(n / radix < n) by (nonlinear_arith)
                requires
                    radix >= 2,
                    n >= radix,
            ;
        }
        number_text(n / radix, radix).push(digit_char((n % radix) as int))
    }
}

/// The text of an integer in decimal, with a minus sign where it is negative.
pub open spec fn integer_text(n: int) -> Seq<char> {
    if n < 0 {
        seq!['-'] + number_text((-n) as nat, 10)
    } else {
        number_text(n as nat, 10)
    }
}

/// What the character `c` counts as a digit in `radix`, if it is one.
pub open spec fn digit_value(c: char, radix: nat) -> Option<nat> {
    let v: int = if '0' <= c <= '9' {
        c as int - 48
    } else if 'a' <= c <= 'f' {
        c as int - 87
    } else if 'A' <= c <= 'F' {
        c as int - 55
    } else {
        radix as int
    };
    if v < radix {
        Some(v as nat)
    } else {
        None
    }
}

/// The number that a run of digits stands for, or `None` where a character is no digit.
pub open spec fn digits_value(s: Seq<char>, radix: nat) -> Option<nat>
    decreases s.len(),
{
    if s.len() == 0 {
        Some(0)
    } else {
        match (digits_value(s.drop_last(), radix), digit_value(s.last(), radix)) {
            (Some(v), Some(d)) => Some(v * radix + d),
            _ => None,
        }
    }
}

/// The digits of a numeral: all of it, but for one leading plus sign.
pub open spec fn numeral_digits(s: Seq<char>) -> Seq<char> {
    if s.len() > 0 && s[0] == '+' {
        s.skip(1)
    } else {
        s
    }
}

/// The number that a numeral stands for: an optional plus sign, then one digit or more, with a
/// value of at most `max`. Anything else stands for no number.
pub open spec fn numeral_value(s: Seq<char>, radix: nat, max: nat) -> Option<nat> {
    let digits = numeral_digits(s);
    if digits.len() == 0 {
        None
    } else {
        match digits_value(digits, radix) {
            Some(v) => if v <= max {
                Some(v)
            } else {
                None
            },
            None => None,
        }
    }
}

/// The digits of a number stand for that number.
pub proof fn lemma_digits_of_number(n: nat, radix: nat)
    requires
        2 <= radix <= 16,
    ensures
        number_text(n, radix).len() > 0,
        number_text(n, radix)[0] != '+',
        digits_value(number_text(n, radix), radix) == Some(n),
    decreases n,
{
    reveal_with_fuel(digits_value, 2);
    let text = number_text(n, radix);
    if n < radix {
        assert(text.drop_last() =~= Seq::<char>::empty());
        assert(0 * radix == 0) by (nonlinear_arith);
    } else {
        let q = n / radix;
        assert(q < n && q * radix + n % radix == n && n % radix < radix) by (nonlinear_arith)
            requires
                n >= radix,
                radix >= 2,
                q == n / radix,
        ;
        lemma_digits_of_number(q, radix);
        assert(text.drop_last() =~= number_text(q, radix));
        assert(text[0] == number_text(q, radix)[0]);
    }
}

/// Digits stand for no less than the digits that they extend.
proof fn lemma_prefix_value(s: Seq<char>, k: int, radix: nat)
    requires
        0 <= k <= s.len(),
        radix >= 1,
    ensures
        digits_value(s, radix) matches Some(v) ==> {
            &&& digits_value(s.take(k), radix) matches Some(w)
            &&& w <= v
        },
    decreases s.len(),
{
    if k == s.len() {
        assert(s.take(k) =~= s);
    } else {
        lemma_prefix_value(s.drop_last(), k, radix);
        assert(s.drop_last().take(k) =~= s.take(k));
        if let Some(v) = digits_value(s.drop_last(), radix) {
            assert(v * radix >= v) by (nonlinear_arith)
                requires
                    radix >= 1,
            ;
        }
    }
}

/// The text of the digit `d`.
fn digit_str(d: u8) -> (r: &'static str)
    requires
        d < 16,
    ensures
        r@ == seq![digit_char(d as int)],
{
    proof {
        reveal_strlit("0");
        reveal_strlit("1");
        reveal_strlit("2");
        reveal_strlit("3");
        reveal_strlit("4");
        reveal_strlit("5");
        reveal_strlit("6");
        reveal_strlit("7");
        reveal_strlit("8");
        reveal_strlit("9");
        reveal_strlit("a");
        reveal_strlit("b");
        reveal_strlit("c");
        reveal_strlit("d");
        reveal_strlit("e");
        reveal_strlit("f");
    }
    let r: &'static str = match d {
        0 => "0",
        1 => "1",
        2 => "2",
        3 => "3",
        4 => "4",
        5 => "5",
        6 => "6",
        7 => "7",
        8 => "8",
        9 => "9",
        10 => "a",
        11 => "b",
        12 => "c",
        13 => "d",
        14 => "e",
        _ => "f",
    };
    assert(r@ =~= seq![digit_char(d as int)]);
    r
}

/// Appends the digits of `n` in `radix`.
pub fn append_number(out: &mut String, n: u128, radix: u8)
    requires
        2 <= radix <= 16,
    ensures
        final(out)@ == old(out)@ + number_text(n as nat, radix as nat),
    decreases n,
{
    let r: u128 = radix as u128;
    if n >= r {
        proof {
            assert(n / r < n) by (nonlinear_arith)
                requires
                    n >= r,
                    r >= 2,
            ;
        }
        append_number(out, n / r, radix);
    }
    proof {
        assert(n % r < r) by (nonlinear_arith)
            requires
                r >= 2,
        ;
        if n < r {
            assert(n % r == n) by (nonlinear_arith)
                requires
                    n < r,
            ;
        }
    }
    let d: u8 = (n % r) as u8;
    out.append(digit_str(d));
    assert(out@ =~= old(out)@ + number_text(n as nat, radix as nat));
}

/// Appends the decimal text of `n`.
pub fn append_integer(out: &mut String, n: i64)
    ensures
        final(out)@ == old(out)@ + integer_text(n as int),
{
    let wide: i128 = n as i128;
    if wide < 0 {
        proof {
            reveal_strlit("-");
        }
        out.append("-");
        append_number(out, (-wide) as u128, 10);
        assert(out@ =~= old(out)@ + integer_text(n as int));
    } else {
        append_number(out, wide as u128, 10);
    }
}

/// What `c` counts as a digit in `radix`.
fn digit_of(c: char, radix: u8) -> (r: Option<u8>)
    ensures
        match r {
            Some(d) => digit_value(c, radix as nat) == Some(d as nat) && d < radix,
            None => digit_value(c, radix as nat) is None,
        },
{
    let code: u32 = c as u32;
    let v: u32 = if code >= 48 && code <= 57 {
        code - 48
    } else if code >= 97 && code <= 102 {
        code - 87
    } else if code >= 65 && code <= 70 {
        code - 55
    } else {
        radix as u32
    };
    if v < radix as u32 {
        Some(v as u8)
    } else {
        None
    }
}

/// Reads a numeral in `radix` whose value is at most `max`.
pub fn parse_number(s: &str, radix: u8, max: u128) -> (r: Option<u128>)
    requires
        2 <= radix <= 16,
    ensures
        match r {
            Some(v) => numeral_value(s@, radix as nat, max as nat) == Some(v as nat),
            None => numeral_value(s@, radix as nat, max as nat) is None,
        },
{
    let ghost digits = numeral_digits(s@);
    let ghost signed = s@.len() > 0 && s@[0] == '+';
    let mut value: u128 = 0;
    let mut first: bool = true;
    let mut some: bool = false;
    proof {
        assert(digits.take(0) =~= Seq::<char>::empty());
    }
    for c in it: s.chars()
        invariant
            2 <= radix <= 16,
            it.seq() == s@,
            digits == numeral_digits(s@),
            signed == (s@.len() > 0 && s@[0] == '+'),
            first == (it.index() == 0),
            value <= max,
            ({
                let k: int = if signed && it.index() > 0 {
                    it.index() - 1
                } else {
                    it.index() as int
                };
                &&& some == (k > 0)
                &&& digits_value(digits.take(k), radix as nat) == Some(value as nat)
            }),
    {
        if first && c == '+' {
            first = false;
        } else {
            first = false;
            some = true;
            let ghost k: int = if signed {
                it.index() - 1
            } else {
                it.index() as int
            };
            proof {
                assert(digits.take(k + 1).drop_last() =~= digits.take(k));
                assert(digits.take(k + 1).last() == c);
                lemma_prefix_value(digits, k + 1, radix as nat);
            }
            let d: u8 = match digit_of(c, radix) {
                Some(d) => d,
                None => {
                    return None;
                },
            };
            let scaled: Option<u128> = value.checked_mul(radix as u128);
            let next: Option<u128> = match scaled {
                Some(p) => p.checked_add(d as u128),
                None => None,
            };
            match next {
                Some(v) => {
                    if v > max {
                        return None;
                    }
                    value = v;
                },
                None => {
                    return None;
                },
            }
        }
    }
    proof {
        assert(digits.take(digits.len() as int) =~= digits);
    }
    if some {
        Some(value)
    } else {
        None
    }
}

/// A number's digits are those of the number divided by the radix and then that of the remainder,
/// in lower case; a number below the radix is one digit.
pub proof fn law_number_is_written_by_its_digits(n: nat, radix: nat)
    requires
        2 <= radix <= 16,
    ensures
        n < radix ==> number_text(n, radix).len() == 1,
        n >= radix ==> number_text(n, radix).drop_last() == number_text(n / radix, radix),
        ({
            let d = n as int % radix as int;
            number_text(n, radix).last() as int == (if d < 10 {
                48 + d
            } else {
                87 + d
            })
        }),
{
    assert(n < radix ==> n % radix == n) by (nonlinear_arith);
    assert(0 <= n % radix < radix) by (nonlinear_arith)
        requires
            radix >= 2,
    ;
    if n >= radix {
        assert(number_text(n, radix).drop_last() =~= number_text(n / radix, radix));
    }
}

/// A negative number is written as a minus sign and then the number without it.
pub proof fn law_sign_is_written_first(n: nat)
    ensures
        integer_text(n as int) == number_text(n, 10),
        n > 0 ==> integer_text(-(n as int)).len() == number_text(n, 10).len() + 1,
        n > 0 ==> integer_text(-(n as int))[0] == '-',
        n > 0 ==> integer_text(-(n as int)).skip(1) == number_text(n, 10),
{
    if n > 0 {
        assert(integer_text(-(n as int)).skip(1) =~= number_text(n, 10));
    }
}

/// One plus sign before a numeral makes no difference; without a digit there is no number.
pub proof fn law_plus_sign_makes_no_difference(s: Seq<char>, radix: nat, max: nat)
    ensures
        numeral_value(Seq::<char>::empty(), radix, max) is None,
        numeral_value(seq!['+'], radix, max) is None,
        s.len() > 0 && s[0] != '+' ==> numeral_value(seq!['+'] + s, radix, max) == numeral_value(
            s,
            radix,
            max,
        ),
{
    assert(seq!['+'].skip(1) =~= Seq::<char>::empty());
    assert((seq!['+'] + s).skip(1) =~= s);
}

/// One more digit multiplies what a numeral stands for by the radix and adds to it, as long as the
/// result is not too large; a character that is no digit makes it no numeral, and nothing makes a
/// numeral of what is none.
pub proof fn law_one_more_digit(s: Seq<char>, c: char, radix: nat, max: nat)
    requires
        radix == 10 || radix == 16,
        numeral_digits(s).len() > 0,
    ensures
        ({
            let digit: int = if '0' <= c <= '9' {
                c as int - 48
            } else if radix == 16 && 'a' <= c <= 'f' {
                c as int - 87
            } else if radix == 16 && 'A' <= c <= 'F' {
                c as int - 55
            } else {
                -1
            };
            match numeral_value(s, radix, max) {
                Some(v) => numeral_value(s.push(c), radix, max) == (if digit >= 0 && v * radix
                    + digit <= max {
                    Some((v * radix + digit) as nat)
                } else {
                    None
                }),
                None => numeral_value(s.push(c), radix, max) is None,
            }
        }),
{
    let digits = numeral_digits(s);
    assert(numeral_digits(s.push(c)) =~= digits.push(c));
    assert(digits.push(c).drop_last() =~= digits);
    match digits_value(digits, radix) {
        Some(v) => {
            assert(v <= v * radix) by (nonlinear_arith)
                requires
                    radix >= 1,
            ;
        },
        None => {},
    }
}

/// One character is a numeral exactly if it is a digit.
pub proof fn law_one_digit(c: char, radix: nat, max: nat)
    requires
        radix == 10 || radix == 16,
        max >= 16,
    ensures
        numeral_value(seq![c], radix, max) == (if '0' <= c <= '9' {
            Some((c as int - 48) as nat)
        } else if radix == 16 && 'a' <= c <= 'f' {
            Some((c as int - 87) as nat)
        } else if radix == 16 && 'A' <= c <= 'F' {
            Some((c as int - 55) as nat)
        } else {
            None
        }),
{
    reveal_with_fuel(digits_value, 2);
    assert(seq![c].drop_last() =~= Seq::<char>::empty());
    assert(0 * radix == 0) by (nonlinear_arith);
    if c == '+' {
        assert(seq!['+'].skip(1) =~= Seq::<char>::empty());
    }
}

} // verus!
