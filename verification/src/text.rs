//! Decimal text: how a pid is written on the daemon's input and read back
//! from its output.
use vstd::prelude::*;
use vstd::string::*;

verus! {

/// The character of one decimal digit.
pub open spec fn digit_char(d: int) -> char {
    if d == 0 {
        '0'
    } else if d == 1 {
        '1'
    } else if d == 2 {
        '2'
    } else if d == 3 {
        '3'
    } else if d == 4 {
        '4'
    } else if d == 5 {
        '5'
    } else if d == 6 {
        '6'
    } else if d == 7 {
        '7'
    } else if d == 8 {
        '8'
    } else {
        '9'
    }
}

/// Whether `c` is one of `'0'` to `'9'`.
pub open spec fn is_digit(c: char) -> bool {
    '0' <= c && c <= '9'
}

/// The value of a decimal digit character.
pub open spec fn digit_value(c: char) -> int {
    c as int - '0' as int
}

/// The digits of a natural number, most significant first, without leading
/// zeros; zero is written `0`.
pub open spec fn decimal_digits(n: nat) -> Seq<char>
    decreases n,
{
    if n < 10 {
        seq![digit_char(n as int)]
    } else {
        decimal_digits(n / 10).push(digit_char((n % 10) as int))
    }
}

/// An integer in decimal, with a leading `-` when it is negative.
pub open spec fn decimal(i: int) -> Seq<char> {
    if i < 0 {
        seq!['-'] + decimal_digits((-i) as nat)
    } else {
        decimal_digits(i as nat)
    }
}

/// Whether every character of `s` is a decimal digit.
pub open spec fn all_digits(s: Seq<char>) -> bool {
    forall|i: int| 0 <= i < s.len() ==> is_digit(#[trigger] s[i])
}

/// The number that a run of decimal digits writes; leading zeros count for
/// nothing and the empty run is zero.
pub open spec fn digits_value(s: Seq<char>) -> nat
    decreases s.len(),
{
    if s.len() == 0 {
        0
    } else {
        (10 * digits_value(s.drop_last()) + digit_value(s.last())) as nat
    }
}

/// The number written by a non-empty run of digits, if it is one.
pub open spec fn parse_decimal(s: Seq<char>) -> Option<nat> {
    if s.len() > 0 && all_digits(s) {
        Some(digits_value(s))
    } else {
        None
    }
}

/// Reading back what `decimal_digits` wrote gives the number again.
pub proof fn decimal_digits_round_trip(n: nat)
    ensures
        decimal_digits(n).len() > 0,
        all_digits(decimal_digits(n)),
        digits_value(decimal_digits(n)) == n,
    decreases n,
{
    if n < 10 {
        let s = decimal_digits(n);
        assert(s.drop_last().len() == 0);
        assert(digits_value(s.drop_last()) == 0);
        assert(s.last() == digit_char(n as int));
    } else {
        decimal_digits_round_trip(n / 10);
        let front = decimal_digits(n / 10);
        let s = front.push(digit_char((n % 10) as int));
        assert(s.drop_last() =~= front);
        assert(s.last() == digit_char((n % 10) as int));
        assert forall|i: int| 0 <= i < s.len() implies is_digit(#[trigger] s[i]) by {
            if i < front.len() {
                assert(s[i] == front[i]);
            }
        }
    }
}

/// The text of one digit.
fn digit_str(d: u32) -> (s: &'static str)
    requires
        d < 10,
    ensures
        s@ == seq![digit_char(d as int)],
{
    proof {
        reveal_strlit("0");
        reveal_strlit("1");
        reveal_strlit("2");
        reveal_strlit("3");
        reveal_strlit("4");
        reveal_strlit("5");
        reveal_strlit("6");
        reveal_strlit("7");
        reveal_strlit("8");
        reveal_strlit("9");
    }
    let s = if d == 0 {
        "0"
    } else if d == 1 {
        "1"
    } else if d == 2 {
        "2"
    } else if d == 3 {
        "3"
    } else if d == 4 {
        "4"
    } else if d == 5 {
        "5"
    } else if d == 6 {
        "6"
    } else if d == 7 {
        "7"
    } else if d == 8 {
        "8"
    } else {
        "9"
    };
    assert(s@ =~= seq![digit_char(d as int)]);
    s
}

/// Writes a natural number in decimal.
pub fn decimal_digits_string(n: u32) -> (s: String)
    ensures
        s@ == decimal_digits(n as nat),
{
    let mut rest: u32 = n / 10;
    let mut s = String::from_str(digit_str(n % 10));
    proof {
        if n < 10 {
            assert(n % 10 == n);
            assert(decimal_digits(n as nat) =~= s@);
        } else {
            assert(decimal_digits(n as nat) =~= decimal_digits(rest as nat) + s@);
        }
    }
    // `s` holds the digits of `n` that stand after those of `rest`.
    while rest > 0
        invariant
            rest == 0 ==> s@ == decimal_digits(n as nat),
            rest > 0 ==> decimal_digits(n as nat) == decimal_digits(rest as nat) + s@,
        decreases rest,
    {
        let d: u32 = rest % 10;
        let next: u32 = rest / 10;
        let ghost before = s@;
        s = String::from_str(digit_str(d)).concat(s.as_str());
        proof {
            assert(s@ =~= seq![digit_char(d as int)] + before);
            if next == 0 {
                assert(rest < 10);
                assert(decimal_digits(rest as nat) =~= seq![digit_char(d as int)]);
            } else {
                assert(decimal_digits(rest as nat) == decimal_digits(next as nat).push(
                    digit_char(d as int),
                ));
                assert(decimal_digits(next as nat).push(digit_char(d as int)) + before
                    =~= decimal_digits(next as nat) + s@);
            }
        }
        rest = next;
    }
    s
}

/// Writes a pid, or any `i32`, in decimal.
pub fn decimal_string(i: i32) -> (s: String)
    ensures
        s@ == decimal(i as int),
{
    if i < 0 {
        let wide: i64 = i as i64;
        let magnitude: u32 = (0 - wide) as u32;
        let digits = decimal_digits_string(magnitude);
        proof {
            reveal_strlit("-");
            assert("-"@ =~= seq!['-']);
        }
        String::from_str("-").concat(digits.as_str())
    } else {
        decimal_digits_string(i as u32)
    }
}

/// Reads a pid from a run of decimal digits.
///
/// Gives the number exactly when `digits` is a non-empty run of the
/// characters `0` to `9` whose value fits an `i32`.
pub fn parse_pid(digits: &str) -> (pid: Option<i32>)
    ensures
        pid == match parse_decimal(digits@) {
            Some(n) => if n <= i32::MAX { Some(n as i32) } else { None },
            None => None,
        },
{
    let len: usize = digits.unicode_len();
    if len == 0 {
        return None;
    }
    let mut value: i32 = 0;
    let mut i: usize = 0;
    while i < len
        invariant
            len == digits@.len(),
            0 <= i <= len,
            all_digits(digits@.take(i as int)),
            value >= 0,
            value as int == digits_value(digits@.take(i as int)),
        decreases len - i,
    {
        let c: char = digits.get_char(i);
        let ghost prefix = digits@.take(i as int);
        let ghost longer = digits@.take(i + 1);
        proof {
            assert(longer.drop_last() =~= prefix);
            assert(longer.last() == c);
        }
        if !('0' <= c && c <= '9') {
            proof {
                assert(digits@[i as int] == c);
                assert(!all_digits(digits@));
            }
            return None;
        }
        let d: i32 = (c as u32 - '0' as u32) as i32;
        proof {
            assert(d as int == digit_value(c));
            assert(digits_value(longer) == 10 * digits_value(prefix) + digit_value(c));
        }
        let next = match value.checked_mul(10) {
            Some(tens) => tens.checked_add(d),
            None => None,
        };
        match next {
            Some(v) => {
                value = v;
            },
            None => {
                proof {
                    assert(digits_value(longer) > i32::MAX);
                    if all_digits(digits@) {
                        lemma_digits_value_grows(digits@, i + 1);
                    }
                }
                return None;
            },
        }
        proof {
            assert forall|k: int| 0 <= k < longer.len() implies is_digit(#[trigger] longer[k]) by {
                if k < prefix.len() {
                    assert(longer[k] == prefix[k]);
                }
            }
        }
        i = i + 1;
    }
    proof {
        assert(digits@.take(len as int) =~= digits@);
    }
    Some(value)
}

/// A run of digits writes at least what any of its prefixes writes.
pub proof fn lemma_digits_value_grows(s: Seq<char>, k: int)
    requires
        0 <= k <= s.len(),
        all_digits(s),
    ensures
        digits_value(s.take(k)) <= digits_value(s),
    decreases s.len() - k,
{
    if k < s.len() {
        lemma_digits_value_grows(s, k + 1);
        let longer = s.take(k + 1);
        assert(longer.drop_last() =~= s.take(k));
        assert(is_digit(s[k]));
        assert(longer.last() == s[k]);
    } else {
        assert(s.take(k) =~= s);
    }
}

} // verus!
