//! Integers as decimal text.

use vstd::prelude::*;

use crate::text::chars_of;
use crate::text::is_digit;

verus! {

pub open spec fn digit_char(d: int) -> char {
    ('0' as int + d) as char
}

/// The decimal digits of a natural number, without leading zeros.
pub open spec fn digits(n: nat) -> Seq<char>
    decreases n,
{
    if n < 10 {
        seq![digit_char(n as int)]
    } else {
        digits(n / 10).push(digit_char((n % 10) as int))
    }
}

/// An integer in decimal, with a `-` where it is negative.
pub open spec fn decimal(n: int) -> Seq<char> {
    if n < 0 {
        seq!['-'] + digits((-n) as nat)
    } else {
        digits(n as nat)
    }
}

fn write_digits(n: u128) -> (r: String)
    ensures
        r@ == digits(n as nat),
    decreases n,
{
    let last = ((n % 10) as u8 + 48) as char;
    if n < 10 {
        let mut r = String::new();
        r.push(last);
        assert(r@ =~= seq![digit_char(n as int)]);
        r
    } else {
        let mut r = write_digits(n / 10);
        r.push(last);
        r
    }
}

pub fn write_decimal(n: i128) -> (r: String)
    ensures
        r@ == decimal(n as int),
{
    if n < 0 {
        let magnitude: u128 = (-(n + 1)) as u128 + 1;
        let tail = write_digits(magnitude);
        let mut r = String::new();
        r.push('-');
        r.append(tail.as_str());
        assert(r@ =~= seq!['-'] + tail@);
        r
    } else {
        write_digits(n as u128)
    }
}

/// The number that a sequence of decimal digits stands for.
pub open spec fn digits_value(s: Seq<char>) -> int
    decreases s.len(),
{
    if s.len() == 0 {
        0
    } else {
        digits_value(s.drop_last()) * 10 + (s.last() as int - '0' as int)
    }
}

pub open spec fn all_digits(s: Seq<char>) -> bool {
    s.len() > 0 && forall|i: int| 0 <= i < s.len() ==> is_digit(#[trigger] s[i])
}

/// What decimal text with an optional sign stands for.
pub open spec fn parsed_int(s: Seq<char>) -> Option<int> {
    if s.len() > 0 && s[0] == '-' {
        if all_digits(s.skip(1)) {
            Some(-digits_value(s.skip(1)))
        } else {
            None
        }
    } else {
        parsed_nat(s)
    }
}

/// What decimal text with an optional `+` stands for.
pub open spec fn parsed_nat(s: Seq<char>) -> Option<int> {
    let body = if s.len() > 0 && s[0] == '+' {
        s.skip(1)
    } else {
        s
    };
    if all_digits(body) {
        Some(digits_value(body))
    } else {
        None
    }
}

pub open spec fn within(n: Option<int>, low: int, high: int) -> Option<int> {
    match n {
        Some(n) => if low <= n <= high {
            Some(n)
        } else {
            None
        },
        None => None,
    }
}

proof fn lemma_value_grows(s: Seq<char>, i: int)
    requires
        0 <= i <= s.len(),
        all_digits(s),
    ensures
        0 <= digits_value(s.take(i)) <= digits_value(s),
    decreases s.len() - i, i,
{
    if i == s.len() {
        assert(s.take(i) =~= s);
        if i > 0 {
            let t = s.take(i - 1);
            assert(s.drop_last() =~= t);
            lemma_nonnegative(t);
        }
    } else {
        lemma_value_grows(s, i + 1);
        assert(s.take(i + 1).drop_last() =~= s.take(i));
        lemma_nonnegative(s.take(i));
    }
}

proof fn lemma_nonnegative(s: Seq<char>)
    requires
        forall|i: int| 0 <= i < s.len() ==> is_digit(#[trigger] s[i]),
    ensures
        0 <= digits_value(s),
    decreases s.len(),
{
    if s.len() > 0 {
        lemma_nonnegative(s.drop_last());
    }
}

/// The value of the digits from `from` on, where they are digits and the value is at
/// most 2^64.
fn read_digits(v: &Vec<char>, from: usize) -> (r: Option<u128>)
    requires
        from <= v@.len(),
    ensures
        match r {
            Some(n) => all_digits(v@.skip(from as int)) && n == digits_value(v@.skip(from as int))
                && n <= 0x1_0000_0000_0000_0000,
            None => !all_digits(v@.skip(from as int)) || digits_value(v@.skip(from as int))
                > 0x1_0000_0000_0000_0000,
        },
{
    let ghost body = v@.skip(from as int);
    if from == v.len() {
        return None;
    }
    let mut i: usize = from;
    while i < v.len()
        invariant
            from <= i <= v@.len(),
            body == v@.skip(from as int),
            forall|j: int| 0 <= j < i - from ==> is_digit(#[trigger] body[j]),
        decreases v.len() - i,
    {
        assert(body[i - from] == v@[i as int]);
        if !('0' <= v[i] && v[i] <= '9') {
            return None;
        }
        i = i + 1;
    }
    let mut n: u128 = 0;
    i = from;
    assert(body.take(0) =~= Seq::empty());
    while i < v.len()
        invariant
            from <= i <= v@.len(),
            body == v@.skip(from as int),
            all_digits(body),
            n == digits_value(body.take(i - from)),
            n <= 0x1_0000_0000_0000_0000,
        decreases v.len() - i,
    {
        assert(body[i - from] == v@[i as int]);
        assert(body.take(i + 1 - from).drop_last() =~= body.take(i - from));
        n = n * 10 + (v[i] as u32 - 48) as u128;
        proof {
            lemma_value_grows(body, i + 1 - from);
        }
        if n > 0x1_0000_0000_0000_0000 {
            return None;
        }
        i = i + 1;
    }
    assert(body.take(i - from) =~= body);
    Some(n)
}

/// The integer from `low` to `high` that `s` stands for; a sign may stand before it.
pub fn parse_signed(s: &str, low: i64, high: i64) -> (r: Option<i64>)
    requires
        low <= 0 <= high,
    ensures
        match r {
            Some(n) => within(parsed_int(s@), low as int, high as int) == Some(n as int),
            None => within(parsed_int(s@), low as int, high as int) is None,
        },
{
    let v = chars_of(s);
    assert(v@.skip(0) =~= v@);
    if v.len() > 0 && v[0] == '-' {
        match read_digits(&v, 1) {
            Some(n) => {
                let value: i128 = -(n as i128);
                if value >= low as i128 {
                    Some(value as i64)
                } else {
                    None
                }
            },
            None => None,
        }
    } else {
        let from: usize = if v.len() > 0 && v[0] == '+' {
            1
        } else {
            0
        };
        match read_digits(&v, from) {
            Some(n) => if n <= high as u128 {
                Some(n as i64)
            } else {
                None
            },
            None => None,
        }
    }
}

pub fn parse_i64(s: &str) -> (r: Option<i64>)
    ensures
        match r {
            Some(n) => within(parsed_int(s@), i64::MIN as int, i64::MAX as int) == Some(n as int),
            None => within(parsed_int(s@), i64::MIN as int, i64::MAX as int) is None,
        },
{
    parse_signed(s, i64::MIN, i64::MAX)
}

pub fn parse_i32(s: &str) -> (r: Option<i32>)
    ensures
        match r {
            Some(n) => within(parsed_int(s@), i32::MIN as int, i32::MAX as int) == Some(n as int),
            None => within(parsed_int(s@), i32::MIN as int, i32::MAX as int) is None,
        },
{
    match parse_signed(s, i32::MIN as i64, i32::MAX as i64) {
        Some(n) => Some(n as i32),
        None => None,
    }
}

} // verus!
