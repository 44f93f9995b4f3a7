//! The session layer: the value carried by the (encrypted) session cookie,
//! and its recovery on later requests.
use vstd::prelude::*;

verus! {

/// Name of the cookie that carries the session.
pub const SESSION_COOKIE: &'static str = "user_id";

/// The ASCII digit for `d < 10`.
pub open spec fn digit_byte(d: nat) -> u8 {
    (48 + d) as u8
}

pub open spec fn is_digit(b: u8) -> bool {
    48 <= b <= 57
}

/// Canonical decimal text of a natural number, most significant digit first.
pub open spec fn decimal(n: nat) -> Seq<u8>
    decreases n,
{
    if n < 10 {
        seq![digit_byte(n)]
    } else {
        decimal(n / 10).push(digit_byte(n % 10))
    }
}

/// Decimal text of an `i32`, with a leading `-` for negative values.
pub open spec fn i32_text(n: i32) -> Seq<u8> {
    if n < 0 {
        seq![45u8] + decimal((-n) as nat)
    } else {
        decimal(n as nat)
    }
}

pub open spec fn all_digits(s: Seq<u8>) -> bool {
    forall|i: int| 0 <= i < s.len() ==> is_digit(#[trigger] s[i])
}

/// Value of a run of decimal digits.
pub open spec fn digits_value(s: Seq<u8>) -> nat
    decreases s.len(),
{
    if s.len() == 0 {
        0
    } else {
        digits_value(s.drop_last()) * 10 + (s.last() - 48) as nat
    }
}

/// What an `i32` reads as: an optional `+` or `-`, then one or more digits,
/// with the value in range.
pub open spec fn parse_i32(s: Seq<u8>) -> Option<i32> {
    if s.len() > 0 && (s[0] == 45u8 || s[0] == 43u8) {
        let d = s.drop_first();
        if d.len() > 0 && all_digits(d) {
            let v: int = if s[0] == 45u8 { -(digits_value(d) as int) } else { digits_value(d) as int };
            if i32::MIN <= v <= i32::MAX { Some(v as i32) } else { None }
        } else {
            None
        }
    } else if s.len() > 0 && all_digits(s) && digits_value(s) <= i32::MAX {
        Some(digits_value(s) as i32)
    } else {
        None
    }
}

proof fn lemma_decimal(n: nat)
    ensures
        decimal(n).len() > 0,
        all_digits(decimal(n)),
        digits_value(decimal(n)) == n,
    decreases n,
{
    if n >= 10 {
        lemma_decimal(n / 10);
        let s = decimal(n);
        assert(s.drop_last() =~= decimal(n / 10));
        assert(s.last() == digit_byte(n % 10));
        assert((n / 10) * 10 + n % 10 == n);
        assert(digits_value(s) == digits_value(s.drop_last()) * 10 + (s.last() - 48) as nat);
        assert forall|i: int| 0 <= i < s.len() implies is_digit(#[trigger] s[i]) by {
            if i < s.len() - 1 {
                assert(s[i] == decimal(n / 10)[i]);
            }
        }
    } else {
        let s = decimal(n);
        assert(s.drop_last() =~= Seq::<u8>::empty());
        assert(digits_value(s) == digits_value(s.drop_last()) * 10 + (s.last() - 48) as nat);
        assert(digits_value(Seq::<u8>::empty()) == 0);
    }
}

/// Appends the decimal text of `n`.
fn push_decimal(out: &mut Vec<u8>, n: u32)
    ensures
        final(out)@ == old(out)@ + decimal(n as nat),
    decreases n,
{
    if n >= 10 {
        push_decimal(out, n / 10);
    }
    out.push(48u8 + (n % 10) as u8);
    proof {
        if n >= 10 {
            assert(decimal(n as nat) == decimal((n / 10) as nat).push(digit_byte((n % 10) as nat)));
        }
    }
    assert(final(out)@ =~= old(out)@ + decimal(n as nat));
}

/// The session value that binds a session to `user_id`: its decimal text.
pub fn establish(user_id: i32) -> (r: Vec<u8>)
    ensures
        r@ == i32_text(user_id),
{
    let mut out: Vec<u8> = Vec::new();
    if user_id < 0 {
        out.push(45u8);
        let m: u32 = (-(user_id as i64)) as u32;
        push_decimal(&mut out, m);
    } else {
        push_decimal(&mut out, user_id as u32);
    }
    assert(out@ =~= i32_text(user_id));
    out
}

/// Reads a run of digits; the result is the value, capped at `2^31 + 1`.
fn capped_digits(s: &[u8], start: usize) -> (r: u64)
    requires
        start <= s@.len(),
        all_digits(s@.subrange(start as int, s@.len() as int)),
    ensures
        r as int == if digits_value(s@.subrange(start as int, s@.len() as int)) <= 2147483649 {
            digits_value(s@.subrange(start as int, s@.len() as int)) as int
        } else {
            2147483649
        },
{
    let cap: u64 = 2147483649;
    let mut acc: u64 = 0;
    let mut i: usize = start;
    while i < s.len()
        invariant
            start <= i <= s@.len(),
            all_digits(s@.subrange(start as int, s@.len() as int)),
            cap == 2147483649,
            acc <= cap,
            acc as int == if digits_value(s@.subrange(start as int, i as int)) <= cap { digits_value(s@.subrange(start as int, i as int)) as int } else { cap as int },
        decreases s@.len() - i,
    {
        let b = s[i];
        assert(s@.subrange(start as int, s@.len() as int)[i - start] == b);
        let next: u64 = acc * 10 + (b - 48u8) as u64;
        acc = if next > cap { cap } else { next };
        proof {
            let p = s@.subrange(start as int, i + 1);
            assert(p.drop_last() =~= s@.subrange(start as int, i as int));
        }
        i = i + 1;
    }
    assert(s@.subrange(start as int, i as int) =~= s@.subrange(start as int, s@.len() as int));
    acc
}

/// The user id that a session value names; `None` where it does not read as
/// an `i32` (absent, tampered, or holding anything but a decimal number).
pub fn resolve(value: Option<&[u8]>) -> (r: Option<i32>)
    ensures
        r == match value {
            Some(v) => parse_i32(v@),
            None => None,
        },
{
    let v = match value {
        Some(v) => v,
        None => return None,
    };
    let n = v.len();
    if n == 0 {
        return None;
    }
    let signed = v[0] == 45u8 || v[0] == 43u8;
    let start: usize = if signed { 1 } else { 0 };
    if start >= n {
        assert(v@.drop_first().len() == 0);
        return None;
    }
    let mut i: usize = start;
    while i < n
        invariant
            start <= i <= n,
            n == v@.len(),
            value == Some(v),
            signed == (v@[0] == 45u8 || v@[0] == 43u8),
            start == (if signed { 1usize } else { 0usize }),
            all_digits(v@.subrange(start as int, i as int)),
        decreases n - i,
    {
        if !(48u8 <= v[i] && v[i] <= 57u8) {
            assert(!is_digit(v@[i as int]));
            assert(!all_digits(v@.subrange(start as int, n as int))) by {
                assert(v@.subrange(start as int, n as int)[i - start] == v@[i as int]);
            }
            proof {
                let sub = v@.subrange(start as int, n as int);
                assert(!all_digits(sub));
                if signed {
                    assert(start == 1);
                    assert(v@.drop_first() =~= sub);
                    assert(!all_digits(v@.drop_first()));
                } else {
                    assert(start == 0);
                    assert(v@ =~= sub);
                    assert(!all_digits(v@));
                    assert(!(v@[0] == 45u8 || v@[0] == 43u8));
                }
                assert(parse_i32(v@) is None);
            }
            return None;
        }
        assert(v@.subrange(start as int, i + 1) =~= v@.subrange(start as int, i as int).push(v@[i as int]));
        i = i + 1;
    }
    let ghost body = v@.subrange(start as int, n as int);
    proof {
        if signed {
            assert(v@.drop_first() =~= body);
        } else {
            assert(v@ =~= body);
        }
    }
    let mag = capped_digits(v, start);
    if v[0] == 45u8 {
        if mag <= 2147483648 {
            Some((-(mag as i64)) as i32)
        } else {
            None
        }
    } else {
        if mag <= 2147483647 {
            Some(mag as i32)
        } else {
            None
        }
    }
}

/// A session value made for a user resolves to that same user.
pub proof fn lemma_resolve_establish(user_id: i32)
    ensures
        parse_i32(i32_text(user_id)) == Some(user_id),
{
    if user_id < 0 {
        let m = (-user_id) as nat;
        lemma_decimal(m);
        let s = i32_text(user_id);
        assert(s.drop_first() =~= decimal(m));
    } else {
        lemma_decimal(user_id as nat);
        assert(decimal(user_id as nat)[0] != 45u8 && decimal(user_id as nat)[0] != 43u8);
    }
}

} // verus!
