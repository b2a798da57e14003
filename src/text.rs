//! Character-level helpers on strings: equality, substring search, separator
//! normalisation and unsigned number parsing.
use vstd::prelude::*;

verus! {

/// The characters of `s` with every backslash turned into a forward slash.
pub open spec fn forward_slashes(s: Seq<char>) -> Seq<char> {
    s.map_values(|c: char| if c == '\\' { '/' } else { c })
}

/// `pat` occurs in `s` starting at position `i`.
pub open spec fn occurs_at(s: Seq<char>, pat: Seq<char>, i: int) -> bool {
    0 <= i && i + pat.len() <= s.len() && s.subrange(i, i + pat.len()) == pat
}

/// `pat` occurs somewhere in `s`.
pub open spec fn has_substring(s: Seq<char>, pat: Seq<char>) -> bool {
    exists|i: int| occurs_at(s, pat, i)
}

/// The value of `c` as a digit in base `radix`, if it is one.
pub open spec fn digit_of(c: char, radix: nat) -> Option<nat> {
    let u = c as u32;
    let d: int = if '0' as u32 <= u && u <= '9' as u32 {
        u - '0' as u32
    } else if 'a' as u32 <= u && u <= 'z' as u32 {
        u - 'a' as u32 + 10
    } else if 'A' as u32 <= u && u <= 'Z' as u32 {
        u - 'A' as u32 + 10
    } else {
        36
    };
    if d < radix {
        Some(d as nat)
    } else {
        None
    }
}

/// Every character of `s` is a digit in base `radix`.
pub open spec fn all_digits(s: Seq<char>, radix: nat) -> bool {
    forall|i: int| 0 <= i < s.len() ==> (#[trigger] digit_of(s[i], radix)).is_some()
}

/// The number written by the digits `s` in base `radix`, most significant first.
pub open spec fn digits_value(s: Seq<char>, radix: nat) -> nat
    decreases s.len(),
{
    if s.len() == 0 {
        0
    } else {
        digits_value(s.drop_last(), radix) * radix + digit_of(s.last(), radix).unwrap_or(0)
    }
}

/// The unsigned number that `s` spells in base `radix`: an optional `+`, then
/// at least one digit, nothing else (the grammar of Rust's integer parsing).
pub open spec fn unsigned_value(s: Seq<char>, radix: nat) -> Option<nat> {
    let body = if s.len() > 0 && s[0] == '+' {
        s.drop_first()
    } else {
        s
    };
    if body.len() > 0 && all_digits(body, radix) {
        Some(digits_value(body, radix))
    } else {
        None
    }
}

/// `unsigned_value`, kept only where it is at most `max`.
pub open spec fn bounded_value(s: Seq<char>, radix: nat, max: nat) -> Option<nat> {
    match unsigned_value(s, radix) {
        Some(v) => if v <= max {
            Some(v)
        } else {
            None
        },
        None => None,
    }
}

/// A value known to fit, carried over to `u64`.
pub open spec fn as_u64(o: Option<nat>) -> Option<u64> {
    match o {
        Some(v) => Some(v as u64),
        None => None,
    }
}

/// `s` starts with `0x` or `0X`.
pub open spec fn has_hex_prefix(s: Seq<char>) -> bool {
    s.len() >= 2 && s[0] == '0' && (s[1] == 'x' || s[1] == 'X')
}

/// A number written in hexadecimal after a `0x` / `0X` prefix, else in decimal.
pub open spec fn hex_or_decimal_value(s: Seq<char>, max: nat) -> Option<nat> {
    if has_hex_prefix(s) {
        bounded_value(s.subrange(2, s.len() as int), 16, max)
    } else {
        bounded_value(s, 10, max)
    }
}

/// Whether the two strings hold the same characters.
pub fn str_eq(a: &str, b: &str) -> (r: bool)
    ensures
        r == (a@ == b@),
{
    let n = a.unicode_len();
    if n != b.unicode_len() {
        return false;
    }
    let mut i: usize = 0;
    while i < n
        invariant
            n == a@.len(),
            n == b@.len(),
            i <= n,
            forall|j: int| 0 <= j < i ==> a@[j] == b@[j],
        decreases n - i,
    {
        if a.get_char(i) != b.get_char(i) {
            return false;
        }
        i += 1;
    }
    assert(a@ =~= b@);
    true
}

/// Whether `pat` occurs in `s`.
pub fn str_contains(s: &str, pat: &str) -> (r: bool)
    ensures
        r == has_substring(s@, pat@),
{
    let n = s.unicode_len();
    let m = pat.unicode_len();
    if m > n {
        assert forall|i: int| !occurs_at(s@, pat@, i) by {}
        return false;
    }
    let mut i: usize = 0;
    while i <= n - m
        invariant
            n == s@.len(),
            m == pat@.len(),
            m <= n,
            i <= n - m + 1,
            forall|k: int| 0 <= k < i ==> !occurs_at(s@, pat@, k),
        decreases n - m + 1 - i,
    {
        let mut j: usize = 0;
        let mut same = true;
        while j < m
            invariant
                n == s@.len(),
                m == pat@.len(),
                i + m <= n,
                j <= m,
                same == (forall|l: int| 0 <= l < j ==> s@[i + l] == pat@[l]),
            decreases m - j,
        {
            if s.get_char(i + j) != pat.get_char(j) {
                same = false;
            }
            j += 1;
        }
        if same {
            assert(s@.subrange(i as int, i + m) =~= pat@);
            assert(occurs_at(s@, pat@, i as int));
            return true;
        }
        assert(!occurs_at(s@, pat@, i as int)) by {
            if occurs_at(s@, pat@, i as int) {
                assert forall|l: int| 0 <= l < m implies s@[i + l] == pat@[l] by {
                    assert(s@.subrange(i as int, i + m)[l] == s@[i + l]);
                }
            }
        }
        i += 1;
    }
    assert forall|k: int| !occurs_at(s@, pat@, k) by {
        if 0 <= k && k < i {
        }
    }
    false
}

/// Relies on `str::replace` with a `char` pattern: every backslash is replaced
/// by one forward slash and all other characters stay in place.
#[verifier::external_body]
fn replace_backslashes(s: &str) -> (r: String)
    ensures
        r@ == forward_slashes(s@),
{
    s.replace('\\', "/")
}

/// A copy of `s` in which every backslash is a forward slash.
pub fn normalize_path(s: &str) -> (r: String)
    ensures
        r@ == forward_slashes(s@),
        forall|i: int| 0 <= i < r@.len() ==> r@[i] != '\\',
{
    replace_backslashes(s)
}

fn digit(c: char, radix: u32) -> (r: Option<u32>)
    requires
        2 <= radix <= 36,
    ensures
        r matches Some(d) ==> digit_of(c, radix as nat) == Some(d as nat),
        r is None ==> digit_of(c, radix as nat) is None,
{
    let u = c as u32;
    let d: u32 = if '0' as u32 <= u && u <= '9' as u32 {
        u - '0' as u32
    } else if 'a' as u32 <= u && u <= 'z' as u32 {
        u - 'a' as u32 + 10
    } else if 'A' as u32 <= u && u <= 'Z' as u32 {
        u - 'A' as u32 + 10
    } else {
        36
    };
    if d < radix {
        Some(d)
    } else {
        None
    }
}

/// Parses the characters of `s` from `start` on as an unsigned number in base
/// `radix` that must not exceed `max`.
fn parse_from(s: &str, start: usize, radix: u32, max: u64) -> (r: Option<u64>)
    requires
        2 <= radix <= 36,
        start <= s@.len(),
    ensures
        r == as_u64(bounded_value(s@.subrange(start as int, s@.len() as int), radix as nat, max as nat)),
{
    let ghost t = s@.subrange(start as int, s@.len() as int);
    let n = s.unicode_len();
    let mut first = start;
    if start < n && s.get_char(start) == '+' {
        first = start + 1;
        assert(t[0] == '+');
        assert(t.drop_first() =~= s@.subrange(first as int, n as int));
    } else {
        assert(t =~= s@.subrange(first as int, n as int));
    }
    let ghost body = s@.subrange(first as int, n as int);
    assert(body == if t.len() > 0 && t[0] == '+' {
        t.drop_first()
    } else {
        t
    });
    if first == n {
        return None;
    }
    let cap: u128 = max as u128 + 1;
    let mut acc: u128 = 0;
    let mut i: usize = first;
    while i < n
        invariant
            n == s@.len(),
            first <= i <= n,
            2 <= radix <= 36,
            cap == max + 1,
            body == s@.subrange(first as int, n as int),
            t == s@.subrange(start as int, n as int),
            body == if t.len() > 0 && t[0] == '+' {
                t.drop_first()
            } else {
                t
            },
            all_digits(s@.subrange(first as int, i as int), radix as nat),
            acc as int == if digits_value(s@.subrange(first as int, i as int), radix as nat) < cap {
                digits_value(s@.subrange(first as int, i as int), radix as nat) as int
            } else {
                cap as int
            },
        decreases n - i,
    {
        let c = s.get_char(i);
        let ghost pre = s@.subrange(first as int, i as int);
        let ghost next = s@.subrange(first as int, i + 1);
        assert(next.drop_last() =~= pre);
        assert(next.last() == c);
        match digit(c, radix) {
            None => {
                assert(body[i - first] == c);
                assert(digit_of(body[i - first], radix as nat) is None);
                assert(!all_digits(body, radix as nat));
                assert(unsigned_value(t, radix as nat) is None);
                return None;
            },
            Some(d) => {
                let ghost v = digits_value(pre, radix as nat);
                assert(digits_value(next, radix as nat) == v * radix + d);
                if acc == cap {
                    assert(v * radix + d >= v) by (nonlinear_arith)
                        requires radix >= 2;
                    acc = cap;
                } else {
                    assert(acc * radix + d <= cap * 36 + 36) by (nonlinear_arith)
                        requires acc <= cap, radix <= 36, d < 36;
                    let w = acc * (radix as u128) + d as u128;
                    if w < cap {
                        acc = w;
                    } else {
                        acc = cap;
                    }
                }
                assert forall|k: int| 0 <= k < next.len() implies (#[trigger] digit_of(next[k], radix as nat)).is_some() by {
                    if k < pre.len() {
                        assert(next[k] == pre[k]);
                    }
                }
            },
        }
        i += 1;
    }
    assert(s@.subrange(first as int, n as int) =~= body);
    if acc == cap {
        None
    } else {
        Some(acc as u64)
    }
}

/// Parses `s` as an unsigned decimal number no larger than `max`, with Rust's
/// grammar for unsigned integers.
pub fn parse_decimal(s: &str, max: u64) -> (r: Option<u64>)
    ensures
        r == as_u64(bounded_value(s@, 10, max as nat)),
{
    assert(s@.subrange(0, s@.len() as int) =~= s@);
    parse_from(s, 0, 10, max)
}

/// Parses `s` as an unsigned number no larger than `max`: hexadecimal after a
/// `0x` or `0X` prefix, decimal otherwise.
pub fn parse_hex_or_decimal(s: &str, max: u64) -> (r: Option<u64>)
    ensures
        r == as_u64(hex_or_decimal_value(s@, max as nat)),
{
    let n = s.unicode_len();
    if n >= 2 && s.get_char(0) == '0' {
        let c = s.get_char(1);
        if c == 'x' || c == 'X' {
            return parse_from(s, 2, 16, max);
        }
    }
    parse_decimal(s, max)
}

} // verus!
