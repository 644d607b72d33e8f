//! Reading the control tool's `key:value` replies and writing decimal numbers.
use vstd::prelude::*;
use vstd::string::*;

verus! {

/// Index of the first `c` in `s` at or after `i`, or `s.len()` if there is none.
pub open spec fn find_from(s: Seq<char>, c: char, i: int) -> int
    decreases s.len() - i,
{
    if i < 0 || i >= s.len() {
        s.len() as int
    } else if s[i] == c {
        i
    } else {
        find_from(s, c, i + 1)
    }
}

/// `s` without one trailing line feed, if it ends with one.
pub open spec fn strip_newline(s: Seq<char>) -> Seq<char> {
    if s.len() > 0 && s.last() == '\n' {
        s.drop_last()
    } else {
        s
    }
}

/// The value of a reply: the second colon-delimited field, without a trailing
/// line feed; `None` when the reply holds no colon.
pub open spec fn reply_value(s: Seq<char>) -> Option<Seq<char>> {
    let a = find_from(s, ':', 0);
    if a >= s.len() {
        None
    } else {
        Some(strip_newline(s.subrange(a + 1, find_from(s, ':', a + 1))))
    }
}

pub open spec fn is_digit(c: char) -> bool {
    '0' <= c && c <= '9'
}

pub open spec fn digit_value(c: char) -> int {
    c as int - '0' as int
}

pub open spec fn all_digits(s: Seq<char>) -> bool {
    forall|i: int| 0 <= i < s.len() ==> is_digit(#[trigger] s[i])
}

/// The number that a string of decimal digits denotes.
pub open spec fn digits_value(s: Seq<char>) -> int
    decreases s.len(),
{
    if s.len() == 0 {
        0
    } else {
        digits_value(s.drop_last()) * 10 + digit_value(s.last())
    }
}

pub open spec fn fits_i32(v: int) -> bool {
    i32::MIN <= v <= i32::MAX
}

/// The decimal integer that `s` holds: an optional sign, then one or more
/// digits, with a value that fits in an `i32`.
pub open spec fn int_value(s: Seq<char>) -> Option<int> {
    if s.len() > 0 && (s[0] == '-' || s[0] == '+') {
        let d = s.drop_first();
        let v = if s[0] == '-' { -digits_value(d) } else { digits_value(d) };
        if d.len() > 0 && all_digits(d) && fits_i32(v) { Some(v) } else { None }
    } else if s.len() > 0 && all_digits(s) && fits_i32(digits_value(s)) {
        Some(digits_value(s))
    } else {
        None
    }
}

pub open spec fn digit_char(d: nat) -> char {
    (d + '0' as nat) as char
}

/// The decimal digits of `n`, without leading zeros.
pub open spec fn decimal(n: nat) -> Seq<char>
    decreases n,
{
    if n < 10 {
        seq![digit_char(n)]
    } else {
        decimal(n / 10).push(digit_char(n % 10))
    }
}

/// Position of the first `c` in `s` at or after `start`, or the length of `s`.
fn find_char(s: &str, c: char, start: usize) -> (r: usize)
    requires
        start <= s@.len(),
    ensures
        r == find_from(s@, c, start as int),
{
    let n = s.unicode_len();
    let mut i = start;
    while i < n
        invariant
            n == s@.len(),
            start <= i <= n,
            find_from(s@, c, start as int) == find_from(s@, c, i as int),
        decreases n - i,
    {
        if s.get_char(i) == c {
            return i;
        }
        i = i + 1;
    }
    i
}

/// The value of a `key:value` reply, if it holds a colon.
pub fn reply_field(reply: &str) -> (r: Option<String>)
    ensures
        r matches Some(v) ==> reply_value(reply@) == Some(v@),
        r is None ==> reply_value(reply@) is None,
{
    let n = reply.unicode_len();
    let a = find_char(reply, ':', 0);
    if a >= n {
        return None;
    }
    let b = find_char(reply, ':', a + 1);
    proof {
        lemma_find_from_bounds(reply@, ':', a + 1);
    }
    let field = reply.substring_char(a + 1, b);
    let m = field.unicode_len();
    if m > 0 && field.get_char(m - 1) == '\n' {
        Some(String::from_str(field.substring_char(0, m - 1)))
    } else {
        Some(String::from_str(field))
    }
}

proof fn lemma_find_from_bounds(s: Seq<char>, c: char, i: int)
    requires
        0 <= i <= s.len(),
    ensures
        i <= find_from(s, c, i) <= s.len(),
    decreases s.len() - i,
{
    if i < s.len() && s[i] != c {
        lemma_find_from_bounds(s, c, i + 1);
    }
}

proof fn lemma_digits_value_nonneg(s: Seq<char>)
    requires
        all_digits(s),
    ensures
        digits_value(s) >= 0,
    decreases s.len(),
{
    if s.len() > 0 {
        lemma_digits_value_nonneg(s.drop_last());
    }
}

proof fn lemma_digits_value_prefix(s: Seq<char>, k: int)
    requires
        all_digits(s),
        0 <= k <= s.len(),
    ensures
        digits_value(s.subrange(0, k)) <= digits_value(s),
    decreases s.len(),
{
    if k == s.len() {
        assert(s.subrange(0, k) =~= s);
    } else {
        let t = s.drop_last();
        assert(all_digits(t)) by {
            assert forall|i: int| 0 <= i < t.len() implies is_digit(#[trigger] t[i]) by {
                assert(t[i] == s[i]);
            }
        }
        lemma_digits_value_prefix(t, k);
        assert(t.subrange(0, k) =~= s.subrange(0, k));
        lemma_digits_value_nonneg(t);
        assert(is_digit(s[s.len() - 1]));
    }
}

/// Reads a decimal integer: an optional sign, then one or more digits, with a
/// value that fits in an `i32`.
pub fn parse_int(s: &str) -> (r: Option<i32>)
    ensures
        r matches Some(v) ==> int_value(s@) == Some(v as int),
        r is None ==> int_value(s@) is None,
{
    let n = s.unicode_len();
    if n == 0 {
        return None;
    }
    let c0 = s.get_char(0);
    let neg = c0 == '-';
    let start: usize = if c0 == '-' || c0 == '+' { 1 } else { 0 };
    if start >= n {
        return None;
    }
    let ghost d = s@.subrange(start as int, n as int);
    assert(start == 1 ==> d =~= s@.drop_first());
    assert(start == 0 ==> d =~= s@);
    let mut v: i64 = 0;
    let mut i = start;
    while i < n
        invariant
            n == s@.len(),
            start <= 1,
            start <= i <= n,
            d == s@.subrange(start as int, n as int),
            start == 1 ==> d == s@.drop_first(),
            start == 0 ==> d == s@,
            neg == (s@[0] == '-'),
            (start == 1) == (s@[0] == '-' || s@[0] == '+'),
            all_digits(s@.subrange(start as int, i as int)),
            v == digits_value(s@.subrange(start as int, i as int)),
            0 <= v <= 2147483648,
        decreases n - i,
    {
        let c = s.get_char(i);
        let ghost pre = s@.subrange(start as int, i as int);
        let ghost next = s@.subrange(start as int, i + 1);
        assert(next.drop_last() =~= pre);
        assert(d[i - start] == c);
        if !('0' <= c && c <= '9') {
            assert(!all_digits(d));
            return None;
        }
        assert(all_digits(next)) by {
            assert forall|j: int| 0 <= j < next.len() implies is_digit(#[trigger] next[j]) by {
                if j < pre.len() {
                    assert(next[j] == pre[j]);
                }
            }
        }
        v = v * 10 + (c as u32 - '0' as u32) as i64;
        assert(v == digits_value(next));
        i = i + 1;
        if v > 2147483648 {
            proof {
                if all_digits(d) {
                    lemma_digits_value_prefix(d, i - start);
                    assert(d.subrange(0, i - start) =~= next);
                    assert(digits_value(d) > 2147483648);
                    assert(!fits_i32(digits_value(d)));
                    assert(!fits_i32(-digits_value(d)));
                }
            }
            return None;
        }
    }
    assert(s@.subrange(start as int, i as int) =~= d);
    if neg {
        Some((-v) as i32)
    } else if v > 2147483647 {
        None
    } else {
        Some(v as i32)
    }
}

/// The character of the decimal digit `d`.
fn digit_str(d: u128) -> (r: &'static str)
    requires
        d < 10,
    ensures
        r@ == seq![digit_char(d as nat)],
{
    proof {
        reveal_strlit("0");
        reveal_strlit("1");
        reveal_strlit("2");
        reveal_strlit("3");
        reveal_strlit("4");
        reveal_strlit("5");
        reveal_strlit("6");
        reveal_strlit("7");
        reveal_strlit("8");
        reveal_strlit("9");
    }
    let r = match d {
        0 => "0",
        1 => "1",
        2 => "2",
        3 => "3",
        4 => "4",
        5 => "5",
        6 => "6",
        7 => "7",
        8 => "8",
        _ => "9",
    };
    assert(r@ =~= seq![digit_char(d as nat)]);
    r
}

/// Appends the decimal digits of `n` to `s`.
pub fn push_decimal(s: &mut String, n: u128)
    ensures
        final(s)@ == old(s)@ + decimal(n as nat),
    decreases n,
{
    if n >= 10 {
        push_decimal(s, n / 10);
    }
    s.append(digit_str(n % 10));
    proof {
        if n >= 10 {
            assert(decimal(n as nat) == decimal((n / 10) as nat).push(digit_char((n % 10) as nat)));
        }
    }
    assert(s@ =~= old(s)@ + decimal(n as nat));
}

proof fn lemma_find_from_skip(s: Seq<char>, c: char, i: int, j: int)
    requires
        0 <= i <= j <= s.len(),
        forall|k: int| i <= k < j ==> s[k] != c,
        j == s.len() || s[j] == c,
    ensures
        find_from(s, c, i) == j,
    decreases j - i,
{
    if i < j {
        lemma_find_from_skip(s, c, i + 1, j);
    }
}

/// The decimal digits of `n` are digits, and denote `n`.
pub proof fn lemma_decimal_value(n: nat)
    ensures
        decimal(n).len() > 0,
        all_digits(decimal(n)),
        digits_value(decimal(n)) == n,
    decreases n,
{
    if n >= 10 {
        lemma_decimal_value(n / 10);
        let d = decimal(n);
        assert(d.drop_last() =~= decimal(n / 10));
        assert(digit_value(digit_char(n % 10)) == n % 10);
        assert(n == (n / 10) * 10 + n % 10);
        assert(d.last() == digit_char(n % 10));
        assert(digits_value(d) == digits_value(decimal(n / 10)) * 10 + digit_value(d.last()));
        assert forall|i: int| 0 <= i < d.len() implies is_digit(#[trigger] d[i]) by {
            if i < d.len() - 1 {
                assert(d[i] == decimal(n / 10)[i]);
            }
        }
    } else {
        assert(digit_value(digit_char(n)) == n);
        assert(decimal(n).drop_last() =~= Seq::<char>::empty());
        assert(digits_value(decimal(n)) == digits_value(Seq::<char>::empty()) * 10 + digit_value(digit_char(n)));
    }
}

/// A reply that holds a key without a colon, a colon, the decimal digits of a
/// percentage and a line feed reads back as that percentage.
pub proof fn lemma_reply_round_trip(key: Seq<char>, p: nat)
    requires
        forall|i: int| 0 <= i < key.len() ==> key[i] != ':',
        p <= 100,
    ensures
        reply_value(key + seq![':'] + decimal(p) + seq!['\n']) == Some(decimal(p)),
        int_value(decimal(p)) == Some(p as int),
{
    let d = decimal(p);
    let s = key + seq![':'] + d + seq!['\n'];
    lemma_decimal_value(p);
    assert(forall|k: int| 0 <= k < key.len() ==> s[k] == key[k]);
    lemma_find_from_skip(s, ':', 0, key.len() as int);
    let a = key.len() + 1int;
    assert forall|k: int| a <= k < s.len() implies s[k] != ':' by {
        if k < s.len() - 1 {
            assert(s[k] == d[k - a]);
            assert(is_digit(d[k - a]));
        }
    }
    lemma_find_from_skip(s, ':', a, s.len() as int);
    assert(s.subrange(a, s.len() as int) =~= d + seq!['\n']);
    assert((d + seq!['\n']).drop_last() =~= d);
    assert(is_digit(d[0]));
}

} // verus!
