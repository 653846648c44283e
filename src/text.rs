//! Reading command-line items: trimming, splitting at `=`, and decimal numbers.

use vstd::prelude::*;
use vstd::string::*;

verus! {

/// Whether `c` has the Unicode `White_Space` property.
pub open spec fn is_white_space(c: char) -> bool {
    let n = c as u32;
    (9 <= n <= 13) || n == 32 || n == 0x85 || n == 0xa0 || n == 0x1680 || (0x2000 <= n <= 0x200a)
        || n == 0x2028 || n == 0x2029 || n == 0x202f || n == 0x205f || n == 0x3000
}

fn white_space(c: char) -> (r: bool)
    ensures
        r == is_white_space(c),
{
    let n = c as u32;
    (9 <= n && n <= 13) || n == 32 || n == 0x85 || n == 0xa0 || n == 0x1680 || (0x2000 <= n && n
        <= 0x200a) || n == 0x2028 || n == 0x2029 || n == 0x202f || n == 0x205f || n == 0x3000
}

/// The text without its leading white space.
pub open spec fn trim_start(s: Seq<char>) -> Seq<char>
    decreases s.len(),
{
    if s.len() > 0 && is_white_space(s[0]) {
        trim_start(s.skip(1))
    } else {
        s
    }
}

/// The text without its trailing white space.
pub open spec fn trim_end(s: Seq<char>) -> Seq<char>
    decreases s.len(),
{
    if s.len() > 0 && is_white_space(s.last()) {
        trim_end(s.drop_last())
    } else {
        s
    }
}

/// The text without leading and trailing white space.
pub open spec fn trimmed(s: Seq<char>) -> Seq<char> {
    trim_end(trim_start(s))
}

/// The text without leading and trailing white space.
pub fn trim(s: &str) -> (r: String)
    ensures
        r@ == trimmed(s@),
{
    let n = s.unicode_len();
    let mut i: usize = 0;
    assert(s@.skip(0) =~= s@);
    while i < n && white_space(s.get_char(i))
        invariant
            n == s@.len(),
            i <= n,
            trim_start(s@) == trim_start(s@.skip(i as int)),
        decreases n - i,
    {
        assert(s@.skip(i as int).skip(1) =~= s@.skip(i + 1));
        i = i + 1;
    }
    let ghost rest = s@.skip(i as int);
    let mut j: usize = n;
    assert(rest.take(j - i) =~= rest);
    while j > i && white_space(s.get_char(j - 1))
        invariant
            n == s@.len(),
            i <= j <= n,
            rest == s@.skip(i as int),
            trim_end(rest) == trim_end(rest.take(j - i)),
        decreases j,
    {
        assert(rest.take(j - i).drop_last() =~= rest.take(j - 1 - i));
        j = j - 1;
    }
    assert(s@.subrange(i as int, j as int) =~= rest.take(j - i));
    String::from_str(s.substring_char(i, j))
}

/// Whether `p` is where the only `=` of the text stands.
pub open spec fn single_eq_at(s: Seq<char>, p: int) -> bool {
    &&& 0 <= p < s.len()
    &&& s[p] == '='
    &&& forall|q: int| 0 <= q < s.len() && q != p ==> s[q] != '='
}

/// The text before and after its only `=`, when it holds exactly one.
pub fn split_at_single_eq(s: &str) -> (r: Option<(String, String)>)
    ensures
        r is None ==> forall|p: int| !single_eq_at(s@, p),
        r matches Some((a, b)) ==> exists|p: int|
            single_eq_at(s@, p) && a@ == s@.take(p) && b@ == s@.skip(p + 1),
{
    let n = s.unicode_len();
    let mut found: Option<usize> = None;
    let mut i: usize = 0;
    while i < n
        invariant
            n == s@.len(),
            i <= n,
            found matches Some(p) ==> p < i && s@[p as int] == '=' && forall|q: int|
                0 <= q < i && q != p ==> s@[q] != '=',
            found is None ==> forall|q: int| 0 <= q < i ==> s@[q] != '=',
        decreases n - i,
    {
        if s.get_char(i) == '=' {
            if found.is_some() {
                assert forall|p: int| !single_eq_at(s@, p) by {
                    if single_eq_at(s@, p) {
                        let k = found->Some_0;
                        assert(p == k || s@[k as int] != '=');
                        assert(p == i || s@[i as int] != '=');
                    }
                }
                return None;
            }
            found = Some(i);
        }
        i = i + 1;
    }
    match found {
        None => {
            assert forall|p: int| !single_eq_at(s@, p) by {
                if 0 <= p < s@.len() {
                    assert(s@[p] != '=');
                }
            }
            None
        },
        Some(p) => {
            let a = String::from_str(s.substring_char(0, p));
            let b = String::from_str(s.substring_char(p + 1, n));
            assert(single_eq_at(s@, p as int));
            assert(a@ =~= s@.take(p as int));
            assert(b@ =~= s@.skip(p + 1));
            Some((a, b))
        },
    }
}

/// Whether every character of the text is an ASCII digit.
pub open spec fn all_digits(s: Seq<char>) -> bool {
    forall|i: int| 0 <= i < s.len() ==> '0' as u32 <= #[trigger] (s[i] as u32) <= '9' as u32
}

/// The number that a run of decimal digits denotes.
pub open spec fn digits_value(s: Seq<char>) -> int
    decreases s.len(),
{
    if s.len() == 0 {
        0
    } else {
        digits_value(s.drop_last()) * 10 + (s.last() as u32 - '0' as u32)
    }
}

/// The value of a non-empty run of digits that starts at `start`, when it is at most `limit`.
fn parse_digits(s: &str, start: usize, limit: u64) -> (r: Option<u64>)
    requires
        start <= s@.len(),
        limit < u64::MAX,
    ensures
        ({
            let d = s@.skip(start as int);
            match r {
                Some(v) => d.len() > 0 && all_digits(d) && digits_value(d) <= limit && v
                    == digits_value(d),
                None => !(d.len() > 0 && all_digits(d) && digits_value(d) <= limit),
            }
        }),
{
    let n = s.unicode_len();
    let ghost d = s@.skip(start as int);
    let mut i: usize = start;
    let mut acc: u64 = 0;
    assert(d.take(0) =~= Seq::<char>::empty());
    while i < n
        invariant
            n == s@.len(),
            start <= i <= n,
            limit < u64::MAX,
            d == s@.skip(start as int),
            all_digits(d.take(i - start)),
            digits_value(d.take(i - start)) >= 0,
            acc as int == if digits_value(d.take(i - start)) <= limit {
                digits_value(d.take(i - start))
            } else {
                limit + 1
            },
        decreases n - i,
    {
        let c = s.get_char(i);
        if !('0' <= c && c <= '9') {
            assert(d[i - start] == c);
            assert(!('0' as u32 <= (d[i - start] as u32) <= '9' as u32));
            return None;
        }
        let digit = (c as u32 - '0' as u32) as u64;
        let ghost prev = d.take(i - start);
        let ghost next = d.take(i + 1 - start);
        assert(next.drop_last() =~= prev);
        assert(next.last() == c);
        assert(all_digits(next)) by {
            assert forall|k: int| 0 <= k < next.len() implies '0' as u32 <= #[trigger] (next[k] as u32)
                <= '9' as u32 by {
                if k < prev.len() {
                    assert(next[k] == prev[k]);
                }
            }
        }
        if acc > limit {
            acc = limit + 1;
        } else {
            let v = acc as u128 * 10 + digit as u128;
            if v > limit as u128 {
                acc = limit + 1;
            } else {
                acc = v as u64;
            }
        }
        i = i + 1;
    }
    assert(d.take(n - start) =~= d);
    if i > start && acc <= limit {
        Some(acc)
    } else {
        None
    }
}

/// The `u32` a text denotes: an optional `+` and decimal digits, in range.
pub open spec fn parse_u32_spec(s: Seq<char>) -> Option<u32> {
    let d = if s.len() > 0 && s[0] == '+' {
        s.skip(1)
    } else {
        s
    };
    if d.len() > 0 && all_digits(d) && digits_value(d) <= u32::MAX {
        Some(digits_value(d) as u32)
    } else {
        None
    }
}

/// Reads a `u32` written in decimal, with an optional leading `+`.
pub fn parse_u32(s: &str) -> (r: Option<u32>)
    ensures
        r == parse_u32_spec(s@),
{
    let n = s.unicode_len();
    let start: usize = if n > 0 && s.get_char(0) == '+' {
        1
    } else {
        0
    };
    assert(s@.skip(0) =~= s@);
    match parse_digits(s, start, u32::MAX as u64) {
        Some(v) => Some(v as u32),
        None => None,
    }
}

/// The `i64` a text denotes: an optional sign and decimal digits, in range.
pub open spec fn parse_i64_spec(s: Seq<char>) -> Option<i64> {
    if s.len() > 0 && s[0] == '-' {
        let d = s.skip(1);
        if d.len() > 0 && all_digits(d) && digits_value(d) <= 0x8000_0000_0000_0000 {
            Some((-digits_value(d)) as i64)
        } else {
            None
        }
    } else {
        let d = if s.len() > 0 && s[0] == '+' {
            s.skip(1)
        } else {
            s
        };
        if d.len() > 0 && all_digits(d) && digits_value(d) <= i64::MAX {
            Some(digits_value(d) as i64)
        } else {
            None
        }
    }
}

/// Reads an `i64` written in decimal, with an optional leading sign.
pub fn parse_i64(s: &str) -> (r: Option<i64>)
    ensures
        r == parse_i64_spec(s@),
{
    let n = s.unicode_len();
    assert(s@.skip(0) =~= s@);
    if n > 0 && s.get_char(0) == '-' {
        match parse_digits(s, 1, 0x8000_0000_0000_0000) {
            Some(v) => Some((0i128 - v as i128) as i64),
            None => None,
        }
    } else {
        let start: usize = if n > 0 && s.get_char(0) == '+' {
            1
        } else {
            0
        };
        match parse_digits(s, start, i64::MAX as u64) {
            Some(v) => Some(v as i64),
            None => None,
        }
    }
}

} // verus!
