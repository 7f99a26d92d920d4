//! Small verified text utilities: searching for a separator, parsing a
//! decimal port number, and formatting one back.

use vstd::prelude::*;
use vstd::string::StrSliceExecFns;

verus! {

/// Index of the first occurrence of `c` in `s` at or after `i`, if any.
pub open spec fn spec_find(s: Seq<char>, c: char, i: int) -> Option<int>
    decreases s.len() - i,
{
    if i < 0 || i >= s.len() {
        None
    } else if s[i] == c {
        Some(i)
    } else {
        spec_find(s, c, i + 1)
    }
}

/// First occurrence of `c` in `s` at or after `from`.
pub fn find_char_from(s: &str, c: char, from: usize) -> (r: Option<usize>)
    requires
        from <= s@.len(),
    ensures
        r matches Some(i) ==> from <= i < s@.len() && spec_find(s@, c, from as int) == Some(
            i as int,
        ),
        r is None ==> spec_find(s@, c, from as int) is None,
{
    let n = s.unicode_len();
    let mut i = from;
    while i < n
        invariant
            from <= i <= n,
            n == s@.len(),
            spec_find(s@, c, from as int) == spec_find(s@, c, i as int),
        decreases n - i,
    {
        if s.get_char(i) == c {
            return Some(i);
        }
        i = i + 1;
    }
    None
}

pub open spec fn spec_is_digit(c: char) -> bool {
    '0' <= c && c <= '9'
}

pub open spec fn spec_digit_val(c: char) -> int {
    c as int - '0' as int
}

pub open spec fn spec_all_digits(s: Seq<char>) -> bool {
    forall|i: int| 0 <= i < s.len() ==> spec_is_digit(#[trigger] s[i])
}

/// Value of a string of decimal digits, most significant first.
pub open spec fn spec_dec_value(s: Seq<char>) -> int
    decreases s.len(),
{
    if s.len() == 0 {
        0
    } else {
        spec_dec_value(s.drop_last()) * 10 + spec_digit_val(s.last())
    }
}

/// What `str::parse::<u16>` accepts: an optional leading `+`, then one or
/// more decimal digits whose value fits in `u16`.
pub open spec fn spec_parse_u16(s: Seq<char>) -> Option<u16> {
    let ds = if s.len() > 0 && s[0] == '+' {
        s.drop_first()
    } else {
        s
    };
    if ds.len() > 0 && spec_all_digits(ds) && spec_dec_value(ds) <= 65535 {
        Some(spec_dec_value(ds) as u16)
    } else {
        None
    }
}

/// A prefix of digits has a non-negative value.
proof fn lemma_dec_value_nonneg(s: Seq<char>, i: int)
    requires
        0 <= i <= s.len(),
        spec_all_digits(s),
    ensures
        spec_dec_value(s.subrange(0, i)) >= 0,
    decreases i,
{
    if i == 0 {
        assert(s.subrange(0, 0) =~= Seq::<char>::empty());
    } else {
        assert(s.subrange(0, i).drop_last() =~= s.subrange(0, i - 1));
        assert(s.subrange(0, i).last() == s[i - 1]);
        lemma_dec_value_nonneg(s, i - 1);
    }
}

/// Appending digits never lowers the value of a digit string.
proof fn lemma_dec_value_extend(s: Seq<char>, i: int, j: int)
    requires
        0 <= i <= j <= s.len(),
        spec_all_digits(s),
    ensures
        spec_dec_value(s.subrange(0, j)) >= spec_dec_value(s.subrange(0, i)),
    decreases j - i,
{
    lemma_dec_value_nonneg(s, i);
    if j > i {
        lemma_dec_value_extend(s, i, j - 1);
        assert(s.subrange(0, j).drop_last() =~= s.subrange(0, j - 1));
        assert(s.subrange(0, j).last() == s[j - 1]);
        lemma_dec_value_nonneg(s, j - 1);
    }
}

/// Parse a decimal `u16` the way `str::parse::<u16>` does.
pub fn parse_u16(s: &str) -> (r: Option<u16>)
    ensures
        r == spec_parse_u16(s@),
{
    let n = s.unicode_len();
    let start: usize = if n > 0 && s.get_char(0) == '+' {
        1
    } else {
        0
    };
    let ghost ds = if s@.len() > 0 && s@[0] == '+' {
        s@.drop_first()
    } else {
        s@
    };
    proof {
        assert(ds =~= s@.subrange(start as int, n as int));
    }
    if start == n {
        return None;
    }
    let mut acc: u32 = 0;
    let mut i = start;
    while i < n
        invariant
            start <= i <= n,
            n == s@.len(),
            start == 1 ==> s@.len() > 0 && s@[0] == '+',
            start == 0 ==> !(s@.len() > 0 && s@[0] == '+'),
            ds == (if s@.len() > 0 && s@[0] == '+' { s@.drop_first() } else { s@ }),
            ds =~= s@.subrange(start as int, n as int),
            forall|j: int| 0 <= j < i - start ==> spec_is_digit(#[trigger] ds[j]),
            acc == spec_dec_value(ds.subrange(0, i - start)),
            acc <= 65535,
        decreases n - i,
    {
        let c = s.get_char(i);
        let cu = c as u32;
        if cu < 48 || cu > 57 {
            proof {
                assert(ds[i - start] == s@[i as int]);
                assert(!spec_all_digits(ds));
            }
            return None;
        }
        let d: u32 = cu - 48;
        let next: u32 = acc * 10 + d;
        proof {
            assert(ds.subrange(0, i + 1 - start).drop_last() =~= ds.subrange(0, i - start));
            assert(ds.subrange(0, i + 1 - start).last() == ds[i - start]);
        }
        if next > 65535 {
            // Even if all remaining characters are digits, the value can
            // only grow, so the number cannot fit in a u16.
            proof {
                if spec_all_digits(ds) {
                    lemma_dec_value_extend(ds, i + 1 - start, ds.len() as int);
                    assert(ds.subrange(0, ds.len() as int) =~= ds);
                }
            }
            return None;
        }
        acc = next;
        i = i + 1;
    }
    proof {
        assert(ds.subrange(0, n - start) =~= ds);
    }
    Some(acc as u16)
}

pub open spec fn spec_digit_char(d: int) -> char {
    "0123456789"@[d]
}

/// Decimal representation of a non-negative number, most significant first.
pub open spec fn spec_dec_str(n: int) -> Seq<char>
    decreases n,
{
    if n < 10 {
        seq![spec_digit_char(if n < 0 { 0 } else { n })]
    } else {
        spec_dec_str(n / 10).push(spec_digit_char(n % 10))
    }
}

/// Format a `u16` in decimal.
pub fn u16_to_decimal(n: u16) -> (r: String)
    ensures
        r@ == spec_dec_str(n as int),
    decreases n,
{
    let digits = "0123456789";
    proof {
        reveal_strlit("0123456789");
        assert(vstd::string::is_ascii(digits)) by {
            assert(forall|i: int| 0 <= i < digits@.len() ==> '\0' <= #[trigger] digits@[i] <= '\u{7f}');
        }
    }
    let d = (n % 10) as usize;
    let ch = digits.substring_ascii(d, d + 1);
    if n < 10 {
        proof {
            assert(ch@ =~= seq![spec_digit_char(n as int)]);
        }
        ch.to_owned()
    } else {
        let prefix = u16_to_decimal(n / 10);
        let r = prefix.concat(ch);
        proof {
            assert(r@ =~= spec_dec_str((n / 10) as int).push(spec_digit_char((n % 10) as int)));
        }
        r
    }
}

/// The piece of `s` before the first `c`: the whole string when there is
/// none. This is the first piece `split(c)` yields.
pub open spec fn spec_before_char(s: Seq<char>, c: char) -> Seq<char> {
    match spec_find(s, c, 0) {
        Some(i) => s.subrange(0, i),
        None => s,
    }
}

/// The piece of `s` between the first `c` and the second one (or the end),
/// if a first `c` exists. This is the second piece `split(c)` yields.
pub open spec fn spec_between_char(s: Seq<char>, c: char) -> Option<Seq<char>> {
    match spec_find(s, c, 0) {
        Some(i) => (match spec_find(s, c, i + 1) {
            Some(j) => Some(s.subrange(i + 1, j)),
            None => Some(s.subrange(i + 1, s.len() as int)),
        }),
        None => None,
    }
}

/// The piece of `s` before the first `c`, executable form.
pub fn before_char(s: &str, c: char) -> (r: String)
    ensures
        r@ == spec_before_char(s@, c),
{
    match find_char_from(s, c, 0) {
        Some(i) => {
            let piece = s.substring_char(0, i);
            piece.to_owned()
        },
        None => s.to_owned(),
    }
}

/// The piece of `s` between the first `c` and the second, executable form.
pub fn between_char(s: &str, c: char) -> (r: Option<String>)
    ensures
        (r matches Some(p) ==> spec_between_char(s@, c) == Some(p@)),
        (r is None ==> spec_between_char(s@, c) is None),
{
    match find_char_from(s, c, 0) {
        Some(i) => {
            let n = s.unicode_len();
            let end = match find_char_from(s, c, i + 1) {
                Some(j) => j,
                None => n,
            };
            let piece = s.substring_char(i + 1, end);
            Some(piece.to_owned())
        },
        None => None,
    }
}

/// Whether `a` and `b` hold the same characters.
pub fn str_eq(a: &str, b: &str) -> (r: bool)
    ensures
        r == (a@ == b@),
{
    let x = a.to_owned();
    let y = b.to_owned();
    x == y
}

/// Whether `prefix` is a prefix of `s`.
pub fn starts_with_str(s: &str, prefix: &str) -> (r: bool)
    ensures
        r == prefix@.is_prefix_of(s@),
{
    let n = s.unicode_len();
    let m = prefix.unicode_len();
    if m > n {
        return false;
    }
    let mut i: usize = 0;
    while i < m
        invariant
            0 <= i <= m,
            m <= n,
            n == s@.len(),
            m == prefix@.len(),
            forall|j: int| 0 <= j < i ==> s@[j] == prefix@[j],
        decreases m - i,
    {
        if s.get_char(i) != prefix.get_char(i) {
            assert(!prefix@.is_prefix_of(s@));
            return false;
        }
        i = i + 1;
    }
    assert(prefix@ =~= s@.subrange(0, m as int));
    true
}

} // verus!
