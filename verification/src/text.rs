//! String helpers shared by the rest of the crate.

use vstd::prelude::*;
use vstd::string::*;
use vstd::std_specs::iter::IteratorSpec;

verus! {

/// `p` is what `s` begins with.
pub open spec fn has_prefix(s: Seq<char>, p: Seq<char>) -> bool {
    p.len() <= s.len() && s.subrange(0, p.len() as int) == p
}

/// `p` occurs somewhere in `s` as a contiguous run.
pub open spec fn has_substring(s: Seq<char>, p: Seq<char>) -> bool {
    exists|i: int| 0 <= i && i + p.len() <= s.len() && #[trigger] s.subrange(i, i + p.len()) == p
}

/// What `str::to_uppercase` gives for a string with these characters.
pub uninterp spec fn uppercase(s: Seq<char>) -> Seq<char>;

/// What `str::to_lowercase` gives for a string with these characters.
pub uninterp spec fn lowercase(s: Seq<char>) -> Seq<char>;

/// Whether two string slices hold the same characters.
pub fn str_eq(a: &str, b: &str) -> (r: bool)
    ensures
        r == (a@ == b@),
{
    broadcast use vstd::string::group_string_axioms;

    let mut ia = a.chars();
    let mut ib = b.chars();
    let ghost mut n: int = 0;
    loop
        invariant
            0 <= n <= a@.len(),
            n <= b@.len(),
            ia.remaining() == a@.subrange(n, a@.len() as int),
            ib.remaining() == b@.subrange(n, b@.len() as int),
            a@.subrange(0, n) == b@.subrange(0, n),
        decreases a@.len() - n,
    {
        let x = ia.next();
        let y = ib.next();
        match (x, y) {
            (Some(p), Some(q)) => {
                assert(p == a@[n] && q == b@[n]);
                if p != q {
                    return false;
                }
                proof {
                    assert(a@.subrange(0, n + 1) =~= a@.subrange(0, n).push(p));
                    assert(b@.subrange(0, n + 1) =~= b@.subrange(0, n).push(q));
                    assert(a@.subrange(n, a@.len() as int).drop_first() =~= a@.subrange(
                        n + 1,
                        a@.len() as int,
                    ));
                    assert(b@.subrange(n, b@.len() as int).drop_first() =~= b@.subrange(
                        n + 1,
                        b@.len() as int,
                    ));
                    n = n + 1;
                }
            },
            (None, None) => {
                assert(a@.subrange(0, n) =~= a@);
                assert(b@.subrange(0, n) =~= b@);
                return true;
            },
            _ => {
                return false;
            },
        }
    }
}

/// Whether `s` begins with `prefix`.
pub fn starts_with(s: &str, prefix: &str) -> (r: bool)
    ensures
        r == has_prefix(s@, prefix@),
{
    broadcast use vstd::string::group_string_axioms;

    let mut is = s.chars();
    let mut ip = prefix.chars();
    let ghost mut n: int = 0;
    loop
        invariant
            0 <= n <= s@.len(),
            n <= prefix@.len(),
            is.remaining() == s@.subrange(n, s@.len() as int),
            ip.remaining() == prefix@.subrange(n, prefix@.len() as int),
            s@.subrange(0, n) == prefix@.subrange(0, n),
        decreases prefix@.len() - n,
    {
        match ip.next() {
            None => {
                assert(prefix@.subrange(0, n) =~= prefix@);
                return true;
            },
            Some(q) => {
                assert(q == prefix@[n]);
                match is.next() {
                    None => {
                        return false;
                    },
                    Some(p) => {
                        assert(p == s@[n]);
                        if p != q {
                            assert(prefix@.len() <= s@.len() ==> s@.subrange(
                                0,
                                prefix@.len() as int,
                            )[n] != prefix@[n]);
                            return false;
                        }
                        proof {
                            assert(s@.subrange(0, n + 1) =~= s@.subrange(0, n).push(p));
                            assert(prefix@.subrange(0, n + 1) =~= prefix@.subrange(0, n).push(q));
                            assert(s@.subrange(n, s@.len() as int).drop_first() =~= s@.subrange(
                                n + 1,
                                s@.len() as int,
                            ));
                            assert(prefix@.subrange(n, prefix@.len() as int).drop_first()
                                =~= prefix@.subrange(n + 1, prefix@.len() as int));
                            n = n + 1;
                        }
                    },
                }
            },
        }
    }
}

/// The characters of `s`, one by one.
pub fn chars_of(s: &str) -> (r: Vec<char>)
    ensures
        r@ == s@,
{
    broadcast use vstd::string::group_string_axioms;

    let mut out: Vec<char> = Vec::new();
    let mut it = s.chars();
    loop
        invariant
            out@.len() <= s@.len(),
            it.remaining() == s@.subrange(out@.len() as int, s@.len() as int),
            out@ == s@.subrange(0, out@.len() as int),
        decreases s@.len() - out@.len(),
    {
        let ghost n = out@.len() as int;
        match it.next() {
            Some(c) => {
                assert(c == s@[n]);
                out.push(c);
                proof {
                    assert(s@.subrange(0, n + 1) =~= s@.subrange(0, n).push(c));
                    assert(s@.subrange(n, s@.len() as int).drop_first() =~= s@.subrange(
                        n + 1,
                        s@.len() as int,
                    ));
                }
            },
            None => {
                assert(s@.subrange(0, n) =~= s@);
                return out;
            },
        }
    }
}

/// Position of the first `c` in `v`, if there is one.
pub fn find_first(v: &Vec<char>, c: char) -> (r: Option<usize>)
    ensures
        match r {
            Some(i) => i < v@.len() && v@[i as int] == c && !v@.subrange(0, i as int).contains(c),
            None => !v@.contains(c),
        },
{
    let mut i: usize = 0;
    while i < v.len()
        invariant
            i <= v.len(),
            forall|j: int| 0 <= j < i ==> v@[j] != c,
        decreases v.len() - i,
    {
        if v[i] == c {
            return Some(i);
        }
        i += 1;
    }
    None
}

/// Whether `c` is one of the characters of `s`.
pub fn contains_char(s: &str, c: char) -> (r: bool)
    ensures
        r == s@.contains(c),
{
    let v = chars_of(s);
    find_first(&v, c).is_some()
}

/// Whether `hay` continues with all of `pat` from position `at` on.
fn matches_at(hay: &Vec<char>, pat: &Vec<char>, at: usize) -> (r: bool)
    requires
        at + pat@.len() <= hay@.len(),
    ensures
        r == (hay@.subrange(at as int, at + pat@.len()) == pat@),
{
    let n: usize = hay.len();
    let mut j: usize = 0;
    while j < pat.len()
        invariant
            j <= pat.len(),
            at + pat@.len() <= hay@.len(),
            hay@.len() == n,
            forall|k: int| 0 <= k < j ==> hay@[at + k] == pat@[k],
        decreases pat.len() - j,
    {
        if hay[at + j] != pat[j] {
            assert(hay@.subrange(at as int, at + pat@.len())[j as int] != pat@[j as int]);
            return false;
        }
        j += 1;
    }
    assert(hay@.subrange(at as int, at + pat@.len()) =~= pat@);
    true
}

/// Whether `pat` occurs somewhere in `s`.
pub fn contains_str(s: &str, pat: &str) -> (r: bool)
    ensures
        r == has_substring(s@, pat@),
{
    let hay = chars_of(s);
    let needle = chars_of(pat);
    if needle.len() > hay.len() {
        return false;
    }
    let last: usize = hay.len() - needle.len();
    let mut i: usize = 0;
    loop
        invariant
            i <= last,
            last + needle@.len() == hay@.len(),
            hay@ == s@,
            needle@ == pat@,
            forall|k: int|
                0 <= k < i ==> #[trigger] hay@.subrange(k, k + needle@.len()) != needle@,
        decreases last - i,
    {
        if matches_at(&hay, &needle, i) {
            return true;
        }
        if i == last {
            return false;
        }
        i += 1;
    }
}

/// Position of the first `c` in `s`, or the length of `s` when it holds
/// none.
pub open spec fn first_index(s: Seq<char>, c: char) -> int
    decreases s.len(),
{
    if s.len() == 0 || s[0] == c {
        0
    } else {
        1 + first_index(s.drop_first(), c)
    }
}

/// `first_index` gives the length before the first `c`, and stays within `s`.
pub proof fn lemma_first_index(s: Seq<char>, c: char, k: int)
    requires
        0 <= k <= s.len(),
        forall|j: int| 0 <= j < k ==> s[j] != c,
        k == s.len() || s[k] == c,
    ensures
        first_index(s, c) == k,
    decreases k,
{
    if k > 0 {
        lemma_first_index(s.drop_first(), c, k - 1);
    }
}

/// The part of `s` before its first `c` and the part after it, when `s`
/// holds `c` at all.
pub fn split_once_char(s: &str, c: char) -> (r: Option<(&str, &str)>)
    ensures
        match r {
            Some((a, b)) => {
                &&& s@.contains(c)
                &&& first_index(s@, c) < s@.len()
                &&& a@ == s@.subrange(0, first_index(s@, c))
                &&& b@ == s@.subrange(first_index(s@, c) + 1, s@.len() as int)
            },
            None => !s@.contains(c) && first_index(s@, c) == s@.len(),
        },
{
    let v = chars_of(s);
    let n: usize = v.len();
    match find_first(&v, c) {
        Some(i) => {
            proof {
                assert forall|j: int| 0 <= j < i implies s@[j] != c by {
                    assert(s@.subrange(0, i as int)[j] == s@[j]);
                }
                lemma_first_index(s@, c, i as int);
            }
            let a = s.substring_char(0, i);
            let b = s.substring_char(i + 1, n);
            Some((a, b))
        },
        None => {
            proof {
                lemma_first_index(s@, c, s@.len() as int);
            }
            None
        },
    }
}

/// Whether `c` is one of `0` to `9`.
pub open spec fn is_digit(c: char) -> bool {
    48 <= c as u32 <= 57
}

/// The number a digit character stands for.
pub open spec fn digit_value(c: char) -> nat {
    (c as u32 - 48) as nat
}

/// The number that a run of digit characters writes in decimal.
pub open spec fn digits_value(s: Seq<char>) -> nat
    decreases s.len(),
{
    if s.len() == 0 {
        0
    } else {
        digits_value(s.drop_last()) * 10 + digit_value(s.last())
    }
}

/// Whether every character of `s` is a digit.
pub open spec fn all_digits(s: Seq<char>) -> bool {
    forall|i: int| 0 <= i < s.len() ==> is_digit(#[trigger] s[i])
}

/// The number that `s` writes, if `s` is an optional `+` followed by one or
/// more digits and nothing else, and the number is at most `max`. Leading
/// zeros are allowed.
pub open spec fn parse_unsigned(s: Seq<char>, max: nat) -> Option<nat> {
    let digits = if s.len() > 0 && s[0] == '+' {
        s.subrange(1, s.len() as int)
    } else {
        s
    };
    if digits.len() > 0 && all_digits(digits) && digits_value(digits) <= max {
        Some(digits_value(digits))
    } else {
        None
    }
}

/// A longer run of digits never writes a smaller number than its beginning.
proof fn lemma_digits_value_grows(s: Seq<char>, k: int)
    requires
        0 <= k <= s.len(),
    ensures
        digits_value(s.subrange(0, k)) <= digits_value(s),
    decreases s.len() - k,
{
    if k == s.len() {
        assert(s.subrange(0, k) =~= s);
    } else {
        lemma_digits_value_grows(s.drop_last(), k);
        assert(s.drop_last().subrange(0, k) =~= s.subrange(0, k));
    }
}

/// Reads an unsigned decimal number of at most `max`.
pub fn parse_number(s: &str, max: u32) -> (r: Option<u32>)
    ensures
        match r {
            Some(n) => parse_unsigned(s@, max as nat) == Some(n as nat),
            None => parse_unsigned(s@, max as nat) is None,
        },
{
    let v = chars_of(s);
    let start: usize = if v.len() > 0 && v[0] == '+' {
        1
    } else {
        0
    };
    let ghost digits = if s@.len() > 0 && s@[0] == '+' {
        s@.subrange(1, s@.len() as int)
    } else {
        s@
    };
    assert(digits =~= v@.subrange(start as int, v@.len() as int));
    if start == v.len() {
        return None;
    }
    let mut acc: u64 = 0;
    let mut i: usize = start;
    while i < v.len()
        invariant
            start <= i <= v.len(),
            start < v.len(),
            digits == v@.subrange(start as int, v@.len() as int),
            parse_unsigned(s@, max as nat) == (if all_digits(digits) && digits_value(digits)
                <= max {
                Some(digits_value(digits))
            } else {
                None
            }),
            all_digits(digits.subrange(0, i - start)),
            acc == digits_value(digits.subrange(0, i - start)),
            acc <= max,
        decreases v.len() - i,
    {
        let c = v[i];
        let code: u32 = c as u32;
        if code < 48 || code > 57 {
            assert(!is_digit(digits[i - start]));
            return None;
        }
        let next: u64 = acc * 10 + (code - 48) as u64;
        proof {
            let longer = digits.subrange(0, i - start + 1);
            assert(longer.drop_last() =~= digits.subrange(0, i - start));
            assert(longer.last() == c);
            assert(next == digits_value(longer));
            assert forall|j: int| 0 <= j < longer.len() implies is_digit(#[trigger] longer[j]) by {
                if j < i - start {
                    assert(longer[j] == digits.subrange(0, i - start)[j]);
                }
            }
        }
        if next > max as u64 {
            proof {
                if all_digits(digits) {
                    lemma_digits_value_grows(digits, i - start + 1);
                }
            }
            return None;
        }
        acc = next;
        i += 1;
    }
    assert(digits.subrange(0, i - start) =~= digits);
    Some(acc as u32)
}

/// Whether `c` is white space in the Unicode sense: tab to carriage return,
/// space, next line, no-break space, and the spaces and separators above
/// U+1680 that carry the White_Space property.
pub open spec fn is_space(c: char) -> bool {
    let n = c as u32;
    ||| 0x09 <= n <= 0x0D
    ||| n == 0x20
    ||| n == 0x85
    ||| n == 0xA0
    ||| n == 0x1680
    ||| 0x2000 <= n <= 0x200A
    ||| n == 0x2028
    ||| n == 0x2029
    ||| n == 0x202F
    ||| n == 0x205F
    ||| n == 0x3000
}

fn space(c: char) -> (r: bool)
    ensures
        r == is_space(c),
{
    let n: u32 = c as u32;
    (0x09 <= n && n <= 0x0D) || n == 0x20 || n == 0x85 || n == 0xA0 || n == 0x1680 || (0x2000
        <= n && n <= 0x200A) || n == 0x2028 || n == 0x2029 || n == 0x202F || n == 0x205F || n
        == 0x3000
}

/// Number of white-space characters that `s` begins with.
pub open spec fn leading_spaces(s: Seq<char>) -> nat
    decreases s.len(),
{
    if s.len() > 0 && is_space(s[0]) {
        1 + leading_spaces(s.drop_first())
    } else {
        0
    }
}

/// Number of white-space characters that `s` ends with.
pub open spec fn trailing_spaces(s: Seq<char>) -> nat
    decreases s.len(),
{
    if s.len() > 0 && is_space(s.last()) {
        1 + trailing_spaces(s.drop_last())
    } else {
        0
    }
}

/// `s` without the white space at its beginning and at its end.
pub open spec fn trimmed(s: Seq<char>) -> Seq<char> {
    let from = leading_spaces(s) as int;
    if from == s.len() {
        Seq::empty()
    } else {
        s.subrange(from, s.len() - trailing_spaces(s))
    }
}

proof fn lemma_leading_spaces(s: Seq<char>, k: int)
    requires
        0 <= k <= s.len(),
        forall|j: int| 0 <= j < k ==> is_space(s[j]),
        k == s.len() || !is_space(s[k]),
    ensures
        leading_spaces(s) == k,
    decreases k,
{
    if k > 0 {
        lemma_leading_spaces(s.drop_first(), k - 1);
    }
}

proof fn lemma_trailing_spaces(s: Seq<char>, k: int)
    requires
        0 <= k <= s.len(),
        forall|j: int| s.len() - k <= j < s.len() ==> is_space(s[j]),
        k == s.len() || !is_space(s[s.len() - k - 1]),
    ensures
        trailing_spaces(s) == k,
    decreases k,
{
    if k > 0 {
        lemma_trailing_spaces(s.drop_last(), k - 1);
    }
}

/// `s` without the white space at its beginning and at its end.
pub fn trim(s: &str) -> (r: &str)
    ensures
        r@ == trimmed(s@),
{
    let v = chars_of(s);
    let mut from: usize = 0;
    while from < v.len() && space(v[from])
        invariant
            from <= v.len(),
            forall|j: int| 0 <= j < from ==> is_space(v@[j]),
        decreases v.len() - from,
    {
        from += 1;
    }
    proof {
        lemma_leading_spaces(v@, from as int);
    }
    if from == v.len() {
        let r = s.substring_char(0, 0);
        assert(r@ =~= Seq::<char>::empty());
        return r;
    }
    let mut to: usize = v.len();
    while to > from && space(v[to - 1])
        invariant
            from < v.len(),
            !is_space(v@[from as int]),
            from <= to <= v.len(),
            forall|j: int| to <= j < v.len() ==> is_space(v@[j]),
        decreases to,
    {
        to -= 1;
    }
    proof {
        lemma_trailing_spaces(v@, v@.len() - to);
    }
    s.substring_char(from, to)
}

/// A line without the carriage return at its end, if it has one.
pub open spec fn strip_cr(line: Seq<char>) -> Seq<char> {
    if line.len() > 0 && line.last() == '\r' {
        line.drop_last()
    } else {
        line
    }
}

/// The lines of a text. A line ends at a line feed, or at a carriage return
/// followed by a line feed; neither belongs to the line. The last line needs
/// no line ending, and a text that ends with one has no empty line after it.
pub open spec fn lines_of(s: Seq<char>) -> Seq<Seq<char>>
    decreases s.len(),
{
    if s.len() == 0 {
        Seq::empty()
    } else {
        let i = first_index(s, '\n');
        if i < 0 || i >= s.len() {
            seq![s]
        } else {
            seq![strip_cr(s.subrange(0, i))] + lines_of(s.subrange(i + 1, s.len() as int))
        }
    }
}

/// The character sequences that a list of string slices stands for.
pub open spec fn slice_views(v: Seq<&str>) -> Seq<Seq<char>> {
    v.map_values(|s: &str| s@)
}

proof fn lemma_first_index_bounds(s: Seq<char>, c: char)
    ensures
        0 <= first_index(s, c) <= s.len(),
        first_index(s, c) < s.len() ==> s[first_index(s, c)] == c,
        forall|j: int| 0 <= j < first_index(s, c) ==> s[j] != c,
    decreases s.len(),
{
    if s.len() == 0 || s[0] == c {
    } else {
        lemma_first_index_bounds(s.drop_first(), c);
        assert forall|j: int| 0 <= j < first_index(s, c) implies s[j] != c by {
            if j > 0 {
                assert(s.drop_first()[j - 1] == s[j]);
            }
        }
    }
}

/// The lines of `s`, as `lines_of` describes them.
pub fn lines(s: &str) -> (r: Vec<&str>)
    ensures
        slice_views(r@) == lines_of(s@),
{
    let v = chars_of(s);
    let n: usize = v.len();
    let mut out: Vec<&str> = Vec::new();
    let mut from: usize = 0;
    assert(s@.subrange(0, n as int) =~= s@);
    assert(slice_views(out@) + lines_of(s@) =~= lines_of(s@));
    while from < n
        invariant
            from <= n,
            n == v@.len(),
            v@ == s@,
            slice_views(out@) + lines_of(s@.subrange(from as int, n as int)) == lines_of(s@),
        decreases n - from,
    {
        let ghost rest = s@.subrange(from as int, n as int);
        let mut end: usize = from;
        while end < n && v[end] != '\n'
            invariant
                from <= end <= n,
                n == v@.len(),
                forall|j: int| from <= j < end ==> v@[j] != '\n',
            decreases n - end,
        {
            end += 1;
        }
        proof {
            assert forall|j: int| 0 <= j < end - from implies rest[j] != '\n' by {
                assert(rest[j] == v@[from + j]);
            }
            lemma_first_index(rest, '\n', end - from);
        }
        let ghost prior = out@;
        if end == n {
            let line = s.substring_char(from, n);
            out.push(line);
            proof {
                assert(line@ =~= rest);
                assert(lines_of(rest) =~= seq![rest]);
                assert(slice_views(out@) =~= slice_views(prior).push(rest));
                assert(s@.subrange(n as int, n as int) =~= Seq::<char>::empty());
                assert(slice_views(out@) + lines_of(s@.subrange(n as int, n as int))
                    =~= slice_views(prior) + lines_of(rest));
            }
            from = n;
        } else {
            let cut: usize = if end > from && v[end - 1] == '\r' {
                (end - 1) as usize
            } else {
                end
            };
            let line = s.substring_char(from, cut);
            out.push(line);
            proof {
                let whole = rest.subrange(0, end - from);
                assert(whole =~= s@.subrange(from as int, end as int));
                assert(line@ =~= strip_cr(whole));
                assert(rest.subrange(end - from + 1, rest.len() as int) =~= s@.subrange(
                    end + 1,
                    n as int,
                ));
                assert(slice_views(out@) =~= slice_views(prior).push(strip_cr(whole)));
                assert(slice_views(out@) + lines_of(s@.subrange(end + 1, n as int))
                    =~= slice_views(prior) + lines_of(rest));
            }
            from = end + 1;
        }
    }
    proof {
        assert(s@.subrange(from as int, n as int) =~= Seq::<char>::empty());
        assert(slice_views(out@) + Seq::<Seq<char>>::empty() =~= slice_views(out@));
    }
    out
}

/// The pieces of `s` between the occurrences of `c`. A text without `c` is
/// one piece; two occurrences side by side, or one at either end, give an
/// empty piece.
pub open spec fn split_by(s: Seq<char>, c: char) -> Seq<Seq<char>>
    decreases s.len(),
{
    let i = first_index(s, c);
    if i < 0 || i >= s.len() {
        seq![s]
    } else {
        seq![s.subrange(0, i)] + split_by(s.subrange(i + 1, s.len() as int), c)
    }
}

/// The pieces of `s` between the occurrences of `c`, as `split_by` describes
/// them.
pub fn split(s: &str, c: char) -> (r: Vec<&str>)
    ensures
        slice_views(r@) == split_by(s@, c),
{
    let v = chars_of(s);
    let n: usize = v.len();
    let mut out: Vec<&str> = Vec::new();
    let mut from: usize = 0;
    assert(s@.subrange(0, n as int) =~= s@);
    assert(slice_views(out@) + split_by(s@, c) =~= split_by(s@, c));
    loop
        invariant
            from <= n,
            n == v@.len(),
            v@ == s@,
            slice_views(out@) + split_by(s@.subrange(from as int, n as int), c) == split_by(s@, c),
        decreases n - from,
    {
        let ghost rest = s@.subrange(from as int, n as int);
        let mut end: usize = from;
        while end < n && v[end] != c
            invariant
                from <= end <= n,
                n == v@.len(),
                forall|j: int| from <= j < end ==> v@[j] != c,
            decreases n - end,
        {
            end += 1;
        }
        proof {
            assert forall|j: int| 0 <= j < end - from implies rest[j] != c by {
                assert(rest[j] == v@[from + j]);
            }
            lemma_first_index(rest, c, end - from);
        }
        let ghost prior = out@;
        let piece = s.substring_char(from, end);
        out.push(piece);
        if end == n {
            proof {
                assert(piece@ =~= rest);
                assert(slice_views(out@) =~= slice_views(prior).push(rest));
                assert(slice_views(out@) =~= slice_views(prior) + split_by(rest, c));
            }
            return out;
        }
        proof {
            assert(piece@ =~= rest.subrange(0, end - from));
            assert(rest.subrange(end - from + 1, rest.len() as int) =~= s@.subrange(
                end + 1,
                n as int,
            ));
            assert(slice_views(out@) =~= slice_views(prior).push(piece@));
            assert(slice_views(out@) + split_by(s@.subrange(end + 1, n as int), c)
                =~= slice_views(prior) + split_by(rest, c));
        }
        from = end + 1;
    }
}

/// `s` with every copy of `p` at its beginning removed.
pub open spec fn strip_repeated(s: Seq<char>, p: Seq<char>) -> Seq<char>
    decreases s.len(),
{
    if p.len() > 0 && has_prefix(s, p) {
        strip_repeated(s.subrange(p.len() as int, s.len() as int), p)
    } else {
        s
    }
}

/// `s` with every copy of `prefix` at its beginning removed.
pub fn strip_prefix_repeated<'a>(s: &'a str, prefix: &str) -> (r: &'a str)
    ensures
        r@ == strip_repeated(s@, prefix@),
{
    let p: usize = prefix.unicode_len();
    let mut rest: &'a str = s;
    if p == 0 {
        return rest;
    }
    let mut left: usize = rest.unicode_len();
    while starts_with(rest, prefix)
        invariant
            p == prefix@.len(),
            p > 0,
            left == rest@.len(),
            strip_repeated(rest@, prefix@) == strip_repeated(s@, prefix@),
        decreases left,
    {
        rest = rest.substring_char(p, left);
        left = left - p;
    }
    rest
}

/// What the first of `lines` that begins with `key` holds behind every
/// leading copy of `key`.
pub open spec fn value_of_key(lines: Seq<Seq<char>>, key: Seq<char>) -> Option<Seq<char>>
    decreases lines.len(),
{
    if lines.len() == 0 {
        None
    } else if has_prefix(lines[0], key) {
        Some(strip_repeated(lines[0], key))
    } else {
        value_of_key(lines.drop_first(), key)
    }
}

/// Looks through the lines of `text` for the first that begins with `key`
/// and gives what follows the key.
pub fn find_key_value(text: &str, key: &str) -> (r: Option<String>)
    ensures
        match r {
            Some(v) => value_of_key(lines_of(text@), key@) == Some(v@),
            None => value_of_key(lines_of(text@), key@) is None,
        },
{
    let all = lines(text);
    let ghost whole = lines_of(text@);
    let mut i: usize = 0;
    assert(whole.subrange(0, whole.len() as int) =~= whole);
    while i < all.len()
        invariant
            i <= all.len(),
            whole == lines_of(text@),
            slice_views(all@) == whole,
            value_of_key(whole.subrange(i as int, whole.len() as int), key@) == value_of_key(
                whole,
                key@,
            ),
        decreases all.len() - i,
    {
        let line = all[i];
        let ghost rest = whole.subrange(i as int, whole.len() as int);
        assert(whole.len() == all@.len());
        assert(rest.len() > 0 && rest[0] == line@);
        if starts_with(line, key) {
            let value = strip_prefix_repeated(line, key);
            assert(value_of_key(rest, key@) == Some(value@));
            return Some(String::from_str(value));
        }
        assert(rest.drop_first() =~= whole.subrange(i + 1, whole.len() as int));
        i += 1;
    }
    assert(whole.subrange(i as int, whole.len() as int) =~= Seq::<Seq<char>>::empty());
    None
}

/// `str::to_uppercase`. The mapping follows the Unicode tables, so the result
/// is only named here, not spelled out.
#[verifier::external_body]
pub(crate) fn to_uppercase(s: &str) -> (r: String)
    ensures
        r@ == uppercase(s@),
{
    s.to_uppercase()
}

/// `str::to_lowercase`. The mapping follows the Unicode tables, so the result
/// is only named here, not spelled out.
#[verifier::external_body]
pub(crate) fn to_lowercase(s: &str) -> (r: String)
    ensures
        r@ == lowercase(s@),
{
    s.to_lowercase()
}

/// The two given pieces joined into one owned string.
pub fn concat2(a: &str, b: &str) -> (r: String)
    ensures
        r@ == a@ + b@,
{
    let mut s = String::from_str(a);
    s.append(b);
    s
}

/// The three given pieces joined into one owned string.
pub fn concat3(a: &str, b: &str, c: &str) -> (r: String)
    ensures
        r@ == a@ + b@ + c@,
{
    let mut s = String::from_str(a);
    s.append(b);
    s.append(c);
    s
}

/// An owned copy of an optional string.
pub fn clone_opt_string(o: &Option<String>) -> (r: Option<String>)
    ensures
        r == *o,
{
    match o {
        Some(s) => Some(s.clone()),
        None => None,
    }
}

/// The character sequences that a list of strings stands for.
pub open spec fn views(v: Seq<String>) -> Seq<Seq<char>> {
    v.map_values(|s: String| s@)
}

/// An owned copy of a list of strings.
pub fn clone_strings(v: &Vec<String>) -> (r: Vec<String>)
    ensures
        r@ == v@,
{
    let mut out: Vec<String> = Vec::new();
    let mut i: usize = 0;
    while i < v.len()
        invariant
            i <= v.len(),
            out@ == v@.subrange(0, i as int),
        decreases v.len() - i,
    {
        out.push(v[i].clone());
        i += 1;
    }
    out
}

/// Whether `needle` is among `items`.
pub fn contains_string(items: &Vec<String>, needle: &str) -> (r: bool)
    ensures
        r == views(items@).contains(needle@),
{
    let mut i: usize = 0;
    while i < items.len()
        invariant
            i <= items.len(),
            forall|j: int| 0 <= j < i ==> views(items@)[j] != needle@,
        decreases items.len() - i,
    {
        if str_eq(items[i].as_str(), needle) {
            assert(views(items@)[i as int] == needle@);
            return true;
        }
        i += 1;
    }
    false
}

/// The character for a single decimal digit.
pub open spec fn digit_char(d: nat) -> char {
    if d == 0 {
        '0'
    } else if d == 1 {
        '1'
    } else if d == 2 {
        '2'
    } else if d == 3 {
        '3'
    } else if d == 4 {
        '4'
    } else if d == 5 {
        '5'
    } else if d == 6 {
        '6'
    } else if d == 7 {
        '7'
    } else if d == 8 {
        '8'
    } else {
        '9'
    }
}

/// Decimal notation of a natural number, without leading zeros.
pub open spec fn decimal(n: nat) -> Seq<char>
    decreases n,
{
    if n < 10 {
        seq![digit_char(n)]
    } else {
        decimal(n / 10).push(digit_char(n % 10))
    }
}

/// Decimal notation of an integer, with `-` in front of a negative one.
pub open spec fn signed_decimal(n: int) -> Seq<char> {
    if n < 0 {
        seq!['-'] + decimal((-n) as nat)
    } else {
        decimal(n as nat)
    }
}

fn digit_str(d: u64) -> (r: &'static str)
    requires
        d < 10,
    ensures
        r@ == seq![digit_char(d as nat)],
{
    proof {
        reveal_strlit("0");
        reveal_strlit("1");
        reveal_strlit("2");
        reveal_strlit("3");
        reveal_strlit("4");
        reveal_strlit("5");
        reveal_strlit("6");
        reveal_strlit("7");
        reveal_strlit("8");
        reveal_strlit("9");
    }
    let r = if d == 0 {
        "0"
    } else if d == 1 {
        "1"
    } else if d == 2 {
        "2"
    } else if d == 3 {
        "3"
    } else if d == 4 {
        "4"
    } else if d == 5 {
        "5"
    } else if d == 6 {
        "6"
    } else if d == 7 {
        "7"
    } else if d == 8 {
        "8"
    } else {
        "9"
    };
    assert(r@ =~= seq![digit_char(d as nat)]);
    r
}

/// Writes `n` in decimal.
pub fn u64_to_string(n: u64) -> (r: String)
    ensures
        r@ == decimal(n as nat),
    decreases n,
{
    if n < 10 {
        String::from_str(digit_str(n))
    } else {
        let mut s = u64_to_string(n / 10);
        s.append(digit_str(n % 10));
        assert(s@ =~= decimal(n as nat));
        s
    }
}

/// Writes `n` in decimal, with a leading `-` when it is negative.
pub fn i32_to_string(n: i32) -> (r: String)
    ensures
        r@ == signed_decimal(n as int),
{
    if n < 0 {
        let m: u64 = (-(n as i64)) as u64;
        proof {
            reveal_strlit("-");
            assert("-"@ =~= seq!['-']);
        }
        let digits = u64_to_string(m);
        concat2("-", digits.as_str())
    } else {
        u64_to_string(n as u64)
    }
}

} // verus!
