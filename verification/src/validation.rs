//! What counts as an interface name and as an IP address.

use vstd::prelude::*;
use crate::text::{
    all_digits, chars_of, digits_value, is_digit, parse_number, parse_unsigned, slice_views,
    split, split_by,
};

verus! {

/// Longest interface name, in characters.
pub const MAX_INTERFACE_NAME_LEN: usize = 15;

/// Whether `c` may stand in an interface name: an ASCII letter or digit, or
/// one of `-`, `_`, `.`, `:`, `@`.
pub open spec fn is_name_char(c: char) -> bool {
    let n = c as u32;
    ||| 48 <= n <= 57
    ||| 65 <= n <= 90
    ||| 97 <= n <= 122
    ||| c == '-'
    ||| c == '_'
    ||| c == '.'
    ||| c == ':'
    ||| c == '@'
}

/// Whether `name` can be the name of an interface: one to fifteen
/// characters, each of which may stand in such a name.
pub open spec fn is_interface_name(name: Seq<char>) -> bool {
    &&& 1 <= name.len() <= MAX_INTERFACE_NAME_LEN
    &&& forall|i: int| 0 <= i < name.len() ==> is_name_char(#[trigger] name[i])
}

/// Whether `name` can be the name of an interface.
pub fn validate_interface_name(name: &str) -> (r: bool)
    ensures
        r == is_interface_name(name@),
{
    let v = chars_of(name);
    if v.len() < 1 || v.len() > MAX_INTERFACE_NAME_LEN {
        return false;
    }
    let mut i: usize = 0;
    while i < v.len()
        invariant
            i <= v.len(),
            v@ == name@,
            forall|j: int| 0 <= j < i ==> is_name_char(#[trigger] v@[j]),
        decreases v.len() - i,
    {
        let c = v[i];
        let n: u32 = c as u32;
        let fine = (48 <= n && n <= 57) || (65 <= n && n <= 90) || (97 <= n && n <= 122) || c
            == '-' || c == '_' || c == '.' || c == ':' || c == '@';
        if !fine {
            return false;
        }
        i += 1;
    }
    true
}

/// Whether `p` writes one part of a dotted IPv4 address: a number from 0 to
/// 255 in one to three digits, without a leading zero unless it is `0`.
pub open spec fn is_octet(p: Seq<char>) -> bool {
    &&& 1 <= p.len() <= 3
    &&& all_digits(p)
    &&& digits_value(p) <= 255
    &&& (p.len() == 1 || p[0] != '0')
}

/// Whether every one of `parts` writes one part of an IPv4 address.
pub open spec fn all_octets(parts: Seq<Seq<char>>) -> bool {
    forall|i: int| 0 <= i < parts.len() ==> is_octet(#[trigger] parts[i])
}

/// Whether `s` is an IPv4 address in dotted notation: four parts with dots
/// between them.
pub open spec fn is_ipv4(s: Seq<char>) -> bool {
    split_by(s, '.').len() == 4 && all_octets(split_by(s, '.'))
}

fn octet(p: &str) -> (r: bool)
    ensures
        r == is_octet(p@),
{
    let v = chars_of(p);
    if v.len() < 1 || v.len() > 3 {
        return false;
    }
    if v[0] == '+' {
        assert(!is_digit(p@[0]));
        return false;
    }
    if v.len() > 1 && v[0] == '0' {
        return false;
    }
    parse_number(p, 255).is_some()
}

/// Whether `s` is an IPv4 address in dotted notation.
pub fn validate_ipv4(s: &str) -> (r: bool)
    ensures
        r == is_ipv4(s@),
{
    let parts = split(s, '.');
    if parts.len() != 4 {
        return false;
    }
    let ghost all = slice_views(parts@);
    let mut i: usize = 0;
    while i < parts.len()
        invariant
            i <= parts.len(),
            all == slice_views(parts@),
            all == split_by(s@, '.'),
            all.len() == 4,
            forall|j: int| 0 <= j < i ==> is_octet(#[trigger] all[j]),
        decreases parts.len() - i,
    {
        if !octet(parts[i]) {
            assert(!is_octet(all[i as int]));
            return false;
        }
        i += 1;
    }
    true
}

/// Whether `c` is a hexadecimal digit.
pub open spec fn is_hex(c: char) -> bool {
    let n = c as u32;
    ||| 48 <= n <= 57
    ||| 65 <= n <= 70
    ||| 97 <= n <= 102
}

/// Whether `p` writes one group of an IPv6 address: one to four hexadecimal
/// digits.
pub open spec fn is_hex_group(p: Seq<char>) -> bool {
    &&& 1 <= p.len() <= 4
    &&& forall|i: int| 0 <= i < p.len() ==> is_hex(#[trigger] p[i])
}

fn hex_group(p: &str) -> (r: bool)
    ensures
        r == is_hex_group(p@),
{
    let v = chars_of(p);
    if v.len() < 1 || v.len() > 4 {
        return false;
    }
    let mut i: usize = 0;
    while i < v.len()
        invariant
            i <= v.len(),
            v@ == p@,
            forall|j: int| 0 <= j < i ==> is_hex(#[trigger] v@[j]),
        decreases v.len() - i,
    {
        let n: u32 = v[i] as u32;
        if !((48 <= n && n <= 57) || (65 <= n && n <= 70) || (97 <= n && n <= 102)) {
            return false;
        }
        i += 1;
    }
    true
}

/// Whether the piece at position `i` of `m` may stand there in an IPv6
/// address: an empty piece marks the run of zero groups, a group is a hex
/// group, and the last piece may be an IPv4 address.
pub open spec fn piece_fits(m: Seq<Seq<char>>, i: int) -> bool {
    m[i].len() == 0 || is_hex_group(m[i]) || (i == m.len() - 1 && is_ipv4(m[i]))
}

/// The number of empty pieces among `m`.
pub open spec fn gaps(m: Seq<Seq<char>>) -> nat
    decreases m.len(),
{
    if m.len() == 0 {
        0
    } else if m.last().len() == 0 {
        gaps(m.drop_last()) + 1
    } else {
        gaps(m.drop_last())
    }
}

/// Whether pieces, of which an empty one marks the run of zero groups, make
/// an IPv6 address: every piece fits, at most one is empty, and the groups
/// come to eight without an empty piece and to seven at most with one. An
/// IPv4 address at the end counts as two groups.
pub open spec fn groups_fit(m: Seq<Seq<char>>) -> bool {
    let width = m.len() - gaps(m) + (if m.len() > 0 && is_ipv4(m.last()) {
        1int
    } else {
        0int
    });
    &&& m.len() >= 1
    &&& forall|i: int| 0 <= i < m.len() ==> #[trigger] piece_fits(m, i)
    &&& gaps(m) <= 1
    &&& if gaps(m) == 0 {
        width == 8
    } else {
        width <= 7
    }
}

/// Whether `q`, the pieces of a text between its colons, make an IPv6
/// address. A text that begins or ends with a colon must begin or end with
/// two; the outermost empty piece is then left aside.
pub open spec fn ipv6_pieces_fit(q: Seq<Seq<char>>) -> bool {
    let n = q.len() as int;
    if n < 3 {
        false
    } else {
        let lead = q[0].len() == 0;
        let trail = q[n - 1].len() == 0;
        &&& lead ==> q[1].len() == 0
        &&& trail ==> q[n - 2].len() == 0
        &&& groups_fit(q.subrange(if lead { 1int } else { 0int }, if trail { n - 1 } else { n }))
    }
}

/// Whether `s` is an IPv6 address: groups of hexadecimal digits with colons
/// between them, where `::` may stand once for a run of zero groups and an
/// IPv4 address may stand for the last two groups.
pub open spec fn is_ipv6(s: Seq<char>) -> bool {
    ipv6_pieces_fit(split_by(s, ':'))
}

/// Whether `s` is an IP address of either family.
pub open spec fn is_ip_address(s: Seq<char>) -> bool {
    is_ipv4(s) || is_ipv6(s)
}

/// Whether `s` is an IPv6 address.
pub fn validate_ipv6(s: &str) -> (r: bool)
    ensures
        r == is_ipv6(s@),
{
    let pieces = split(s, ':');
    let n: usize = pieces.len();
    if n < 3 {
        return false;
    }
    let ghost q = slice_views(pieces@);
    let lead = pieces[0].is_empty();
    let trail = pieces[n - 1].is_empty();
    if lead && !pieces[1].is_empty() {
        return false;
    }
    if trail && !pieces[n - 2].is_empty() {
        return false;
    }
    let lo: usize = if lead {
        1
    } else {
        0
    };
    let hi: usize = if trail {
        (n - 1) as usize
    } else {
        n
    };
    let ghost m = q.subrange(lo as int, hi as int);
    let mut empty: usize = 0;
    let mut i: usize = lo;
    assert(m.subrange(0, 0) =~= Seq::<Seq<char>>::empty());
    assert(is_ipv6(s@) == groups_fit(m));
    while i < hi
        invariant
            is_ipv6(s@) == groups_fit(m),
            lo <= i <= hi <= n,
            lo < hi,
            n == pieces@.len(),
            q == slice_views(pieces@),
            m == q.subrange(lo as int, hi as int),
            empty == gaps(m.subrange(0, i - lo)),
            empty <= i - lo,
            forall|j: int| 0 <= j < i - lo ==> #[trigger] piece_fits(m, j),
        decreases hi - i,
    {
        let p = pieces[i];
        proof {
            assert(m[i - lo] == p@);
            assert(m.subrange(0, i - lo + 1).drop_last() =~= m.subrange(0, i - lo));
            assert(m.subrange(0, i - lo + 1).last() == p@);
        }
        if p.is_empty() {
            empty += 1;
        } else if hex_group(p) {
        } else if i == hi - 1 && validate_ipv4(p) {
        } else {
            assert(!piece_fits(m, i - lo));
            return false;
        }
        i += 1;
    }
    assert(m.subrange(0, hi - lo) =~= m);
    let last_is_v4 = validate_ipv4(pieces[hi - 1]);
    assert(m.last() == pieces@[hi - 1]@);
    let groups: usize = (hi - lo) - empty;
    if empty > 1 {
        return false;
    }
    if last_is_v4 {
        if empty == 0 {
            groups == 7
        } else {
            groups <= 6
        }
    } else {
        if empty == 0 {
            groups == 8
        } else {
            groups <= 7
        }
    }
}

/// Whether `s` is an IP address of either family.
pub fn validate_ip_address(s: &str) -> (r: bool)
    ensures
        r == is_ip_address(s@),
{
    validate_ipv4(s) || validate_ipv6(s)
}

} // verus!
