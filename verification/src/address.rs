//! Textual IP addresses, as std's `Ipv4Addr`, `Ipv6Addr` and `IpAddr`
//! parsers accept them. The library keeps addresses as the text they were
//! given in; these functions decide which texts are addresses.

use vstd::prelude::*;

use crate::text::{chars_of, digits_value, is_digit};

verus! {

// ── Splitting ───────────────────────────────────────────────────────

/// The fields of a text between occurrences of `sep` (one field more than
/// there are separators; the empty text has one empty field).
pub open spec fn split_on(s: Seq<char>, sep: char) -> Seq<Seq<char>>
    decreases s.len(),
{
    if s.len() == 0 {
        seq![Seq::empty()]
    } else {
        let rest = split_on(s.drop_last(), sep);
        if s.last() == sep {
            rest.push(Seq::empty())
        } else {
            rest.drop_last().push(rest.last().push(s.last()))
        }
    }
}

/// The fields of a text between occurrences of `sep`.
pub fn split_chars(v: &Vec<char>, sep: char) -> (r: Vec<Vec<char>>)
    ensures
        r@.map_values(|f: Vec<char>| f@) == split_on(v@, sep),
{
    let mut fields: Vec<Vec<char>> = Vec::new();
    let mut cur: Vec<char> = Vec::new();
    let mut i: usize = 0;
    assert(v@.subrange(0, 0) =~= Seq::<char>::empty());
    assert(fields@.map_values(|f: Vec<char>| f@).push(cur@) =~= seq![Seq::<char>::empty()]);
    while i < v.len()
        invariant
            i <= v@.len(),
            fields@.map_values(|f: Vec<char>| f@).push(cur@) == split_on(v@.subrange(0, i as int), sep),
        decreases v.len() - i,
    {
        let c = v[i];
        let ghost pre = v@.subrange(0, i as int);
        let ghost next = v@.subrange(0, i + 1);
        assert(next.drop_last() =~= pre);
        assert(next.last() == c);
        let ghost before = fields@.map_values(|f: Vec<char>| f@);
        let ghost cur_before = cur@;
        if c == sep {
            let done = cur;
            fields.push(done);
            cur = Vec::new();
            assert(fields@.map_values(|f: Vec<char>| f@) =~= before.push(cur_before));
            assert(fields@.map_values(|f: Vec<char>| f@).push(cur@) =~= before.push(cur_before).push(
                Seq::empty(),
            ));
        } else {
            cur.push(c);
            assert(before.push(cur_before).drop_last() =~= before);
            assert(fields@.map_values(|f: Vec<char>| f@).push(cur@) =~= before.push(cur_before.push(c)));
        }
        i = i + 1;
    }
    assert(v@.subrange(0, v@.len() as int) =~= v@);
    let ghost before = fields@.map_values(|f: Vec<char>| f@);
    fields.push(cur);
    assert(fields@.map_values(|f: Vec<char>| f@) =~= before.push(cur@));
    fields
}

// ── IPv4 ────────────────────────────────────────────────────────────

/// A decimal octet as std reads one: one to three ASCII digits, no leading
/// zero unless it is the only digit, and a value of at most 255.
pub open spec fn octet_ok(t: Seq<char>) -> bool {
    &&& 1 <= t.len() <= 3
    &&& forall|i: int| 0 <= i < t.len() ==> is_digit(#[trigger] t[i])
    &&& (t.len() == 1 || t[0] != '0')
    &&& digits_value(t) <= 255
}

/// Dotted-quad IPv4 text: four octets separated by `.`.
pub open spec fn is_ipv4(s: Seq<char>) -> bool {
    let f = split_on(s, '.');
    f.len() == 4 && forall|i: int| 0 <= i < 4 ==> octet_ok(#[trigger] f[i])
}

fn octet_chars_ok(t: &Vec<char>) -> (r: bool)
    ensures
        r == octet_ok(t@),
{
    if t.len() < 1 || t.len() > 3 {
        return false;
    }
    let mut acc: u32 = 0;
    let mut i: usize = 0;
    while i < t.len()
        invariant
            1 <= t@.len() <= 3,
            i <= t@.len(),
            forall|j: int| 0 <= j < i ==> is_digit(#[trigger] t@[j]),
            acc == digits_value(t@.subrange(0, i as int)),
            i == 0 ==> acc == 0,
            i == 1 ==> acc < 10,
            i == 2 ==> acc < 100,
            i == 3 ==> acc < 1000,
        decreases t.len() - i,
    {
        let c = t[i];
        if !('0' <= c && c <= '9') {
            return false;
        }
        let ghost pre = t@.subrange(0, i as int);
        let ghost next = t@.subrange(0, i + 1);
        assert(next.drop_last() =~= pre);
        assert(next.last() == c);
        acc = acc * 10 + ((c as u32) - ('0' as u32));
        i = i + 1;
    }
    assert(t@.subrange(0, t@.len() as int) =~= t@);
    if t.len() > 1 && t[0] == '0' {
        return false;
    }
    acc <= 255
}

fn ipv4_chars_ok(v: &Vec<char>) -> (r: bool)
    ensures
        r == is_ipv4(v@),
{
    let fields = split_chars(v, '.');
    let ghost f = split_on(v@, '.');
    if fields.len() != 4 {
        return false;
    }
    let mut i: usize = 0;
    while i < 4
        invariant
            fields@.map_values(|g: Vec<char>| g@) == f,
            f == split_on(v@, '.'),
            f.len() == 4,
            i <= 4,
            forall|j: int| 0 <= j < i ==> octet_ok(#[trigger] f[j]),
        decreases 4 - i,
    {
        assert(f[i as int] == fields@[i as int]@);
        if !octet_chars_ok(&fields[i]) {
            return false;
        }
        i = i + 1;
    }
    true
}

/// Whether a text is an IPv4 address (std `str::parse::<Ipv4Addr>`).
pub fn is_ipv4_text(s: &str) -> (r: bool)
    ensures
        r == is_ipv4(s@),
{
    let v = chars_of(s);
    ipv4_chars_ok(&v)
}

// ── IPv6 ────────────────────────────────────────────────────────────

/// An ASCII hexadecimal digit, of either case.
pub open spec fn is_hex(c: char) -> bool {
    ('0' <= c && c <= '9') || ('a' <= c && c <= 'f') || ('A' <= c && c <= 'F')
}

/// A 16-bit group: one to four hexadecimal digits.
pub open spec fn hex_field(t: Seq<char>) -> bool {
    1 <= t.len() <= 4 && forall|i: int| 0 <= i < t.len() ==> is_hex(#[trigger] t[i])
}

/// Whether every field is a 16-bit group.
pub open spec fn all_hex(f: Seq<Seq<char>>) -> bool {
    forall|i: int| 0 <= i < f.len() ==> hex_field(#[trigger] f[i])
}

/// Where the first `::` of a text starts, at or after `i` (-1: nowhere).
pub open spec fn dc_from(s: Seq<char>, i: int) -> int
    decreases s.len() - i,
{
    if i < 0 || i + 1 >= s.len() {
        -1
    } else if s[i] == ':' && s[i + 1] == ':' {
        i
    } else {
        dc_from(s, i + 1)
    }
}

/// The groups written on one side of `::` (none when that side is empty).
pub open spec fn side_fields(s: Seq<char>) -> Seq<Seq<char>> {
    if s.len() == 0 {
        Seq::empty()
    } else {
        split_on(s, ':')
    }
}

/// Fields that fill exactly the eight groups of an address: eight 16-bit
/// groups, or six followed by an IPv4 address.
pub open spec fn full_groups(f: Seq<Seq<char>>) -> bool {
    (f.len() == 8 && all_hex(f)) || (f.len() == 7 && all_hex(f.drop_last()) && is_ipv4(f.last()))
}

/// Fields that take at most `room` groups: 16-bit groups, the last of
/// which may be an IPv4 address (two groups).
pub open spec fn groups_within(f: Seq<Seq<char>>, room: int) -> bool {
    (all_hex(f) && f.len() <= room) || (f.len() >= 1 && all_hex(f.drop_last()) && is_ipv4(f.last())
        && f.len() + 1 <= room)
}

/// IPv6 text: eight `:`-separated groups, or groups on either side of
/// one `::` that stands for at least one zero group; an IPv4 address may
/// take the place of the last two groups.
pub open spec fn is_ipv6(s: Seq<char>) -> bool {
    let k = dc_from(s, 0);
    if k < 0 {
        full_groups(split_on(s, ':'))
    } else {
        let a = side_fields(s.subrange(0, k));
        let b = side_fields(s.subrange(k + 2, s.len() as int));
        all_hex(a) && groups_within(b, 7 - a.len())
    }
}

/// IP text: an IPv4 or an IPv6 address (std `str::parse::<IpAddr>`).
pub open spec fn is_ip(s: Seq<char>) -> bool {
    is_ipv4(s) || is_ipv6(s)
}

fn find_double_colon(v: &Vec<char>) -> (k: Option<usize>)
    ensures
        match k {
            Some(k) => dc_from(v@, 0) == k as int && k + 1 < v@.len(),
            None => dc_from(v@, 0) < 0,
        },
{
    let mut i: usize = 0;
    while i < v.len() && i + 1 < v.len()
        invariant
            dc_from(v@, 0) == dc_from(v@, i as int),
        decreases v.len() - i,
    {
        if v[i] == ':' && v[i + 1] == ':' {
            return Some(i);
        }
        i = i + 1;
    }
    None
}

fn hex_chars_ok(t: &Vec<char>) -> (r: bool)
    ensures
        r == hex_field(t@),
{
    if t.len() < 1 || t.len() > 4 {
        return false;
    }
    let mut i: usize = 0;
    while i < t.len()
        invariant
            i <= t@.len(),
            forall|j: int| 0 <= j < i ==> is_hex(#[trigger] t@[j]),
        decreases t.len() - i,
    {
        let c = t[i];
        if !(('0' <= c && c <= '9') || ('a' <= c && c <= 'f') || ('A' <= c && c <= 'F')) {
            return false;
        }
        i = i + 1;
    }
    true
}

/// Whether the first `n` fields are 16-bit groups.
fn hex_prefix_ok(f: &Vec<Vec<char>>, n: usize) -> (r: bool)
    requires
        n <= f@.len(),
    ensures
        r == forall|j: int| 0 <= j < n ==> hex_field(#[trigger] f@[j]@),
{
    let mut i: usize = 0;
    while i < n
        invariant
            n <= f@.len(),
            i <= n,
            forall|j: int| 0 <= j < i ==> hex_field(#[trigger] f@[j]@),
        decreases n - i,
    {
        if !hex_chars_ok(&f[i]) {
            return false;
        }
        i = i + 1;
    }
    true
}

/// The characters of `v` from `a` up to `b`.
fn slice_chars(v: &Vec<char>, a: usize, b: usize) -> (r: Vec<char>)
    requires
        a <= b <= v@.len(),
    ensures
        r@ == v@.subrange(a as int, b as int),
{
    let mut r: Vec<char> = Vec::new();
    let mut i: usize = a;
    while i < b
        invariant
            a <= i <= b,
            b <= v@.len(),
            r@ == v@.subrange(a as int, i as int),
        decreases b - i,
    {
        r.push(v[i]);
        i = i + 1;
        assert(r@ =~= v@.subrange(a as int, i as int));
    }
    r
}

fn side_chars(v: &Vec<char>) -> (r: Vec<Vec<char>>)
    ensures
        r@.map_values(|f: Vec<char>| f@) == side_fields(v@),
{
    if v.len() == 0 {
        let r: Vec<Vec<char>> = Vec::new();
        assert(r@.map_values(|f: Vec<char>| f@) =~= Seq::<Seq<char>>::empty());
        r
    } else {
        split_chars(v, ':')
    }
}

/// `groups_within` for fields held as vectors.
fn groups_within_ok(f: &Vec<Vec<char>>, room: usize) -> (r: bool)
    ensures
        r == groups_within(f@.map_values(|g: Vec<char>| g@), room as int),
{
    let ghost fs = f@.map_values(|g: Vec<char>| g@);
    let n = f.len();
    let all = hex_prefix_ok(f, n);
    assert(all == all_hex(fs)) by {
        if all {
            assert forall|j: int| 0 <= j < fs.len() implies hex_field(#[trigger] fs[j]) by {
                assert(fs[j] == f@[j]@);
            }
        } else {
            let j = choose|j: int| 0 <= j < n && !hex_field(#[trigger] f@[j]@);
            assert(fs[j] == f@[j]@);
        }
    }
    if all && n <= room {
        return true;
    }
    if n < 1 || n >= room {
        return false;
    }
    let init = hex_prefix_ok(f, n - 1);
    assert(init == all_hex(fs.drop_last())) by {
        if init {
            assert forall|j: int| 0 <= j < fs.drop_last().len() implies hex_field(
                #[trigger] fs.drop_last()[j],
            ) by {
                assert(fs.drop_last()[j] == f@[j]@);
            }
        } else {
            let j = choose|j: int| 0 <= j < n - 1 && !hex_field(#[trigger] f@[j]@);
            assert(fs.drop_last()[j] == f@[j]@);
        }
    }
    assert(fs.last() == f@[n - 1]@);
    init && ipv4_chars_ok(&f[n - 1])
}

fn ipv6_chars_ok(v: &Vec<char>) -> (r: bool)
    ensures
        r == is_ipv6(v@),
{
    match find_double_colon(v) {
        None => {
            let f = split_chars(v, ':');
            let ghost fs = f@.map_values(|g: Vec<char>| g@);
            let n = f.len();
            if n == 8 {
                let all = hex_prefix_ok(&f, 8);
                assert(all == all_hex(fs)) by {
                    if all {
                        assert forall|j: int| 0 <= j < fs.len() implies hex_field(#[trigger] fs[j]) by {
                            assert(fs[j] == f@[j]@);
                        }
                    } else {
                        let j = choose|j: int| 0 <= j < 8 && !hex_field(#[trigger] f@[j]@);
                        assert(fs[j] == f@[j]@);
                    }
                }
                all
            } else if n == 7 {
                let init = hex_prefix_ok(&f, 6);
                assert(init == all_hex(fs.drop_last())) by {
                    if init {
                        assert forall|j: int| 0 <= j < fs.drop_last().len() implies hex_field(
                            #[trigger] fs.drop_last()[j],
                        ) by {
                            assert(fs.drop_last()[j] == f@[j]@);
                        }
                    } else {
                        let j = choose|j: int| 0 <= j < 6 && !hex_field(#[trigger] f@[j]@);
                        assert(fs.drop_last()[j] == f@[j]@);
                    }
                }
                assert(fs.last() == f@[6]@);
                init && ipv4_chars_ok(&f[6])
            } else {
                false
            }
        },
        Some(k) => {
            let head = slice_chars(v, 0, k);
            let len = v.len();
            assert(k + 2 <= len);
            let tail = slice_chars(v, k + 2, len);
            let a = side_chars(&head);
            let b = side_chars(&tail);
            let ghost af = a@.map_values(|g: Vec<char>| g@);
            let na = a.len();
            let a_ok = hex_prefix_ok(&a, na);
            assert(a_ok == all_hex(af)) by {
                if a_ok {
                    assert forall|j: int| 0 <= j < af.len() implies hex_field(#[trigger] af[j]) by {
                        assert(af[j] == a@[j]@);
                    }
                } else {
                    let j = choose|j: int| 0 <= j < na && !hex_field(#[trigger] a@[j]@);
                    assert(af[j] == a@[j]@);
                }
            }
            if !a_ok || na > 7 {
                return false;
            }
            groups_within_ok(&b, 7 - na)
        },
    }
}

/// Whether a text is an IPv6 address (std `str::parse::<Ipv6Addr>`).
pub fn is_ipv6_text(s: &str) -> (r: bool)
    ensures
        r == is_ipv6(s@),
{
    let v = chars_of(s);
    ipv6_chars_ok(&v)
}

/// Whether a text is an IP address (std `str::parse::<IpAddr>`).
pub fn is_ip_text(s: &str) -> (r: bool)
    ensures
        r == is_ip(s@),
{
    let v = chars_of(s);
    ipv4_chars_ok(&v) || ipv6_chars_ok(&v)
}

} // verus!
