//! Internet addresses, as numbers and as texts.

use vstd::prelude::*;

use crate::container::wire;
use crate::json;
use crate::json::{Js, Json};
use crate::text;
use crate::text::{cat, chars_of, has_char, join_with, parse_unsigned, split, string_range, u64_text};

verus! {

/// An Internet address.
#[derive(Debug, Clone, Copy, PartialEq, Eq)]
pub enum Address {
    /// Four octets.
    V4([u8; 4]),
    /// Eight groups.
    V6([u16; 8]),
}

/// Octets as numbers.
pub open spec fn octet_numbers(v: Seq<u8>) -> Seq<int> {
    v.map_values(|n: u8| n as int)
}

/// Groups as numbers.
pub open spec fn group_numbers(v: Seq<u16>) -> Seq<int> {
    v.map_values(|n: u16| n as int)
}

impl Address {
    /// The numbers of the address: four octets or eight groups.
    pub open spec fn view(self) -> Seq<int> {
        match self {
            Address::V4(o) => octet_numbers(o@),
            Address::V6(g) => group_numbers(g@),
        }
    }
}

/// The numbers make an address: they are four octets or eight groups.
pub open spec fn is_numbers(n: Seq<int>) -> bool {
    (n.len() == 4 && are_below(n, 256)) || (n.len() == 8 && are_below(n, 0x1_0000))
}

/// All numbers are at least zero and less than `limit`.
pub open spec fn are_below(n: Seq<int>, limit: int) -> bool {
    forall|i: int| 0 <= i < n.len() ==> 0 <= #[trigger] n[i] < limit
}

/// A number up to 255, in decimal and without leading zeros.
pub open spec fn is_octet(p: Seq<char>) -> bool {
    &&& text::all_digits(p)
    &&& p.len() > 0
    &&& p.len() > 1 ==> p[0] != '0'
    &&& text::decimal_value(p) <= 255
}

/// The octets that a text with dots between them denotes.
pub open spec fn v4_of(s: Seq<char>) -> Option<Seq<int>> {
    let p = text::split_on(s, '.');
    if p.len() == 4 && is_octet(p[0]) && is_octet(p[1]) && is_octet(p[2]) && is_octet(p[3]) {
        Some(p.map_values(|t: Seq<char>| text::decimal_value(t) as int))
    } else {
        None
    }
}

/// A hexadecimal digit.
pub open spec fn is_hex(c: char) -> bool {
    text::is_digit(c) || 'a' <= c <= 'f' || 'A' <= c <= 'F'
}

/// The value of a hexadecimal digit.
pub open spec fn hex_digit_value(c: char) -> int {
    if text::is_digit(c) {
        c as int - '0' as int
    } else if 'a' <= c <= 'f' {
        c as int - 'a' as int + 10
    } else {
        c as int - 'A' as int + 10
    }
}

/// The number that hexadecimal digits denote.
pub open spec fn hex_value(p: Seq<char>) -> int
    decreases p.len(),
{
    if p.len() == 0 {
        0
    } else {
        hex_value(p.drop_last()) * 16 + hex_digit_value(p.last())
    }
}

/// One to four hexadecimal digits.
pub open spec fn is_group(p: Seq<char>) -> bool {
    1 <= p.len() <= 4 && forall|i: int| 0 <= i < p.len() ==> is_hex(#[trigger] p[i])
}

/// All parts are groups.
pub open spec fn all_groups(parts: Seq<Seq<char>>) -> bool {
    forall|i: int| 0 <= i < parts.len() ==> is_group(#[trigger] parts[i])
}

/// The numbers of groups.
pub open spec fn hex_values(parts: Seq<Seq<char>>) -> Seq<int> {
    parts.map_values(|p: Seq<char>| hex_value(p))
}

/// Four octets as two groups.
pub open spec fn as_groups(o: Seq<int>) -> Seq<int> {
    seq![o[0] * 256 + o[1], o[2] * 256 + o[3]]
}

/// The groups that a part of an address denotes. At the end of an address the last two
/// groups may be written with dots.
pub open spec fn groups_of(s: Seq<char>, at_end: bool) -> Option<Seq<int>> {
    let p = text::split_on(s, ':');
    if s.len() == 0 {
        Some(Seq::empty())
    } else if all_groups(p) {
        Some(hex_values(p))
    } else if at_end && all_groups(p.drop_last()) {
        match v4_of(p.last()) {
            Some(o) => Some(hex_values(p.drop_last()) + as_groups(o)),
            None => None,
        }
    } else {
        None
    }
}

/// Two colons stand here, and nowhere before.
pub open spec fn is_gap(s: Seq<char>, i: int) -> bool {
    &&& 0 <= i < s.len() - 1
    &&& s[i] == ':' && s[i + 1] == ':'
    &&& forall|j: int| 0 <= j < i ==> !(#[trigger] s[j] == ':' && s[j + 1] == ':')
}

/// Where two colons stand for the first time.
pub open spec fn gap(s: Seq<char>) -> Option<int> {
    if exists|i: int| is_gap(s, i) {
        Some(choose|i: int| is_gap(s, i))
    } else {
        None
    }
}

/// So many groups that are zero.
pub open spec fn zeros(n: int) -> Seq<int> {
    Seq::new(n as nat, |i: int| 0int)
}

/// The eight groups that a text with colons between them denotes. Two colons stand for one
/// or more groups that are zero.
pub open spec fn v6_of(s: Seq<char>) -> Option<Seq<int>> {
    match gap(s) {
        None => match groups_of(s, true) {
            Some(g) => if g.len() == 8 {
                Some(g)
            } else {
                None
            },
            None => None,
        },
        Some(i) => match (groups_of(s.take(i), false), groups_of(s.skip(i + 2), true)) {
            (Some(a), Some(b)) => if a.len() + b.len() <= 7 {
                Some(a + zeros(8 - a.len() - b.len()) + b)
            } else {
                None
            },
            _ => None,
        },
    }
}

/// The address that a text denotes: eight groups where it has colons, else four octets.
pub open spec fn address_of(s: Seq<char>) -> Option<Seq<int>> {
    if s.contains(':') {
        v6_of(s)
    } else {
        v4_of(s)
    }
}

/// Octets with dots between them.
pub open spec fn v4_text(o: Seq<int>) -> Seq<char> {
    text::joined(o.map_values(|n: int| text::decimal_text(n as nat)), "."@)
}

/// The hexadecimal digit for `d`.
pub open spec fn hex_char(d: int) -> char {
    if d < 10 {
        ('0' as int + d) as char
    } else {
        ('a' as int + d - 10) as char
    }
}

/// `n` in hexadecimal, without leading zeros.
pub open spec fn hex_text(n: int) -> Seq<char>
    decreases n,
{
    if n < 16 {
        seq![hex_char(n)]
    } else {
        hex_text(n / 16).push(hex_char(n % 16))
    }
}

/// Groups with colons between them.
pub open spec fn groups_text(g: Seq<int>) -> Seq<char> {
    text::joined(g.map_values(|n: int| hex_text(n)), ":"@)
}

/// `len` groups from `start` on are zero.
pub open spec fn is_run(g: Seq<int>, start: int, len: int) -> bool {
    &&& 0 <= start
    &&& 0 <= len
    &&& start + len <= g.len()
    &&& forall|k: int| start <= k < start + len ==> #[trigger] g[k] == 0
}

/// No run of zero groups is longer, and none that is as long comes before.
pub open spec fn is_longest_run(g: Seq<int>, start: int, len: int) -> bool {
    &&& is_run(g, start, len)
    &&& forall|s: int, l: int| #[trigger] is_run(g, s, l) ==> l < len || (l == len && start <= s)
}

/// The run of at least two zero groups that is left out of the text of an address.
pub open spec fn left_out(g: Seq<int>) -> Option<(int, int)> {
    if exists|s: int, l: int| is_longest_run(g, s, l) && l >= 2 {
        Some(choose|s: int, l: int| is_longest_run(g, s, l) && l >= 2)
    } else {
        None
    }
}

/// The groups hold an address of four octets.
pub open spec fn is_mapped(g: Seq<int>) -> bool {
    g[0] == 0 && g[1] == 0 && g[2] == 0 && g[3] == 0 && g[4] == 0 && g[5] == 0xffff
}

/// The text of eight groups: the longest run of zeros is left out, and an address of four
/// octets is written with dots.
pub open spec fn v6_text(g: Seq<int>) -> Seq<char> {
    if is_mapped(g) {
        "::ffff:"@ + v4_text(seq![g[6] / 256, g[6] % 256, g[7] / 256, g[7] % 256])
    } else {
        match left_out(g) {
            Some((start, len)) => groups_text(g.take(start)) + "::"@ + groups_text(
                g.skip(start + len),
            ),
            None => groups_text(g),
        }
    }
}

/// The text of an address.
pub open spec fn address_text(n: Seq<int>) -> Seq<char> {
    if n.len() == 4 {
        v4_text(n)
    } else {
        v6_text(n)
    }
}

fn octet(p: &str) -> (r: Option<u8>)
    ensures
        match r {
            Some(n) => is_octet(p@) && text::decimal_value(p@) == n,
            None => !is_octet(p@),
        },
{
    let c = chars_of(p);
    let mut i: usize = 0;
    while i < c.len()
        invariant
            c@ == p@,
            i <= c.len(),
            forall|j: int| 0 <= j < i ==> text::is_digit(#[trigger] p@[j]),
        decreases c.len() - i,
    {
        if c[i] < '0' || c[i] > '9' {
            assert(!text::is_digit(p@[i as int]));
            return None;
        }
        i += 1;
    }
    if c.len() == 0 || (c.len() > 1 && c[0] == '0') {
        return None;
    }
    assert(text::unsigned_digits(p@) == p@) by {
        assert(text::is_digit(p@[0]));
    }
    match parse_unsigned(p, 255) {
        Some(n) => Some(n as u8),
        None => None,
    }
}

fn v4(s: &str) -> (r: Option<[u8; 4]>)
    ensures
        match r {
            Some(o) => v4_of(s@) == Some(octet_numbers(o@)),
            None => v4_of(s@) is None,
        },
{
    let p = split(s, '.');
    let ghost parts = text::views(p@);
    if p.len() != 4 {
        return None;
    }
    assert(parts[0] == p@[0]@ && parts[1] == p@[1]@ && parts[2] == p@[2]@ && parts[3] == p@[3]@);
    let a = octet(p[0].as_str());
    let b = octet(p[1].as_str());
    let c = octet(p[2].as_str());
    let d = octet(p[3].as_str());
    match (a, b, c, d) {
        (Some(a), Some(b), Some(c), Some(d)) => {
            let o = [a, b, c, d];
            assert(octet_numbers(o@) =~= v4_of(s@)->0);
            Some(o)
        },
        _ => None,
    }
}

fn hex_digit(x: char) -> (r: Option<u32>)
    ensures
        match r {
            Some(d) => is_hex(x) && hex_digit_value(x) == d && d < 16,
            None => !is_hex(x),
        },
{
    let n: u32 = x as u32;
    if '0' <= x && x <= '9' {
        Some(n - 48)
    } else if 'a' <= x && x <= 'f' {
        Some(n - 87)
    } else if 'A' <= x && x <= 'F' {
        Some(n - 55)
    } else {
        None
    }
}

fn group(p: &str) -> (r: Option<u16>)
    ensures
        match r {
            Some(n) => is_group(p@) && hex_value(p@) == n,
            None => !is_group(p@),
        },
{
    let c = chars_of(p);
    if c.len() == 0 || c.len() > 4 {
        return None;
    }
    let mut n: u32 = 0;
    let mut i: usize = 0;
    assert(p@.take(0) =~= Seq::<char>::empty());
    while i < c.len()
        invariant
            c@ == p@,
            i <= c.len() <= 4,
            n == hex_value(p@.take(i as int)),
            i == 0 ==> n == 0,
            i <= 1 ==> n < 0x10,
            i <= 2 ==> n < 0x100,
            i <= 3 ==> n < 0x1000,
            n < 0x1_0000,
            forall|j: int| 0 <= j < i ==> is_hex(#[trigger] p@[j]),
        decreases c.len() - i,
    {
        match hex_digit(c[i]) {
            None => {
                assert(!is_hex(p@[i as int]));
                return None;
            },
            Some(d) => {
                assert(p@.take(i + 1).drop_last() =~= p@.take(i as int));
                n = n * 16 + d;
            },
        }
        i += 1;
    }
    assert(p@.take(c.len() as int) =~= p@);
    Some(n as u16)
}

/// Reads the first `count` parts as groups.
fn groups(p: &Vec<String>, count: usize) -> (r: Option<Vec<u16>>)
    requires
        count <= p.len(),
    ensures
        match r {
            Some(v) => all_groups(text::views(p@).take(count as int)) && group_numbers(v@)
                == hex_values(text::views(p@).take(count as int)),
            None => !all_groups(text::views(p@).take(count as int)),
        },
{
    let ghost parts = text::views(p@).take(count as int);
    let mut out: Vec<u16> = Vec::new();
    let mut i: usize = 0;
    while i < count
        invariant
            count <= p.len(),
            parts == text::views(p@).take(count as int),
            i <= count,
            out.len() == i,
            forall|j: int|
                0 <= j < i ==> is_group(#[trigger] parts[j]) && hex_value(parts[j]) == out@[j],
        decreases count - i,
    {
        assert(parts[i as int] == p@[i as int]@);
        match group(p[i].as_str()) {
            Some(n) => {
                out.push(n);
            },
            None => {
                return None;
            },
        }
        i += 1;
    }
    assert(group_numbers(out@) =~= hex_values(parts));
    Some(out)
}

/// Reads a part of an address.
fn side(s: &str, at_end: bool) -> (r: Option<Vec<u16>>)
    ensures
        match r {
            Some(v) => groups_of(s@, at_end) == Some(group_numbers(v@)),
            None => groups_of(s@, at_end) is None,
        },
{
    if chars_of(s).len() == 0 {
        let none: Vec<u16> = Vec::new();
        assert(group_numbers(none@) =~= Seq::<int>::empty());
        return Some(none);
    }
    let p = split(s, ':');
    let ghost parts = text::views(p@);
    let n: usize = p.len();
    proof {
        assert(parts.take(n as int) =~= parts);
        assert(parts.take(n - 1) =~= parts.drop_last());
        assert(parts.last() == p@[n - 1]@);
    }
    if let Some(v) = groups(&p, n) {
        return Some(v);
    }
    if !at_end {
        return None;
    }
    match (groups(&p, n - 1), v4(p[n - 1].as_str())) {
        (Some(mut v), Some(o)) => {
            let ghost before = v@;
            v.push(o[0] as u16 * 256 + o[1] as u16);
            v.push(o[2] as u16 * 256 + o[3] as u16);
            assert(group_numbers(v@) =~= group_numbers(before) + as_groups(octet_numbers(o@)));
            Some(v)
        },
        _ => None,
    }
}

/// Two colons stand in one place for the first time.
proof fn lemma_gap(s: Seq<char>, i: int)
    requires
        is_gap(s, i),
    ensures
        gap(s) == Some(i),
{
    let k = choose|k: int| is_gap(s, k);
    assert(is_gap(s, k));
    assert(k == i);
}

fn find_gap(c: &Vec<char>) -> (r: Option<usize>)
    ensures
        match r {
            Some(i) => gap(c@) == Some(i as int) && i + 1 < c.len(),
            None => gap(c@) is None,
        },
{
    let mut i: usize = 0;
    while i < c.len() && c.len() - i > 1
        invariant
            i <= c.len(),
            forall|j: int| 0 <= j < i ==> !(#[trigger] c@[j] == ':' && c@[j + 1] == ':'),
        decreases c.len() - i,
    {
        if c[i] == ':' && c[i + 1] == ':' {
            proof {
                lemma_gap(c@, i as int);
            }
            return Some(i);
        }
        i += 1;
    }
    proof {
        assert forall|k: int| !is_gap(c@, k) by {
            if is_gap(c@, k) {
                assert(k < i);
            }
        }
    }
    None
}

/// The address of eight groups.
fn of_groups(v: &Vec<u16>) -> (r: Address)
    requires
        v.len() == 8,
    ensures
        r.view() == group_numbers(v@),
{
    let r = Address::V6([v[0], v[1], v[2], v[3], v[4], v[5], v[6], v[7]]);
    assert(r.view() =~= group_numbers(v@));
    r
}

fn v6(s: &str) -> (r: Option<Address>)
    ensures
        match r {
            Some(a) => v6_of(s@) == Some(a.view()),
            None => v6_of(s@) is None,
        },
{
    let c = chars_of(s);
    match find_gap(&c) {
        None => match side(s, true) {
            Some(v) => {
                assert(group_numbers(v@).len() == v.len());
                if v.len() == 8 {
                    Some(of_groups(&v))
                } else {
                    None
                }
            },
            None => None,
        },
        Some(i) => {
            let head = string_range(&c, 0, i);
            let tail = string_range(&c, i + 2, c.len());
            proof {
                assert(head@ =~= s@.take(i as int));
                assert(tail@ =~= s@.skip(i + 2));
            }
            match (side(head.as_str(), false), side(tail.as_str(), true)) {
                (Some(a), Some(b)) => {
                    assert(group_numbers(a@).len() == a.len());
                    assert(group_numbers(b@).len() == b.len());
                    if a.len() > 7 || b.len() > 7 || a.len() + b.len() > 7 {
                        return None;
                    }
                    Some(filled(&a, &b))
                },
                _ => None,
            }
        },
    }
}

/// The address with zeros between the given groups.
fn filled(a: &Vec<u16>, b: &Vec<u16>) -> (r: Address)
    requires
        a.len() + b.len() <= 7,
    ensures
        r.view() == group_numbers(a@) + zeros(8 - a.len() - b.len()) + group_numbers(b@),
{
    let ghost all = group_numbers(a@) + zeros(8 - a.len() - b.len()) + group_numbers(b@);
    let behind: usize = 8 - b.len();
    let mut v: Vec<u16> = Vec::new();
    let mut i: usize = 0;
    while i < 8
        invariant
            i <= 8,
            a.len() + b.len() <= 7,
            behind == 8 - b.len(),
            all == group_numbers(a@) + zeros(8 - a.len() - b.len()) + group_numbers(b@),
            v.len() == i,
            forall|k: int| 0 <= k < i ==> (#[trigger] v@[k]) as int == all[k],
        decreases 8 - i,
    {
        let n: u16 = if i < a.len() {
            a[i]
        } else if i < behind {
            0
        } else {
            b[i - behind]
        };
        v.push(n);
        i += 1;
    }
    assert(group_numbers(v@) =~= all);
    of_groups(&v)
}

/// Appends `n` in hexadecimal.
fn push_hex(out: &mut String, n: u16)
    ensures
        final(out)@ == old(out)@ + hex_text(n as int),
    decreases n,
{
    if n >= 16 {
        push_hex(out, n / 16);
    }
    let d: u8 = (n % 16) as u8;
    let c: char = if d < 10 {
        (48u8 + d) as char
    } else {
        (87u8 + d) as char
    };
    assert(c == hex_char((n % 16) as int));
    out.push(c);
    proof {
        if n < 16 {
            assert(old(out)@.push(c) =~= old(out)@ + seq![c]);
        } else {
            assert((old(out)@ + hex_text((n / 16) as int)).push(c) =~= old(out)@ + hex_text(
                (n / 16) as int,
            ).push(c));
        }
    }
}

/// Writes octets with dots between them.
fn write_v4(o: &Vec<u8>) -> (r: String)
    ensures
        r@ == v4_text(octet_numbers(o@)),
{
    let mut parts: Vec<String> = Vec::new();
    let mut i: usize = 0;
    while i < o.len()
        invariant
            i <= o.len(),
            parts.len() == i,
            forall|k: int|
                0 <= k < i ==> (#[trigger] parts@[k])@ == text::decimal_text(o@[k] as nat),
        decreases o.len() - i,
    {
        parts.push(u64_text(o[i] as u64));
        i += 1;
    }
    assert(text::views(parts@) =~= octet_numbers(o@).map_values(
        |n: int| text::decimal_text(n as nat),
    ));
    join_with(&parts, ".")
}

/// Writes groups with colons between them.
fn write_groups(g: &[u16; 8], from: usize, to: usize) -> (r: String)
    requires
        from <= to <= 8,
    ensures
        r@ == groups_text(group_numbers(g@).subrange(from as int, to as int)),
{
    let ghost part = group_numbers(g@).subrange(from as int, to as int);
    let mut parts: Vec<String> = Vec::new();
    let mut i: usize = from;
    while i < to
        invariant
            from <= i <= to <= 8,
            part == group_numbers(g@).subrange(from as int, to as int),
            parts.len() == i - from,
            forall|k: int| 0 <= k < i - from ==> (#[trigger] parts@[k])@ == hex_text(part[k]),
        decreases to - i,
    {
        let mut one = String::new();
        push_hex(&mut one, g[i]);
        proof {
            assert(one@ =~= hex_text(g@[i as int] as int));
            assert(part[i - from] == g@[i as int]);
        }
        parts.push(one);
        i += 1;
    }
    assert(text::views(parts@) =~= part.map_values(|n: int| hex_text(n)));
    join_with(&parts, ":")
}

/// Finds the longest run of zero groups.
fn longest_run(g: &[u16; 8]) -> (r: (usize, usize))
    ensures
        is_longest_run(group_numbers(g@), r.0 as int, r.1 as int),
{
    let ghost all = group_numbers(g@);
    let mut start: usize = 0;
    let mut len: usize = 0;
    let mut current: usize = 0;
    let mut i: usize = 0;
    while i < 8
        invariant
            all == group_numbers(g@),
            all.len() == 8,
            current <= i <= 8,
            is_run(all, i - current, current as int),
            current < i ==> all[i - current - 1] != 0,
            is_run(all, start as int, len as int),
            start + len <= i,
            current <= len,
            forall|s: int, l: int|
                #[trigger] is_run(all, s, l) && s + l <= i ==> l < len || (l == len && start <= s),
        decreases 8 - i,
    {
        let ghost best = (start, len);
        assert(all[i as int] == g@[i as int]);
        if g[i] == 0 {
            current += 1;
            if current > len {
                start = i + 1 - current;
                len = current;
            }
        } else {
            current = 0;
        }
        proof {
            assert forall|s: int, l: int| #[trigger]
                is_run(all, s, l) && s + l <= i + 1 implies l < len || (l == len && start
                <= s) by {
                if s + l == i + 1 {
                    if l > current {
                        assert(s <= i - current);
                        if all[i as int] != 0 {
                            assert(all[i as int] == 0);
                        } else {
                            assert(all[i - current] == 0);
                        }
                    }
                }
            }
        }
        i += 1;
    }
    (start, len)
}

/// There is one longest run.
proof fn lemma_left_out(g: Seq<int>, start: int, len: int)
    requires
        is_longest_run(g, start, len),
    ensures
        left_out(g) == if len >= 2 {
            Some((start, len))
        } else {
            None
        },
{
    if exists|s: int, l: int| is_longest_run(g, s, l) && l >= 2 {
        let (s, l) = choose|s: int, l: int| is_longest_run(g, s, l) && l >= 2;
        assert(is_run(g, s, l));
        assert(is_run(g, start, len));
    }
}

impl Address {
    /// Reads an address.
    pub fn parse(s: &str) -> (r: Option<Address>)
        ensures
            match r {
                Some(a) => address_of(s@) == Some(a.view()),
                None => address_of(s@) is None,
            },
    {
        if has_char(s, ':') {
            v6(s)
        } else {
            match v4(s) {
                Some(o) => Some(Address::V4(o)),
                None => None,
            }
        }
    }

    /// The text of the address.
    pub fn text(&self) -> (r: String)
        ensures
            r@ == address_text(self.view()),
    {
        match self {
            Address::V4(o) => {
                let v: Vec<u8> = vec![o[0], o[1], o[2], o[3]];
                assert(octet_numbers(v@) =~= self.view());
                write_v4(&v)
            },
            Address::V6(g) => {
                let ghost n = self.view();
                if g[0] == 0 && g[1] == 0 && g[2] == 0 && g[3] == 0 && g[4] == 0 && g[5] == 0xffff {
                    let v: Vec<u8> = vec![
                        (g[6] / 256) as u8,
                        (g[6] % 256) as u8,
                        (g[7] / 256) as u8,
                        (g[7] % 256) as u8,
                    ];
                    assert(octet_numbers(v@) =~= seq![
                        n[6] / 256,
                        n[6] % 256,
                        n[7] / 256,
                        n[7] % 256,
                    ]);
                    return cat("::ffff:", write_v4(&v).as_str());
                }
                let (start, len) = longest_run(g);
                proof {
                    lemma_left_out(n, start as int, len as int);
                    assert(n.subrange(0, start as int) =~= n.take(start as int));
                    assert(n.subrange(start + len, 8) =~= n.skip(start + len));
                    assert(n.subrange(0, 8) =~= n);
                }
                if len >= 2 {
                    let head = cat(write_groups(g, 0, start).as_str(), "::");
                    cat(head.as_str(), write_groups(g, start + len, 8).as_str())
                } else {
                    write_groups(g, 0, 8)
                }
            },
        }
    }
}

/// An octet that is written is read as it is.
proof fn lemma_octet(n: int)
    requires
        0 <= n < 256,
    ensures
        is_octet(text::decimal_text(n as nat)),
        text::decimal_value(text::decimal_text(n as nat)) == n,
        text::lacks(text::decimal_text(n as nat), '.'),
        text::lacks(text::decimal_text(n as nat), ':'),
{
    text::law_decimal_round_trip(n as nat);
    reveal_with_fuel(text::decimal_text, 4);
    let t = text::decimal_text(n as nat);
    assert forall|i: int| 0 <= i < t.len() implies t[i] != '.' && t[i] != ':' by {
        assert(text::is_digit(t[i]));
    }
}

/// Octets that are written are read as they are.
proof fn lemma_v4(o: Seq<int>)
    requires
        o.len() == 4,
        are_below(o, 256),
    ensures
        v4_of(v4_text(o)) == Some(o),
        text::lacks(v4_text(o), ':'),
        v4_text(o).contains('.'),
{
    reveal_strlit(".");
    let parts = o.map_values(|n: int| text::decimal_text(n as nat));
    assert("."@ =~= seq!['.']);
    assert forall|i: int| 0 <= i < 4 implies is_octet(#[trigger] parts[i]) && text::decimal_value(
        parts[i],
    ) == o[i] && text::lacks(parts[i], '.') && text::lacks(parts[i], ':') by {
        lemma_octet(o[i]);
    }
    text::lemma_split_joined(parts, '.');
    text::lemma_joined_lacks(parts, '.', ':');
    assert(v4_of(v4_text(o))->0 =~= o);
    let head = text::joined(parts.drop_last(), "."@);
    assert(v4_text(o)[head.len() as int] == '.');
}

/// A number that is written in hexadecimal is read as it is.
proof fn lemma_hex(n: int)
    requires
        0 <= n < 0x1_0000,
    ensures
        hex_text(n).len() > 0,
        forall|i: int| 0 <= i < hex_text(n).len() ==> is_hex(#[trigger] hex_text(n)[i]),
        hex_value(hex_text(n)) == n,
        n < 0x10 ==> hex_text(n).len() == 1,
        n < 0x100 ==> hex_text(n).len() <= 2,
        n < 0x1000 ==> hex_text(n).len() <= 3,
        hex_text(n).len() <= 4,
    decreases n,
{
    let t = hex_text(n);
    if n < 16 {
        assert(t.drop_last() =~= Seq::<char>::empty());
        assert(hex_value(t.drop_last()) == 0);
    } else {
        lemma_hex(n / 16);
        assert(t.drop_last() =~= hex_text(n / 16));
    }
}

/// In groups with colons between them no two colons follow each other, and none stands at
/// an end.
proof fn lemma_single_colons(parts: Seq<Seq<char>>)
    requires
        parts.len() > 0,
        forall|i: int|
            0 <= i < parts.len() ==> (#[trigger] parts[i]).len() > 0 && text::lacks(parts[i], ':'),
    ensures
        ({
            let t = text::joined(parts, seq![':']);
            &&& t.len() > 0
            &&& t[0] != ':'
            &&& t.last() != ':'
            &&& forall|j: int| 0 <= j < t.len() - 1 ==> !(#[trigger] t[j] == ':' && t[j + 1] == ':')
        }),
    decreases parts.len(),
{
    let t = text::joined(parts, seq![':']);
    let last = parts.last();
    assert(last.len() > 0 && text::lacks(last, ':'));
    if parts.len() > 1 {
        let before = parts.drop_last();
        assert forall|i: int| 0 <= i < before.len() implies (#[trigger] before[i]).len() > 0
            && text::lacks(before[i], ':') by {
            assert(before[i] == parts[i]);
        }
        lemma_single_colons(before);
        let a = text::joined(before, seq![':']);
        assert(t == a + seq![':'] + last);
        assert forall|j: int| 0 <= j < t.len() - 1 implies !(#[trigger] t[j] == ':' && t[j + 1]
            == ':') by {
            if j < a.len() - 1 {
                assert(t[j] == a[j] && t[j + 1] == a[j + 1]);
            } else if j == a.len() - 1 {
                assert(t[j] == a[j]);
            } else {
                assert(t[j + 1] == last[j - a.len()]);
            }
        }
        assert(t[0] == a[0]);
        assert(t.last() == last.last());
    } else {
        assert(t == last);
    }
}

/// Groups that are written are read as they are.
proof fn lemma_groups(g: Seq<int>, at_end: bool)
    requires
        are_below(g, 0x1_0000),
    ensures
        groups_of(groups_text(g), at_end) == Some(g),
        text::lacks(groups_text(g), '.'),
        forall|j: int|
            0 <= j < groups_text(g).len() - 1 ==> !(#[trigger] groups_text(g)[j] == ':'
                && groups_text(g)[j + 1] == ':'),
        groups_text(g).len() > 0 ==> groups_text(g).last() != ':',
        g.len() > 1 ==> groups_text(g).contains(':'),
{
    reveal_strlit(":");
    assert(":"@ =~= seq![':']);
    let parts = g.map_values(|n: int| hex_text(n));
    assert forall|i: int| 0 <= i < parts.len() implies is_group(#[trigger] parts[i]) && hex_value(
        parts[i],
    ) == g[i] && text::lacks(parts[i], ':') && text::lacks(parts[i], '.') by {
        assert(0 <= g[i] < 0x1_0000);
        lemma_hex(g[i]);
        let t = hex_text(g[i]);
        assert forall|k: int| 0 <= k < t.len() implies t[k] != ':' && t[k] != '.' by {
            assert(is_hex(t[k]));
        }
    }
    if g.len() == 0 {
        assert(g =~= Seq::<int>::empty());
    } else {
        text::lemma_split_joined(parts, ':');
        text::lemma_joined_lacks(parts, ':', '.');
        lemma_single_colons(parts);
        assert(hex_values(parts) =~= g);
        if g.len() > 1 {
            let head = text::joined(parts.drop_last(), seq![':']);
            assert(groups_text(g)[head.len() as int] == ':');
        }
    }
}

/// A part without double colons, two colons, another part: the gap is between the parts.
proof fn lemma_gap_between(head: Seq<char>, tail: Seq<char>)
    requires
        forall|j: int|
            0 <= j < head.len() - 1 ==> !(#[trigger] head[j] == ':' && head[j + 1] == ':'),
        head.len() > 0 ==> head.last() != ':',
    ensures
        ({
            let s = head + "::"@ + tail;
            &&& gap(s) == Some(head.len() as int)
            &&& s.take(head.len() as int) == head
            &&& s.skip(head.len() as int + 2) == tail
            &&& s.contains(':')
        }),
{
    reveal_strlit("::");
    let s = head + "::"@ + tail;
    let h = head.len() as int;
    assert(s[h] == ':' && s[h + 1] == ':');
    assert forall|j: int| 0 <= j < h implies !(#[trigger] s[j] == ':' && s[j + 1] == ':') by {
        assert(s[j] == head[j]);
        if j < h - 1 {
            assert(s[j + 1] == head[j + 1]);
        }
    }
    lemma_gap(s, h);
    assert(s.take(h) =~= head);
    assert(s.skip(h + 2) =~= tail);
}

/// An address of four octets that is written as eight groups is read as it is.
proof fn lemma_mapped(g: Seq<int>)
    requires
        g.len() == 8,
        are_below(g, 0x1_0000),
        is_mapped(g),
    ensures
        address_of(v6_text(g)) == Some(g),
{
    reveal_strlit("::ffff:");
    reveal_strlit("::");
    reveal_strlit("ffff");
    let o = seq![g[6] / 256, g[6] % 256, g[7] / 256, g[7] % 256];
    assert(0 <= g[6] < 0x1_0000 && 0 <= g[7] < 0x1_0000);
    assert(are_below(o, 256));
    lemma_v4(o);
    let dots = v4_text(o);
    let parts = seq!["ffff"@, dots];
    let tail = text::joined(parts, seq![':']);
    assert(parts.drop_last() =~= seq!["ffff"@]);
    reveal_with_fuel(text::joined, 3);
    assert(tail =~= "ffff"@ + seq![':'] + dots);
    assert(text::lacks("ffff"@, ':'));
    text::lemma_split_joined(parts, ':');
    let none = Seq::<char>::empty();
    lemma_gap_between(none, tail);
    assert(v6_text(g) =~= none + "::"@ + tail);
    assert(!all_groups(parts)) by {
        let k = choose|k: int| 0 <= k < dots.len() && dots[k] == '.';
        assert(!is_hex(dots[k]));
        assert(!is_group(parts[1]));
    }
    assert(all_groups(parts.drop_last())) by {
        assert(is_group("ffff"@));
    }
    assert(hex_value("ffff"@) == 0xffff) by {
        reveal_with_fuel(hex_value, 5);
        let t = "ffff"@;
        assert(t.drop_last().drop_last().drop_last().drop_last() =~= Seq::<char>::empty());
        assert(t.last() == 'f' && t.drop_last().last() == 'f');
        assert(t.drop_last().drop_last().last() == 'f');
        assert(t.drop_last().drop_last().drop_last().last() == 'f');
    }
    let b = hex_values(parts.drop_last()) + as_groups(o);
    assert(groups_of(tail, true) == Some(b));
    assert(b.len() == 3);
    assert(Seq::<int>::empty() + zeros(5) + b =~= g);
}

/// An address that is written as a text is read from it as the same address.
pub proof fn law_address_round_trip(n: Seq<int>)
    requires
        is_numbers(n),
    ensures
        address_of(address_text(n)) == Some(n),
{
    if n.len() == 4 {
        lemma_v4(n);
    } else if is_mapped(n) {
        lemma_mapped(n);
    } else {
        match left_out(n) {
            Some((start, len)) => {
                assert(is_longest_run(n, start, len) && len >= 2);
                let a = n.take(start);
                let b = n.skip(start + len);
                assert(are_below(a, 0x1_0000));
                assert(are_below(b, 0x1_0000));
                lemma_groups(a, false);
                lemma_groups(b, true);
                lemma_gap_between(groups_text(a), groups_text(b));
                assert(a + zeros(8 - a.len() - b.len()) + b =~= n);
            },
            None => {
                lemma_groups(n, true);
                let s = groups_text(n);
                assert forall|k: int| !is_gap(s, k) by {
                    if is_gap(s, k) {
                        assert(s[k] == ':' && s[k + 1] == ':');
                    }
                }
            },
        }
    }
}

/// Addresses that are written alike are the same.
pub proof fn law_address_text_tells(a: Seq<int>, b: Seq<int>)
    requires
        is_numbers(a),
        is_numbers(b),
        address_text(a) == address_text(b),
    ensures
        a == b,
{
    law_address_round_trip(a);
    law_address_round_trip(b);
}

/// The readings of addresses.
pub open spec fn address_views(v: Seq<Address>) -> Seq<Seq<int>> {
    v.map_values(|a: Address| a.view())
}

/// Addresses as they are sent.
pub open spec fn addresses_js(v: Seq<Address>) -> Js {
    Js::Arr(v.map_values(|a: Address| Js::Str(address_text(a.view()))))
}

/// Every item is an Internet address.
pub open spec fn all_addresses(v: Seq<Js>) -> bool {
    forall|i: int|
        0 <= i < v.len() ==> (#[trigger] v[i] matches Js::Str(s) && address_of(s) is Some)
}

/// The form in which an address is sent.
pub open spec fn canon_address(j: Js) -> Js {
    match j {
        Js::Str(s) => match address_of(s) {
            Some(n) => Js::Str(address_text(n)),
            None => j,
        },
        _ => j,
    }
}

/// A list of Internet addresses that is empty where it is left out.
pub open spec fn pick_addresses(v: Option<Js>) -> Option<Js> {
    match v {
        None => Some(Js::Arr(Seq::empty())),
        Some(Js::Arr(items)) => if all_addresses(items) {
            Some(Js::Arr(items.map_values(|j: Js| canon_address(j))))
        } else {
            None
        },
        _ => None,
    }
}

/// Reads a list of Internet addresses.
pub fn read_addresses(j: &Json, key: &str) -> (r: Option<Vec<Address>>)
    ensures
        match r {
            Some(v) => pick_addresses(wire::field(j.view(), key@)) == Some(addresses_js(v@)),
            None => pick_addresses(wire::field(j.view(), key@)) is None,
        },
{
    let mut out: Vec<Address> = Vec::new();
    let items = match j.get(key) {
        None => {
            assert(addresses_js(out@)->Arr_0 =~= Seq::<Js>::empty());
            return Some(out);
        },
        Some(Json::Array(items)) => items,
        Some(_) => {
            return None;
        },
    };
    let ghost all = json::items_view(items@);
    proof {
        json::lemma_items(items@);
    }
    let mut i: usize = 0;
    while i < items.len()
        invariant
            all == json::items_view(items@),
            all.len() == items.len(),
            wire::field(j.view(), key@) == Some(Js::Arr(all)),
            i <= items.len(),
            out.len() == i,
            forall|k: int|
                0 <= k < i ==> (#[trigger] all[k] matches Js::Str(s) && address_of(s) == Some(
                    out@[k].view(),
                )),
        decreases items.len() - i,
    {
        proof {
            json::lemma_items(items@);
            assert(all[i as int] == items@[i as int].view());
        }
        let read = match &items[i] {
            Json::Text(s) => Address::parse(s.as_str()),
            _ => None,
        };
        match read {
            Some(a) => {
                out.push(a);
            },
            None => {
                assert(!all_addresses(all));
                return None;
            },
        }
        i += 1;
    }
    proof {
        assert(all_addresses(all));
        let sent = all.map_values(|x: Js| canon_address(x));
        assert forall|k: int| 0 <= k < sent.len() implies sent[k]
            == addresses_js(out@)->Arr_0[k] by {
            assert(all[k] is Str);
        }
        assert(sent =~= addresses_js(out@)->Arr_0);
    }
    Some(out)
}

/// A list of Internet addresses to send.
pub fn send_addresses(v: &Vec<Address>) -> (r: Json)
    ensures
        r.view() == addresses_js(v@),
        r.form() == json::flat(addresses_js(v@)),
{
    let mut texts: Vec<String> = Vec::new();
    let mut i: usize = 0;
    while i < v.len()
        invariant
            i <= v.len(),
            texts.len() == i,
            forall|k: int| 0 <= k < i ==> (#[trigger] texts@[k])@ == address_text(v@[k].view()),
        decreases v.len() - i,
    {
        texts.push(v[i].text());
        i += 1;
    }
    assert(wire::strings_js(texts@)->Arr_0 =~= addresses_js(v@)->Arr_0);
    wire::send_strings(&texts)
}

/// Addresses that are sent are read as they are.
pub proof fn lemma_addresses_sent(v: Seq<Address>)
    ensures
        pick_addresses(Some(addresses_js(v))) == Some(addresses_js(v)),
{
    let items = addresses_js(v)->Arr_0;
    assert forall|i: int| 0 <= i < items.len() implies (
    #[trigger] items[i] matches Js::Str(s) && address_of(s) is Some && canon_address(items[i])
        == items[i]) by {
        assert(items[i] == Js::Str(address_text(v[i].view())));
        law_address_round_trip(v[i].view());
    }
    assert(all_addresses(items));
    assert(items.map_values(|j: Js| canon_address(j)) =~= items);
}

/// Lists of addresses that are sent alike hold the same addresses.
pub proof fn lemma_addresses_told(a: Seq<Address>, b: Seq<Address>)
    requires
        addresses_js(a) == addresses_js(b),
    ensures
        address_views(a) == address_views(b),
{
    let x = addresses_js(a)->Arr_0;
    let y = addresses_js(b)->Arr_0;
    assert(x == y);
    assert(x.len() == a.len() && y.len() == b.len());
    assert forall|i: int| 0 <= i < a.len() implies address_views(a)[i] == address_views(b)[i] by {
        assert(x[i] == Js::Str(address_text(a[i].view())));
        assert(y[i] == Js::Str(address_text(b[i].view())));
        law_address_text_tells(a[i].view(), b[i].view());
    }
    assert(address_views(a) =~= address_views(b));
}

/// Two colons stand for the groups that are missing, of which there is at least one: an
/// address is read just where that many groups are left.
pub proof fn law_gaps_are_filled(a: Seq<int>, b: Seq<int>)
    requires
        are_below(a, 0x1_0000),
        are_below(b, 0x1_0000),
    ensures
        ({
            let s = groups_text(a) + "::"@ + groups_text(b);
            &&& v6_of(s) is Some <==> a.len() + b.len() < 8
            &&& v6_of(s) matches Some(g) ==> g.len() == 8 && g.take(a.len() as int) == a && g.skip(
                8 - b.len(),
            ) == b && forall|i: int| a.len() <= i < 8 - b.len() ==> #[trigger] g[i] == 0
        }),
{
    lemma_groups(a, false);
    lemma_groups(b, true);
    lemma_gap_between(groups_text(a), groups_text(b));
    if a.len() + b.len() < 8 {
        let g = a + zeros(8 - a.len() - b.len()) + b;
        assert(g.take(a.len() as int) =~= a);
        assert(g.skip(8 - b.len()) =~= b);
    }
}

/// Without two colons all eight groups have to be there.
pub proof fn law_all_groups_are_needed(g: Seq<int>)
    requires
        are_below(g, 0x1_0000),
    ensures
        v6_of(groups_text(g)) is Some <==> g.len() == 8,
        v6_of(groups_text(g)) matches Some(h) ==> h == g,
{
    lemma_groups(g, true);
    let s = groups_text(g);
    assert forall|k: int| !is_gap(s, k) by {
        if is_gap(s, k) {
            assert(s[k] == ':' && s[k + 1] == ':');
        }
    }
}

} // verus!
