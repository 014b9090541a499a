//! IP addresses and their textual forms.
//!
//! An IPv4 literal is four decimal numbers joined by dots. An IPv6 literal is
//! eight groups of up to four hexadecimal digits joined by colons; one run of
//! zero groups may be written `::`, and the last two groups may be written as
//! an IPv4 literal.

use vstd::prelude::*;
use vstd::slice::slice_subrange;

use crate::text::chars_of;

verus! {

/// An IP address: the four octets of IPv4, or the eight groups of IPv6.
#[derive(Clone, Copy, Debug, PartialEq, Eq, Structural)]
pub enum IpAddr {
    V4(u8, u8, u8, u8),
    V6(u16, u16, u16, u16, u16, u16, u16, u16),
}

/// The position of the first `c` in `s`, or the length of `s` if there is none.
pub open spec fn find(s: Seq<char>, c: char) -> int
    decreases s.len(),
{
    if s.len() == 0 || s[0] == c {
        0
    } else {
        1 + find(s.skip(1), c)
    }
}

/// The position of the first `::` in `s`, or the length of `s` if there is none.
pub open spec fn find_gap(s: Seq<char>) -> int
    decreases s.len(),
{
    if s.len() == 0 || (s.len() >= 2 && s[0] == ':' && s[1] == ':') {
        0
    } else {
        1 + find_gap(s.skip(1))
    }
}

/// The value of `c` as a hexadecimal digit, if it is one.
pub open spec fn digit_of(c: char) -> Option<int> {
    if '0' <= c <= '9' {
        Some(c as int - '0' as int)
    } else if 'a' <= c <= 'f' {
        Some(c as int - 'a' as int + 10)
    } else if 'A' <= c <= 'F' {
        Some(c as int - 'A' as int + 10)
    } else {
        None
    }
}

/// The number that `s` writes in base `radix`, if every character is a digit of
/// that base; the empty text writes zero.
pub open spec fn number_of(s: Seq<char>, radix: int) -> Option<int>
    decreases s.len(),
{
    if s.len() == 0 {
        Some(0)
    } else {
        match (number_of(s.drop_last(), radix), digit_of(s.last())) {
            (Some(high), Some(low)) if low < radix => Some(high * radix + low),
            _ => None,
        }
    }
}

/// The octet that `s` writes: one to three decimal digits, at most 255, and no
/// leading zero.
pub open spec fn octet_of(s: Seq<char>) -> Option<u8> {
    match number_of(s, 10) {
        Some(n) if 1 <= s.len() <= 3 && n <= 255 && (s.len() > 1 ==> s[0] != '0') => Some(n as u8),
        _ => None,
    }
}

/// The sixteen bits that `s` writes: one to four hexadecimal digits.
pub open spec fn group_of(s: Seq<char>) -> Option<u16> {
    match number_of(s, 16) {
        Some(n) if 1 <= s.len() <= 4 => Some(n as u16),
        _ => None,
    }
}

/// The `count` octets that `s` writes, joined by dots.
pub open spec fn octets_of(s: Seq<char>, count: nat) -> Option<Seq<u8>>
    decreases count,
{
    if count == 0 {
        None
    } else if count == 1 {
        match octet_of(s) {
            Some(o) => Some(seq![o]),
            None => None,
        }
    } else {
        let k = find(s, '.');
        match (octet_of(s.take(k)), octets_of(s.skip(k + 1), (count - 1) as nat)) {
            (Some(o), Some(rest)) if k < s.len() => Some(seq![o] + rest),
            _ => None,
        }
    }
}

/// The octets of the IPv4 literal `s`.
pub open spec fn quad_of(s: Seq<char>) -> Option<Seq<u8>> {
    octets_of(s, 4)
}

/// The groups that `s` writes, joined by colons. With `quad`, the text may end
/// in an IPv4 literal, which stands for two groups.
pub open spec fn groups_of(s: Seq<char>, quad: bool) -> Option<Seq<u16>>
    decreases s.len(),
{
    let k = find(s, ':');
    if 0 <= k < s.len() {
        match (group_of(s.take(k)), groups_of(s.skip(k + 1), quad)) {
            (Some(g), Some(rest)) => Some(seq![g] + rest),
            _ => None,
        }
    } else {
        match (group_of(s), quad_of(s)) {
            (Some(g), _) => Some(seq![g]),
            (None, Some(o)) if quad => Some(
                seq![(o[0] * 256 + o[1]) as u16, (o[2] * 256 + o[3]) as u16],
            ),
            _ => None,
        }
    }
}

/// The groups on one side of `::`, where there may be none.
pub open spec fn side_of(s: Seq<char>, quad: bool) -> Option<Seq<u16>> {
    if s.len() == 0 {
        Some(Seq::<u16>::empty())
    } else {
        groups_of(s, quad)
    }
}

/// The eight groups of the IPv6 literal `s`.
pub open spec fn segments_of(s: Seq<char>) -> Option<Seq<u16>> {
    let gap = find_gap(s);
    if gap < s.len() {
        match (side_of(s.take(gap), false), side_of(s.skip(gap + 2), true)) {
            (Some(head), Some(tail)) if head.len() + tail.len() <= 7 => Some(
                head + Seq::new((8 - head.len() - tail.len()) as nat, |i: int| 0u16) + tail,
            ),
            _ => None,
        }
    } else {
        match groups_of(s, true) {
            Some(g) if g.len() == 8 => Some(g),
            _ => None,
        }
    }
}

/// The address that the literal `s` writes, if it is one.
pub open spec fn ip_of(s: Seq<char>) -> Option<IpAddr> {
    match (quad_of(s), segments_of(s)) {
        (Some(o), _) => Some(IpAddr::V4(o[0], o[1], o[2], o[3])),
        (None, Some(g)) => Some(IpAddr::V6(g[0], g[1], g[2], g[3], g[4], g[5], g[6], g[7])),
        (None, None) => None,
    }
}

pub(crate) proof fn lemma_find(s: Seq<char>, c: char, k: int)
    requires
        0 <= k <= s.len(),
        forall|i: int| 0 <= i < k ==> s[i] != c,
        k < s.len() ==> s[k] == c,
    ensures
        find(s, c) == k,
    decreases s.len(),
{
    if k > 0 {
        assert forall|i: int| 0 <= i < k - 1 implies s.skip(1)[i] != c by {
            assert(s.skip(1)[i] == s[i + 1]);
        }
        lemma_find(s.skip(1), c, k - 1);
    }
}

fn position(s: &[char], c: char) -> (k: usize)
    ensures
        k == find(s@, c),
        k <= s@.len(),
        k < s@.len() ==> s@[k as int] == c,
{
    let mut k: usize = 0;
    while k < s.len() && s[k] != c
        invariant
            k <= s@.len(),
            forall|i: int| 0 <= i < k ==> s@[i] != c,
        decreases s@.len() - k,
    {
        k = k + 1;
    }
    proof {
        lemma_find(s@, c, k as int);
    }
    k
}

pub(crate) proof fn lemma_find_gap(s: Seq<char>, k: int)
    requires
        0 <= k <= s.len(),
        forall|i: int| 0 <= i < k && i + 1 < s.len() ==> !(s[i] == ':' && #[trigger] s[i + 1] == ':'),
        k < s.len() ==> k + 1 < s.len() && s[k] == ':' && s[k + 1] == ':',
    ensures
        find_gap(s) == k,
    decreases s.len(),
{
    if k > 0 {
        let t = s.skip(1);
        assert(s.len() >= 2 ==> !(s[0] == ':' && s[0int + 1] == ':'));
        assert forall|i: int| 0 <= i < k - 1 && i + 1 < t.len() implies !(t[i] == ':' && #[trigger] t[
            i + 1
        ] == ':') by {
            assert(t[i] == s[i + 1] && t[i + 1] == s[(i + 1) + 1]);
        }
        lemma_find_gap(t, k - 1);
    }
}

fn gap_position(s: &[char]) -> (k: usize)
    ensures
        k == find_gap(s@),
        k <= s@.len(),
        k < s@.len() ==> k + 2 <= s@.len(),
{
    let n: usize = s.len();
    let mut k: usize = 0;
    while k < n
        invariant
            n == s@.len(),
            k <= n,
            forall|i: int|
                0 <= i < k && i + 1 < s@.len() ==> !(s@[i] == ':' && #[trigger] s@[i + 1] == ':'),
        decreases n - k,
    {
        if n - k >= 2 && s[k] == ':' && s[k + 1] == ':' {
            proof {
                lemma_find_gap(s@, k as int);
            }
            return k;
        }
        k = k + 1;
    }
    proof {
        lemma_find_gap(s@, n as int);
    }
    k
}

fn digit(c: char) -> (d: Option<u32>)
    ensures
        match d {
            Some(v) => digit_of(c) == Some(v as int) && v < 16,
            None => digit_of(c) is None,
        },
{
    let code: u32 = c as u32;
    if '0' <= c && c <= '9' {
        Some(code - 48)
    } else if 'a' <= c && c <= 'f' {
        Some(code - 87)
    } else if 'A' <= c && c <= 'F' {
        Some(code - 55)
    } else {
        None
    }
}

/// Sixteen to the power `len`, for a `len` of at most four.
spec fn span(len: nat) -> int {
    if len == 0 {
        1
    } else if len == 1 {
        0x10
    } else if len == 2 {
        0x100
    } else if len == 3 {
        0x1000
    } else {
        0x1_0000
    }
}

/// Reads at most four digits.
fn number(s: &[char], radix: u32) -> (n: Option<u32>)
    requires
        s@.len() <= 4,
        radix == 10 || radix == 16,
    ensures
        match n {
            Some(v) => number_of(s@, radix as int) == Some(v as int) && v < span(s@.len()),
            None => number_of(s@, radix as int) is None,
        },
    decreases s@.len(),
{
    let len: usize = s.len();
    if len == 0 {
        return Some(0);
    }
    proof {
        assert(s@.subrange(0, len - 1) =~= s@.drop_last());
    }
    match (number(slice_subrange(s, 0, len - 1), radix), digit(s[len - 1])) {
        (Some(high), Some(low)) => if low < radix {
            Some(high * radix + low)
        } else {
            None
        },
        _ => None,
    }
}

fn octet(s: &[char]) -> (o: Option<u8>)
    ensures
        o == octet_of(s@),
{
    let len: usize = s.len();
    if len == 0 || len > 3 || (len > 1 && s[0] == '0') {
        return None;
    }
    match number(s, 10) {
        Some(n) => if n <= 255 {
            Some(n as u8)
        } else {
            None
        },
        None => None,
    }
}

fn group(s: &[char]) -> (g: Option<u16>)
    ensures
        g == group_of(s@),
{
    let len: usize = s.len();
    if len == 0 || len > 4 {
        return None;
    }
    match number(s, 16) {
        Some(n) => Some(n as u16),
        None => None,
    }
}

/// The octets as a sequence, where there are any.
spec fn octets_view(o: Option<Vec<u8>>) -> Option<Seq<u8>> {
    match o {
        Some(v) => Some(v@),
        None => None,
    }
}

/// The groups as a sequence, where there are any.
spec fn groups_view(g: Option<Vec<u16>>) -> Option<Seq<u16>> {
    match g {
        Some(v) => Some(v@),
        None => None,
    }
}

fn octets(s: &[char], count: usize) -> (o: Option<Vec<u8>>)
    ensures
        octets_view(o) == octets_of(s@, count as nat),
        o matches Some(v) ==> v@.len() == count,
    decreases count,
{
    if count == 0 {
        None
    } else if count == 1 {
        match octet(s) {
            Some(first) => {
                let v: Vec<u8> = vec![first];
                assert(v@ =~= seq![first]);
                Some(v)
            },
            None => None,
        }
    } else {
        let len: usize = s.len();
        let k: usize = position(s, '.');
        if k == len {
            return None;
        }
        proof {
            assert(s@.subrange(0, k as int) =~= s@.take(k as int));
            assert(s@.subrange(k + 1, len as int) =~= s@.skip(k + 1));
        }
        match (octet(slice_subrange(s, 0, k)), octets(slice_subrange(s, k + 1, len), count - 1)) {
            (Some(first), Some(rest)) => {
                let mut v: Vec<u8> = rest;
                v.insert(0, first);
                assert(v@ =~= seq![first] + rest@);
                Some(v)
            },
            _ => None,
        }
    }
}

fn groups(s: &[char], quad: bool) -> (g: Option<Vec<u16>>)
    ensures
        groups_view(g) == groups_of(s@, quad),
    decreases s@.len(),
{
    let len: usize = s.len();
    let k: usize = position(s, ':');
    if k < len {
        proof {
            assert(s@.subrange(0, k as int) =~= s@.take(k as int));
            assert(s@.subrange(k + 1, len as int) =~= s@.skip(k + 1));
        }
        match (group(slice_subrange(s, 0, k)), groups(slice_subrange(s, k + 1, len), quad)) {
            (Some(first), Some(rest)) => {
                let mut v: Vec<u16> = rest;
                v.insert(0, first);
                assert(v@ =~= seq![first] + rest@);
                Some(v)
            },
            _ => None,
        }
    } else {
        match (group(s), octets(s, 4)) {
            (Some(only), _) => {
                let v: Vec<u16> = vec![only];
                assert(v@ =~= seq![only]);
                Some(v)
            },
            (None, Some(o)) => if quad {
                let v: Vec<u16> = vec![
                    o[0] as u16 * 256 + o[1] as u16,
                    o[2] as u16 * 256 + o[3] as u16,
                ];
                assert(v@ =~= seq![
                    (o@[0] * 256 + o@[1]) as u16,
                    (o@[2] * 256 + o@[3]) as u16,
                ]);
                Some(v)
            } else {
                None
            },
            _ => None,
        }
    }
}

fn side(s: &[char], quad: bool) -> (g: Option<Vec<u16>>)
    ensures
        groups_view(g) == side_of(s@, quad),
{
    if s.len() == 0 {
        let v: Vec<u16> = Vec::new();
        assert(v@ =~= Seq::<u16>::empty());
        Some(v)
    } else {
        groups(s, quad)
    }
}

fn segments(s: &[char]) -> (g: Option<Vec<u16>>)
    ensures
        groups_view(g) == segments_of(s@),
        g matches Some(v) ==> v@.len() == 8,
{
    let len: usize = s.len();
    let gap: usize = gap_position(s);
    if gap < len {
        proof {
            assert(s@.subrange(0, gap as int) =~= s@.take(gap as int));
            assert(s@.subrange(gap + 2, len as int) =~= s@.skip(gap + 2));
        }
        match (
            side(slice_subrange(s, 0, gap), false),
            side(slice_subrange(s, gap + 2, len), true),
        ) {
            (Some(head), Some(tail)) => {
                let used: usize = head.len();
                let rest: usize = tail.len();
                if used > 7 || rest > 7 || used + rest > 7 {
                    return None;
                }
                let zeros: usize = 8 - used - rest;
                let mut v: Vec<u16> = head;
                let mut i: usize = 0;
                while i < zeros
                    invariant
                        i <= zeros,
                        v@ =~= head@ + Seq::new(i as nat, |j: int| 0u16),
                    decreases zeros - i,
                {
                    v.push(0);
                    i = i + 1;
                }
                let mut k: usize = 0;
                while k < rest
                    invariant
                        k <= rest,
                        rest == tail@.len(),
                        v@ =~= head@ + Seq::new(zeros as nat, |j: int| 0u16) + tail@.take(k as int),
                    decreases rest - k,
                {
                    v.push(tail[k]);
                    k = k + 1;
                }
                assert(tail@.take(rest as int) =~= tail@);
                Some(v)
            },
            _ => None,
        }
    } else {
        match groups(s, true) {
            Some(g) => if g.len() == 8 {
                Some(g)
            } else {
                None
            },
            None => None,
        }
    }
}

/// Reads `addr` as an IP address literal.
pub fn parse_ip(addr: &str) -> (ip: Option<IpAddr>)
    ensures
        ip == ip_of(addr@),
{
    let chars = chars_of(addr);
    match octets(chars.as_slice(), 4) {
        Some(o) => Some(IpAddr::V4(o[0], o[1], o[2], o[3])),
        None => match segments(chars.as_slice()) {
            Some(g) => Some(IpAddr::V6(g[0], g[1], g[2], g[3], g[4], g[5], g[6], g[7])),
            None => None,
        },
    }
}

} // verus!
