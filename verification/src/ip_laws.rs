//! What holds of address literals: the text of an address is a literal for it.

use vstd::prelude::*;

use crate::ip::{
    digit_of, find, find_gap, group_of, groups_of, ip_of, lemma_find, lemma_find_gap, number_of,
    octet_of, octets_of, quad_of, segments_of, side_of, IpAddr,
};
use crate::socks::{family_of, Family};
use crate::text::{decimal, digit_char};

verus! {

/// An IPv4 address as text: its octets in decimal, joined by dots.
pub open spec fn dotted(a: u8, b: u8, c: u8, d: u8) -> Seq<char> {
    decimal(a as nat) + seq!['.'] + (decimal(b as nat) + seq!['.'] + (decimal(c as nat) + seq!['.']
        + decimal(d as nat)))
}

proof fn lemma_digit(d: int)
    requires
        0 <= d < 10,
    ensures
        digit_of(digit_char(d)) == Some(d),
        digit_char(d) != '.',
        digit_char(d) == '0' <==> d == 0,
{
}

proof fn lemma_decimal(n: nat)
    ensures
        number_of(decimal(n), 10) == Some(n as int),
        !decimal(n).contains('.'),
        decimal(n).len() >= 1,
        n >= 10 ==> decimal(n)[0] != '0',
    decreases n,
{
    let text = decimal(n);
    if n < 10 {
        lemma_digit(n as int);
        assert(text.drop_last() =~= Seq::empty());
        assert(number_of(text.drop_last(), 10) == Some(0int));
    } else {
        let head = decimal(n / 10);
        lemma_decimal(n / 10);
        lemma_digit((n % 10) as int);
        if n < 100 {
            lemma_digit((n / 10) as int);
        }
        assert(text.drop_last() =~= head);
        assert forall|i: int| 0 <= i < text.len() implies text[i] != '.' by {
            if i < head.len() {
                assert(head.contains(head[i]));
            }
        }
    }
}

proof fn lemma_octet_text(n: u8)
    ensures
        octet_of(decimal(n as nat)) == Some(n),
        !decimal(n as nat).contains('.'),
        1 <= decimal(n as nat).len() <= 3,
{
    lemma_decimal(n as nat);
    assert(1 <= decimal(n as nat).len() <= 3) by {
        reveal_with_fuel(decimal, 3);
    }
    if n < 10 {
        assert(decimal(n as nat).len() == 1);
    }
}

proof fn lemma_octets_step(n: u8, rest: Seq<char>, count: nat)
    requires
        count > 0,
        octets_of(rest, count) is Some,
    ensures
        octets_of(decimal(n as nat) + seq!['.'] + rest, count + 1) == Some(
            seq![n] + octets_of(rest, count)->0,
        ),
{
    let head = decimal(n as nat);
    let text = head + seq!['.'] + rest;
    let k = head.len() as int;
    lemma_octet_text(n);
    assert forall|i: int| 0 <= i < k implies text[i] != '.' by {
        assert(text[i] == head[i]);
        assert(head.contains(head[i]));
    }
    lemma_find(text, '.', k);
    assert(text.take(k) =~= head);
    assert(text.skip(k + 1) =~= rest);
}

/// The text of an IPv4 address is a literal for that address.
pub proof fn law_ipv4_literal(a: u8, b: u8, c: u8, d: u8)
    ensures
        ip_of(dotted(a, b, c, d)) == Some(IpAddr::V4(a, b, c, d)),
        family_of(dotted(a, b, c, d)) == Family::Ipv4Only,
{
    lemma_octet_text(d);
    let last = decimal(d as nat);
    assert(octets_of(last, 1) == Some(seq![d]));
    lemma_octets_step(c, last, 1);
    let two = decimal(c as nat) + seq!['.'] + last;
    lemma_octets_step(b, two, 2);
    let three = decimal(b as nat) + seq!['.'] + two;
    lemma_octets_step(a, three, 3);
    assert(quad_of(dotted(a, b, c, d)) == Some(seq![a] + (seq![b] + (seq![c] + seq![d]))));
}

proof fn lemma_found(s: Seq<char>, c: char)
    ensures
        0 <= find(s, c) <= s.len(),
        find(s, c) < s.len() ==> s[find(s, c)] == c,
    decreases s.len(),
{
    if s.len() > 0 && s[0] != c {
        lemma_found(s.skip(1), c);
        assert(find(s, c) < s.len() ==> s[find(s, c)] == s.skip(1)[find(s.skip(1), c)]);
    }
}

proof fn lemma_decimal_digit(c: char)
    requires
        digit_of(c) is Some,
        digit_of(c)->0 < 10,
    ensures
        0 <= digit_of(c)->0,
        c == digit_char(digit_of(c)->0),
{
}

proof fn lemma_number_is_canonical(s: Seq<char>)
    requires
        number_of(s, 10) is Some,
        s.len() >= 1,
        s.len() > 1 ==> s[0] != '0',
    ensures
        number_of(s, 10)->0 >= 0,
        s == decimal(number_of(s, 10)->0 as nat),
    decreases s.len(),
{
    let head = s.drop_last();
    lemma_decimal_digit(s.last());
    if s.len() == 1 {
        assert(number_of(head, 10) == Some(0int));
        assert(s =~= seq![s.last()]);
    } else {
        lemma_number_is_canonical(head);
        let high = number_of(head, 10)->0;
        let low = digit_of(s.last())->0;
        if high == 0 {
            assert(decimal(0) =~= seq![digit_char(0)]);
            assert(head[0] == '0');
        }
        let n = (high * 10 + low) as nat;
        assert(n / 10 == high && n % 10 == low);
        assert(s =~= head + seq![s.last()]);
    }
}

proof fn lemma_octet_is_canonical(s: Seq<char>)
    requires
        octet_of(s) is Some,
    ensures
        s == decimal(octet_of(s)->0 as nat),
{
    lemma_number_is_canonical(s);
}

proof fn lemma_octets_are_canonical(s: Seq<char>, count: nat)
    requires
        count > 0,
        octets_of(s, count) is Some,
    ensures
        octets_of(s, count)->0.len() == count,
        count == 1 ==> s == decimal(octets_of(s, count)->0[0] as nat),
        count > 1 ==> exists|rest: Seq<char>|
            {
                &&& #[trigger] octets_of(rest, (count - 1) as nat) == Some(
                    octets_of(s, count)->0.skip(1),
                )
                &&& s == decimal(octets_of(s, count)->0[0] as nat) + seq!['.'] + rest
            },
    decreases count,
{
    if count == 1 {
        lemma_octet_is_canonical(s);
    } else {
        lemma_found(s, '.');
        let k = find(s, '.');
        let rest = s.skip(k + 1);
        lemma_octets_are_canonical(rest, (count - 1) as nat);
        lemma_octet_is_canonical(s.take(k));
        assert(octets_of(s, count)->0.skip(1) =~= octets_of(rest, (count - 1) as nat)->0);
        assert(s =~= s.take(k) + seq!['.'] + rest);
    }
}

/// The text of an IPv4 address is the only IPv4 literal for it.
pub proof fn law_ipv4_literal_is_unique(s: Seq<char>, a: u8, b: u8, c: u8, d: u8)
    requires
        ip_of(s) == Some(IpAddr::V4(a, b, c, d)),
    ensures
        s == dotted(a, b, c, d),
{
    let octets = quad_of(s)->0;
    lemma_octets_are_canonical(s, 4);
    let three = choose|rest: Seq<char>|
        {
            &&& #[trigger] octets_of(rest, 3) == Some(octets.skip(1))
            &&& s == decimal(octets[0] as nat) + seq!['.'] + rest
        };
    lemma_octets_are_canonical(three, 3);
    let two = choose|rest: Seq<char>|
        {
            &&& #[trigger] octets_of(rest, 2) == Some(octets.skip(1).skip(1))
            &&& three == decimal(octets.skip(1)[0] as nat) + seq!['.'] + rest
        };
    lemma_octets_are_canonical(two, 2);
    let one = choose|rest: Seq<char>|
        {
            &&& #[trigger] octets_of(rest, 1) == Some(octets.skip(1).skip(1).skip(1))
            &&& two == decimal(octets.skip(1).skip(1)[0] as nat) + seq!['.'] + rest
        };
    lemma_octets_are_canonical(one, 1);
}

/// The hexadecimal digit for `d`, a number below sixteen.
pub open spec fn hex_char(d: int) -> char {
    if d < 10 {
        digit_char(d)
    } else {
        (87 + d) as char
    }
}

/// `n` in hexadecimal, without leading zeros.
pub open spec fn hexadecimal(n: nat) -> Seq<char>
    decreases n,
{
    if n < 16 {
        seq![hex_char(n as int)]
    } else {
        hexadecimal(n / 16) + seq![hex_char((n % 16) as int)]
    }
}

/// Groups as text: each in hexadecimal, joined by colons.
pub open spec fn colon_separated(groups: Seq<u16>) -> Seq<char>
    decreases groups.len(),
{
    if groups.len() == 0 {
        Seq::empty()
    } else if groups.len() == 1 {
        hexadecimal(groups[0] as nat)
    } else {
        hexadecimal(groups[0] as nat) + seq![':'] + colon_separated(groups.skip(1))
    }
}

proof fn lemma_hex_digit(d: int)
    requires
        0 <= d < 16,
    ensures
        digit_of(hex_char(d)) == Some(d),
        hex_char(d) != ':',
{
}

proof fn lemma_hexadecimal(n: nat)
    ensures
        number_of(hexadecimal(n), 16) == Some(n as int),
        !hexadecimal(n).contains(':'),
        hexadecimal(n).len() >= 1,
    decreases n,
{
    let text = hexadecimal(n);
    if n < 16 {
        lemma_hex_digit(n as int);
        assert(text.drop_last() =~= Seq::empty());
        assert(number_of(text.drop_last(), 16) == Some(0int));
    } else {
        let head = hexadecimal(n / 16);
        lemma_hexadecimal(n / 16);
        lemma_hex_digit((n % 16) as int);
        assert(text.drop_last() =~= head);
        assert forall|i: int| 0 <= i < text.len() implies text[i] != ':' by {
            if i < head.len() {
                assert(head.contains(head[i]));
            }
        }
    }
}

proof fn lemma_group_text(n: u16)
    ensures
        group_of(hexadecimal(n as nat)) == Some(n),
        !hexadecimal(n as nat).contains(':'),
        1 <= hexadecimal(n as nat).len() <= 4,
{
    lemma_hexadecimal(n as nat);
    assert(hexadecimal(n as nat).len() <= 4) by {
        reveal_with_fuel(hexadecimal, 4);
    }
}

/// Whether two colons stand side by side at position `i` of `s`.
spec fn gap_at(s: Seq<char>, i: int) -> bool {
    s[i] == ':' && s[i + 1] == ':'
}

proof fn lemma_groups_text(groups: Seq<u16>, quad: bool)
    requires
        groups.len() > 0,
    ensures
        colon_separated(groups).len() > 0,
        colon_separated(groups)[0] != ':',
        colon_separated(groups).last() != ':',
        forall|i: int|
            0 <= i && i + 1 < colon_separated(groups).len() ==> !#[trigger] gap_at(
                colon_separated(groups),
                i,
            ),
        groups_of(colon_separated(groups), quad) == Some(groups),
    decreases groups.len(),
{
    let text = colon_separated(groups);
    let head = hexadecimal(groups[0] as nat);
    let k = head.len() as int;
    lemma_group_text(groups[0]);
    assert forall|i: int| 0 <= i < k implies head[i] != ':' by {
        assert(head.contains(head[i]));
    }
    if groups.len() == 1 {
        lemma_find(text, ':', k);
        assert(groups =~= seq![groups[0]]);
    } else {
        let rest = colon_separated(groups.skip(1));
        lemma_groups_text(groups.skip(1), quad);
        assert forall|i: int| 0 <= i < k implies text[i] != ':' by {
            assert(text[i] == head[i]);
        }
        lemma_find(text, ':', k);
        assert(text.take(k) =~= head);
        assert(text.skip(k + 1) =~= rest);
        assert(seq![groups[0]] + groups.skip(1) =~= groups);
        assert(text.last() == rest.last());
        assert forall|i: int| 0 <= i && i + 1 < text.len() implies !#[trigger] gap_at(text, i) by {
            if i < k {
                assert(text[i] == head[i]);
            } else if i == k {
                assert(text[i + 1] == rest[0]);
            } else {
                assert(text[i] == rest[i - k - 1] && text[i + 1] == rest[(i - k - 1) + 1]);
                assert(!gap_at(rest, i - k - 1));
            }
        }
    }
}

proof fn lemma_number_has_no_colon(s: Seq<char>, radix: int)
    requires
        number_of(s, radix) is Some,
    ensures
        !s.contains(':'),
    decreases s.len(),
{
    if s.len() > 0 {
        lemma_number_has_no_colon(s.drop_last(), radix);
        assert forall|i: int| 0 <= i < s.len() implies s[i] != ':' by {
            if i < s.len() - 1 {
                assert(s.drop_last().contains(s.drop_last()[i]));
            }
        }
    }
}

proof fn lemma_octets_have_no_colon(s: Seq<char>, count: nat)
    requires
        octets_of(s, count) is Some,
    ensures
        !s.contains(':'),
    decreases count,
{
    if count == 1 {
        lemma_number_has_no_colon(s, 10);
    } else if count > 1 {
        lemma_found(s, '.');
        let k = find(s, '.');
        lemma_number_has_no_colon(s.take(k), 10);
        lemma_octets_have_no_colon(s.skip(k + 1), (count - 1) as nat);
        assert forall|i: int| 0 <= i < s.len() implies s[i] != ':' by {
            if i < k {
                assert(s.take(k).contains(s.take(k)[i]));
            } else if i > k {
                assert(s.skip(k + 1).contains(s.skip(k + 1)[i - k - 1]));
            }
        }
    }
}

/// Eight groups in hexadecimal, joined by colons, are a literal for the address
/// with these groups.
pub proof fn law_ipv6_literal(g: Seq<u16>)
    requires
        g.len() == 8,
    ensures
        ip_of(colon_separated(g)) == Some(
            IpAddr::V6(g[0], g[1], g[2], g[3], g[4], g[5], g[6], g[7]),
        ),
        family_of(colon_separated(g)) == Family::Ipv6Only,
{
    let text = colon_separated(g);
    let head = hexadecimal(g[0] as nat);
    lemma_groups_text(g, true);
    assert forall|i: int| 0 <= i < text.len() && i + 1 < text.len() implies !(text[i] == ':'
        && #[trigger] text[i + 1] == ':') by {
        assert(!gap_at(text, i));
    }
    lemma_find_gap(text, text.len() as int);
    assert(text[head.len() as int] == ':');
    assert(text.contains(':'));
    if quad_of(text) is Some {
        lemma_octets_have_no_colon(text, 4);
    }
}

/// Groups on either side of `::`, seven at most, are a literal for the address
/// in which zeros stand between them.
pub proof fn law_ipv6_literal_with_gap(head: Seq<u16>, tail: Seq<u16>)
    requires
        head.len() + tail.len() <= 7,
    ensures
        ({
            let zeros = Seq::new((8 - head.len() - tail.len()) as nat, |i: int| 0u16);
            let g = head + zeros + tail;
            ip_of(colon_separated(head) + seq![':', ':'] + colon_separated(tail)) == Some(
                IpAddr::V6(g[0], g[1], g[2], g[3], g[4], g[5], g[6], g[7]),
            )
        }),
{
    let front = colon_separated(head);
    let back = colon_separated(tail);
    let text = front + seq![':', ':'] + back;
    let k = front.len() as int;
    if head.len() > 0 {
        lemma_groups_text(head, false);
    }
    if tail.len() > 0 {
        lemma_groups_text(tail, true);
    }
    assert forall|i: int| 0 <= i < k && i + 1 < text.len() implies !(text[i] == ':'
        && #[trigger] text[i + 1] == ':') by {
        assert(text[i] == front[i]);
        if i + 1 < k {
            assert(text[i + 1] == front[i + 1]);
            assert(!gap_at(front, i));
        } else {
            assert(front.last() == front[i]);
        }
    }
    lemma_find_gap(text, k);
    assert(text.take(k) =~= front);
    assert(text.skip(k + 2) =~= back);
    if head.len() == 0 {
        assert(head =~= Seq::empty());
    }
    if tail.len() == 0 {
        assert(tail =~= Seq::empty());
    }
    assert(side_of(front, false) == Some(head));
    assert(side_of(back, true) == Some(tail));
    assert(text[k] == ':');
    assert(text.contains(':'));
    if quad_of(text) is Some {
        lemma_octets_have_no_colon(text, 4);
    }
}

/// Whether `c` is the digit for `v`, in decimal or in hexadecimal, where the case
/// of a letter does not matter.
pub open spec fn is_digit(c: char, v: int) -> bool {
    ||| 0 <= v < 10 && c as int == '0' as int + v
    ||| 10 <= v < 16 && c as int == 'a' as int + (v - 10)
    ||| 10 <= v < 16 && c as int == 'A' as int + (v - 10)
}

/// The number with these digits, the one for the units last.
pub open spec fn value_of(digits: Seq<int>, radix: int) -> int
    decreases digits.len(),
{
    if digits.len() == 0 {
        0
    } else {
        value_of(digits.drop_last(), radix) * radix + digits.last()
    }
}

/// Whether `s` writes these digits, all of them below `radix`.
pub open spec fn writes_digits(s: Seq<char>, digits: Seq<int>, radix: int) -> bool {
    &&& s.len() == digits.len()
    &&& forall|i: int|
        0 <= i < s.len() ==> is_digit(s[i], #[trigger] digits[i]) && digits[i] < radix
}

proof fn lemma_is_digit(c: char, v: int)
    ensures
        digit_of(c) == Some(v) <==> is_digit(c, v),
{
}

proof fn lemma_digits_have_value(s: Seq<char>, digits: Seq<int>, radix: int)
    requires
        writes_digits(s, digits, radix),
    ensures
        number_of(s, radix) == Some(value_of(digits, radix)),
    decreases s.len(),
{
    if s.len() > 0 {
        let init = digits.drop_last();
        assert forall|i: int| 0 <= i < s.drop_last().len() implies is_digit(
            s.drop_last()[i],
            #[trigger] init[i],
        ) && init[i] < radix by {
            assert(init[i] == digits[i]);
        }
        lemma_digits_have_value(s.drop_last(), init, radix);
        assert(is_digit(s.last(), digits[s.len() - 1]));
        lemma_is_digit(s.last(), digits.last());
    }
}

proof fn lemma_number_has_digits(s: Seq<char>, radix: int) -> (digits: Seq<int>)
    requires
        number_of(s, radix) is Some,
    ensures
        writes_digits(s, digits, radix),
        number_of(s, radix) == Some(value_of(digits, radix)),
    decreases s.len(),
{
    if s.len() == 0 {
        Seq::empty()
    } else {
        let init = lemma_number_has_digits(s.drop_last(), radix);
        let low = digit_of(s.last())->0;
        let digits = init.push(low);
        lemma_is_digit(s.last(), low);
        assert(digits.drop_last() =~= init);
        assert forall|i: int| 0 <= i < s.len() implies is_digit(s[i], #[trigger] digits[i])
            && digits[i] < radix by {
            if i < init.len() {
                assert(digits[i] == init[i]);
                assert(s.drop_last()[i] == s[i]);
            }
        }
        digits
    }
}

/// Whether `s` writes the group `g`: one to four hexadecimal digits, in either
/// case, with or without leading zeros.
pub open spec fn is_group(s: Seq<char>, g: u16) -> bool {
    &&& 1 <= s.len() <= 4
    &&& exists|digits: Seq<int>| #[trigger]
        writes_digits(s, digits, 16) && value_of(digits, 16) == g
}

proof fn lemma_group_value(s: Seq<char>, digits: Seq<int>)
    requires
        s.len() <= 4,
        writes_digits(s, digits, 16),
    ensures
        0 <= value_of(digits, 16) < 0x1_0000,
        s.len() <= 3 ==> value_of(digits, 16) < 0x1000,
        s.len() <= 2 ==> value_of(digits, 16) < 0x100,
        s.len() <= 1 ==> value_of(digits, 16) < 0x10,
        s.len() == 0 ==> value_of(digits, 16) == 0,
    decreases s.len(),
{
    if s.len() > 0 {
        let init = digits.drop_last();
        assert forall|i: int| 0 <= i < s.drop_last().len() implies is_digit(
            s.drop_last()[i],
            #[trigger] init[i],
        ) && init[i] < 16 by {
            assert(init[i] == digits[i]);
        }
        lemma_group_value(s.drop_last(), init);
        assert(is_digit(s.last(), digits[s.len() - 1]));
    }
}

/// A group is read exactly from its digits.
pub proof fn law_group_is_its_digits(s: Seq<char>, g: u16)
    ensures
        group_of(s) == Some(g) <==> is_group(s, g),
{
    if group_of(s) == Some(g) {
        let digits = lemma_number_has_digits(s, 16);
        lemma_group_value(s, digits);
        assert(writes_digits(s, digits, 16));
    }
    if is_group(s, g) {
        let digits = choose|digits: Seq<int>| #[trigger]
            writes_digits(s, digits, 16) && value_of(digits, 16) == g;
        lemma_digits_have_value(s, digits, 16);
    }
}

/// Whether `s` writes these groups, joined by colons. With `quad`, the last two
/// may be written as an IPv4 literal.
pub open spec fn writes_groups(s: Seq<char>, groups: Seq<u16>, quad: bool) -> bool
    decreases groups.len(),
{
    ||| groups.len() == 1 && is_group(s, groups[0])
    ||| quad && groups.len() == 2 && exists|a: u8, b: u8, c: u8, d: u8|
        s == #[trigger] dotted(a, b, c, d) && groups[0] == a * 256 + b && groups[1] == c * 256 + d
    ||| groups.len() >= 2 && exists|first: Seq<char>, rest: Seq<char>|
        {
            &&& s == #[trigger] joined(first, rest)
            &&& is_group(first, groups[0])
            &&& writes_groups(rest, groups.skip(1), quad)
        }
}

/// Two texts with a colon between them.
pub open spec fn joined(first: Seq<char>, rest: Seq<char>) -> Seq<char> {
    first + seq![':'] + rest
}

proof fn lemma_group_has_no_colon(s: Seq<char>, g: u16)
    requires
        is_group(s, g),
    ensures
        group_of(s) == Some(g),
        forall|i: int| 0 <= i < s.len() ==> s[i] != ':' && s[i] != '.',
{
    law_group_is_its_digits(s, g);
    let digits = choose|digits: Seq<int>| #[trigger]
        writes_digits(s, digits, 16) && value_of(digits, 16) == g;
    assert forall|i: int| 0 <= i < s.len() implies s[i] != ':' && s[i] != '.' by {
        assert(is_digit(s[i], digits[i]));
    }
}

proof fn lemma_dotted(a: u8, b: u8, c: u8, d: u8)
    ensures
        quad_of(dotted(a, b, c, d)) == Some(seq![a, b, c, d]),
        group_of(dotted(a, b, c, d)) is None,
        dotted(a, b, c, d).len() > 0,
        forall|i: int| 0 <= i < dotted(a, b, c, d).len() ==> dotted(a, b, c, d)[i] != ':',
{
    let s = dotted(a, b, c, d);
    law_ipv4_literal(a, b, c, d);
    lemma_octets_are_canonical(s, 4);
    assert(quad_of(s)->0 =~= seq![a, b, c, d]);
    lemma_octets_have_no_colon(s, 4);
    assert forall|i: int| 0 <= i < s.len() implies s[i] != ':' by {
        assert(s.contains(s[i]));
    }
    if group_of(s) is Some {
        law_group_is_its_digits(s, group_of(s)->0);
        lemma_group_has_no_colon(s, group_of(s)->0);
        assert(s[decimal(a as nat).len() as int] == '.');
    }
}

/// Whether colons only ever stand between two other characters of `s`.
spec fn colons_separate(s: Seq<char>) -> bool {
    &&& s.len() > 0
    &&& s[0] != ':'
    &&& s.last() != ':'
    &&& forall|i: int| 0 <= i && i + 1 < s.len() ==> !#[trigger] gap_at(s, i)
}

proof fn lemma_last_group(s: Seq<char>, g: u16, quad: bool)
    requires
        is_group(s, g),
    ensures
        groups_of(s, quad) == Some(seq![g]),
        colons_separate(s),
{
    lemma_group_has_no_colon(s, g);
    lemma_find(s, ':', s.len() as int);
}

proof fn lemma_last_quad(a: u8, b: u8, c: u8, d: u8)
    ensures
        groups_of(dotted(a, b, c, d), true) == Some(
            seq![(a * 256 + b) as u16, (c * 256 + d) as u16],
        ),
        colons_separate(dotted(a, b, c, d)),
{
    let s = dotted(a, b, c, d);
    lemma_dotted(a, b, c, d);
    lemma_find(s, ':', s.len() as int);
}

proof fn lemma_joined_groups(first: Seq<char>, rest: Seq<char>, g: u16, quad: bool)
    requires
        is_group(first, g),
        groups_of(rest, quad) is Some,
        colons_separate(rest),
    ensures
        groups_of(joined(first, rest), quad) == Some(seq![g] + groups_of(rest, quad)->0),
        colons_separate(joined(first, rest)),
        joined(first, rest).contains(':'),
{
    let s = joined(first, rest);
    let k = first.len() as int;
    lemma_group_has_no_colon(first, g);
    assert forall|i: int| 0 <= i < k implies s[i] != ':' by {
        assert(s[i] == first[i]);
    }
    assert(s[k] == ':');
    assert(s.contains(':'));
    lemma_find(s, ':', k);
    assert(s.take(k) =~= first);
    assert(s.skip(k + 1) =~= rest);
    assert(s.last() == rest.last());
    assert forall|i: int| 0 <= i && i + 1 < s.len() implies !#[trigger] gap_at(s, i) by {
        if i == k {
            assert(s[i + 1] == rest[0]);
        } else if i > k {
            assert(s[i] == rest[i - k - 1] && s[i + 1] == rest[(i - k - 1) + 1]);
            assert(!gap_at(rest, i - k - 1));
        }
    }
}

proof fn lemma_written_groups(s: Seq<char>, groups: Seq<u16>, quad: bool)
    requires
        writes_groups(s, groups, quad),
    ensures
        groups_of(s, quad) == Some(groups),
        colons_separate(s),
        groups.len() >= 3 ==> s.contains(':'),
    decreases groups.len(),
{
    if groups.len() == 1 && is_group(s, groups[0]) {
        lemma_last_group(s, groups[0], quad);
        assert(groups =~= seq![groups[0]]);
    } else if quad && groups.len() == 2 && exists|a: u8, b: u8, c: u8, d: u8|
        s == #[trigger] dotted(a, b, c, d) && groups[0] == a * 256 + b && groups[1] == c * 256
            + d {
        let (a, b, c, d) = choose|a: u8, b: u8, c: u8, d: u8|
            s == #[trigger] dotted(a, b, c, d) && groups[0] == a * 256 + b && groups[1] == c * 256
                + d;
        lemma_last_quad(a, b, c, d);
        assert(groups =~= seq![(a * 256 + b) as u16, (c * 256 + d) as u16]);
    } else {
        let (first, rest) = choose|first: Seq<char>, rest: Seq<char>|
            {
                &&& s == #[trigger] joined(first, rest)
                &&& is_group(first, groups[0])
                &&& writes_groups(rest, groups.skip(1), quad)
            };
        lemma_written_groups(rest, groups.skip(1), quad);
        lemma_joined_groups(first, rest, groups[0], quad);
        assert(seq![groups[0]] + groups.skip(1) =~= groups);
    }
}

proof fn lemma_groups_are_written(s: Seq<char>, quad: bool)
    requires
        groups_of(s, quad) is Some,
    ensures
        groups_of(s, quad)->0.len() > 0,
        writes_groups(s, groups_of(s, quad)->0, quad),
    decreases s.len(),
{
    let groups = groups_of(s, quad)->0;
    let k = find(s, ':');
    lemma_found(s, ':');
    if k < s.len() {
        let first = s.take(k);
        let rest = s.skip(k + 1);
        lemma_groups_are_written(rest, quad);
        law_group_is_its_digits(first, groups[0]);
        assert(groups.skip(1) =~= groups_of(rest, quad)->0);
        assert(s =~= joined(first, rest));
    } else if group_of(s) is Some {
        law_group_is_its_digits(s, groups[0]);
    } else {
        let o = quad_of(s)->0;
        lemma_octets_are_canonical(s, 4);
        assert(ip_of(s) == Some(IpAddr::V4(o[0], o[1], o[2], o[3])));
        law_ipv4_literal_is_unique(s, o[0], o[1], o[2], o[3]);
        let (a, b, c, d) = (o[0], o[1], o[2], o[3]);
        assert(0 <= a * 256 + b < 0x1_0000 && 0 <= c * 256 + d < 0x1_0000);
        assert(s == dotted(a, b, c, d) && groups[0] == a * 256 + b && groups[1] == c * 256 + d);
    }
}

/// Whether `s` writes these groups on one side of `::`, where there may be none.
pub open spec fn writes_side(s: Seq<char>, groups: Seq<u16>, quad: bool) -> bool {
    if groups.len() == 0 {
        s.len() == 0
    } else {
        writes_groups(s, groups, quad)
    }
}

/// Two texts with two colons between them.
pub open spec fn joined_by_gap(front: Seq<char>, back: Seq<char>) -> Seq<char> {
    front + seq![':', ':'] + back
}

/// Whether `s` writes the eight groups of an IPv6 address: all of them joined by
/// colons, or those before and after a run of zeros with `::` in its place. The
/// last two of all may be written as an IPv4 literal.
pub open spec fn is_ipv6(s: Seq<char>, groups: Seq<u16>) -> bool {
    &&& groups.len() == 8
    &&& {
        ||| writes_groups(s, groups, true)
        ||| exists|front: Seq<char>, back: Seq<char>, from: int, to: int|
            {
                &&& s == #[trigger] joined_by_gap(front, back)
                &&& 0 <= from < to <= 8
                &&& forall|i: int| from <= i < to ==> groups[i] == 0
                &&& #[trigger] writes_side(front, groups.take(from), false)
                &&& #[trigger] writes_side(back, groups.skip(to), true)
            }
    }
}

proof fn lemma_ipv6_without_gap(s: Seq<char>, groups: Seq<u16>)
    requires
        groups.len() == 8,
        writes_groups(s, groups, true),
    ensures
        segments_of(s) == Some(groups),
        s.contains(':'),
{
    lemma_written_groups(s, groups, true);
    assert forall|i: int| 0 <= i < s.len() && i + 1 < s.len() implies !(s[i] == ':'
        && #[trigger] s[i + 1] == ':') by {
        assert(!gap_at(s, i));
    }
    lemma_find_gap(s, s.len() as int);
}

proof fn lemma_ipv6_with_gap(
    front: Seq<char>,
    back: Seq<char>,
    groups: Seq<u16>,
    from: int,
    to: int,
)
    requires
        groups.len() == 8,
        0 <= from < to <= 8,
        forall|i: int| from <= i < to ==> groups[i] == 0,
        writes_side(front, groups.take(from), false),
        writes_side(back, groups.skip(to), true),
    ensures
        segments_of(joined_by_gap(front, back)) == Some(groups),
        joined_by_gap(front, back).contains(':'),
{
    let s = joined_by_gap(front, back);
    let head = groups.take(from);
    let tail = groups.skip(to);
    let k = front.len() as int;
    if from > 0 {
        lemma_written_groups(front, head, false);
    } else {
        assert(head =~= Seq::empty());
    }
    if to < 8 {
        lemma_written_groups(back, tail, true);
    } else {
        assert(tail =~= Seq::empty());
    }
    assert forall|i: int| 0 <= i < k && i + 1 < s.len() implies !(s[i] == ':'
        && #[trigger] s[i + 1] == ':') by {
        assert(s[i] == front[i]);
        if i + 1 < k {
            assert(s[i + 1] == front[i + 1]);
            assert(!gap_at(front, i));
        } else {
            assert(front.last() == front[i]);
        }
    }
    lemma_find_gap(s, k);
    assert(s.take(k) =~= front);
    assert(s.skip(k + 2) =~= back);
    assert(s[k] == ':');
    assert(side_of(front, false) == Some(head));
    assert(side_of(back, true) == Some(tail));
    let zeros = Seq::new((8 - head.len() - tail.len()) as nat, |i: int| 0u16);
    assert(head + zeros + tail =~= groups);
}

proof fn lemma_gap_found(s: Seq<char>)
    ensures
        0 <= find_gap(s) <= s.len(),
        find_gap(s) < s.len() ==> find_gap(s) + 2 <= s.len() && gap_at(s, find_gap(s)),
    decreases s.len(),
{
    if s.len() > 0 && !(s.len() >= 2 && s[0] == ':' && s[1] == ':') {
        let t = s.skip(1);
        lemma_gap_found(t);
        let k = find_gap(t);
        if k < t.len() {
            assert(t[k] == s[k + 1] && t[k + 1] == s[k + 2]);
        }
    }
}

proof fn lemma_side_is_written(s: Seq<char>, quad: bool)
    requires
        side_of(s, quad) is Some,
    ensures
        writes_side(s, side_of(s, quad)->0, quad),
{
    if s.len() > 0 {
        lemma_groups_are_written(s, quad);
    }
}

proof fn lemma_segments_are_written(s: Seq<char>)
    requires
        segments_of(s) is Some,
    ensures
        is_ipv6(s, segments_of(s)->0),
{
    let groups = segments_of(s)->0;
    let gap = find_gap(s);
    lemma_gap_found(s);
    if gap < s.len() {
        let front = s.take(gap);
        let back = s.skip(gap + 2);
        let head = side_of(front, false)->0;
        let tail = side_of(back, true)->0;
        let from = head.len() as int;
        let to = 8 - tail.len();
        lemma_side_is_written(front, false);
        lemma_side_is_written(back, true);
        assert(groups.take(from) =~= head);
        assert(groups.skip(to) =~= tail);
        assert(s =~= joined_by_gap(front, back));
        assert(writes_side(front, groups.take(from), false));
        assert(writes_side(back, groups.skip(to), true));
    } else {
        lemma_groups_are_written(s, true);
    }
}

/// A text is an IPv6 literal exactly if it writes eight groups, and it stands for
/// the address with these groups.
pub proof fn law_ipv6_literals(s: Seq<char>, g: Seq<u16>)
    requires
        g.len() == 8,
    ensures
        ip_of(s) == Some(IpAddr::V6(g[0], g[1], g[2], g[3], g[4], g[5], g[6], g[7])) <==> is_ipv6(
            s,
            g,
        ),
{
    if is_ipv6(s, g) {
        if writes_groups(s, g, true) {
            lemma_ipv6_without_gap(s, g);
        } else {
            let (front, back, from, to) = choose|
                front: Seq<char>,
                back: Seq<char>,
                from: int,
                to: int,
            |
                {
                    &&& s == #[trigger] joined_by_gap(front, back)
                    &&& 0 <= from < to <= 8
                    &&& forall|i: int| from <= i < to ==> g[i] == 0
                    &&& #[trigger] writes_side(front, g.take(from), false)
                    &&& #[trigger] writes_side(back, g.skip(to), true)
                };
            lemma_ipv6_with_gap(front, back, g, from, to);
        }
        if quad_of(s) is Some {
            lemma_octets_have_no_colon(s, 4);
        }
    }
    if ip_of(s) == Some(IpAddr::V6(g[0], g[1], g[2], g[3], g[4], g[5], g[6], g[7])) {
        lemma_segments_are_written(s);
        assert(segments_of(s)->0.len() == 8);
        assert(segments_of(s)->0 =~= g);
    }
}

/// A text is an IPv4 literal exactly if it is four octets in decimal, joined by
/// dots, and it stands for the address with these octets.
pub proof fn law_ipv4_literals(s: Seq<char>, a: u8, b: u8, c: u8, d: u8)
    ensures
        ip_of(s) == Some(IpAddr::V4(a, b, c, d)) <==> s == dotted(a, b, c, d),
{
    law_ipv4_literal(a, b, c, d);
    if ip_of(s) == Some(IpAddr::V4(a, b, c, d)) {
        law_ipv4_literal_is_unique(s, a, b, c, d);
    }
}

} // verus!
