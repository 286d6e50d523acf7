//! Socket addresses in text: an IPv4 address and a port, as in
//! `127.0.0.1:8080`, or an IPv6 address in brackets and a port, as in
//! `[::1]:8080`.
//!
//! The text is read from left to right, each part taking the longest run of
//! digits that stands at its place:
//!
//! - a port is a colon and a decimal number of at most 65535, zeros in front
//!   allowed;
//! - an octet is one to three decimal digits of at most 255, with no zero in
//!   front of another digit; an IPv4 address is four octets with dots
//!   between them;
//! - a group is one to four hexadecimal digits; an IPv6 address is eight
//!   groups with colons between them, where the last two may be written as
//!   an IPv4 address, or fewer with `::` once, in place of one group of zeros
//!   or more; no IPv4 address stands before the `::`;
//! - inside the brackets a scope may follow the IPv6 address: a percent sign
//!   and a decimal number that fits 32 bits.
//!
//! Nothing may follow the port.

use vstd::prelude::*;
use vstd::std_specs::iter::IteratorSpec;

verus! {

/// The largest port.
pub const MAX_PORT: u64 = 65535;

/// The largest octet.
pub const MAX_OCTET: u64 = 255;

/// The largest scope.
pub const MAX_SCOPE: u64 = 0xffff_ffff;

/// Whether `c` is one of the ten decimal digits.
pub open spec fn is_digit(c: char) -> bool {
    '0' <= c && c <= '9'
}

/// Whether `c` is a hexadecimal digit, in either case.
pub open spec fn is_hex_digit(c: char) -> bool {
    is_digit(c) || ('a' <= c && c <= 'f') || ('A' <= c && c <= 'F')
}

/// Whether the character `c` stands at the place `at` of `text`.
pub open spec fn char_at(text: Seq<char>, at: int, c: char) -> bool {
    0 <= at < text.len() && text[at] == c
}

/// The end of the longest run of decimal digits that begins at `from`.
pub open spec fn digits_end(text: Seq<char>, from: int) -> int
    decreases text.len() - from,
{
    if 0 <= from < text.len() && is_digit(text[from]) {
        digits_end(text, from + 1)
    } else {
        from
    }
}

/// The end of the longest run of hexadecimal digits that begins at `from`.
pub open spec fn hex_end(text: Seq<char>, from: int) -> int
    decreases text.len() - from,
{
    if 0 <= from < text.len() && is_hex_digit(text[from]) {
        hex_end(text, from + 1)
    } else {
        from
    }
}

/// What a decimal digit counts; a character that is none counts nothing.
pub open spec fn digit_value(c: char) -> nat {
    if is_digit(c) {
        (c as int - '0' as int) as nat
    } else {
        0
    }
}

/// The number that a text of decimal digits writes.
pub open spec fn decimal(digits: Seq<char>) -> nat
    decreases digits.len(),
{
    if digits.len() == 0 {
        0
    } else {
        decimal(digits.drop_last()) * 10 + digit_value(digits.last())
    }
}

/// The end of the decimal number of at most `max` that begins at `from`, if
/// one does.
pub open spec fn number_end(text: Seq<char>, from: int, max: nat) -> Option<int> {
    let end = digits_end(text, from);
    if end > from && decimal(text.subrange(from, end)) <= max {
        Some(end)
    } else {
        None
    }
}

/// The end of the octet that begins at `from`, if one does.
pub open spec fn octet_end(text: Seq<char>, from: int) -> Option<int> {
    let end = digits_end(text, from);
    if 1 <= end - from <= 3 && (end - from > 1 ==> text[from] != '0') && decimal(
        text.subrange(from, end),
    ) <= MAX_OCTET {
        Some(end)
    } else {
        None
    }
}

/// The end of the group that begins at `from`, if one does.
pub open spec fn group_end(text: Seq<char>, from: int) -> Option<int> {
    let end = hex_end(text, from);
    if 1 <= end - from <= 4 {
        Some(end)
    } else {
        None
    }
}

/// The end of a dot and an octet that begin at `at`, if they do.
pub open spec fn dotted_octet_end(text: Seq<char>, at: int) -> Option<int> {
    if char_at(text, at, '.') {
        octet_end(text, at + 1)
    } else {
        None
    }
}

/// The end of the IPv4 address that begins at `from`, if one does.
pub open spec fn ipv4_end(text: Seq<char>, from: int) -> Option<int> {
    match octet_end(text, from) {
        None => None,
        Some(first) => match dotted_octet_end(text, first) {
            None => None,
            Some(second) => match dotted_octet_end(text, second) {
                None => None,
                Some(third) => dotted_octet_end(text, third),
            },
        },
    }
}

/// A run of groups: how many groups it stands for, where it ends, and
/// whether it ends in an IPv4 address, which stands for two.
pub struct Groups {
    pub count: int,
    pub end: int,
    pub ipv4: bool,
}

/// The run of at most `limit` groups of which `read` were read up to `at`.
/// Every group but the first follows a colon. Where two groups are still to
/// come and an IPv4 address stands, it ends the run.
pub open spec fn groups_from(text: Seq<char>, at: int, read: int, limit: int) -> Groups
    decreases limit - read,
{
    if read >= limit || (read > 0 && !char_at(text, at, ':')) {
        Groups { count: read, end: at, ipv4: false }
    } else {
        let start = if read > 0 {
            at + 1
        } else {
            at
        };
        if read + 1 < limit && ipv4_end(text, start) is Some {
            Groups { count: read + 2, end: ipv4_end(text, start)->0, ipv4: true }
        } else {
            match group_end(text, start) {
                Some(end) => groups_from(text, end, read + 1, limit),
                None => Groups { count: read, end: at, ipv4: false },
            }
        }
    }
}

/// The end of the IPv6 address that begins at `from`, if one does.
pub open spec fn ipv6_end(text: Seq<char>, from: int) -> Option<int> {
    let head = groups_from(text, from, 0, 8);
    if head.count == 8 {
        Some(head.end)
    } else if head.ipv4 {
        None
    } else if char_at(text, head.end, ':') && char_at(text, head.end + 1, ':') {
        Some(groups_from(text, head.end + 2, 0, 7 - head.count).end)
    } else {
        None
    }
}

/// The end of the port that begins with a colon at `at`, if one does.
pub open spec fn port_end(text: Seq<char>, at: int) -> Option<int> {
    if char_at(text, at, ':') {
        number_end(text, at + 1, MAX_PORT as nat)
    } else {
        None
    }
}

/// The end of the scope that begins with a percent sign at `at`; `at` itself
/// where none does.
pub open spec fn scope_end(text: Seq<char>, at: int) -> int {
    if char_at(text, at, '%') && number_end(text, at + 1, MAX_SCOPE as nat) is Some {
        number_end(text, at + 1, MAX_SCOPE as nat)->0
    } else {
        at
    }
}

/// Whether `text` is an IPv4 address and a port.
pub open spec fn is_socket_address_v4(text: Seq<char>) -> bool {
    match ipv4_end(text, 0) {
        None => false,
        Some(end) => port_end(text, end) == Some(text.len() as int),
    }
}

/// Whether `text` is an IPv6 address in brackets, with or without a scope,
/// and a port.
pub open spec fn is_socket_address_v6(text: Seq<char>) -> bool {
    char_at(text, 0, '[') && match ipv6_end(text, 1) {
        None => false,
        Some(end) => char_at(text, scope_end(text, end), ']') && port_end(
            text,
            scope_end(text, end) + 1,
        ) == Some(text.len() as int),
    }
}

/// Whether `text` is a socket address.
pub open spec fn is_socket_address(text: Seq<char>) -> bool {
    is_socket_address_v4(text) || is_socket_address_v6(text)
}

/// A longer text of digits writes no smaller number.
proof fn lemma_decimal_grows(digits: Seq<char>, shorter: int)
    requires
        0 <= shorter <= digits.len(),
    ensures
        decimal(digits.take(shorter)) <= decimal(digits),
    decreases digits.len(),
{
    if shorter < digits.len() {
        assert(digits.drop_last().take(shorter) =~= digits.take(shorter));
        lemma_decimal_grows(digits.drop_last(), shorter);
    } else {
        assert(digits.take(shorter) =~= digits);
    }
}

/// The characters of `text`.
fn chars_of(text: &str) -> (chars: Vec<char>)
    ensures
        chars@ == text@,
{
    let mut rest = text.chars();
    let mut chars: Vec<char> = Vec::new();
    loop
        invariant
            rest.remaining() == text@.skip(chars@.len() as int),
            chars@.len() <= text@.len(),
            chars@ == text@.take(chars@.len() as int),
        decreases text@.len() - chars@.len(),
    {
        match rest.next() {
            None => {
                assert(text@.take(chars@.len() as int) =~= text@);
                return chars;
            },
            Some(c) => {
                let ghost before = chars@;
                chars.push(c);
                assert(chars@ =~= text@.take(chars@.len() as int));
            },
        }
    }
}

fn is_char(text: &Vec<char>, at: usize, c: char) -> (found: bool)
    ensures
        found == char_at(text@, at as int, c),
{
    at < text.len() && text[at] == c
}

fn digit(c: char) -> (answer: bool)
    ensures
        answer == is_digit(c),
{
    c >= '0' && c <= '9'
}

fn hex_digit(c: char) -> (answer: bool)
    ensures
        answer == is_hex_digit(c),
{
    digit(c) || (c >= 'a' && c <= 'f') || (c >= 'A' && c <= 'F')
}

fn digits_until(text: &Vec<char>, from: usize) -> (end: usize)
    requires
        from <= text.len(),
    ensures
        end == digits_end(text@, from as int),
        from <= end <= text.len(),
        forall|i: int| from <= i < end ==> is_digit(#[trigger] text@[i]),
{
    let mut at = from;
    while at < text.len() && digit(text[at])
        invariant
            from <= at <= text.len(),
            digits_end(text@, at as int) == digits_end(text@, from as int),
            forall|i: int| from <= i < at ==> is_digit(#[trigger] text@[i]),
        decreases text.len() - at,
    {
        at = at + 1;
    }
    at
}

fn hex_until(text: &Vec<char>, from: usize) -> (end: usize)
    requires
        from <= text.len(),
    ensures
        end == hex_end(text@, from as int),
        from <= end <= text.len(),
{
    let mut at = from;
    while at < text.len() && hex_digit(text[at])
        invariant
            from <= at <= text.len(),
            hex_end(text@, at as int) == hex_end(text@, from as int),
        decreases text.len() - at,
    {
        at = at + 1;
    }
    at
}

/// Whether the digits from `from` to `end` write a number of at most `max`.
fn within(text: &Vec<char>, from: usize, end: usize, max: u64) -> (fits: bool)
    requires
        from <= end <= text.len(),
        max <= MAX_SCOPE,
        forall|i: int| from <= i < end ==> is_digit(#[trigger] text@[i]),
    ensures
        fits == (decimal(text@.subrange(from as int, end as int)) <= max),
{
    let ghost digits = text@.subrange(from as int, end as int);
    let mut value: u64 = 0;
    let mut at = from;
    while at < end
        invariant
            from <= at <= end <= text.len(),
            max <= MAX_SCOPE,
            value <= max,
            digits == text@.subrange(from as int, end as int),
            value == decimal(digits.take(at - from)),
            forall|i: int| from <= i < end ==> is_digit(#[trigger] text@[i]),
        decreases end - at,
    {
        let c = text[at];
        assert(is_digit(c));
        let next = value * 10 + (c as u64 - 48);
        proof {
            let longer = digits.take(at + 1 - from);
            assert(longer.drop_last() =~= digits.take(at - from));
            assert(longer.last() == c);
            assert(decimal(longer) == next);
        }
        if next > max {
            proof {
                lemma_decimal_grows(digits, at + 1 - from);
            }
            return false;
        }
        value = next;
        at = at + 1;
    }
    assert(digits.take(at - from) =~= digits);
    true
}

fn number_until(text: &Vec<char>, from: usize, max: u64) -> (end: Option<usize>)
    requires
        from <= text.len(),
        max <= MAX_SCOPE,
    ensures
        match end {
            Some(end) => number_end(text@, from as int, max as nat) == Some(end as int) && from
                < end <= text.len(),
            None => number_end(text@, from as int, max as nat) is None,
        },
{
    let end = digits_until(text, from);
    if end > from && within(text, from, end, max) {
        Some(end)
    } else {
        None
    }
}

fn octet_until(text: &Vec<char>, from: usize) -> (end: Option<usize>)
    requires
        from <= text.len(),
    ensures
        match end {
            Some(end) => octet_end(text@, from as int) == Some(end as int) && from < end
                <= text.len(),
            None => octet_end(text@, from as int) is None,
        },
{
    let end = digits_until(text, from);
    let length = end - from;
    if 1 <= length && length <= 3 && (length == 1 || text[from] != '0') && within(
        text,
        from,
        end,
        MAX_OCTET,
    ) {
        Some(end)
    } else {
        None
    }
}

fn group_until(text: &Vec<char>, from: usize) -> (end: Option<usize>)
    requires
        from <= text.len(),
    ensures
        match end {
            Some(end) => group_end(text@, from as int) == Some(end as int) && from < end
                <= text.len(),
            None => group_end(text@, from as int) is None,
        },
{
    let end = hex_until(text, from);
    let length = end - from;
    if 1 <= length && length <= 4 {
        Some(end)
    } else {
        None
    }
}

fn dotted_octet_until(text: &Vec<char>, at: usize) -> (end: Option<usize>)
    requires
        at <= text.len(),
    ensures
        match end {
            Some(end) => dotted_octet_end(text@, at as int) == Some(end as int) && at < end
                <= text.len(),
            None => dotted_octet_end(text@, at as int) is None,
        },
{
    if is_char(text, at, '.') {
        octet_until(text, at + 1)
    } else {
        None
    }
}

fn ipv4_until(text: &Vec<char>, from: usize) -> (end: Option<usize>)
    requires
        from <= text.len(),
    ensures
        match end {
            Some(end) => ipv4_end(text@, from as int) == Some(end as int) && from < end
                <= text.len(),
            None => ipv4_end(text@, from as int) is None,
        },
{
    match octet_until(text, from) {
        None => None,
        Some(first) => match dotted_octet_until(text, first) {
            None => None,
            Some(second) => match dotted_octet_until(text, second) {
                None => None,
                Some(third) => dotted_octet_until(text, third),
            },
        },
    }
}

fn groups_until(text: &Vec<char>, from: usize, limit: usize) -> (found: (usize, usize, bool))
    requires
        from <= text.len(),
        limit <= 8,
    ensures
        groups_from(text@, from as int, 0, limit as int) == (Groups {
            count: found.0 as int,
            end: found.1 as int,
            ipv4: found.2,
        }),
        found.0 <= limit,
        from <= found.1 <= text.len(),
{
    let mut read: usize = 0;
    let mut at = from;
    while read < limit
        invariant
            read <= limit <= 8,
            from <= at <= text.len(),
            groups_from(text@, from as int, 0, limit as int) == groups_from(
                text@,
                at as int,
                read as int,
                limit as int,
            ),
        decreases limit - read,
    {
        if read > 0 && !is_char(text, at, ':') {
            return (read, at, false);
        }
        let start = if read > 0 {
            at + 1
        } else {
            at
        };
        if read + 1 < limit {
            match ipv4_until(text, start) {
                Some(end) => {
                    return (read + 2, end, true);
                },
                None => {},
            }
        }
        match group_until(text, start) {
            Some(end) => {
                at = end;
                read = read + 1;
            },
            None => {
                return (read, at, false);
            },
        }
    }
    (read, at, false)
}

fn ipv6_until(text: &Vec<char>, from: usize) -> (end: Option<usize>)
    requires
        from <= text.len(),
    ensures
        match end {
            Some(end) => ipv6_end(text@, from as int) == Some(end as int) && from <= end
                <= text.len(),
            None => ipv6_end(text@, from as int) is None,
        },
{
    let (count, end, ipv4) = groups_until(text, from, 8);
    if count == 8 {
        Some(end)
    } else if ipv4 {
        None
    } else if is_char(text, end, ':') && is_char(text, end + 1, ':') {
        let (_, tail_end, _) = groups_until(text, end + 2, 7 - count);
        Some(tail_end)
    } else {
        None
    }
}

fn port_until(text: &Vec<char>, at: usize) -> (end: Option<usize>)
    requires
        at <= text.len(),
    ensures
        match end {
            Some(end) => port_end(text@, at as int) == Some(end as int) && end <= text.len(),
            None => port_end(text@, at as int) is None,
        },
{
    if is_char(text, at, ':') {
        number_until(text, at + 1, MAX_PORT)
    } else {
        None
    }
}

fn scope_until(text: &Vec<char>, at: usize) -> (end: usize)
    requires
        at <= text.len(),
    ensures
        end == scope_end(text@, at as int),
        at <= end <= text.len(),
{
    if is_char(text, at, '%') {
        match number_until(text, at + 1, MAX_SCOPE) {
            Some(end) => end,
            None => at,
        }
    } else {
        at
    }
}

fn reads_as_v4(text: &Vec<char>) -> (answer: bool)
    ensures
        answer == is_socket_address_v4(text@),
{
    match ipv4_until(text, 0) {
        None => false,
        Some(end) => match port_until(text, end) {
            None => false,
            Some(last) => last == text.len(),
        },
    }
}

fn reads_as_v6(text: &Vec<char>) -> (answer: bool)
    ensures
        answer == is_socket_address_v6(text@),
{
    if !is_char(text, 0, '[') {
        return false;
    }
    match ipv6_until(text, 1) {
        None => false,
        Some(end) => {
            let close = scope_until(text, end);
            if !is_char(text, close, ']') {
                return false;
            }
            match port_until(text, close + 1) {
                None => false,
                Some(last) => last == text.len(),
            }
        },
    }
}

/// Tells whether `text` is a socket address.
pub fn reads_as_socket_address(text: &str) -> (answer: bool)
    ensures
        answer == is_socket_address(text@),
{
    let chars = chars_of(text);
    reads_as_v4(&chars) || reads_as_v6(&chars)
}

} // verus!
