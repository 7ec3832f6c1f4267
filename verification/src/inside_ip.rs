//! The addresses and the MTU that a server hands to its client, as numbers
//! and in the textual form in which they travel.

use vstd::prelude::*;
use vstd::string::{StrSliceExecFns, StringExecFns};

verus! {

/// The addresses inside the tunnel, each as the number its bytes spell in
/// network order.
#[derive(Clone, Copy, Debug, PartialEq, Eq, Structural)]
pub struct InsideIpConfig {
    /// Address of the client
    pub client_ip: u32,
    /// Address of the server
    pub server_ip: u32,
    /// Address of the resolver
    pub dns_ip: u32,
}

/// The character of a decimal digit.
pub open spec fn digit_char(digit: int) -> char {
    (48 + digit) as char
}

/// `n` in decimal digits, without leading zeros.
pub open spec fn decimal(n: nat) -> Seq<char>
    decreases n,
{
    if n < 10 {
        seq![digit_char(n as int)]
    } else {
        decimal(n / 10).push(digit_char((n % 10) as int))
    }
}

/// One byte of an address, counted from the most significant one.
pub open spec fn octet(ip: u32, index: int) -> nat {
    if index == 0 {
        (ip as nat) / 0x100_0000
    } else if index == 1 {
        (ip as nat) / 0x1_0000 % 256
    } else if index == 2 {
        (ip as nat) / 0x100 % 256
    } else {
        (ip as nat) % 256
    }
}

/// An address as four decimal numbers with dots between them.
pub open spec fn dotted(ip: u32) -> Seq<char> {
    decimal(octet(ip, 0)).push('.') + decimal(octet(ip, 1)).push('.') + decimal(
        octet(ip, 2),
    ).push('.') + decimal(octet(ip, 3))
}

/// Appends one decimal digit.
fn push_digit(text: &mut String, digit: u8)
    requires
        digit < 10,
    ensures
        final(text)@ == old(text)@.push(digit_char(digit as int)),
{
    proof {
        reveal_strlit("0");
        reveal_strlit("1");
        reveal_strlit("2");
        reveal_strlit("3");
        reveal_strlit("4");
        reveal_strlit("5");
        reveal_strlit("6");
        reveal_strlit("7");
        reveal_strlit("8");
        reveal_strlit("9");
    }
    let literal = match digit {
        0 => "0",
        1 => "1",
        2 => "2",
        3 => "3",
        4 => "4",
        5 => "5",
        6 => "6",
        7 => "7",
        8 => "8",
        _ => "9",
    };
    assert(literal@ =~= seq![digit_char(digit as int)]);
    text.append(literal);
    assert(text@ =~= old(text)@.push(digit_char(digit as int)));
}

/// Appends a number in decimal digits.
pub fn push_decimal(text: &mut String, n: usize)
    ensures
        final(text)@ == old(text)@ + decimal(n as nat),
    decreases n,
{
    if n >= 10 {
        push_decimal(text, n / 10);
    }
    push_digit(text, (n % 10) as u8);
    assert(text@ =~= old(text)@ + decimal(n as nat));
}

/// Appends a dot.
fn push_dot(text: &mut String)
    ensures
        final(text)@ == old(text)@.push('.'),
{
    proof {
        reveal_strlit(".");
    }
    text.append(".");
    assert(text@ =~= old(text)@.push('.'));
}

/// A number in decimal digits.
pub fn decimal_text(n: usize) -> (text: String)
    ensures
        text@ == decimal(n as nat),
{
    let mut text = String::new();
    push_decimal(&mut text, n);
    assert(text@ =~= decimal(n as nat));
    text
}

/// An address as four decimal numbers with dots between them.
pub fn dotted_text(ip: u32) -> (text: String)
    ensures
        text@ == dotted(ip),
{
    let mut text = String::new();
    push_decimal(&mut text, (ip / 0x100_0000) as usize);
    push_dot(&mut text);
    push_decimal(&mut text, (ip / 0x1_0000 % 256) as usize);
    push_dot(&mut text);
    push_decimal(&mut text, (ip / 0x100 % 256) as usize);
    push_dot(&mut text);
    push_decimal(&mut text, (ip % 256) as usize);
    assert(text@ =~= dotted(ip));
    text
}

/// Whether a character is a decimal digit.
pub open spec fn is_digit(c: char) -> bool {
    '0' <= c <= '9'
}

/// The number that decimal digits spell.
pub open spec fn digits_value(digits: Seq<char>) -> nat
    decreases digits.len(),
{
    if digits.len() == 0 {
        0
    } else {
        digits_value(digits.drop_last()) * 10 + (digits.last() as nat - 48) as nat
    }
}

/// The text without the plus sign that may stand in front of a number.
pub open spec fn without_plus(text: Seq<char>) -> Seq<char> {
    if text.len() > 0 && text[0] == '+' {
        text.subrange(1, text.len() as int)
    } else {
        text
    }
}

/// The number that a text spells: at least one decimal digit, after a plus
/// sign or not, and no more than a machine word holds.
pub open spec fn spelled_number(text: Seq<char>) -> Option<usize> {
    let digits = without_plus(text);
    if digits.len() > 0 && (forall|i: int| 0 <= i < digits.len() ==> is_digit(#[trigger] digits[i]))
        && digits_value(digits) <= usize::MAX {
        Some(digits_value(digits) as usize)
    } else {
        None
    }
}

/// A number does not get smaller when digits are added to it.
proof fn digits_value_grows(digits: Seq<char>, count: int)
    requires
        0 <= count <= digits.len(),
    ensures
        digits_value(digits.take(count)) <= digits_value(digits),
    decreases digits.len(),
{
    if count < digits.len() {
        digits_value_grows(digits.drop_last(), count);
        assert(digits.drop_last().take(count) =~= digits.take(count));
    } else {
        assert(digits.take(count) =~= digits);
    }
}

/// Read a number in decimal digits.
pub fn parse_usize(text: &String) -> (number: Option<usize>)
    ensures
        number == spelled_number(text@),
{
    let slice = text.as_str();
    let len: usize = slice.unicode_len();
    let start: usize = if len > 0 && slice.get_char(0) == '+' {
        1
    } else {
        0
    };
    let ghost digits = without_plus(text@);
    if start == len {
        return None;
    }
    let mut value: usize = 0;
    let mut i: usize = start;
    assert(digits.take(0).len() == 0);
    while i < len
        invariant
            start <= i <= len,
            slice@ == text@,
            len == text@.len(),
            start <= 1,
            digits.len() == len - start,
            digits == without_plus(text@),
            forall|k: int| 0 <= k < digits.len() ==> digits[k] == text@[k + start],
            forall|k: int| 0 <= k < i - start ==> is_digit(#[trigger] digits[k]),
            value == digits_value(digits.take(i - start)),
        decreases len - i,
    {
        let c = slice.get_char(i);
        let ghost at = i - start;
        assert(digits[at] == c);
        if c < '0' || c > '9' {
            assert(!is_digit(digits[at]));
            return None;
        }
        let digit: usize = (c as u32 - 48) as usize;
        proof {
            assert(digits.take(at + 1).drop_last() =~= digits.take(at));
            assert(digits.take(at + 1).last() == c);
            digits_value_grows(digits, at + 1);
        }
        match value.checked_mul(10) {
            None => {
                return None;
            },
            Some(shifted) => match shifted.checked_add(digit) {
                None => {
                    return None;
                },
                Some(sum) => {
                    value = sum;
                },
            },
        }
        i = i + 1;
    }
    assert(digits.take(len - start) =~= digits);
    Some(value)
}

/// Whether a decimal digit stands at the given place.
pub open spec fn digit_at(text: Seq<char>, at: int) -> bool {
    0 <= at < text.len() && is_digit(text[at])
}

/// The number that up to three digits spell from the given place on, and the
/// place after them.
pub open spec fn short_number_at(text: Seq<char>, at: int) -> (int, int) {
    if !digit_at(text, at) {
        (0, at)
    } else if !digit_at(text, at + 1) {
        (text[at] as int - 48, at + 1)
    } else if !digit_at(text, at + 2) {
        ((text[at] as int - 48) * 10 + (text[at + 1] as int - 48), at + 2)
    } else {
        (
            (text[at] as int - 48) * 100 + (text[at + 1] as int - 48) * 10 + (text[at + 2] as int
                - 48),
            at + 3,
        )
    }
}

/// A byte in decimal digits, with a dot or nothing behind it, is read as that
/// byte.
proof fn short_number_reads_decimal(text: Seq<char>, at: int, n: nat)
    requires
        n < 256,
        0 <= at,
        at + decimal(n).len() <= text.len(),
        text.subrange(at, at + decimal(n).len()) == decimal(n),
        at + decimal(n).len() == text.len() || text[at + decimal(n).len()] == '.',
    ensures
        short_number_at(text, at) == (n as int, at + decimal(n).len()),
{
    reveal_with_fuel(decimal, 3);
    let part = text.subrange(at, at + decimal(n).len());
    assert(forall|i: int| 0 <= i < part.len() ==> part[i] == text[at + i]);
    if n < 10 {
        assert(text[at] == part[0]);
    } else if n < 100 {
        assert(text[at] == part[0]);
        assert(text[at + 1] == part[1]);
    } else {
        assert(text[at] == part[0]);
        assert(text[at + 1] == part[1]);
        assert(text[at + 2] == part[2]);
    }
}

/// The four numbers of an address in its textual form are its bytes.
proof fn dotted_reads_back(ip: u32)
    ensures
        ({
            let text = dotted(ip);
            let (a, after_a) = short_number_at(text, 0);
            let (b, after_b) = short_number_at(text, after_a + 1);
            let (c, after_c) = short_number_at(text, after_b + 1);
            let (d, after_d) = short_number_at(text, after_c + 1);
            &&& (a, b, c, d) == (
                octet(ip, 0) as int,
                octet(ip, 1) as int,
                octet(ip, 2) as int,
                octet(ip, 3) as int,
            )
            &&& ((a * 256 + b) * 256 + c) * 256 + d == ip
        }),
{
    let text = dotted(ip);
    let a = decimal(octet(ip, 0));
    let b = decimal(octet(ip, 1));
    let c = decimal(octet(ip, 2));
    let d = decimal(octet(ip, 3));
    let after_a = a.len() as int;
    let after_b = after_a + 1 + b.len();
    let after_c = after_b + 1 + c.len();
    assert(text.len() == after_c + 1 + d.len());
    assert(text.subrange(0, after_a) =~= a);
    assert(text.subrange(after_a + 1, after_b) =~= b);
    assert(text.subrange(after_b + 1, after_c) =~= c);
    assert(text.subrange(after_c + 1, text.len() as int) =~= d);
    short_number_reads_decimal(text, 0, octet(ip, 0));
    short_number_reads_decimal(text, after_a + 1, octet(ip, 1));
    short_number_reads_decimal(text, after_b + 1, octet(ip, 2));
    short_number_reads_decimal(text, after_c + 1, octet(ip, 3));
}

/// Read up to three digits.
fn read_short_number(text: &str, at: usize) -> (r: (u32, usize))
    requires
        at < usize::MAX - 4,
    ensures
        (r.0 as int, r.1 as int) == short_number_at(text@, at as int),
        r.0 < 1000,
        at <= r.1 <= at + 3,
{
    let len: usize = text.unicode_len();
    let mut value: u32 = 0;
    let mut i: usize = at;
    if i < len && text.get_char(i) >= '0' && text.get_char(i) <= '9' {
        value = text.get_char(i) as u32 - 48;
        i = i + 1;
        if i < len && text.get_char(i) >= '0' && text.get_char(i) <= '9' {
            value = value * 10 + (text.get_char(i) as u32 - 48);
            i = i + 1;
            if i < len && text.get_char(i) >= '0' && text.get_char(i) <= '9' {
                value = value * 10 + (text.get_char(i) as u32 - 48);
                i = i + 1;
            }
        }
    }
    (value, i)
}

/// Read an address: four decimal numbers of one byte each, without leading
/// zeros, with dots between them and nothing else.
pub fn parse_ipv4(text: &String) -> (ip: Option<u32>)
    ensures
        match ip {
            Some(ip) => text@ == dotted(ip),
            None => forall|ip: u32| text@ != dotted(ip),
        },
{
    let slice = text.as_str();
    let (a, after_a) = read_short_number(slice, 0);
    let (b, after_b) = read_short_number(slice, after_a + 1);
    let (c, after_c) = read_short_number(slice, after_b + 1);
    let (d, _) = read_short_number(slice, after_c + 1);
    proof {
        assert forall|ip: u32| text@ == dotted(ip) implies a < 256 && b < 256 && c < 256 && d < 256
            && ((a * 256 + b) * 256 + c) * 256 + d == ip by {
            dotted_reads_back(ip);
        }
    }
    if a > 255 || b > 255 || c > 255 || d > 255 {
        return None;
    }
    let ip: u32 = ((a * 256 + b) * 256 + c) * 256 + d;
    let canonical = dotted_text(ip);
    if canonical == *text {
        Some(ip)
    } else {
        None
    }
}

/// The textual form of an address stands for no other address.
pub proof fn dotted_is_injective(a: u32, b: u32)
    requires
        dotted(a) == dotted(b),
    ensures
        a == b,
{
    dotted_reads_back(a);
    dotted_reads_back(b);
}

/// The digits of a number spell that number.
pub proof fn decimal_spells_its_number(n: usize)
    ensures
        spelled_number(decimal(n as nat)) == Some(n),
{
    decimal_digits(n as nat);
    let digits = decimal(n as nat);
    assert(is_digit(digits[0]));
    assert(without_plus(digits) == digits);
}

/// Decimal digits are digits, and there is at least one.
proof fn decimal_digits(n: nat)
    ensures
        decimal(n).len() > 0,
        forall|i: int| 0 <= i < decimal(n).len() ==> is_digit(#[trigger] decimal(n)[i]),
        digits_value(decimal(n)) == n,
    decreases n,
{
    if n >= 10 {
        decimal_digits(n / 10);
        assert(decimal(n).drop_last() =~= decimal(n / 10));
    } else {
        assert(decimal(n).drop_last().len() == 0);
        assert(digits_value(decimal(n).drop_last()) == 0);
    }
}

impl InsideIpConfig {
    /// Whether three texts are the textual form of this configuration.
    pub open spec fn spelled_by(
        self,
        local_ip: Seq<char>,
        peer_ip: Seq<char>,
        dns_ip: Seq<char>,
    ) -> bool {
        local_ip == dotted(self.client_ip) && peer_ip == dotted(self.server_ip) && dns_ip
            == dotted(self.dns_ip)
    }

    /// Read the addresses that a server sent.
    pub fn parse(local_ip: &String, peer_ip: &String, dns_ip: &String) -> (config: Option<
        InsideIpConfig,
    >)
        ensures
            match config {
                Some(config) => config.spelled_by(local_ip@, peer_ip@, dns_ip@),
                None => forall|config: InsideIpConfig|
                    !(#[trigger] config.spelled_by(local_ip@, peer_ip@, dns_ip@)),
            },
    {
        match (parse_ipv4(local_ip), parse_ipv4(peer_ip), parse_ipv4(dns_ip)) {
            (Some(client_ip), Some(server_ip), Some(dns_ip)) => Some(
                InsideIpConfig { client_ip, server_ip, dns_ip },
            ),
            _ => None,
        }
    }
}

/// A number is spelled digit by digit, the most significant one first, and
/// read the same way.
pub proof fn digits_follow_one_another(n: nat, digit: nat, digits: Seq<char>, c: char)
    requires
        digit < 10,
        '0' <= c <= '9',
    ensures
        decimal(digit) == seq![(48 + digit) as char],
        n > 0 ==> decimal(10 * n + digit) == decimal(n).push((48 + digit) as char),
        digits_value(digits.push(c)) == 10 * digits_value(digits) + (c as nat - 48),
        digits_value(Seq::empty()) == 0,
{
    assert(decimal(digit) =~= seq![(48 + digit) as char]);
    assert((10 * n + digit) / 10 == n && (10 * n + digit) % 10 == digit);
    assert(digits.push(c).drop_last() =~= digits);
}

/// The bytes that an address is put together from are its bytes.
proof fn octets_of(a: u8, b: u8, c: u8, d: u8)
    ensures
        ({
            let ip = (a * 0x100_0000 + b * 0x1_0000 + c * 0x100 + d) as u32;
            &&& octet(ip, 0) == a
            &&& octet(ip, 1) == b
            &&& octet(ip, 2) == c
            &&& octet(ip, 3) == d
        }),
{
    let n = a * 0x100_0000 + b * 0x1_0000 + c * 0x100 + d;
    assert(0 <= n <= u32::MAX);
    assert(n / 0x100_0000 == a);
    assert(n / 0x1_0000 == a * 256 + b);
    assert(n / 0x100 == (a * 256 + b) * 256 + c);
    assert((a * 256 + b) % 256 == b);
    assert(((a * 256 + b) * 256 + c) % 256 == c);
    assert(n % 256 == d);
}

/// An address is spelled byte by byte, the most significant one first, with
/// dots between them.
#[verifier::spinoff_prover]
pub proof fn addresses_are_spelled_in_order(a: u8, b: u8, c: u8, d: u8)
    ensures
        dotted((a * 0x100_0000 + b * 0x1_0000 + c * 0x100 + d) as u32) == decimal(a as nat) + seq![
            '.',
        ] + decimal(b as nat) + seq!['.'] + decimal(c as nat) + seq!['.'] + decimal(d as nat),
{
    let ip = (a * 0x100_0000 + b * 0x1_0000 + c * 0x100 + d) as u32;
    octets_of(a, b, c, d);
    let (first, second, third) = (decimal(a as nat), decimal(b as nat), decimal(c as nat));
    let last = decimal(d as nat);
    assert(dotted(ip) == first.push('.') + second.push('.') + third.push('.') + last);
    assert(first.push('.') + second.push('.') + third.push('.') + last =~= first + seq!['.']
        + second + seq!['.'] + third + seq!['.'] + last);
}

/// A text spells a number exactly if it consists of digits, at least one, with
/// a plus sign in front of them or not, and the number fits a machine word.
pub proof fn numbers_have_their_spelling(text: Seq<char>)
    requires
        text.len() > 0,
        forall|i: int| 0 <= i < text.len() ==> '0' <= (#[trigger] text[i]) <= '9',
    ensures
        spelled_number(text) == (if digits_value(text) <= usize::MAX {
            Some(digits_value(text) as usize)
        } else {
            None
        }),
        spelled_number(seq!['+'] + text) == spelled_number(text),
        spelled_number(text + seq!['.']) is None,
        spelled_number(Seq::empty()) is None,
{
    let signed = seq!['+'] + text;
    assert(signed.subrange(1, signed.len() as int) =~= text);
    assert(text[0] != '+');
    let dotted = text + seq!['.'];
    assert(dotted[0] == text[0]);
    assert(!is_digit(dotted[dotted.len() - 1]));
}

} // verus!
