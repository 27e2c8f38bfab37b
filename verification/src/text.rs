//! Decimal and hexadecimal text of numbers, and parsing of unsigned
//! decimal numbers and dotted IPv4 addresses.

use vstd::prelude::*;
use vstd::string::StringSliceAdditionalSpecFns;

verus! {

broadcast use vstd::seq_lib::group_seq_properties;

/// The decimal digit `d` (0 to 9) as a character.
pub open spec fn digit_char(d: int) -> char {
    (d + 48) as char
}

/// The decimal text of `n`, without leading zeros.
pub open spec fn decimal(n: nat) -> Seq<char>
    decreases n,
{
    if n < 10 {
        seq![digit_char(n as int)]
    } else {
        decimal(n / 10).push(digit_char((n % 10) as int))
    }
}

/// The decimal text of `i`, with a leading '-' when negative.
pub open spec fn signed_decimal(i: int) -> Seq<char> {
    if i < 0 {
        seq!['-'] + decimal((-i) as nat)
    } else {
        decimal(i as nat)
    }
}

/// The hexadecimal digit `d` (0 to 15) as an upper-case character.
pub open spec fn hex_digit_char(d: int) -> char {
    if d < 10 {
        (d + 48) as char
    } else {
        (d + 55) as char
    }
}

/// The two upper-case hexadecimal digits of a byte.
pub open spec fn hex_byte(b: u8) -> Seq<char> {
    seq![hex_digit_char((b / 16) as int), hex_digit_char((b % 16) as int)]
}

/// A MAC address as six pairs of upper-case hexadecimal digits separated by ':'.
pub open spec fn mac_text(mac: Seq<u8>) -> Seq<char> {
    hex_byte(mac[0]) + seq![':'] + hex_byte(mac[1]) + seq![':'] + hex_byte(mac[2]) + seq![':']
        + hex_byte(mac[3]) + seq![':'] + hex_byte(mac[4]) + seq![':'] + hex_byte(mac[5])
}

/// An IPv4 address as four decimal numbers separated by '.'.
pub open spec fn ipv4_text(octets: Seq<u8>) -> Seq<char> {
    decimal(octets[0] as nat) + seq!['.'] + decimal(octets[1] as nat) + seq!['.'] + decimal(
        octets[2] as nat,
    ) + seq!['.'] + decimal(octets[3] as nat)
}

/// `std::string::String::push`: appends the character `c` at the end of
/// the string, as std documents it.
#[verifier::external_body]
fn push_char(text: &mut String, c: char)
    ensures
        final(text)@ == old(text)@.push(c),
{
    text.push(c);
}

fn digit(d: u8) -> (c: char)
    requires
        d < 10,
    ensures
        c == digit_char(d as int),
{
    (d + 48) as char
}

fn hex_digit(d: u8) -> (c: char)
    requires
        d < 16,
    ensures
        c == hex_digit_char(d as int),
{
    if d < 10 {
        (d + 48) as char
    } else {
        (d + 55) as char
    }
}

/// Appends the decimal text of `n`.
pub fn push_decimal(text: &mut String, n: u64)
    ensures
        final(text)@ == old(text)@ + decimal(n as nat),
    decreases n,
{
    if n >= 10 {
        push_decimal(text, n / 10);
    }
    push_char(text, digit((n % 10) as u8));
    proof {
        if n >= 10 {
            assert(old(text)@ + decimal((n / 10) as nat) + seq![digit_char((n % 10) as int)]
                =~= old(text)@ + decimal(n as nat));
        } else {
            assert(old(text)@.push(digit_char((n % 10) as int)) =~= old(text)@ + decimal(n as nat));
        }
    }
}

/// Appends the decimal text of `n`, with a leading '-' when negative.
pub fn push_signed_decimal(text: &mut String, n: i32)
    ensures
        final(text)@ == old(text)@ + signed_decimal(n as int),
{
    if n < 0 {
        push_char(text, '-');
        let magnitude: i64 = -(n as i64);
        push_decimal(text, magnitude as u64);
        proof {
            assert(old(text)@.push('-') + decimal(magnitude as nat) =~= old(text)@ + (seq!['-']
                + decimal(magnitude as nat)));
        }
    } else {
        push_decimal(text, n as u64);
    }
}

/// Appends the two upper-case hexadecimal digits of a byte.
pub fn push_hex_byte(text: &mut String, b: u8)
    ensures
        final(text)@ == old(text)@ + hex_byte(b),
{
    push_char(text, hex_digit(b / 16));
    push_char(text, hex_digit(b % 16));
    proof {
        assert(old(text)@.push(hex_digit_char((b / 16) as int)).push(hex_digit_char((b % 16) as int))
            =~= old(text)@ + hex_byte(b));
    }
}

/// The text of a MAC address, such as `A4:CF:12:0B:3E:F0`.
pub fn mac_string(mac: [u8; 6]) -> (text: String)
    ensures
        text@ == mac_text(mac@),
{
    let mut text = String::new();
    let mut i: usize = 0;
    while i < 6
        invariant
            i <= 6,
            i > 0 ==> text@ =~= mac_prefix(mac@, i as int),
            i == 0 ==> text@ == Seq::<char>::empty(),
        decreases 6 - i,
    {
        if i > 0 {
            push_char(&mut text, ':');
        }
        push_hex_byte(&mut text, mac[i]);
        i = i + 1;
    }
    proof {
        reveal_with_fuel(mac_prefix, 7);
        assert(mac_prefix(mac@, 6) =~= mac_text(mac@));
    }
    text
}

/// The text of the first `n` bytes of a MAC address.
pub open spec fn mac_prefix(mac: Seq<u8>, n: int) -> Seq<char>
    decreases n,
{
    if n <= 1 {
        hex_byte(mac[0])
    } else {
        mac_prefix(mac, n - 1) + seq![':'] + hex_byte(mac[n - 1])
    }
}

/// The text of an IPv4 address, such as `192.168.1.10`.
pub fn ipv4_string(octets: [u8; 4]) -> (text: String)
    ensures
        text@ == ipv4_text(octets@),
{
    let mut text = String::new();
    push_decimal(&mut text, octets[0] as u64);
    push_char(&mut text, '.');
    push_decimal(&mut text, octets[1] as u64);
    push_char(&mut text, '.');
    push_decimal(&mut text, octets[2] as u64);
    push_char(&mut text, '.');
    push_decimal(&mut text, octets[3] as u64);
    proof {
        assert(text@ =~= ipv4_text(octets@));
    }
    text
}

/// The byte of the character '+'.
pub const PLUS: u8 = 43;

/// The byte of the character '.'.
pub const DOT: u8 = 46;

pub open spec fn is_ascii_digit(b: u8) -> bool {
    48 <= b <= 57
}

/// The value of a sequence of decimal digits.
pub open spec fn digits_value(digits: Seq<u8>) -> nat
    decreases digits.len(),
{
    if digits.len() == 0 {
        0
    } else {
        digits_value(digits.drop_last()) * 10 + (digits.last() - 48) as nat
    }
}

/// The digits of an unsigned number's text: a leading '+' is dropped.
pub open spec fn unsigned_digits(text: Seq<u8>) -> Seq<u8> {
    if text.len() > 0 && text[0] == PLUS {
        text.drop_first()
    } else {
        text
    }
}

/// The number that `text` denotes when parsed as an unsigned integer whose
/// largest value is `max`: an optional '+' followed by one or more decimal
/// digits, with a value of at most `max`. `None` for any other text.
pub open spec fn parse_unsigned(text: Seq<u8>, max: nat) -> Option<nat> {
    let digits = unsigned_digits(text);
    if digits.len() > 0 && (forall|i: int| 0 <= i < digits.len() ==> is_ascii_digit(digits[i]))
        && digits_value(digits) <= max {
        Some(digits_value(digits))
    } else {
        None
    }
}

proof fn lemma_digits_prefix(digits: Seq<u8>, k: int)
    requires
        0 <= k <= digits.len(),
        forall|i: int| 0 <= i < digits.len() ==> is_ascii_digit(digits[i]),
    ensures
        digits_value(digits.take(k)) <= digits_value(digits),
    decreases digits.len() - k,
{
    if k < digits.len() {
        lemma_digits_prefix(digits, k + 1);
        assert(digits.take(k + 1).drop_last() =~= digits.take(k));
    } else {
        assert(digits.take(k) =~= digits);
    }
}

/// Parses `bytes[start..end]` as an unsigned decimal number of at most `max`.
pub fn parse_decimal(bytes: &[u8], start: usize, end: usize, max: u32) -> (value: Option<u32>)
    requires
        start <= end <= bytes@.len(),
    ensures
        match value {
            Some(v) => parse_unsigned(bytes@.subrange(start as int, end as int), max as nat) == Some(
                v as nat,
            ),
            None => parse_unsigned(bytes@.subrange(start as int, end as int), max as nat) is None,
        },
{
    let ghost text = bytes@.subrange(start as int, end as int);
    let mut i = start;
    if i < end && bytes[i] == PLUS {
        i = i + 1;
    }
    let first = i;
    let ghost digits = unsigned_digits(text);
    assert(digits =~= bytes@.subrange(first as int, end as int));
    if i == end {
        return None;
    }
    let mut value: u32 = 0;
    while i < end
        invariant
            first <= i <= end <= bytes@.len(),
            text == bytes@.subrange(start as int, end as int),
            digits == unsigned_digits(text),
            digits =~= bytes@.subrange(first as int, end as int),
            forall|j: int| 0 <= j < i - first ==> is_ascii_digit(digits[j]),
            value as nat == digits_value(digits.take(i - first)),
            value <= max,
        decreases end - i,
    {
        let b = bytes[i];
        if b < 48 || b > 57 {
            assert(!is_ascii_digit(digits[i - first]));
            return None;
        }
        assert(digits.take(i - first + 1).drop_last() =~= digits.take(i - first));
        let next: u64 = (value as u64) * 10 + (b - 48) as u64;
        if next > max as u64 {
            proof {
                if forall|j: int| 0 <= j < digits.len() ==> is_ascii_digit(digits[j]) {
                    lemma_digits_prefix(digits, i - first + 1);
                }
            }
            return None;
        }
        value = next as u32;
        i = i + 1;
    }
    assert(digits.take(i - first) =~= digits);
    Some(value)
}

/// The parts of `s` between the separators `sep`; there is always at least one.
pub open spec fn split_on(s: Seq<u8>, sep: u8) -> Seq<Seq<u8>>
    decreases s.len(),
{
    if s.len() == 0 {
        seq![Seq::<u8>::empty()]
    } else {
        let parts = split_on(s.drop_last(), sep);
        if s.last() == sep {
            parts.push(Seq::<u8>::empty())
        } else {
            parts.update(parts.len() - 1, parts.last().push(s.last()))
        }
    }
}

proof fn lemma_split_nonempty(s: Seq<u8>, sep: u8)
    ensures
        split_on(s, sep).len() >= 1,
    decreases s.len(),
{
    if s.len() > 0 {
        lemma_split_nonempty(s.drop_last(), sep);
    }
}

/// The parts of a prefix of `s` are, but for the last, parts of `s`, and
/// the last is the start of a part of `s`.
proof fn lemma_split_prefix(s: Seq<u8>, sep: u8, k: int)
    requires
        0 <= k <= s.len(),
    ensures
        split_on(s, sep).len() >= split_on(s.take(k), sep).len(),
        forall|j: int|
            0 <= j < split_on(s.take(k), sep).len() - 1 ==> split_on(s, sep)[j] == split_on(
                s.take(k),
                sep,
            )[j],
        split_on(s, sep)[split_on(s.take(k), sep).len() - 1].len() >= split_on(s.take(k), sep).last().len(),
        split_on(s, sep)[split_on(s.take(k), sep).len() - 1].take(
            split_on(s.take(k), sep).last().len() as int,
        ) == split_on(s.take(k), sep).last(),
    decreases s.len(),
{
    lemma_split_nonempty(s.take(k), sep);
    if k == s.len() {
        assert(s.take(k) =~= s);
        assert(split_on(s, sep).last().take(split_on(s, sep).last().len() as int) =~= split_on(
            s,
            sep,
        ).last());
    } else {
        let t = s.drop_last();
        assert(t.take(k) =~= s.take(k));
        lemma_split_prefix(t, sep, k);
        lemma_split_nonempty(t, sep);
        let p = split_on(s.take(k), sep);
        let q = split_on(t, sep);
        let last = p.len() - 1;
        if s.last() != sep && last == q.len() - 1 {
            assert(q.last().push(s.last()).take(p.last().len() as int) =~= q.last().take(
                p.last().len() as int,
            ));
        }
    }
}

/// Where the parts of a prefix that ends at a separator, or at the end,
/// stand among the parts of the whole.
proof fn lemma_split_at_boundary(all: Seq<u8>, sep: u8, start: int, i: int, done: Seq<Seq<u8>>)
    requires
        0 <= start <= i <= all.len(),
        i == all.len() || all[i] == sep,
        split_on(all.take(i), sep) =~= done.push(all.subrange(start, i)),
    ensures
        split_on(all, sep).len() > done.len(),
        forall|j: int| 0 <= j < done.len() ==> split_on(all, sep)[j] == done[j],
        split_on(all, sep)[done.len() as int] == all.subrange(start, i),
        i == all.len() ==> split_on(all, sep) == done.push(all.subrange(start, i)),
        i < all.len() ==> split_on(all.take(i + 1), sep) =~= done.push(all.subrange(start, i)).push(
            all.subrange(i + 1, i + 1),
        ),
{
    let part = all.subrange(start, i);
    let whole = split_on(all, sep);
    lemma_split_prefix(all, sep, i);
    if i < all.len() {
        lemma_split_prefix(all, sep, i + 1);
        assert(all.take(i + 1).drop_last() =~= all.take(i));
        assert(all.subrange(i + 1, i + 1) =~= Seq::<u8>::empty());
        assert(split_on(all.take(i + 1), sep) =~= done.push(part).push(Seq::<u8>::empty()));
        assert(split_on(all.take(i + 1), sep)[done.len() as int] == part);
    } else {
        assert(all.take(i) =~= all);
    }
}

/// A byte other than the separator extends the last part.
proof fn lemma_split_extend(all: Seq<u8>, sep: u8, start: int, i: int, done: Seq<Seq<u8>>)
    requires
        0 <= start <= i < all.len(),
        all[i] != sep,
        split_on(all.take(i), sep) =~= done.push(all.subrange(start, i)),
    ensures
        split_on(all.take(i + 1), sep) =~= done.push(all.subrange(start, i + 1)),
{
    assert(all.take(i + 1).drop_last() =~= all.take(i));
    assert(all.subrange(start, i).push(all[i]) =~= all.subrange(start, i + 1));
}

/// Why a broker address could not be read.
#[derive(Clone, Copy, Debug, PartialEq, Eq)]
pub enum BrokerIpError {
    /// More than four dot-separated parts.
    TooManyParts,
    /// A part that is not a number from 0 to 255.
    InvalidOctet,
    /// Fewer than four parts.
    NotFourOctets,
}

/// What reading a dotted IPv4 address from its parts gives. The first four
/// parts are read in order, and a part that is not an octet is reported
/// before a fifth part is.
pub open spec fn octets_from_parts(parts: Seq<Seq<u8>>) -> Result<Seq<u8>, BrokerIpError> {
    let read = if parts.len() < 4 {
        parts.len()
    } else {
        4
    };
    if exists|i: int| 0 <= i < read && #[trigger] parse_unsigned(parts[i], 255) is None {
        Err(BrokerIpError::InvalidOctet)
    } else if parts.len() > 4 {
        Err(BrokerIpError::TooManyParts)
    } else if parts.len() < 4 {
        Err(BrokerIpError::NotFourOctets)
    } else {
        Ok(Seq::new(4, |i: int| parse_unsigned(parts[i], 255)->0 as u8))
    }
}

/// Reads a broker's IPv4 address written as four dot-separated decimal
/// octets, such as `192.168.1.10`.
pub fn parse_broker_ip(text: &str) -> (octets: Result<[u8; 4], BrokerIpError>)
    ensures
        match octets {
            Ok(o) => octets_from_parts(split_on(text.spec_bytes(), DOT)) == Ok::<
                Seq<u8>,
                BrokerIpError,
            >(o@),
            Err(e) => octets_from_parts(split_on(text.spec_bytes(), DOT)) == Err::<
                Seq<u8>,
                BrokerIpError,
            >(e),
        },
{
    let bytes = text.as_bytes();
    let ghost all = bytes@;
    let mut octets = [0u8; 4];
    let mut count: usize = 0;
    let mut start: usize = 0;
    let mut i: usize = 0;
    let ghost mut done: Seq<Seq<u8>> = seq![];
    assert(all.take(0) =~= Seq::<u8>::empty());
    assert(split_on(all.take(0), DOT) =~= done.push(all.subrange(0, 0)));
    loop
        invariant
            bytes@ == all,
            all == text.spec_bytes(),
            start <= i <= all.len(),
            count <= 4,
            done.len() == count,
            split_on(all.take(i as int), DOT) =~= done.push(all.subrange(start as int, i as int)),
            forall|j: int| 0 <= j < count ==> parse_unsigned(#[trigger] done[j], 255) == Some(
                octets@[j] as nat,
            ),
        decreases all.len() - i,
    {
        if i == bytes.len() || bytes[i] == DOT {
            let ghost part = all.subrange(start as int, i as int);
            let ghost whole = split_on(all, DOT);
            proof {
                lemma_split_at_boundary(all, DOT, start as int, i as int, done);
            }
            if count == 4 {
                proof {
                    assert forall|j: int| 0 <= j < 4 implies !(#[trigger] parse_unsigned(
                        whole[j],
                        255,
                    ) is None) by {
                        assert(whole[j] == done[j]);
                        assert(parse_unsigned(done[j], 255) == Some(octets@[j] as nat));
                    }
                }
                return Err(BrokerIpError::TooManyParts);
            }
            match parse_decimal(bytes, start, i, 255) {
                None => {
                    return Err(BrokerIpError::InvalidOctet);
                },
                Some(value) => {
                    octets[count] = value as u8;
                    proof {
                        done = done.push(part);
                    }
                    count = count + 1;
                },
            }
            if i == bytes.len() {
                proof {
                    assert forall|j: int| 0 <= j < count implies !(#[trigger] parse_unsigned(
                        whole[j],
                        255,
                    ) is None) by {
                        assert(whole[j] == done[j]);
                        assert(parse_unsigned(done[j], 255) == Some(octets@[j] as nat));
                    }
                }
                if count != 4 {
                    return Err(BrokerIpError::NotFourOctets);
                }
                proof {
                    assert(Seq::new(4, |j: int| parse_unsigned(whole[j], 255)->0 as u8)
                        =~= octets@);
                }
                return Ok(octets);
            }
            start = i + 1;
        } else {
            proof {
                lemma_split_extend(all, DOT, start as int, i as int, done);
            }
        }
        i = i + 1;
    }
}

/// Reads a broker's TCP port, a decimal number from 0 to 65535.
pub fn parse_broker_port(text: &str) -> (port: Option<u16>)
    ensures
        match port {
            Some(p) => parse_unsigned(text.spec_bytes(), 65535) == Some(p as nat),
            None => parse_unsigned(text.spec_bytes(), 65535) is None,
        },
{
    let bytes = text.as_bytes();
    proof {
        assert(bytes@.subrange(0, bytes@.len() as int) =~= bytes@);
    }
    match parse_decimal(bytes, 0, bytes.len(), 65535) {
        Some(v) => Some(v as u16),
        None => None,
    }
}

/// The ASCII bytes of a text made of ASCII characters.
pub open spec fn ascii_bytes(text: Seq<char>) -> Seq<u8> {
    text.map_values(|c: char| c as u8)
}

proof fn lemma_decimal_digits(n: nat)
    ensures
        ascii_bytes(decimal(n)).len() > 0,
        forall|i: int| 0 <= i < ascii_bytes(decimal(n)).len() ==> is_ascii_digit(
            #[trigger] ascii_bytes(decimal(n))[i],
        ),
        digits_value(ascii_bytes(decimal(n))) == n,
    decreases n,
{
    let d = digit_char((n % 10) as int);
    assert(d as u8 == (n % 10) + 48);
    if n >= 10 {
        lemma_decimal_digits(n / 10);
        let prefix = ascii_bytes(decimal(n / 10));
        assert(ascii_bytes(decimal(n)) =~= prefix.push(d as u8));
        assert(prefix.push(d as u8).drop_last() =~= prefix);
        assert(digits_value(prefix.push(d as u8)) == digits_value(prefix) * 10 + (n % 10));
        assert(n == (n / 10) * 10 + n % 10);
    } else {
        assert(ascii_bytes(decimal(n)) =~= seq![d as u8]);
        assert(seq![d as u8].drop_last() =~= Seq::<u8>::empty());
        assert(digits_value(Seq::<u8>::empty()) == 0);
        assert(digits_value(seq![d as u8]) == n);
    }
}

/// The decimal text of a number reads back as that number: parsing it
/// (with any limit at least the number) gives the number again.
pub proof fn lemma_decimal_parses_back(n: nat, max: nat)
    requires
        n <= max,
    ensures
        parse_unsigned(ascii_bytes(decimal(n)), max) == Some(n),
{
    lemma_decimal_digits(n);
    let bytes = ascii_bytes(decimal(n));
    assert(is_ascii_digit(bytes[0]));
    assert(unsigned_digits(bytes) == bytes);
}

/// The value of a hexadecimal digit character, either case; -1 for any
/// other character.
pub open spec fn hex_value(c: char) -> int {
    if '0' <= c && c <= '9' {
        c as int - '0' as int
    } else if 'A' <= c && c <= 'F' {
        c as int - 'A' as int + 10
    } else if 'a' <= c && c <= 'f' {
        c as int - 'a' as int + 10
    } else {
        -1
    }
}

/// The hexadecimal text of a byte is two upper-case hexadecimal digits
/// whose value, high digit first, is the byte.
pub proof fn lemma_hex_byte_value(b: u8)
    ensures
        hex_byte(b).len() == 2,
        forall|i: int| 0 <= i < 2 ==> {
            let c = #[trigger] hex_byte(b)[i];
            ('0' <= c && c <= '9') || ('A' <= c && c <= 'F')
        },
        hex_value(hex_byte(b)[0]) * 16 + hex_value(hex_byte(b)[1]) == b,
{
}

} // verus!
