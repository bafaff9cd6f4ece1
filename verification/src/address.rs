//! Endpoint addresses and the text they are written as.
//!
//! An endpoint is either a resolved IP address with a port or a host name
//! with a port. Both the upstream proxy and the final destination are
//! endpoints. Their text, `host:port`, is what an HTTP CONNECT request
//! carries; it is defined here as a sequence of bytes and produced by
//! verified code.

use vstd::prelude::*;
use vstd::string::*;
use vstd::utf8::*;

verus! {

/// An IP address, held by its numeric parts.
#[derive(Clone, Copy, Debug, PartialEq, Eq)]
pub enum IpAddress {
    /// The four octets of an IPv4 address, first octet first.
    V4([u8; 4]),
    /// The eight 16-bit groups of an IPv6 address, first group first.
    V6([u16; 8]),
}

/// A resolved address: an IP address and a port. An IPv6 address also
/// carries its flow label and the number of its scope (0 for none).
#[derive(Clone, Copy, Debug, PartialEq, Eq)]
pub enum SocketAddress {
    /// An IPv4 address, by its four octets, and a port.
    V4 { octets: [u8; 4], port: u16 },
    /// An IPv6 address, by its eight groups, and a port.
    V6 { groups: [u16; 8], port: u16, flowinfo: u32, scope_id: u32 },
}

/// Where a connection goes: a resolved address, or a name still to be
/// resolved by whoever dials it.
#[derive(Debug, PartialEq, Eq)]
pub enum EndpointAddress {
    /// A resolved IP address and port.
    Socket(SocketAddress),
    /// A host name and port, such as `example.com:443`.
    DomainName(String, u16),
}

/// The byte `.`.
pub const DOT: u8 = 0x2e;

/// The byte `:`.
pub const COLON: u8 = 0x3a;

/// The byte `%`.
pub const PERCENT: u8 = 0x25;

/// The byte `[`.
pub const BRACKET_OPEN: u8 = 0x5b;

/// The byte `]`.
pub const BRACKET_CLOSE: u8 = 0x5d;

/// The byte `0`, the first of the ten digits.
pub const DIGIT_ZERO: u8 = 0x30;

/// The byte `a`, the first of the six letters that are hexadecimal digits.
pub const LETTER_A: u8 = 0x61;

/// The byte `f`.
pub const LETTER_F: u8 = 0x66;

/// `n` in decimal, without leading zeros, as ASCII bytes.
pub open spec fn decimal_text(n: nat) -> Seq<u8>
    decreases n,
{
    if n < 10 {
        seq![(DIGIT_ZERO + n) as u8]
    } else {
        decimal_text(n / 10).push((DIGIT_ZERO + n % 10) as u8)
    }
}

/// The lower-case hexadecimal digit for `d < 16`.
pub open spec fn hex_digit(d: nat) -> u8 {
    if d < 10 {
        (DIGIT_ZERO + d) as u8
    } else {
        (LETTER_A + d - 10) as u8
    }
}

/// `n` in lower-case hexadecimal, without leading zeros, as ASCII bytes.
pub open spec fn hex_text(n: nat) -> Seq<u8>
    decreases n,
{
    if n < 16 {
        seq![hex_digit(n)]
    } else {
        hex_text(n / 16).push(hex_digit(n % 16))
    }
}

/// The number that decimal digits stand for.
pub open spec fn decimal_value(digits: Seq<u8>) -> nat
    decreases digits.len(),
{
    if digits.len() == 0 {
        0
    } else {
        decimal_value(digits.drop_last()) * 10 + (digits.last() - DIGIT_ZERO) as nat
    }
}

/// The number that lower-case hexadecimal digits stand for.
pub open spec fn hex_value(digits: Seq<u8>) -> nat
    decreases digits.len(),
{
    if digits.len() == 0 {
        0
    } else if digits.last() < LETTER_A {
        hex_value(digits.drop_last()) * 16 + (digits.last() - DIGIT_ZERO) as nat
    } else {
        hex_value(digits.drop_last()) * 16 + (digits.last() - LETTER_A + 10) as nat
    }
}

/// The decimal text of a number is made of digits, has no leading zero
/// (the text of 0 is `0`), and stands for that number.
pub proof fn law_decimal_text_reads_back(n: nat)
    ensures
        decimal_text(n).len() >= 1,
        forall|i: int|
            0 <= i < decimal_text(n).len() ==> DIGIT_ZERO <= #[trigger] decimal_text(n)[i]
                <= DIGIT_ZERO + 9,
        decimal_text(n)[0] == DIGIT_ZERO <==> n == 0,
        decimal_value(decimal_text(n)) == n,
    decreases n,
{
    if n >= 10 {
        law_decimal_text_reads_back(n / 10);
        let shorter = decimal_text(n / 10);
        let digit = (DIGIT_ZERO + n % 10) as u8;
        let text = shorter.push(digit);
        assert(text.drop_last() =~= shorter);
    } else {
        let text = decimal_text(n);
        assert(decimal_value(text) == decimal_value(text.drop_last()) * 10 + (text.last()
            - DIGIT_ZERO));
    }
}

/// The hexadecimal text of a number is made of the digits `0` to `9` and
/// `a` to `f`, has no leading zero (the text of 0 is `0`), and stands for
/// that number.
pub proof fn law_hex_text_reads_back(n: nat)
    ensures
        hex_text(n).len() >= 1,
        forall|i: int|
            0 <= i < hex_text(n).len() ==> (DIGIT_ZERO <= #[trigger] hex_text(n)[i] <= DIGIT_ZERO + 9)
                || (LETTER_A <= hex_text(n)[i] <= LETTER_F),
        hex_text(n)[0] == DIGIT_ZERO <==> n == 0,
        hex_value(hex_text(n)) == n,
    decreases n,
{
    if n >= 16 {
        law_hex_text_reads_back(n / 16);
        let shorter = hex_text(n / 16);
        let digit = hex_digit(n % 16);
        let text = shorter.push(digit);
        assert(text.drop_last() =~= shorter);
    } else {
        let text = hex_text(n);
        assert(hex_value(text) == hex_value(text.drop_last()) * 16 + n);
    }
}

/// Dotted decimal: the four octets in decimal, joined by `.`.
pub open spec fn ipv4_text(octets: Seq<u8>) -> Seq<u8>
    recommends
        octets.len() == 4,
{
    decimal_text(octets[0] as nat) + seq![DOT] + decimal_text(octets[1] as nat) + seq![DOT]
        + decimal_text(octets[2] as nat) + seq![DOT] + decimal_text(octets[3] as nat)
}

/// The groups in hexadecimal, joined by `:`. No group gives no text.
pub open spec fn hex_groups(groups: Seq<u16>) -> Seq<u8>
    decreases groups.len(),
{
    if groups.len() == 0 {
        Seq::empty()
    } else if groups.len() == 1 {
        hex_text(groups[0] as nat)
    } else {
        hex_groups(groups.drop_last()) + seq![COLON] + hex_text(groups.last() as nat)
    }
}

/// How many consecutive zero groups start at index `i`.
pub open spec fn zero_run(groups: Seq<u16>, i: int) -> nat
    decreases groups.len() - i,
{
    if 0 <= i < groups.len() && groups[i] == 0 {
        1 + zero_run(groups, i + 1)
    } else {
        0
    }
}

/// The longest run of zero groups among those that start before `upto`, as
/// (start, length). Of several runs of the greatest length it is the first.
/// With no zero group before `upto` the length is 0.
pub open spec fn longest_zero_run(groups: Seq<u16>, upto: int) -> (int, nat)
    decreases upto,
{
    if upto <= 0 {
        (0, 0)
    } else {
        let earlier = longest_zero_run(groups, upto - 1);
        if zero_run(groups, upto - 1) > earlier.1 {
            (upto - 1, zero_run(groups, upto - 1))
        } else {
            earlier
        }
    }
}

/// What `longest_zero_run` picks: no run that starts before `upto` is
/// longer than the one picked, every run that starts before the one picked
/// is shorter, and the length is that of the run at the start picked.
pub proof fn law_longest_zero_run_is_first_longest(groups: Seq<u16>, upto: int)
    requires
        0 <= upto <= groups.len(),
    ensures
        ({
            let run = longest_zero_run(groups, upto);
            &&& forall|j: int| 0 <= j < upto ==> #[trigger] zero_run(groups, j) <= run.1
            &&& forall|j: int| 0 <= j < run.0 ==> #[trigger] zero_run(groups, j) < run.1
            &&& run.1 > 0 ==> 0 <= run.0 < upto && zero_run(groups, run.0) == run.1
            &&& run.1 == 0 ==> run.0 == 0
        }),
    decreases upto,
{
    if upto > 0 {
        law_longest_zero_run_is_first_longest(groups, upto - 1);
    }
}

/// An IPv6 address that carries an IPv4 address: five zero groups, then
/// `ffff`, then the four octets.
pub open spec fn is_ipv4_mapped(groups: Seq<u16>) -> bool
    recommends
        groups.len() == 8,
{
    groups[0] == 0 && groups[1] == 0 && groups[2] == 0 && groups[3] == 0 && groups[4] == 0
        && groups[5] == 0xffff
}

/// The octets that the last two groups of an IPv4-mapped address hold.
pub open spec fn mapped_octets(groups: Seq<u16>) -> Seq<u8>
    recommends
        groups.len() == 8,
{
    seq![
        (groups[6] / 256) as u8,
        (groups[6] % 256) as u8,
        (groups[7] / 256) as u8,
        (groups[7] % 256) as u8,
    ]
}

/// The canonical text of an IPv6 address. An IPv4-mapped address is
/// `::ffff:` and the dotted IPv4 address. Otherwise the groups are written
/// in hexadecimal and joined by `:`, and the longest run of two or more zero
/// groups (the first, if several are as long) is replaced by `::`.
pub open spec fn ipv6_text(groups: Seq<u16>) -> Seq<u8>
    recommends
        groups.len() == 8,
{
    if is_ipv4_mapped(groups) {
        seq![COLON, COLON, LETTER_F, LETTER_F, LETTER_F, LETTER_F, COLON] + ipv4_text(mapped_octets(groups))
    } else {
        let run = longest_zero_run(groups, 8);
        if run.1 > 1 {
            hex_groups(groups.take(run.0)) + seq![COLON, COLON] + hex_groups(
                groups.skip(run.0 + run.1),
            )
        } else {
            hex_groups(groups)
        }
    }
}

/// The scope of an IPv6 address as it stands behind the address: nothing
/// for scope 0, otherwise `%` and the scope's number.
pub open spec fn scope_text(scope_id: u32) -> Seq<u8> {
    if scope_id == 0 {
        Seq::empty()
    } else {
        seq![PERCENT] + decimal_text(scope_id as nat)
    }
}

impl SocketAddress {
    /// The address that `ip` and `port` make, without flow label or scope.
    pub open spec fn of(ip: IpAddress, port: u16) -> SocketAddress {
        match ip {
            IpAddress::V4(octets) => SocketAddress::V4 { octets, port },
            IpAddress::V6(groups) => SocketAddress::V6 { groups, port, flowinfo: 0, scope_id: 0 },
        }
    }

    /// Makes the address of `ip` and `port`, without flow label or scope.
    pub fn new(ip: IpAddress, port: u16) -> (addr: SocketAddress)
        ensures
            addr == SocketAddress::of(ip, port),
    {
        match ip {
            IpAddress::V4(octets) => SocketAddress::V4 { octets, port },
            IpAddress::V6(groups) => SocketAddress::V6 { groups, port, flowinfo: 0, scope_id: 0 },
        }
    }

    /// `ip:port`. An IPv6 address stands in square brackets, with its scope
    /// behind it if it has one.
    pub open spec fn text(self) -> Seq<u8> {
        match self {
            SocketAddress::V4 { octets, port } => ipv4_text(octets@) + seq![COLON] + decimal_text(
                port as nat,
            ),
            SocketAddress::V6 { groups, port, flowinfo, scope_id } => seq![BRACKET_OPEN] + ipv6_text(
                groups@,
            ) + scope_text(scope_id) + seq![BRACKET_CLOSE, COLON] + decimal_text(port as nat),
        }
    }

    /// Appends `ip:port` to `out`.
    pub fn write_text(&self, out: &mut Vec<u8>)
        ensures
            final(out)@ == old(out)@ + self.text(),
    {
        match self {
            SocketAddress::V4 { octets, port } => {
                push_ipv4(out, octets);
                out.push(COLON);
                push_decimal(out, *port as u32);
            },
            SocketAddress::V6 { groups, port, flowinfo, scope_id } => {
                out.push(BRACKET_OPEN);
                push_ipv6(out, groups);
                if *scope_id != 0 {
                    out.push(PERCENT);
                    push_decimal(out, *scope_id);
                }
                out.push(BRACKET_CLOSE);
                out.push(COLON);
                push_decimal(out, *port as u32);
            },
        }
    }
}

impl EndpointAddress {
    /// The endpoint as `host:port`. A host name stands as its UTF-8 bytes.
    pub open spec fn text(self) -> Seq<u8> {
        match self {
            EndpointAddress::Socket(addr) => addr.text(),
            EndpointAddress::DomainName(host, port) => encode_utf8(host@) + seq![COLON]
                + decimal_text(port as nat),
        }
    }

    /// Appends `host:port` to `out`.
    pub fn write_text(&self, out: &mut Vec<u8>)
        ensures
            final(out)@ == old(out)@ + self.text(),
    {
        match self {
            EndpointAddress::Socket(addr) => addr.write_text(out),
            EndpointAddress::DomainName(host, port) => {
                out.extend_from_slice(host.as_str().as_bytes());
                out.push(COLON);
                push_decimal(out, *port as u32);
            },
        }
    }

    /// The endpoint as `host:port`.
    pub fn to_text(&self) -> (text: Vec<u8>)
        ensures
            text@ == self.text(),
    {
        let mut text: Vec<u8> = Vec::new();
        self.write_text(&mut text);
        text
    }
}

impl Clone for EndpointAddress {
    fn clone(&self) -> (copy: Self)
        ensures
            copy == *self,
    {
        match self {
            EndpointAddress::Socket(addr) => EndpointAddress::Socket(*addr),
            EndpointAddress::DomainName(host, port) => EndpointAddress::DomainName(
                host.clone(),
                *port,
            ),
        }
    }
}

/// Appends `n` in decimal.
fn push_decimal(out: &mut Vec<u8>, n: u32)
    ensures
        final(out)@ == old(out)@ + decimal_text(n as nat),
    decreases n,
{
    if n >= 10 {
        push_decimal(out, n / 10);
    }
    out.push(DIGIT_ZERO + (n % 10) as u8);
}

/// Appends `n` in lower-case hexadecimal.
fn push_hex(out: &mut Vec<u8>, n: u16)
    ensures
        final(out)@ == old(out)@ + hex_text(n as nat),
    decreases n,
{
    if n >= 16 {
        push_hex(out, n / 16);
    }
    let digit: u8 = (n % 16) as u8;
    if digit < 10 {
        out.push(DIGIT_ZERO + digit);
    } else {
        out.push(LETTER_A + (digit - 10));
    }
}

/// Appends the four octets in dotted decimal.
fn push_ipv4(out: &mut Vec<u8>, octets: &[u8; 4])
    ensures
        final(out)@ == old(out)@ + ipv4_text(octets@),
{
    push_decimal(out, octets[0] as u32);
    out.push(DOT);
    push_decimal(out, octets[1] as u32);
    out.push(DOT);
    push_decimal(out, octets[2] as u32);
    out.push(DOT);
    push_decimal(out, octets[3] as u32);
}

/// Appends the groups at indices `from..to` in hexadecimal, joined by `:`.
fn push_hex_groups(out: &mut Vec<u8>, groups: &[u16; 8], from: usize, to: usize)
    requires
        from <= to <= 8,
    ensures
        final(out)@ == old(out)@ + hex_groups(groups@.subrange(from as int, to as int)),
{
    let ghost before = out@;
    let mut i: usize = from;
    while i < to
        invariant
            from <= i <= to <= 8,
            out@ == before + hex_groups(groups@.subrange(from as int, i as int)),
        decreases to - i,
    {
        let ghost done = groups@.subrange(from as int, i as int);
        let ghost next = groups@.subrange(from as int, i + 1);
        assert(next.drop_last() =~= done);
        if i > from {
            out.push(COLON);
        }
        push_hex(out, groups[i]);
        i = i + 1;
    }
}

/// Counts the consecutive zero groups that start at index `i`.
fn zero_run_at(groups: &[u16; 8], i: usize) -> (len: usize)
    requires
        i <= 8,
    ensures
        len == zero_run(groups@, i as int),
        i + len <= 8,
{
    let mut j: usize = i;
    while j < 8 && groups[j] == 0
        invariant
            i <= j <= 8,
            zero_run(groups@, i as int) == (j - i) + zero_run(groups@, j as int),
        decreases 8 - j,
    {
        j = j + 1;
    }
    j - i
}

/// Finds the first of the longest runs of zero groups, as (start, length).
fn find_longest_zero_run(groups: &[u16; 8]) -> (run: (usize, usize))
    ensures
        (run.0 as int, run.1 as nat) == longest_zero_run(groups@, 8),
        run.0 + run.1 <= 8,
{
    let mut start: usize = 0;
    let mut len: usize = 0;
    let mut i: usize = 0;
    while i < 8
        invariant
            i <= 8,
            (start as int, len as nat) == longest_zero_run(groups@, i as int),
            start + len <= 8,
        decreases 8 - i,
    {
        let here = zero_run_at(groups, i);
        if here > len {
            start = i;
            len = here;
        }
        i = i + 1;
    }
    (start, len)
}

/// Appends the canonical text of an IPv6 address.
fn push_ipv6(out: &mut Vec<u8>, groups: &[u16; 8])
    ensures
        final(out)@ == old(out)@ + ipv6_text(groups@),
{
    if groups[0] == 0 && groups[1] == 0 && groups[2] == 0 && groups[3] == 0 && groups[4] == 0
        && groups[5] == 0xffff {
        let octets: [u8; 4] = [
            (groups[6] / 256) as u8,
            (groups[6] % 256) as u8,
            (groups[7] / 256) as u8,
            (groups[7] % 256) as u8,
        ];
        out.push(COLON);
        out.push(COLON);
        out.push(LETTER_F);
        out.push(LETTER_F);
        out.push(LETTER_F);
        out.push(LETTER_F);
        out.push(COLON);
        push_ipv4(out, &octets);
    } else {
        let (start, len) = find_longest_zero_run(groups);
        if len > 1 {
            push_hex_groups(out, groups, 0, start);
            out.push(COLON);
            out.push(COLON);
            push_hex_groups(out, groups, start + len, 8);
        } else {
            push_hex_groups(out, groups, 0, 8);
            assert(groups@.subrange(0, 8) =~= groups@);
        }
    }
}

} // verus!
