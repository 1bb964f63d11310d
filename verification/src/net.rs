//! IPv4 addresses and endpoints.

use crate::number::{decimal, decimal_string, lemma_decimal_digits, lemma_digits_are_decimal, parse_number, read_digits};
use crate::text::{chars_of, fields, fields_join, join, lemma_fields_prepend, split_fields, views};
use vstd::prelude::*;

verus! {

/// An IPv4 address, as its four octets.
#[derive(Debug, Clone, Copy, PartialEq, Eq, Structural)]
pub struct Ipv4Addr {
    /// The first octet.
    pub a: u8,
    /// The second octet.
    pub b: u8,
    /// The third octet.
    pub c: u8,
    /// The fourth octet.
    pub d: u8,
}

/// An IPv4 address with a port.
#[derive(Debug, Clone, Copy, PartialEq, Eq, Structural)]
pub struct SocketAddrV4 {
    /// The address.
    pub ip: Ipv4Addr,
    /// The port.
    pub port: u16,
}

/// The octet that `s` writes in decimal digits, without a sign or a leading zero.
pub open spec fn read_octet(s: Seq<char>) -> Option<u8> {
    if s.len() == 0 || (s.len() > 1 && s[0] == '0') {
        None
    } else {
        match read_digits(s, 255) {
            Ok(value) => Some(value as u8),
            Err(_) => None,
        }
    }
}

/// The address that `s` writes in dot-decimal notation.
pub open spec fn read_ipv4(s: Seq<char>) -> Option<Ipv4Addr> {
    let parts = fields(s, '.');
    if parts.len() != 4 {
        None
    } else {
        match (
            read_octet(parts[0]),
            read_octet(parts[1]),
            read_octet(parts[2]),
            read_octet(parts[3]),
        ) {
            (Some(a), Some(b), Some(c), Some(d)) => Some(Ipv4Addr { a, b, c, d }),
            _ => None,
        }
    }
}

impl Ipv4Addr {
    /// The address in dot-decimal notation.
    pub open spec fn text(self) -> Seq<char> {
        decimal(self.a as nat) + seq!['.'] + decimal(self.b as nat) + seq!['.'] + decimal(
            self.c as nat,
        ) + seq!['.'] + decimal(self.d as nat)
    }

    /// The address with the given octets.
    pub fn new(a: u8, b: u8, c: u8, d: u8) -> (address: Self)
        ensures
            address == (Ipv4Addr { a, b, c, d }),
    {
        Ipv4Addr { a, b, c, d }
    }

    /// The four octets in order.
    pub fn octets(&self) -> (octets: [u8; 4])
        ensures
            octets@ == seq![self.a, self.b, self.c, self.d],
    {
        let octets = [self.a, self.b, self.c, self.d];
        assert(octets@ =~= seq![self.a, self.b, self.c, self.d]);
        octets
    }

    /// The address in dot-decimal notation.
    pub fn to_string(&self) -> (text: String)
        ensures
            text@ == self.text(),
    {
        proof {
            reveal_strlit(".");
            assert("."@ =~= seq!['.']);
        }
        let mut text = decimal_string(self.a as u64);
        text.append(".");
        text.append(decimal_string(self.b as u64).as_str());
        text.append(".");
        text.append(decimal_string(self.c as u64).as_str());
        text.append(".");
        text.append(decimal_string(self.d as u64).as_str());
        text
    }

    /// Reads an address in dot-decimal notation.
    pub fn parse(value: &str) -> (address: Option<Ipv4Addr>)
        ensures
            address == read_ipv4(value@),
    {
        let parts = split_fields(value, '.');
        assert(views(parts@).len() == parts.len());
        if parts.len() != 4 {
            return None;
        }
        assert(forall|i: int| 0 <= i < 4 ==> views(parts@)[i] == parts[i]@);
        match (
            parse_octet(parts[0]),
            parse_octet(parts[1]),
            parse_octet(parts[2]),
            parse_octet(parts[3]),
        ) {
            (Some(a), Some(b), Some(c), Some(d)) => Some(Ipv4Addr { a, b, c, d }),
            _ => None,
        }
    }
}

impl SocketAddrV4 {
    /// The endpoint with the given address and port.
    pub fn new(ip: Ipv4Addr, port: u16) -> (endpoint: Self)
        ensures
            endpoint == (SocketAddrV4 { ip, port }),
    {
        SocketAddrV4 { ip, port }
    }
}

/// Reads an octet in decimal digits, without a sign or a leading zero.
fn parse_octet(value: &str) -> (octet: Option<u8>)
    ensures
        octet == read_octet(value@),
{
    let chars = chars_of(value);
    if chars.len() == 0 || (chars.len() > 1 && chars[0] == '0') {
        return None;
    }
    if chars[0] == '+' {
        proof {
            lemma_sign_is_no_digit(value@);
        }
        return None;
    }
    match parse_number(value, 255) {
        Ok(octet) => Some(octet as u8),
        Err(_) => None,
    }
}

proof fn lemma_sign_is_no_digit(s: Seq<char>)
    requires
        s.len() > 0,
        s[0] == '+',
    ensures
        read_digits(s, 255) is Err,
    decreases s.len(),
{
    if s.len() > 1 {
        lemma_sign_is_no_digit(s.drop_last());
    }
}

impl std::str::FromStr for Ipv4Addr {
    type Err = ();

    fn from_str(value: &str) -> (address: Result<Self, ()>)
        ensures
            match address {
                Ok(found) => read_ipv4(value@) == Some(found),
                Err(_) => read_ipv4(value@) is None,
            },
    {
        match Ipv4Addr::parse(value) {
            Some(address) => Ok(address),
            None => Err(()),
        }
    }
}

/// Reading back an address in dot-decimal notation gives the address.
pub proof fn ipv4_round_trip(address: Ipv4Addr)
    ensures
        read_ipv4(address.text()) == Some(address),
{
    let (a, b, c, d) = (
        decimal(address.a as nat),
        decimal(address.b as nat),
        decimal(address.c as nat),
        decimal(address.d as nat),
    );
    lemma_octet_text(address.a);
    lemma_octet_text(address.b);
    lemma_octet_text(address.c);
    lemma_octet_text(address.d);
    lemma_fields_prepend(a, '.', b + seq!['.'] + (c + seq!['.'] + d));
    lemma_fields_prepend(b, '.', c + seq!['.'] + d);
    lemma_fields_prepend(c, '.', d);
    assert(address.text() =~= a + seq!['.'] + (b + seq!['.'] + (c + seq!['.'] + d)));
    assert(fields(address.text(), '.') =~= seq![a, b, c, d]);
}

/// An address has one form in dot-decimal notation only.
pub proof fn ipv4_text_unique(s: Seq<char>)
    requires
        read_ipv4(s) is Some,
    ensures
        s == read_ipv4(s)->0.text(),
{
    let parts = fields(s, '.');
    fields_join(s, '.');
    assert forall|i: int| 0 <= i < 4 implies #[trigger] parts[i] == decimal(
        read_octet(parts[i])->0 as nat,
    ) by {
        lemma_digits_are_decimal(parts[i], 255);
        lemma_read_digits_bound(parts[i], 255);
    }
    reveal_with_fuel(join, 4);
    assert(s =~= read_ipv4(s)->0.text());
}

proof fn lemma_octet_text(octet: u8)
    ensures
        read_octet(decimal(octet as nat)) == Some(octet),
        !decimal(octet as nat).contains('.'),
{
    lemma_decimal_digits(octet as nat, 255);
}

proof fn lemma_read_digits_bound(s: Seq<char>, max: nat)
    ensures
        read_digits(s, max) matches Ok(value) ==> value <= max,
{
}

/// An address is read from its dot-decimal form and from nothing else; that form has the four
/// octets in decimal between dots.
pub proof fn addresses_are_read_as_written(s: Seq<char>, address: Ipv4Addr)
    ensures
        read_ipv4(s) == Some(address) <==> s == address.text(),
        fields(address.text(), '.') == seq![
            decimal(address.a as nat),
            decimal(address.b as nat),
            decimal(address.c as nat),
            decimal(address.d as nat),
        ],
{
    ipv4_round_trip(address);
    if read_ipv4(s) == Some(address) {
        ipv4_text_unique(s);
    }
    let (a, b, c, d) = (
        decimal(address.a as nat),
        decimal(address.b as nat),
        decimal(address.c as nat),
        decimal(address.d as nat),
    );
    lemma_octet_text(address.a);
    lemma_octet_text(address.b);
    lemma_octet_text(address.c);
    lemma_octet_text(address.d);
    lemma_fields_prepend(a, '.', b + seq!['.'] + (c + seq!['.'] + d));
    lemma_fields_prepend(b, '.', c + seq!['.'] + d);
    lemma_fields_prepend(c, '.', d);
    assert(address.text() =~= a + seq!['.'] + (b + seq!['.'] + (c + seq!['.'] + d)));
    assert(fields(address.text(), '.') =~= seq![a, b, c, d]);
}

} // verus!
