//! Network addresses as plain values.

use vstd::prelude::*;

verus! {

/// An IPv4 address, by its four octets in network order.
#[derive(Clone, Copy, Debug, PartialEq, Eq, Structural)]
pub struct Ipv4 {
    pub a: u8,
    pub b: u8,
    pub c: u8,
    pub d: u8,
}

/// The source address of a request: IPv4, or IPv6 by its 128 bits.
#[derive(Clone, Copy, Debug, PartialEq, Eq, Structural)]
pub enum PeerAddr {
    V4(Ipv4),
    V6(u128),
}

impl Ipv4 {
    pub fn new(a: u8, b: u8, c: u8, d: u8) -> (r: Ipv4)
        ensures
            r == (Ipv4 { a, b, c, d }),
    {
        Ipv4 { a, b, c, d }
    }

    pub open spec fn spec_loopback() -> Ipv4 {
        Ipv4 { a: 127, b: 0, c: 0, d: 1 }
    }

    pub open spec fn spec_unspecified() -> Ipv4 {
        Ipv4 { a: 0, b: 0, c: 0, d: 0 }
    }

    pub open spec fn spec_broadcast() -> Ipv4 {
        Ipv4 { a: 255, b: 255, c: 255, d: 255 }
    }

    /// `127.0.0.1`
    pub fn loopback() -> (r: Ipv4)
        ensures
            r == Ipv4::spec_loopback(),
    {
        Ipv4 { a: 127, b: 0, c: 0, d: 1 }
    }

    /// `0.0.0.0`, which also stands for an address that could not be read.
    pub fn unspecified() -> (r: Ipv4)
        ensures
            r == Ipv4::spec_unspecified(),
    {
        Ipv4 { a: 0, b: 0, c: 0, d: 0 }
    }

    /// `255.255.255.255`
    pub fn broadcast() -> (r: Ipv4)
        ensures
            r == Ipv4::spec_broadcast(),
    {
        Ipv4 { a: 255, b: 255, c: 255, d: 255 }
    }

    /// The address in dotted-quad notation, `a.b.c.d`.
    pub open spec fn dotted(self) -> Seq<char> {
        decimal(self.a as nat) + seq!['.'] + decimal(self.b as nat) + seq!['.']
            + decimal(self.c as nat) + seq!['.'] + decimal(self.d as nat)
    }

    pub fn to_dotted(&self) -> (r: String)
        ensures
            r@ == self.dotted(),
    {
        let mut r = decimal_string(self.a);
        r.append(".");
        r.append(decimal_string(self.b).as_str());
        r.append(".");
        r.append(decimal_string(self.c).as_str());
        r.append(".");
        r.append(decimal_string(self.d).as_str());
        proof {
            reveal_strlit(".");
        }
        r
    }
}

/// The IPv6 loopback address `::1`.
pub const IPV6_LOOPBACK: u128 = 1;

impl PeerAddr {
    /// The request comes from this machine itself: `127.0.0.1` or `::1`.
    pub open spec fn spec_is_loopback(self) -> bool {
        match self {
            PeerAddr::V4(ip) => ip == Ipv4::spec_loopback(),
            PeerAddr::V6(bits) => bits == IPV6_LOOPBACK,
        }
    }

    pub fn is_loopback(&self) -> (r: bool)
        ensures
            r == self.spec_is_loopback(),
    {
        match self {
            PeerAddr::V4(ip) => *ip == Ipv4::loopback(),
            PeerAddr::V6(bits) => *bits == IPV6_LOOPBACK,
        }
    }
}

/// The decimal digit `d` as a character.
pub open spec fn digit_char(d: nat) -> char {
    if d == 0 { '0' }
    else if d == 1 { '1' }
    else if d == 2 { '2' }
    else if d == 3 { '3' }
    else if d == 4 { '4' }
    else if d == 5 { '5' }
    else if d == 6 { '6' }
    else if d == 7 { '7' }
    else if d == 8 { '8' }
    else { '9' }
}

/// The decimal notation of `n`, without leading zeros.
pub open spec fn decimal(n: nat) -> Seq<char>
    decreases n,
{
    if n < 10 {
        seq![digit_char(n)]
    } else {
        decimal(n / 10) + seq![digit_char(n % 10)]
    }
}

fn digit_string(d: u8) -> (r: String)
    requires
        d < 10,
    ensures
        r@ == seq![digit_char(d as nat)],
{
    let s: &str = if d == 0 {
        proof { reveal_strlit("0"); }
        "0"
    } else if d == 1 {
        proof { reveal_strlit("1"); }
        "1"
    } else if d == 2 {
        proof { reveal_strlit("2"); }
        "2"
    } else if d == 3 {
        proof { reveal_strlit("3"); }
        "3"
    } else if d == 4 {
        proof { reveal_strlit("4"); }
        "4"
    } else if d == 5 {
        proof { reveal_strlit("5"); }
        "5"
    } else if d == 6 {
        proof { reveal_strlit("6"); }
        "6"
    } else if d == 7 {
        proof { reveal_strlit("7"); }
        "7"
    } else if d == 8 {
        proof { reveal_strlit("8"); }
        "8"
    } else {
        proof { reveal_strlit("9"); }
        "9"
    };
    assert(s@ =~= seq![digit_char(d as nat)]);
    String::from_str(s)
}

/// The decimal notation of an octet.
pub fn decimal_string(n: u8) -> (r: String)
    ensures
        r@ == decimal(n as nat),
{
    if n < 10 {
        digit_string(n)
    } else if n < 100 {
        let mut r = digit_string(n / 10);
        r.append(digit_string(n % 10).as_str());
        proof {
            assert(decimal((n / 10) as nat) == seq![digit_char((n / 10) as nat)]);
        }
        r
    } else {
        let mut r = digit_string(n / 100);
        r.append(digit_string((n / 10) % 10).as_str());
        r.append(digit_string(n % 10).as_str());
        proof {
            let q = (n / 10) as nat;
            assert(decimal(q / 10) == seq![digit_char(q / 10)]);
            assert(q / 10 == (n / 100) as nat);
            assert(q % 10 == ((n / 10) % 10) as nat);
            assert(decimal(q) == decimal(q / 10) + seq![digit_char(q % 10)]);
            assert(r@ =~= decimal(n as nat));
        }
        r
    }
}

} // verus!
