//! IP addresses as plain numbers.
use vstd::prelude::*;

use crate::wire::{be_digits, be_value, lemma_be_digits_len};

verus! {

/// An IPv4 or IPv6 address; the number is the address in network order.
#[derive(Debug, Clone, Copy, PartialEq, Eq, Structural, Hash)]
pub enum IpAddress {
    V4(u32),
    V6(u128),
}

/// The address and port of a peer.
#[derive(Debug, Clone, Copy, PartialEq, Eq, Structural, Hash)]
pub struct Endpoint {
    pub ip: IpAddress,
    pub port: u16,
}

/// 127.0.0.1.
pub const LOCALHOST: u32 = 0x7f00_0001;

impl IpAddress {
    /// The bytes of the address in network order.
    pub open spec fn octets_spec(self) -> Seq<u8> {
        match self {
            IpAddress::V4(a) => be_digits(a as nat, 4),
            IpAddress::V6(a) => be_digits(a as nat, 16),
        }
    }

    /// The bytes of the address in network order.
    pub fn octets(&self) -> (r: Vec<u8>)
        ensures
            r@ == self.octets_spec(),
            r@.len() == (if self is V4 { 4int } else { 16int }),
    {
        match self {
            IpAddress::V4(a) => be_bytes(*a as u128, 4),
            IpAddress::V6(a) => be_bytes(*a, 16),
        }
    }

    /// The IPv4 address with the given four bytes.
    pub fn v4(a: u8, b: u8, c: u8, d: u8) -> (r: IpAddress)
        ensures
            r is V4,
            r->V4_0 == a * 0x100_0000 + b * 0x1_0000 + c * 0x100 + d,
    {
        IpAddress::V4(
            (a as u32) * 0x100_0000 + (b as u32) * 0x1_0000 + (c as u32) * 0x100 + d as u32,
        )
    }

    /// Whether this is an IPv4 address.
    pub fn is_v4(&self) -> (r: bool)
        ensures
            r == (self is V4),
    {
        match self {
            IpAddress::V4(_) => true,
            IpAddress::V6(_) => false,
        }
    }
}

/// The first of the four bytes of an IPv4 address.
pub open spec fn v4_octet0(a: u32) -> u32 {
    a / 0x100_0000
}

/// The second of the four bytes of an IPv4 address.
pub open spec fn v4_octet1(a: u32) -> u32 {
    (a / 0x1_0000) % 256
}

/// The `n` low bytes of a number in network order.
pub fn be_bytes(x: u128, n: usize) -> (r: Vec<u8>)
    ensures
        r@ == be_digits(x as nat, n as nat),
        r@.len() == n,
    decreases n,
{
    proof {
        lemma_be_digits_len(x as nat, n as nat);
    }
    if n == 0 {
        Vec::new()
    } else {
        let mut r: Vec<u8> = be_bytes(x / 256, n - 1);
        r.push((x % 256) as u8);
        r
    }
}

/// The number that a byte string of at most sixteen bytes stands for.
pub fn be_number(data: &[u8], from: usize, to: usize) -> (r: u128)
    requires
        from <= to <= data@.len(),
        to - from <= 16,
    ensures
        r == be_value(data@.subrange(from as int, to as int)),
        r < vstd::arithmetic::power2::pow2((8 * (to - from)) as nat),
{
    let mut r: u128 = 0;
    let mut i: usize = from;
    proof {
        vstd::arithmetic::power2::lemma2_to64();
    }
    while i < to
        invariant
            from <= i <= to <= data@.len(),
            to - from <= 16,
            r == be_value(data@.subrange(from as int, i as int)),
            r < vstd::arithmetic::power2::pow2((8 * (i - from)) as nat),
        decreases to - i,
    {
        let ghost s: Seq<u8> = data@.subrange(from as int, i + 1);
        assert(s.drop_last() =~= data@.subrange(from as int, i as int));
        assert(s.last() == data@[i as int]);
        let ghost m: nat = (8 * (i - from)) as nat;
        proof {
            vstd::arithmetic::power2::lemma2_to64();
            vstd::arithmetic::power2::lemma_pow2_adds(m, 8);
            if m < 120 {
                vstd::arithmetic::power2::lemma_pow2_strictly_increases(m, 120);
            }
            assert(r * 256 + 255 < vstd::arithmetic::power2::pow2(m + 8)) by (nonlinear_arith)
                requires
                    r < vstd::arithmetic::power2::pow2(m),
                    vstd::arithmetic::power2::pow2(m + 8) == vstd::arithmetic::power2::pow2(m)
                        * 256,
            ;
            lemma_pow2_120();
            assert(m + 8 == 8 * (i + 1 - from));
        }
        r = r * 256 + data[i] as u128;
        i = i + 1;
    }
    r
}

proof fn lemma_pow2_120()
    ensures
        vstd::arithmetic::power2::pow2(120) * 256 == 0x1_0000_0000_0000_0000_0000_0000_0000_0000int,
{
    vstd::arithmetic::power2::lemma2_to64();
    vstd::arithmetic::power2::lemma_pow2_adds(64, 32);
    vstd::arithmetic::power2::lemma_pow2_adds(96, 24);
    assert(vstd::arithmetic::power2::pow2(96) == 0x1_0000_0000_0000_0000nat * 0x1_0000_0000nat);
    assert(vstd::arithmetic::power2::pow2(120) == 0x1_0000_0000_0000_0000_0000_0000nat
        * 0x100_0000nat);
}

} // verus!
