//! Address arithmetic: a destination from a source and a key, and back.

use vstd::prelude::*;

verus! {

/// A source address and a key, as the octets of two IPv4 addresses.
#[derive(Debug, Clone, Copy)]
pub struct DestParameters {
    pub from: [u8; 4],
    pub key: [u8; 4],
}

/// A source and a destination address, as the octets of two IPv4 addresses.
#[derive(Debug, Clone, Copy)]
pub struct KeyParameters {
    pub from: [u8; 4],
    pub to: [u8; 4],
}

/// A source address and a key, as the octets of two IPv6 addresses.
#[derive(Debug, Clone, Copy)]
pub struct V6DestParameters {
    pub from: [u8; 16],
    pub key: [u8; 16],
}

/// A source and a destination address, as the octets of two IPv6 addresses.
#[derive(Debug, Clone, Copy)]
pub struct V6KeyParameters {
    pub from: [u8; 16],
    pub to: [u8; 16],
}

/// The sum of two octets, modulo 256.
pub open spec fn octet_sum(a: u8, b: u8) -> u8 {
    ((a + b) % 256) as u8
}

/// The difference of two octets, modulo 256.
pub open spec fn octet_difference(a: u8, b: u8) -> u8 {
    ((a - b) % 256) as u8
}

/// The destination: each octet of the source plus the same octet of the key,
/// with overflow wrapping round.
pub fn dest(params: DestParameters) -> (to: [u8; 4])
    ensures
        forall|i: int| 0 <= i < 4 ==> to[i] == octet_sum(params.from[i], params.key[i]),
{
    let mut to: [u8; 4] = [0; 4];
    let mut i: usize = 0;
    while i < 4
        invariant
            i <= 4,
            forall|j: int| 0 <= j < i ==> to[j] == octet_sum(params.from[j], params.key[j]),
        decreases 4 - i,
    {
        to[i] = params.from[i].wrapping_add(params.key[i]);
        i += 1;
    }
    to
}

/// The key: each octet of the destination minus the same octet of the source,
/// with underflow wrapping round.
pub fn key(params: KeyParameters) -> (key: [u8; 4])
    ensures
        forall|i: int| 0 <= i < 4 ==> key[i] == octet_difference(params.to[i], params.from[i]),
{
    let mut key: [u8; 4] = [0; 4];
    let mut i: usize = 0;
    while i < 4
        invariant
            i <= 4,
            forall|j: int| 0 <= j < i ==> key[j] == octet_difference(params.to[j], params.from[j]),
        decreases 4 - i,
    {
        key[i] = params.to[i].wrapping_sub(params.from[i]);
        i += 1;
    }
    key
}

/// The destination: each octet of the source combined with the same octet of
/// the key by exclusive or.
pub fn v6_dest(params: V6DestParameters) -> (to: [u8; 16])
    ensures
        forall|i: int| 0 <= i < 16 ==> to[i] == params.from[i] ^ params.key[i],
{
    let mut to: [u8; 16] = [0; 16];
    let mut i: usize = 0;
    while i < 16
        invariant
            i <= 16,
            forall|j: int| 0 <= j < i ==> to[j] == params.from[j] ^ params.key[j],
        decreases 16 - i,
    {
        to[i] = params.from[i] ^ params.key[i];
        i += 1;
    }
    to
}

/// The key: each octet of the destination combined with the same octet of
/// the source by exclusive or.
pub fn v6_key(params: V6KeyParameters) -> (key: [u8; 16])
    ensures
        forall|i: int| 0 <= i < 16 ==> key[i] == params.to[i] ^ params.from[i],
{
    let mut key: [u8; 16] = [0; 16];
    let mut i: usize = 0;
    while i < 16
        invariant
            i <= 16,
            forall|j: int| 0 <= j < i ==> key[j] == params.to[j] ^ params.from[j],
        decreases 16 - i,
    {
        key[i] = params.to[i] ^ params.from[i];
        i += 1;
    }
    key
}

} // verus!
