//! Wire constants and sequence-number arithmetic. Inputs and snapshots are
//! idempotent so nothing needs reliable delivery; events ride along in snapshots
//! with sequence numbers and the client deduplicates them.
use vstd::prelude::*;
use crate::config::WeaponId;

verus! {

pub const PROTOCOL_VERSION: u16 = 1;

pub const MAX_DATAGRAM: usize = 60_000;

/// How many recent events every snapshot carries.
pub const EVENT_HISTORY: usize = 64;

/// Half of the sequence space: a number is newer than another when it lies less
/// than this far ahead of it, modulo 2^32.
pub const HALF_SEQUENCE: u32 = 2147483647;

/// How far `a` lies ahead of `b` in the circular space of 32-bit sequence numbers.
pub open spec fn seq_ahead(a: u32, b: u32) -> int {
    (a as int - b as int) % 0x1_0000_0000
}

/// `n` sequence steps after `base`.
pub open spec fn seq_add(base: u32, n: int) -> u32 {
    ((base as int + n) % 0x1_0000_0000) as u32
}

/// Whether sequence number `a` is `b` or comes after it (within half the space).
pub fn seq_newer(a: u32, b: u32) -> (r: bool)
    ensures
        r == (seq_ahead(a, b) < HALF_SEQUENCE),
{
    a.wrapping_sub(b) < u32::MAX / 2
}

/// Wire code of a weapon.
pub fn weapon_code(id: WeaponId) -> (r: u8)
    ensures
        r == id.spec_code(),
{
    id.code()
}

/// The weapon a wire code names; unknown codes fall back to the AK-47.
pub fn weapon_from_code(code: u8) -> (r: WeaponId)
    ensures
        r == WeaponId::spec_from_code(code),
{
    WeaponId::from_code(code)
}

} // verus!
