//! A deterministic byte stream for targets that have no entropy source of
//! their own. It is a linear congruential generator seeded from the ledger's
//! clock: repeatable, and of no cryptographic strength.

use vstd::prelude::*;

verus! {

/// The seed used where the clock cannot be read.
pub const FALLBACK_SEED: u64 = 12345;

/// Multiplier of the generator.
pub const MULTIPLIER: u64 = 1103515245;

/// Increment of the generator.
pub const INCREMENT: u64 = 12345;

/// The generator's state after the step that produces byte `i`, from the
/// state before it. All arithmetic wraps at 64 bits.
pub open spec fn next_state(state: u64, i: nat) -> u64 {
    state.wrapping_mul(MULTIPLIER).wrapping_add(INCREMENT).wrapping_add(i as u64)
}

/// The generator's state after `n` steps from `seed`.
pub open spec fn state_after(seed: u64, n: nat) -> u64
    decreases n,
{
    if n == 0 {
        seed
    } else {
        next_state(state_after(seed, (n - 1) as nat), (n - 1) as nat)
    }
}

/// Byte `i` of the stream: bits 8 to 15 of the state after step `i`.
pub open spec fn stream_byte(seed: u64, i: nat) -> u8 {
    (state_after(seed, i + 1) >> 8) as u8
}

/// The seed for a clock that shows `slot` and `unix_timestamp`: their sum,
/// wrapping at 64 bits, the time taken in two's complement.
pub fn seed_from_clock(slot: u64, unix_timestamp: i64) -> (seed: u64)
    ensures
        seed == slot.wrapping_add(unix_timestamp as u64),
{
    slot.wrapping_add(unix_timestamp as u64)
}

/// The first `len` bytes of the stream that starts at `seed`.
pub fn custom_random(seed: u64, len: usize) -> (buf: Vec<u8>)
    ensures
        buf@.len() == len,
        forall|i: int| 0 <= i < len ==> #[trigger] buf@[i] == stream_byte(seed, i as nat),
{
    let mut buf: Vec<u8> = Vec::new();
    let mut state: u64 = seed;
    let mut i: usize = 0;
    while i < len
        invariant
            i <= len,
            buf@.len() == i,
            state == state_after(seed, i as nat),
            forall|j: int| 0 <= j < i ==> #[trigger] buf@[j] == stream_byte(seed, j as nat),
        decreases len - i,
    {
        state = state.wrapping_mul(MULTIPLIER).wrapping_add(INCREMENT).wrapping_add(i as u64);
        assert(state == state_after(seed, (i + 1) as nat));
        let byte: u8 = #[verifier::truncate]
        ((state >> 8) as u8);
        buf.push(byte);
        i += 1;
    }
    buf
}

} // verus!
