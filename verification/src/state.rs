//! The process-wide source of session tokens.
//!
//! Tokens are 128-bit values drawn from a fast deterministic stream that
//! is seeded once from operating-system entropy at startup. Session
//! tokens need unpredictability, not cryptographic signing, so nothing is
//! promised of the drawn values; only the assembly of the drawn bytes
//! into a token is stated and proved.

use vstd::prelude::*;
use rand_chacha::rand_core::{OsRng, RngCore, SeedableRng};

verus! {

#[verifier::external_type_specification]
#[verifier::external_body]
pub struct ExChaCha8Rng(rand_chacha::ChaCha8Rng);

/// The seeded random stream session tokens are drawn from. Draws are
/// guarded by the caller's exclusive borrow; the critical section is
/// short and never held across suspension points.
pub struct TokenSource {
    pub rng: rand_chacha::ChaCha8Rng,
}

/// Relies on rand_core's OsRng: one machine word of operating-system
/// entropy. The result depends on the machine's entropy pool; nothing is
/// promised of it.
#[verifier::external_body]
fn os_entropy_u64() -> u64 {
    OsRng.next_u64()
}

/// Relies on rand_chacha's ChaCha8Rng::seed_from_u64: a deterministic
/// stream seeded from the given word. Nothing is promised of the stream.
#[verifier::external_body]
fn seed_token_source(seed: u64) -> TokenSource {
    TokenSource { rng: rand_chacha::ChaCha8Rng::seed_from_u64(seed) }
}

/// Relies on rand_core's RngCore::fill_bytes: fills the buffer from the
/// stream. The buffer keeps its length; nothing is promised of its
/// contents.
#[verifier::external_body]
fn fill_bytes_16(source: &mut TokenSource, buf: &mut Vec<u8>)
    requires
        old(buf)@.len() == 16,
    ensures
        final(buf)@.len() == 16,
{
    source.rng.fill_bytes(buf.as_mut_slice());
}

impl TokenSource {
    /// A fresh stream, seeded once from operating-system entropy.
    pub fn new() -> TokenSource {
        seed_token_source(os_entropy_u64())
    }

    /// Draws a fresh 128-bit session token. The value is unpredictable;
    /// nothing is promised of it.
    pub fn generate_session_token(&mut self) -> u128 {
        let mut buf: Vec<u8> = Vec::new();
        let mut i: usize = 0;
        while i < 16
            invariant
                buf@.len() == i,
                0 <= i <= 16,
            decreases 16 - i,
        {
            buf.push(0);
            i = i + 1;
        }
        fill_bytes_16(self, &mut buf);
        u128_from_le_bytes(&buf)
    }
}

/// Value of a byte sequence read as a little-endian number.
pub open spec fn le_bytes_value(s: Seq<u8>) -> int
    decreases s.len(),
{
    if s.len() == 0 {
        0
    } else {
        s[0] + 256 * le_bytes_value(s.drop_first())
    }
}

spec fn pow256(n: int) -> int
    decreases n,
{
    if n <= 0 {
        1
    } else {
        256 * pow256(n - 1)
    }
}

/// Assembles sixteen bytes into a 128-bit value, least significant byte
/// first, as the token type's little-endian byte order reads them.
pub fn u128_from_le_bytes(bytes: &Vec<u8>) -> (r: u128)
    requires
        bytes@.len() == 16,
    ensures
        r as int == le_bytes_value(bytes@),
{
    proof {
        reveal_with_fuel(pow256, 17);
    }
    let mut acc: u128 = 0;
    let mut i: usize = 16;
    while i > 0
        invariant
            0 <= i <= 16,
            bytes@.len() == 16,
            acc as int == le_bytes_value(bytes@.subrange(i as int, 16)),
            (acc as int) < pow256(16 - i as int),
        decreases i,
    {
        proof {
            reveal_with_fuel(pow256, 17);
            assert(bytes@.subrange(i - 1, 16).drop_first() =~= bytes@.subrange(i as int, 16));
        }
        acc = acc * 256 + (bytes[i - 1] as u128);
        i = i - 1;
    }
    proof {
        assert(bytes@.subrange(0, 16) =~= bytes@);
    }
    acc
}

} // verus!
