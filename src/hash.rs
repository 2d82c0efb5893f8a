//! The reflected, byte-swapped 32-bit checksum used as a stable identifier for strings.

use vstd::prelude::*;
use vstd::string::StringSliceAdditionalSpecFns;

verus! {

/// Generator polynomial of the checksum.
pub const POLYNOMIAL: u32 = 0x04C1_1DB7;

/// One shift of a table word: shift left by one, folding in the polynomial when the top bit
/// falls out.
pub open spec fn table_step(k: u32) -> u32 {
    if k & 0x8000_0000u32 != 0 {
        ((k << 1u32) as u32) ^ POLYNOMIAL
    } else {
        (k << 1u32) as u32
    }
}

/// `table_step` applied `n` times to `k`.
pub open spec fn table_steps(k: u32, n: nat) -> u32
    decreases n,
{
    if n == 0 {
        k
    } else {
        table_step(table_steps(k, (n - 1) as nat))
    }
}

/// Entry `i` of the checksum table: the byte `i` placed in the top byte, shifted eight times.
pub open spec fn table_entry(i: u32) -> u32 {
    table_steps((i << 24u32) as u32, 8)
}

/// The accumulator after feeding `bytes` in order, starting from all ones.
pub open spec fn checksum_state(bytes: Seq<u8>) -> u32
    decreases bytes.len(),
{
    if bytes.len() == 0 {
        0xFFFF_FFFFu32
    } else {
        let v = checksum_state(bytes.drop_last());
        let index = (((v >> 24u32) as u8) ^ bytes.last()) as u32;
        ((v << 8u32) as u32) ^ table_entry(index)
    }
}

/// The 32-bit word `x` with its four bytes in reverse order.
pub open spec fn swap_bytes(x: u32) -> u32 {
    (((x & 0xFFu32) << 24u32) as u32) | (((x & 0xFF00u32) << 8u32) as u32) | ((x >> 8u32)
        & 0xFF00u32) | (x >> 24u32)
}

/// The identifier of a byte sequence: the complemented accumulator, byte-swapped.
pub open spec fn hash_of(bytes: Seq<u8>) -> u32 {
    swap_bytes(!checksum_state(bytes))
}

/// Builds the 256-word lookup table of the checksum.
fn hash_table() -> (t: Vec<u32>)
    ensures
        t@.len() == 256,
        forall|i: int| 0 <= i < 256 ==> #[trigger] t@[i] == table_entry(i as u32),
{
    let mut result: Vec<u32> = Vec::with_capacity(256);
    let mut i: u32 = 0;
    while i < 256
        invariant
            i <= 256,
            result@.len() == i,
            forall|j: int| 0 <= j < i ==> #[trigger] result@[j] == table_entry(j as u32),
        decreases 256 - i,
    {
        let mut k: u32 = i << 24;
        let mut n: u32 = 0;
        while n < 8
            invariant
                n <= 8,
                k == table_steps((i << 24u32) as u32, n as nat),
            decreases 8 - n,
        {
            if (k & 0x8000_0000) != 0 {
                k = (k << 1) ^ POLYNOMIAL;
            } else {
                k = k << 1;
            }
            n = n + 1;
        }
        result.push(k);
        i = i + 1;
    }
    result
}

/// Checksum of a byte sequence.
pub fn hash_bytes(bytes: &[u8]) -> (r: u32)
    ensures
        r == hash_of(bytes@),
{
    let table = hash_table();
    let mut v: u32 = 0xFFFF_FFFF;
    let mut i: usize = 0;
    while i < bytes.len()
        invariant
            i <= bytes@.len(),
            table@.len() == 256,
            forall|j: int| 0 <= j < 256 ==> #[trigger] table@[j] == table_entry(j as u32),
            v == checksum_state(bytes@.take(i as int)),
        decreases bytes@.len() - i,
    {
        let index = (((v >> 24) as u8) ^ bytes[i]) as usize;
        v = (v << 8) ^ table[index];
        assert(bytes@.take(i + 1).drop_last() =~= bytes@.take(i as int));
        i = i + 1;
    }
    assert(bytes@.take(i as int) =~= bytes@);
    let c = !v;
    ((c & 0xFF) << 24) | ((c & 0xFF00) << 8) | ((c >> 8) & 0xFF00) | (c >> 24)
}

/// Checksum of the UTF-8 bytes of a string.
pub fn hash(string: &str) -> (r: u32)
    ensures
        r == hash_of(string.spec_bytes()),
{
    hash_bytes(string.as_bytes())
}

/// The identifier depends on the input bytes alone: equal inputs give equal identifiers.
pub proof fn lemma_hash_deterministic(a: Seq<u8>, b: Seq<u8>)
    requires
        a == b,
    ensures
        hash_of(a) == hash_of(b),
{
}

} // verus!
