//! A flat, fixed-size byte store with bounds-checked 64-bit accessors.
//!
//! A 64-bit value occupies eight consecutive bytes, least significant byte
//! first. An access that does not lie wholly inside the store is absorbed:
//! a read yields zero and a write changes nothing.

use vstd::prelude::*;

verus! {

/// Bytes that a 64-bit value occupies.
pub const WORD_BYTES: usize = 8;

/// The number that eight bytes spell, least significant byte first.
pub open spec fn le_value(bytes: Seq<u8>) -> nat
    recommends
        bytes.len() == WORD_BYTES,
{
    (bytes[0] + bytes[1] * 0x100 + bytes[2] * 0x1_0000 + bytes[3] * 0x100_0000 + bytes[4]
        * 0x1_0000_0000 + bytes[5] * 0x100_0000_0000 + bytes[6] * 0x1_0000_0000_0000 + bytes[7]
        * 0x100_0000_0000_0000) as nat
}

/// The eight bytes that spell `value`, least significant byte first.
pub open spec fn le_bytes(value: u64) -> Seq<u8> {
    seq![
        (value % 0x100) as u8,
        (value / 0x100 % 0x100) as u8,
        (value / 0x1_0000 % 0x100) as u8,
        (value / 0x100_0000 % 0x100) as u8,
        (value / 0x1_0000_0000 % 0x100) as u8,
        (value / 0x100_0000_0000 % 0x100) as u8,
        (value / 0x1_0000_0000_0000 % 0x100) as u8,
        (value / 0x100_0000_0000_0000) as u8,
    ]
}

/// Whether the eight bytes from `addr` on lie inside `bytes`.
pub open spec fn in_bounds(bytes: Seq<u8>, addr: u64) -> bool {
    addr + WORD_BYTES <= bytes.len()
}

/// What a 64-bit read at `addr` yields from the contents `bytes`.
pub open spec fn read_at(bytes: Seq<u8>, addr: u64) -> u64 {
    if in_bounds(bytes, addr) {
        le_value(bytes.subrange(addr as int, addr + WORD_BYTES)) as u64
    } else {
        0
    }
}

/// The contents after a 64-bit write of `value` at `addr` to the contents
/// `bytes`.
pub open spec fn write_at(bytes: Seq<u8>, addr: u64, value: u64) -> Seq<u8> {
    if in_bounds(bytes, addr) {
        bytes.subrange(0, addr as int) + le_bytes(value) + bytes.subrange(
            addr + WORD_BYTES,
            bytes.len() as int,
        )
    } else {
        bytes
    }
}

/// A 64-bit value is the sum of its eight base-256 digits, each weighted by
/// its power of 256.
proof fn lemma_digits_sum(value: u64)
    by (bit_vector)
    ensures
        value % 0x100 + (value / 0x100 % 0x100) * 0x100 + (value / 0x1_0000 % 0x100) * 0x1_0000 + (
        value / 0x100_0000 % 0x100) * 0x100_0000 + (value / 0x1_0000_0000 % 0x100) * 0x1_0000_0000
            + (value / 0x100_0000_0000 % 0x100) * 0x100_0000_0000 + (value / 0x1_0000_0000_0000
            % 0x100) * 0x1_0000_0000_0000 + (value / 0x100_0000_0000_0000) * 0x100_0000_0000_0000
            == value,
        value / 0x100_0000_0000_0000 < 0x100,
{
}

/// The eight bytes of a value spell that value.
pub proof fn lemma_le_round_trip(value: u64)
    ensures
        le_bytes(value).len() == WORD_BYTES,
        le_value(le_bytes(value)) == value,
{
    lemma_digits_sum(value);
}

/// A write changes the length of the contents in no case.
pub proof fn lemma_write_keeps_length(bytes: Seq<u8>, addr: u64, value: u64)
    ensures
        write_at(bytes, addr, value).len() == bytes.len(),
{
}

/// A value written inside the contents is the value read back from the
/// same address.
pub proof fn lemma_read_after_write(bytes: Seq<u8>, addr: u64, value: u64)
    requires
        in_bounds(bytes, addr),
    ensures
        read_at(write_at(bytes, addr, value), addr) == value,
{
    let after = write_at(bytes, addr, value);
    assert(after.subrange(addr as int, addr + WORD_BYTES) =~= le_bytes(value));
    lemma_le_round_trip(value);
}

/// An access that reaches past the end of the contents is absorbed: the read
/// yields zero and the write changes nothing.
pub proof fn lemma_out_of_bounds_is_absorbed(bytes: Seq<u8>, addr: u64, value: u64)
    requires
        !in_bounds(bytes, addr),
    ensures
        read_at(bytes, addr) == 0,
        write_at(bytes, addr, value) == bytes,
{
}

/// A byte-addressable memory of fixed length.
pub struct Memory {
    data: Vec<u8>,
}

impl View for Memory {
    type V = Seq<u8>;

    /// The contents, byte by byte.
    closed spec fn view(&self) -> Seq<u8> {
        self.data@
    }
}

impl Memory {
    /// Creates a memory of `size` bytes, all zero.
    pub fn new(size: usize) -> (memory: Memory)
        ensures
            memory@ == Seq::new(size as nat, |i: int| 0u8),
    {
        Memory { data: vec![0u8; size] }
    }

    /// Reads the 64-bit value at `addr`, or zero where the eight bytes from
    /// `addr` on do not lie inside the memory.
    pub fn read_u64(&self, addr: u64) -> (value: u64)
        ensures
            value == read_at(self@, addr),
    {
        let len: usize = self.data.len();
        if len < WORD_BYTES || addr > (len - WORD_BYTES) as u64 {
            return 0;
        }
        let base: usize = addr as usize;
        let ghost bytes = self@.subrange(addr as int, addr + WORD_BYTES);
        assert(forall|k: int| 0 <= k < WORD_BYTES ==> bytes[k] == self.data@[base + k]);
        let b0: u64 = self.data[base] as u64;
        let b1: u64 = self.data[base + 1] as u64;
        let b2: u64 = self.data[base + 2] as u64;
        let b3: u64 = self.data[base + 3] as u64;
        let b4: u64 = self.data[base + 4] as u64;
        let b5: u64 = self.data[base + 5] as u64;
        let b6: u64 = self.data[base + 6] as u64;
        let b7: u64 = self.data[base + 7] as u64;
        b0 + b1 * 0x100 + b2 * 0x1_0000 + b3 * 0x100_0000 + b4 * 0x1_0000_0000 + b5
            * 0x100_0000_0000 + b6 * 0x1_0000_0000_0000 + b7 * 0x100_0000_0000_0000
    }

    /// Writes the 64-bit value at `addr`: all eight bytes, or none where the
    /// eight bytes from `addr` on do not lie inside the memory.
    pub fn write_u64(&mut self, addr: u64, value: u64)
        ensures
            final(self)@ == write_at(old(self)@, addr, value),
    {
        let len: usize = self.data.len();
        if len < WORD_BYTES || addr > (len - WORD_BYTES) as u64 {
            return ;
        }
        let base: usize = addr as usize;
        self.data[base] = (value % 0x100) as u8;
        self.data[base + 1] = (value / 0x100 % 0x100) as u8;
        self.data[base + 2] = (value / 0x1_0000 % 0x100) as u8;
        self.data[base + 3] = (value / 0x100_0000 % 0x100) as u8;
        self.data[base + 4] = (value / 0x1_0000_0000 % 0x100) as u8;
        self.data[base + 5] = (value / 0x100_0000_0000 % 0x100) as u8;
        self.data[base + 6] = (value / 0x1_0000_0000_0000 % 0x100) as u8;
        self.data[base + 7] = (value / 0x100_0000_0000_0000) as u8;
        assert(self.data@ =~= write_at(old(self)@, addr, value));
    }
}

} // verus!
