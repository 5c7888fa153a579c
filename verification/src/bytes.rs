//! Reading integers, tables and names out of a byte buffer.
//!
//! Every reader here is a total function on the buffer: a read is either
//! proved to lie inside the buffer or is not made at all.

use vstd::prelude::*;
use crate::text::same_bytes;

verus! {

broadcast use vstd::slice::group_slice_axioms;

/// Why a binary could not be classified.
#[derive(Debug, Clone, Copy, PartialEq, Eq, Structural)]
pub enum ParseError {
    /// The buffer does not begin with the magic number of a known container.
    UnrecognizedFormat,
    /// The container is truncated, or one of its offsets or sizes points
    /// outside the buffer or contradicts another.
    Malformed,
}

/// How a container lays out its integers.
#[derive(Debug, Clone, Copy, PartialEq, Eq, Structural)]
pub struct Layout {
    /// Addresses and sizes take 64 bits rather than 32.
    pub wide: bool,
    /// Integers are stored most significant byte first.
    pub big_endian: bool,
}

/// What one record of a symbol table says about the symbol asked for.
#[derive(Debug, Clone, Copy, PartialEq, Eq, Structural)]
pub enum Probe {
    /// The record is well-formed and does not export the symbol.
    Differs,
    /// The record exports the symbol.
    Matches,
    /// The record points outside the buffer.
    Broken,
}

/// The 16-bit integer stored at `off`.
pub open spec fn u16_at(s: Seq<u8>, off: int, big: bool) -> int {
    if big {
        s[off] * 0x100 + s[off + 1]
    } else {
        s[off] + s[off + 1] * 0x100
    }
}

/// The 32-bit integer stored at `off`.
pub open spec fn u32_at(s: Seq<u8>, off: int, big: bool) -> int {
    if big {
        s[off] * 0x100_0000 + s[off + 1] * 0x1_0000 + s[off + 2] * 0x100 + s[off + 3]
    } else {
        s[off] + s[off + 1] * 0x100 + s[off + 2] * 0x1_0000 + s[off + 3] * 0x100_0000
    }
}

/// The 64-bit integer stored at `off`.
pub open spec fn u64_at(s: Seq<u8>, off: int, big: bool) -> int {
    if big {
        u32_at(s, off, true) * 0x1_0000_0000 + u32_at(s, off + 4, true)
    } else {
        u32_at(s, off, false) + u32_at(s, off + 4, false) * 0x1_0000_0000
    }
}

/// The address-sized integer stored at `off`: 64 bits in a wide layout, 32
/// bits otherwise.
pub open spec fn word_at(s: Seq<u8>, off: int, lay: Layout) -> int {
    if lay.wide {
        u64_at(s, off, lay.big_endian)
    } else {
        u32_at(s, off, lay.big_endian)
    }
}

/// Whether `count` records of `size` bytes each, the first at `start`, end
/// at or before `len`.
pub open spec fn table_fits(len: int, start: int, count: int, size: int) -> bool {
    start + count * size <= len
}

/// The position of the first zero byte at or after `start` and before `end`.
pub open spec fn first_nul(s: Seq<u8>, start: int, end: int) -> Option<int>
    decreases end - start,
{
    if start >= end {
        None
    } else if s[start] == 0 {
        Some(start)
    } else {
        first_nul(s, start + 1, end)
    }
}

/// The zero-terminated name that begins at `start`, without its terminator;
/// `None` where no zero byte follows before `end`.
pub open spec fn name_at(s: Seq<u8>, start: int, end: int) -> Option<Seq<u8>> {
    match first_nul(s, start, end) {
        Some(z) => Some(s.subrange(start, z)),
        None => None,
    }
}

/// What the name at `start` says about `symbol`: a name that does not end
/// before `end` is broken.
pub open spec fn probe_name(s: Seq<u8>, start: int, end: int, symbol: Seq<u8>) -> Probe {
    match name_at(s, start, end) {
        Some(name) => if name == symbol {
            Probe::Matches
        } else {
            Probe::Differs
        },
        None => Probe::Broken,
    }
}

/// The answer that the records `i..n` give, asked in order: the first record
/// that matches or is broken decides, and records after it are not looked at.
pub open spec fn scan(probe: spec_fn(int) -> Probe, i: int, n: int) -> Result<bool, ParseError>
    decreases n - i,
{
    if i >= n {
        Ok(false)
    } else {
        match probe(i) {
            Probe::Matches => Ok(true),
            Probe::Broken => Err(ParseError::Malformed),
            Probe::Differs => scan(probe, i + 1, n),
        }
    }
}

/// The first zero byte is a zero byte in range, and no byte before it is zero.
pub proof fn lemma_first_nul(s: Seq<u8>, start: int, end: int)
    ensures
        match first_nul(s, start, end) {
            Some(z) => start <= z < end && s[z] == 0 && forall|j: int|
                start <= j < z ==> s[j] != 0,
            None => forall|j: int| start <= j < end ==> s[j] != 0,
        },
    decreases end - start,
{
    if start < end && s[start] != 0 {
        lemma_first_nul(s, start + 1, end);
    }
}

/// Record `i` of a table that fits lies inside the buffer.
pub proof fn lemma_record_fits(len: int, start: int, count: int, size: int, i: int)
    requires
        0 <= size,
        0 <= i < count,
        table_fits(len, start, count, size),
    ensures
        0 <= i * size,
        start + i * size + size <= len,
{
    assert(0 <= i * size && i * size + size <= count * size) by (nonlinear_arith)
        requires
            0 <= size,
            0 <= i < count,
    ;
}

/// Where every record from `i` up to `k` differs, record `k` decides the
/// scan, or hands it on to the records after it.
pub proof fn lemma_scan_decided_at(probe: spec_fn(int) -> Probe, i: int, n: int, k: int)
    requires
        i <= k < n,
        forall|j: int| i <= j < k ==> #[trigger] probe(j) == Probe::Differs,
    ensures
        scan(probe, i, n) == match probe(k) {
            Probe::Matches => Ok::<bool, ParseError>(true),
            Probe::Broken => Err(ParseError::Malformed),
            Probe::Differs => scan(probe, k + 1, n),
        },
    decreases k - i,
{
    if i < k {
        assert(probe(i) == Probe::Differs);
        lemma_scan_decided_at(probe, i + 1, n, k);
    }
}

/// A scan answers no exactly when every record differs.
pub proof fn lemma_scan_absent(probe: spec_fn(int) -> Probe, i: int, n: int)
    ensures
        scan(probe, i, n) == Ok::<bool, ParseError>(false) <==> forall|k: int|
            i <= k < n ==> #[trigger] probe(k) == Probe::Differs,
    decreases n - i,
{
    if i < n {
        lemma_scan_absent(probe, i + 1, n);
        if scan(probe, i, n) == Ok::<bool, ParseError>(false) {
            assert forall|k: int| i <= k < n implies #[trigger] probe(k) == Probe::Differs by {
                if k > i {
                    assert(probe(k) == Probe::Differs);
                }
            }
        } else if probe(i) == Probe::Differs {
            let k = choose|k: int| i + 1 <= k < n && #[trigger] probe(k) != Probe::Differs;
            assert(probe(k) != Probe::Differs);
        }
    }
}

/// A scan that does not answer no was decided by one record: the first that
/// does not differ. It answers yes where that record matches, and fails
/// with `Malformed` where it is broken.
pub proof fn lemma_scan_decider(probe: spec_fn(int) -> Probe, i: int, n: int) -> (k: int)
    requires
        scan(probe, i, n) != Ok::<bool, ParseError>(false),
    ensures
        i <= k < n,
        forall|j: int| i <= j < k ==> #[trigger] probe(j) == Probe::Differs,
        probe(k) != Probe::Differs,
        probe(k) == Probe::Matches <==> scan(probe, i, n) == Ok::<bool, ParseError>(true),
        probe(k) == Probe::Broken <==> scan(probe, i, n) == Err::<bool, ParseError>(
            ParseError::Malformed,
        ),
    decreases n - i,
{
    if probe(i) == Probe::Differs {
        let k = lemma_scan_decider(probe, i + 1, n);
        assert forall|j: int| i <= j < k implies #[trigger] probe(j) == Probe::Differs by {
            if j > i {
                assert(probe(j) == Probe::Differs);
            }
        }
        k
    } else {
        i
    }
}

/// A scan that answers at all answers yes exactly where some record
/// matches.
pub proof fn lemma_scan_answer(probe: spec_fn(int) -> Probe, i: int, n: int)
    requires
        scan(probe, i, n) is Ok,
    ensures
        scan(probe, i, n) == Ok::<bool, ParseError>(true) <==> exists|k: int|
            i <= k < n && #[trigger] probe(k) == Probe::Matches,
{
    if scan(probe, i, n) == Ok::<bool, ParseError>(false) {
        lemma_scan_absent(probe, i, n);
    } else {
        let k = lemma_scan_decider(probe, i, n);
        assert(probe(k) == Probe::Matches);
    }
}

/// Reads the 16-bit integer at `off`.
pub fn read_u16(bytes: &[u8], off: usize, big: bool) -> (r: u16)
    requires
        off + 2 <= bytes@.len(),
    ensures
        r == u16_at(bytes@, off as int, big),
{
    let b0: u16 = bytes[off] as u16;
    let b1: u16 = bytes[off + 1] as u16;
    if big {
        b0 * 0x100 + b1
    } else {
        b0 + b1 * 0x100
    }
}

/// Reads the 32-bit integer at `off`.
pub fn read_u32(bytes: &[u8], off: usize, big: bool) -> (r: u32)
    requires
        off + 4 <= bytes@.len(),
    ensures
        r == u32_at(bytes@, off as int, big),
{
    let b0: u32 = bytes[off] as u32;
    let b1: u32 = bytes[off + 1] as u32;
    let b2: u32 = bytes[off + 2] as u32;
    let b3: u32 = bytes[off + 3] as u32;
    if big {
        b0 * 0x100_0000 + b1 * 0x1_0000 + b2 * 0x100 + b3
    } else {
        b0 + b1 * 0x100 + b2 * 0x1_0000 + b3 * 0x100_0000
    }
}

/// Reads the 64-bit integer at `off`.
pub fn read_u64(bytes: &[u8], off: usize, big: bool) -> (r: u64)
    requires
        off + 8 <= bytes@.len(),
    ensures
        r == u64_at(bytes@, off as int, big),
{
    proof {
        vstd::slice::axiom_spec_len(bytes);
    }
    let first: u64 = read_u32(bytes, off, big) as u64;
    let second: u64 = read_u32(bytes, off + 4, big) as u64;
    if big {
        first * 0x1_0000_0000 + second
    } else {
        first + second * 0x1_0000_0000
    }
}

/// Reads the address-sized integer at `off`.
pub fn read_word(bytes: &[u8], off: usize, lay: Layout) -> (r: u64)
    requires
        off + 8 <= bytes@.len() || (!lay.wide && off + 4 <= bytes@.len()),
    ensures
        r == word_at(bytes@, off as int, lay),
{
    if lay.wide {
        read_u64(bytes, off, lay.big_endian)
    } else {
        read_u32(bytes, off, lay.big_endian) as u64
    }
}

/// Tests whether a table of `count` records of `size` bytes each, the first
/// at `start`, lies inside a buffer of `len` bytes.
pub fn fits_table(len: usize, start: u64, count: u64, size: u64) -> (r: bool)
    ensures
        r == table_fits(len as int, start as int, count as int, size as int),
{
    assert(count * size <= 0xffff_ffff_ffff_ffff * 0xffff_ffff_ffff_ffff) by (nonlinear_arith)
        requires
            0 <= count <= 0xffff_ffff_ffff_ffff,
            0 <= size <= 0xffff_ffff_ffff_ffff,
    ;
    let total: u128 = (count as u128) * (size as u128);
    start as u128 + total <= len as u128
}

/// Compares the zero-terminated name at `start` with `symbol`. The name must
/// end before `end`.
pub fn check_name(bytes: &[u8], start: usize, end: usize, symbol: &[u8]) -> (r: Probe)
    requires
        end <= bytes@.len(),
    ensures
        r == probe_name(bytes@, start as int, end as int, symbol@),
{
    let mut z: usize = start;
    while z < end && bytes[z] != 0
        invariant
            end <= bytes@.len(),
            start <= z,
            first_nul(bytes@, start as int, end as int) == first_nul(bytes@, z as int, end as int),
        decreases end - z,
    {
        z += 1;
    }
    if z >= end {
        Probe::Broken
    } else {
        let name = vstd::slice::slice_subrange(bytes, start, z);
        if same_bytes(name, symbol) {
            Probe::Matches
        } else {
            Probe::Differs
        }
    }
}

} // verus!
