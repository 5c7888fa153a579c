//! Copying text into the fixed-size character buffers of C interfaces.

use vstd::prelude::*;
use vstd::string::*;

verus! {

broadcast use vstd::slice::group_slice_axioms;

/// The C character with the bit pattern of the byte `b`.
pub open spec fn c_char_of(b: u8) -> i8 {
    if b < 128 {
        b as i8
    } else {
        (b - 256) as i8
    }
}

/// The number of bytes of a text of `src_len` bytes that fit into a buffer
/// of `dest_len` characters, which is not empty, before its terminator.
pub open spec fn copied_len(dest_len: int, src_len: int) -> int {
    if src_len < dest_len - 1 {
        src_len
    } else {
        dest_len - 1
    }
}

/// What a buffer that held `dest` holds once the text with the bytes `src`
/// is copied into it: as much of the text as fits before a terminator,
/// then the terminator, then what the buffer held before. An empty buffer
/// stays empty.
pub open spec fn copied(dest: Seq<i8>, src: Seq<u8>) -> Seq<i8> {
    if dest.len() == 0 {
        dest
    } else {
        Seq::new(
            dest.len(),
            |i: int|
                if i < copied_len(dest.len() as int, src.len() as int) {
                    c_char_of(src[i])
                } else if i == copied_len(dest.len() as int, src.len() as int) {
                    0i8
                } else {
                    dest[i]
                },
        )
    }
}

/// Turns a byte into the C character with the same bit pattern.
fn to_c_char(b: u8) -> (c: i8)
    ensures
        c == c_char_of(b),
{
    if b < 128 {
        b as i8
    } else {
        (b as i16 - 256) as i8
    }
}

/// The equivalent of the `strlcpy()` C function. Copy `src` to `dest` as a
/// null-terminated C-string. If `dest` does not have enough capacity, add
/// a null terminator at the end to prevent buffer overflows.
pub fn strlcpy(dest: &mut [i8], src: &str)
    ensures
        final(dest)@ == copied(old(dest)@, src.spec_bytes()),
{
    let ghost before = dest@;
    if dest.len() == 0 {
        return ;
    }
    let src_bytes = src.as_bytes();
    // Make sure there's always room for a null terminator
    let copy_len: usize = if src_bytes.len() < dest.len() - 1 {
        src_bytes.len()
    } else {
        dest.len() - 1
    };
    let mut i: usize = 0;
    while i < copy_len
        invariant
            dest@.len() == before.len(),
            copy_len < dest@.len(),
            copy_len <= src_bytes@.len(),
            0 <= i <= copy_len,
            forall|j: int| 0 <= j < i ==> dest@[j] == c_char_of(#[trigger] src_bytes@[j]),
            forall|j: int| i <= j < before.len() ==> dest@[j] == #[trigger] before[j],
        decreases copy_len - i,
    {
        dest[i] = to_c_char(src_bytes[i]);
        i += 1;
    }
    dest[copy_len] = 0;
    proof {
        assert(dest@ =~= copied(before, src.spec_bytes()));
    }
}

} // verus!
