//! Exported symbols of Mach-O dynamic libraries.
//!
//! The load commands lead to the symbol table and to the dynamic symbol
//! table. The latter names the range of symbol table entries that the
//! library defines for others. A universal file is answered by its first
//! architecture.

use vstd::prelude::*;
use crate::bytes::{
    check_name, fits_table, lemma_record_fits, probe_name, read_u32, read_u64, scan, table_fits,
    u32_at, u64_at, Layout, ParseError, Probe,
};

verus! {

broadcast use vstd::slice::group_slice_axioms;

/// Load command that locates the symbol table.
pub const LC_SYMTAB: u32 = 0x2;

/// Load command that partitions the symbol table into local, defined and
/// undefined symbols.
pub const LC_DYSYMTAB: u32 = 0xb;

/// The layout that the magic number of a single-architecture file
/// announces: `feedface` for 32 bits and `feedfacf` for 64 bits, either as
/// written (big endian) or byte-swapped (little endian).
pub open spec fn thin_layout(s: Seq<u8>) -> Option<Layout> {
    if s.len() < 4 {
        None
    } else if s[0] == 0xfe && s[1] == 0xed && s[2] == 0xfa && s[3] == 0xce {
        Some(Layout { wide: false, big_endian: true })
    } else if s[0] == 0xce && s[1] == 0xfa && s[2] == 0xed && s[3] == 0xfe {
        Some(Layout { wide: false, big_endian: false })
    } else if s[0] == 0xfe && s[1] == 0xed && s[2] == 0xfa && s[3] == 0xcf {
        Some(Layout { wide: true, big_endian: true })
    } else if s[0] == 0xcf && s[1] == 0xfa && s[2] == 0xed && s[3] == 0xfe {
        Some(Layout { wide: true, big_endian: false })
    } else {
        None
    }
}

/// Whether the buffer begins with the magic number of a universal file, and
/// if so whether its architecture records are the 64-bit ones (`cafebabf`
/// rather than `cafebabe`).
pub open spec fn fat_wide(s: Seq<u8>) -> Option<bool> {
    if s.len() >= 4 && s[0] == 0xca && s[1] == 0xfe && s[2] == 0xba && (s[3] == 0xbe || s[3]
        == 0xbf) {
        Some(s[3] == 0xbf)
    } else {
        None
    }
}

/// Whether the buffer begins with any Mach-O magic number.
pub open spec fn macho_magic(s: Seq<u8>) -> bool {
    thin_layout(s) is Some || fat_wide(s) is Some
}

/// Size of the file header; the load commands follow it.
pub open spec fn macho_header_len(lay: Layout) -> int {
    if lay.wide {
        32
    } else {
        28
    }
}

/// Size of a symbol table entry.
pub open spec fn nlist_len(lay: Layout) -> int {
    if lay.wide {
        16
    } else {
        12
    }
}

/// Whether a load command of kind `cmd` may have `size` bytes: enough for
/// its kind and size fields, and for the fields read from the two commands
/// that matter here.
pub open spec fn command_len_ok(cmd: int, size: int) -> bool {
    &&& size >= 8
    &&& cmd == LC_SYMTAB ==> size >= 24
    &&& cmd == LC_DYSYMTAB ==> size >= 80
}

/// The table commands seen so far, each by its file offset: the symbol
/// table first, the dynamic symbol table second.
pub type Commands = (Option<int>, Option<int>);

/// The commands seen once the command of kind `cmd` at `pos` is added. Only
/// the first command of each kind counts.
pub open spec fn note_command(found: Commands, cmd: int, pos: int) -> Commands {
    if cmd == LC_SYMTAB && found.0 is None {
        (Some(pos), found.1)
    } else if cmd == LC_DYSYMTAB && found.1 is None {
        (found.0, Some(pos))
    } else {
        found
    }
}

/// Walks `left` load commands from `pos` on, each beginning where the one
/// before it ends. `None` where a command has an impossible size or does
/// not lie inside the buffer.
pub open spec fn walk_commands(
    s: Seq<u8>,
    big: bool,
    pos: int,
    left: int,
    found: Commands,
) -> Option<Commands>
    decreases left,
{
    if left <= 0 {
        Some(found)
    } else if pos + 8 > s.len() {
        None
    } else {
        let cmd = u32_at(s, pos, big);
        let size = u32_at(s, pos + 4, big);
        if !command_len_ok(cmd, size) || pos + size > s.len() {
            None
        } else {
            walk_commands(s, big, pos + size, left - 1, note_command(found, cmd, pos))
        }
    }
}

/// What entry `k` of the symbol table at `symbols` says about `symbol`: its
/// name must end inside the string table.
pub open spec fn nlist_probe(
    s: Seq<u8>,
    lay: Layout,
    symbols: int,
    strings: int,
    strings_len: int,
    symbol: Seq<u8>,
    k: int,
) -> Probe {
    probe_name(
        s,
        strings + u32_at(s, symbols + k * nlist_len(lay), lay.big_endian),
        strings + strings_len,
        symbol,
    )
}

/// The answer of the symbol table command at `st` and the dynamic symbol
/// table command at `dt`. The symbol table and the string table must lie
/// inside the buffer, and the range of externally defined symbols inside
/// the symbol table; the entries of that range are asked in order.
pub open spec fn tables_export(
    s: Seq<u8>,
    lay: Layout,
    st: int,
    dt: int,
    symbol: Seq<u8>,
) -> Result<bool, ParseError> {
    let symbols = u32_at(s, st + 8, lay.big_endian);
    let count = u32_at(s, st + 12, lay.big_endian);
    let strings = u32_at(s, st + 16, lay.big_endian);
    let strings_len = u32_at(s, st + 20, lay.big_endian);
    let first = u32_at(s, dt + 16, lay.big_endian);
    let defined = u32_at(s, dt + 20, lay.big_endian);
    if !table_fits(s.len() as int, symbols, count, nlist_len(lay)) || strings + strings_len
        > s.len() || first + defined > count {
        Err(ParseError::Malformed)
    } else {
        scan(
            |k: int| nlist_probe(s, lay, symbols, strings, strings_len, symbol, k),
            first,
            first + defined,
        )
    }
}

/// Whether the single-architecture file in `s` exports `symbol`. A file
/// that lacks either table command exports nothing.
pub open spec fn thin_exports(s: Seq<u8>, symbol: Seq<u8>) -> Result<bool, ParseError> {
    match thin_layout(s) {
        None => Err(ParseError::UnrecognizedFormat),
        Some(lay) => if s.len() < macho_header_len(lay) {
            Err(ParseError::Malformed)
        } else {
            match walk_commands(
                s,
                lay.big_endian,
                macho_header_len(lay),
                u32_at(s, 16, lay.big_endian),
                (None, None),
            ) {
                None => Err(ParseError::Malformed),
                Some((Some(st), Some(dt))) => tables_export(s, lay, st, dt, symbol),
                Some(_) => Ok(false),
            }
        },
    }
}

/// Size of the file header of a universal file.
pub open spec fn fat_header_len() -> int {
    8
}

/// Size of an architecture record of a universal file.
pub open spec fn fat_arch_len(wide: bool) -> int {
    if wide {
        32
    } else {
        20
    }
}

/// File offset of the first architecture of a universal file.
pub open spec fn fat_first_offset(s: Seq<u8>, wide: bool) -> int {
    if wide {
        u64_at(s, 16, true)
    } else {
        u32_at(s, 16, true)
    }
}

/// Size of the first architecture of a universal file.
pub open spec fn fat_first_size(s: Seq<u8>, wide: bool) -> int {
    if wide {
        u64_at(s, 24, true)
    } else {
        u32_at(s, 20, true)
    }
}

/// Whether the universal file in `s` exports `symbol`: the answer of its
/// first architecture, which must exist, lie inside the buffer and be a
/// single-architecture file.
pub open spec fn fat_exports(s: Seq<u8>, symbol: Seq<u8>) -> Result<bool, ParseError> {
    match fat_wide(s) {
        None => Err(ParseError::UnrecognizedFormat),
        Some(wide) => if s.len() < fat_header_len() + fat_arch_len(wide) || u32_at(s, 4, true)
            == 0 || fat_first_offset(s, wide) + fat_first_size(s, wide) > s.len() {
            Err(ParseError::Malformed)
        } else {
            let inner = s.subrange(
                fat_first_offset(s, wide),
                fat_first_offset(s, wide) + fat_first_size(s, wide),
            );
            if thin_layout(inner) is None {
                Err(ParseError::Malformed)
            } else {
                thin_exports(inner, symbol)
            }
        },
    }
}

/// Whether the Mach-O file in `s`, universal or not, exports `symbol`.
pub open spec fn macho_exports(s: Seq<u8>, symbol: Seq<u8>) -> Result<bool, ParseError> {
    if thin_layout(s) is Some {
        thin_exports(s, symbol)
    } else {
        fat_exports(s, symbol)
    }
}

/// Reads the magic number of a single-architecture file.
fn read_thin_layout(bytes: &[u8]) -> (r: Option<Layout>)
    ensures
        r == thin_layout(bytes@),
{
    if bytes.len() < 4 {
        return None;
    }
    let b0: u8 = bytes[0];
    let b1: u8 = bytes[1];
    let b2: u8 = bytes[2];
    let b3: u8 = bytes[3];
    if b0 == 0xfe && b1 == 0xed && b2 == 0xfa && b3 == 0xce {
        Some(Layout { wide: false, big_endian: true })
    } else if b0 == 0xce && b1 == 0xfa && b2 == 0xed && b3 == 0xfe {
        Some(Layout { wide: false, big_endian: false })
    } else if b0 == 0xfe && b1 == 0xed && b2 == 0xfa && b3 == 0xcf {
        Some(Layout { wide: true, big_endian: true })
    } else if b0 == 0xcf && b1 == 0xfa && b2 == 0xed && b3 == 0xfe {
        Some(Layout { wide: true, big_endian: false })
    } else {
        None
    }
}

/// Walks the `count` load commands that begin at `start`.
fn find_tables(bytes: &[u8], big: bool, start: usize, count: u32) -> (r: Option<
    (Option<usize>, Option<usize>),
>)
    requires
        start <= bytes@.len(),
    ensures
        match walk_commands(bytes@, big, start as int, count as int, (None, None)) {
            None => r is None,
            Some(found) => r matches Some(got) && tables_agree(got, found, bytes@.len() as int),
        },
{
    let len: usize = bytes.len();
    let mut pos: usize = start;
    let mut left: u32 = count;
    let mut got: (Option<usize>, Option<usize>) = (None, None);
    let ghost mut found: Commands = (None, None);
    while left > 0
        invariant
            len == bytes@.len(),
            pos <= len,
            tables_agree(got, found, len as int),
            walk_commands(bytes@, big, start as int, count as int, (None, None)) == walk_commands(
                bytes@,
                big,
                pos as int,
                left as int,
                found,
            ),
        decreases left,
    {
        if len - pos < 8 {
            return None;
        }
        let cmd: u32 = read_u32(bytes, pos, big);
        let size: u32 = read_u32(bytes, pos + 4, big);
        if size < 8 || (cmd == LC_SYMTAB && size < 24) || (cmd == LC_DYSYMTAB && size < 80)
            || size as u64 > (len - pos) as u64 {
            return None;
        }
        proof {
            found = note_command(found, cmd as int, pos as int);
        }
        if cmd == LC_SYMTAB && got.0.is_none() {
            got = (Some(pos), got.1);
        } else if cmd == LC_DYSYMTAB && got.1.is_none() {
            got = (got.0, Some(pos));
        }
        pos = pos + size as usize;
        left = left - 1;
    }
    Some(got)
}

/// Whether the offsets `got` are those of `found`, each command lying
/// inside a buffer of `len` bytes with the fields that are read from it.
pub open spec fn tables_agree(
    got: (Option<usize>, Option<usize>),
    found: Commands,
    len: int,
) -> bool {
    &&& match found.0 {
        Some(st) => got.0 == Some(st as usize) && 0 <= st && st + 24 <= len,
        None => got.0 is None,
    }
    &&& match found.1 {
        Some(dt) => got.1 == Some(dt as usize) && 0 <= dt && dt + 80 <= len,
        None => got.1 is None,
    }
}

/// Answers for the symbol table command at `st` and the dynamic symbol
/// table command at `dt`.
fn tables_export_symbol(bytes: &[u8], lay: Layout, st: usize, dt: usize, symbol: &[u8]) -> (r:
    Result<bool, ParseError>)
    requires
        st + 24 <= bytes@.len(),
        dt + 80 <= bytes@.len(),
    ensures
        r == tables_export(bytes@, lay, st as int, dt as int, symbol@),
{
    let len: usize = bytes.len();
    let big: bool = lay.big_endian;
    let entry: usize = if lay.wide {
        16
    } else {
        12
    };
    let symbols: u32 = read_u32(bytes, st + 8, big);
    let count: u32 = read_u32(bytes, st + 12, big);
    let strings: u32 = read_u32(bytes, st + 16, big);
    let strings_len: u32 = read_u32(bytes, st + 20, big);
    let first: u32 = read_u32(bytes, dt + 16, big);
    let defined: u32 = read_u32(bytes, dt + 20, big);
    if !fits_table(len, symbols as u64, count as u64, entry as u64) || !fits_table(
        len,
        strings as u64,
        strings_len as u64,
        1,
    ) || first as u64 + defined as u64 > count as u64 {
        return Err(ParseError::Malformed);
    }
    let ghost probe = |k: int|
        nlist_probe(
            bytes@,
            lay,
            symbols as int,
            strings as int,
            strings_len as int,
            symbol@,
            k,
        );
    let end: u32 = first + defined;
    let mut k: u32 = first;
    while k < end
        invariant
            len == bytes@.len(),
            entry == nlist_len(lay),
            big == lay.big_endian,
            table_fits(len as int, symbols as int, count as int, entry as int),
            strings + strings_len <= len,
            first <= k <= end <= count,
            probe == |k: int|
                nlist_probe(
                    bytes@,
                    lay,
                    symbols as int,
                    strings as int,
                    strings_len as int,
                    symbol@,
                    k,
                ),
            tables_export(bytes@, lay, st as int, dt as int, symbol@) == scan(
                probe,
                first as int,
                end as int,
            ),
            scan(probe, first as int, end as int) == scan(probe, k as int, end as int),
        decreases end - k,
    {
        proof {
            lemma_record_fits(len as int, symbols as int, count as int, entry as int, k as int);
        }
        let sym: usize = symbols as usize + k as usize * entry;
        let name: u32 = read_u32(bytes, sym, big);
        if name >= strings_len {
            return Err(ParseError::Malformed);
        }
        match check_name(
            bytes,
            strings as usize + name as usize,
            strings as usize + strings_len as usize,
            symbol,
        ) {
            Probe::Matches => {
                return Ok(true);
            },
            Probe::Broken => {
                return Err(ParseError::Malformed);
            },
            Probe::Differs => {},
        }
        k += 1;
    }
    Ok(false)
}

/// Tells whether the single-architecture Mach-O file in `bytes` exports
/// `symbol`, reading nothing outside the buffer.
pub fn thin_exports_symbol(bytes: &[u8], symbol: &[u8]) -> (r: Result<bool, ParseError>)
    ensures
        r == thin_exports(bytes@, symbol@),
{
    match read_thin_layout(bytes) {
        None => Err(ParseError::UnrecognizedFormat),
        Some(lay) => {
            let header: usize = if lay.wide {
                32
            } else {
                28
            };
            if bytes.len() < header {
                return Err(ParseError::Malformed);
            }
            let count: u32 = read_u32(bytes, 16, lay.big_endian);
            match find_tables(bytes, lay.big_endian, header, count) {
                None => Err(ParseError::Malformed),
                Some((Some(st), Some(dt))) => tables_export_symbol(bytes, lay, st, dt, symbol),
                Some(_) => Ok(false),
            }
        },
    }
}

/// Tells whether the Mach-O file in `bytes`, universal or not, exports
/// `symbol`, reading nothing outside the buffer.
pub fn macho_exports_symbol(bytes: &[u8], symbol: &[u8]) -> (r: Result<bool, ParseError>)
    ensures
        r == macho_exports(bytes@, symbol@),
{
    let len: usize = bytes.len();
    if read_thin_layout(bytes).is_some() {
        return thin_exports_symbol(bytes, symbol);
    }
    if !(len >= 4 && bytes[0] == 0xca && bytes[1] == 0xfe && bytes[2] == 0xba && (bytes[3] == 0xbe
        || bytes[3] == 0xbf)) {
        return Err(ParseError::UnrecognizedFormat);
    }
    let wide: bool = bytes[3] == 0xbf;
    let needed: usize = if wide {
        40
    } else {
        28
    };
    if len < needed || read_u32(bytes, 4, true) == 0 {
        return Err(ParseError::Malformed);
    }
    let offset: u64 = if wide {
        read_u64(bytes, 16, true)
    } else {
        read_u32(bytes, 16, true) as u64
    };
    let size: u64 = if wide {
        read_u64(bytes, 24, true)
    } else {
        read_u32(bytes, 20, true) as u64
    };
    if !fits_table(len, offset, size, 1) {
        return Err(ParseError::Malformed);
    }
    let inner = vstd::slice::slice_subrange(bytes, offset as usize, offset as usize + size as usize);
    if read_thin_layout(inner).is_none() {
        return Err(ParseError::Malformed);
    }
    thin_exports_symbol(inner, symbol)
}

} // verus!
