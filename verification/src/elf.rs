//! Dynamic symbols of ELF shared objects.
//!
//! The section header table leads to the dynamic symbol table and, through
//! its link, to the string table that holds the names. Both classes (32 and
//! 64 bit) and both byte orders are read.

use vstd::prelude::*;
use crate::bytes::{
    check_name, fits_table, lemma_record_fits, probe_name, read_u16, read_u32, read_word, scan,
    table_fits, u16_at, u32_at, word_at, Layout, ParseError, Probe,
};

verus! {

broadcast use vstd::slice::group_slice_axioms;

/// Section type of a string table.
pub const SHT_STRTAB: u32 = 3;

/// Section type of the dynamic symbol table.
pub const SHT_DYNSYM: u32 = 11;

/// Whether the buffer begins with the ELF magic number.
pub open spec fn elf_magic(s: Seq<u8>) -> bool {
    s.len() >= 4 && s[0] == 0x7f && s[1] == 0x45 && s[2] == 0x4c && s[3] == 0x46
}

/// The layout that the identification bytes announce: class 1 or 2 for 32
/// or 64 bits, data encoding 1 or 2 for little or big endian.
pub open spec fn elf_layout(s: Seq<u8>) -> Option<Layout> {
    if s.len() >= 6 && (s[4] == 1 || s[4] == 2) && (s[5] == 1 || s[5] == 2) {
        Some(Layout { wide: s[4] == 2, big_endian: s[5] == 2 })
    } else {
        None
    }
}

/// Size of the file header.
pub open spec fn header_len(lay: Layout) -> int {
    if lay.wide {
        64
    } else {
        52
    }
}

/// Size of a section header.
pub open spec fn section_len(lay: Layout) -> int {
    if lay.wide {
        64
    } else {
        40
    }
}

/// Size of a symbol table entry.
pub open spec fn symbol_len(lay: Layout) -> int {
    if lay.wide {
        24
    } else {
        16
    }
}

/// File offset of the section header table (`e_shoff`).
pub open spec fn section_table(s: Seq<u8>, lay: Layout) -> int {
    word_at(
        s,
        if lay.wide {
            40
        } else {
            32
        },
        lay,
    )
}

/// Distance between two section headers (`e_shentsize`).
pub open spec fn section_stride(s: Seq<u8>, lay: Layout) -> int {
    u16_at(
        s,
        if lay.wide {
            58
        } else {
            46
        },
        lay.big_endian,
    )
}

/// Number of section headers (`e_shnum`).
pub open spec fn section_count(s: Seq<u8>, lay: Layout) -> int {
    u16_at(
        s,
        if lay.wide {
            60
        } else {
            48
        },
        lay.big_endian,
    )
}

/// File offset of section header `i`.
pub open spec fn section_at(s: Seq<u8>, lay: Layout, i: int) -> int {
    section_table(s, lay) + i * section_stride(s, lay)
}

/// Type of the section whose header is at `sec` (`sh_type`).
pub open spec fn section_kind(s: Seq<u8>, lay: Layout, sec: int) -> int {
    u32_at(s, sec + 4, lay.big_endian)
}

/// File offset of the section's contents (`sh_offset`).
pub open spec fn section_offset(s: Seq<u8>, lay: Layout, sec: int) -> int {
    word_at(
        s,
        sec + if lay.wide {
            24int
        } else {
            16int
        },
        lay,
    )
}

/// Size of the section's contents (`sh_size`).
pub open spec fn section_size(s: Seq<u8>, lay: Layout, sec: int) -> int {
    word_at(
        s,
        sec + if lay.wide {
            32int
        } else {
            20int
        },
        lay,
    )
}

/// Index of the section that this one refers to (`sh_link`).
pub open spec fn section_link(s: Seq<u8>, lay: Layout, sec: int) -> int {
    u32_at(
        s,
        sec + if lay.wide {
            40int
        } else {
            24int
        },
        lay.big_endian,
    )
}

/// Size of one record of the section's contents (`sh_entsize`).
pub open spec fn section_entry_size(s: Seq<u8>, lay: Layout, sec: int) -> int {
    word_at(
        s,
        sec + if lay.wide {
            56int
        } else {
            36int
        },
        lay,
    )
}

/// Index of the first section at or after `i` that is a dynamic symbol table.
pub open spec fn first_dynsym(s: Seq<u8>, lay: Layout, i: int) -> Option<int>
    decreases section_count(s, lay) - i,
{
    if i >= section_count(s, lay) {
        None
    } else if section_kind(s, lay, section_at(s, lay, i)) == SHT_DYNSYM {
        Some(i)
    } else {
        first_dynsym(s, lay, i + 1)
    }
}

/// Whether the symbol table entry at `sym` is visible to other objects: its
/// binding is global or weak, its visibility default or protected, and it is
/// defined in some section rather than imported.
pub open spec fn symbol_exported(s: Seq<u8>, lay: Layout, sym: int) -> bool {
    let info = s[sym + if lay.wide {
        4int
    } else {
        12int
    }];
    let other = s[sym + if lay.wide {
        5int
    } else {
        13int
    }];
    let defined_in = u16_at(
        s,
        sym + if lay.wide {
            6int
        } else {
            14int
        },
        lay.big_endian,
    );
    let binding = info / 16;
    let visibility = other % 4;
    (binding == 1 || binding == 2) && (visibility == 0 || visibility == 3) && defined_in != 0
}

/// What entry `i` of the symbol table says about `symbol`. An entry that is
/// not exported differs whatever its name; the name of an exported entry
/// must end inside the string table.
pub open spec fn symbol_probe(
    s: Seq<u8>,
    lay: Layout,
    symbols: int,
    strings: int,
    strings_len: int,
    symbol: Seq<u8>,
    i: int,
) -> Probe {
    let sym = symbols + i * symbol_len(lay);
    if symbol_exported(s, lay, sym) {
        probe_name(s, strings + u32_at(s, sym, lay.big_endian), strings + strings_len, symbol)
    } else {
        Probe::Differs
    }
}

/// The answer of the dynamic symbol table whose section header is at `sec`.
/// Its link must name a string table, its entries must have the size of the
/// class, and both sections must lie inside the buffer.
pub open spec fn dynsym_exports(s: Seq<u8>, lay: Layout, sec: int, symbol: Seq<u8>) -> Result<
    bool,
    ParseError,
> {
    let link = section_link(s, lay, sec);
    let names = section_at(s, lay, link);
    if link >= section_count(s, lay) || section_kind(s, lay, names) != SHT_STRTAB
        || section_entry_size(s, lay, sec) != symbol_len(lay) || section_offset(s, lay, sec)
        + section_size(s, lay, sec) > s.len() || section_offset(s, lay, names) + section_size(
        s,
        lay,
        names,
    ) > s.len() {
        Err(ParseError::Malformed)
    } else {
        scan(
            |i: int|
                symbol_probe(
                    s,
                    lay,
                    section_offset(s, lay, sec),
                    section_offset(s, lay, names),
                    section_size(s, lay, names),
                    symbol,
                    i,
                ),
            0,
            section_size(s, lay, sec) / symbol_len(lay),
        )
    }
}

/// Whether the ELF object in `s` exports `symbol` as a dynamic symbol.
///
/// An object without section headers or without a dynamic symbol table
/// exports nothing. The first dynamic symbol table is the one that counts.
pub open spec fn elf_exports(s: Seq<u8>, symbol: Seq<u8>) -> Result<bool, ParseError> {
    if !elf_magic(s) {
        Err(ParseError::UnrecognizedFormat)
    } else {
        match elf_layout(s) {
            None => Err(ParseError::Malformed),
            Some(lay) => if s.len() < header_len(lay) {
                Err(ParseError::Malformed)
            } else if section_table(s, lay) == 0 || section_count(s, lay) == 0 {
                Ok(false)
            } else if section_stride(s, lay) < section_len(lay) || !table_fits(
                s.len() as int,
                section_table(s, lay),
                section_count(s, lay),
                section_stride(s, lay),
            ) {
                Err(ParseError::Malformed)
            } else {
                match first_dynsym(s, lay, 0) {
                    None => Ok(false),
                    Some(d) => dynsym_exports(s, lay, section_at(s, lay, d), symbol),
                }
            },
        }
    }
}

/// Whether the section header table of `s` can be walked: the header is
/// complete and every section header lies inside the buffer.
pub open spec fn sections_readable(s: Seq<u8>, lay: Layout) -> bool {
    &&& s.len() >= header_len(lay)
    &&& section_stride(s, lay) >= section_len(lay)
    &&& table_fits(
        s.len() as int,
        section_table(s, lay),
        section_count(s, lay),
        section_stride(s, lay),
    )
}

/// Finds the header of the first dynamic symbol table.
fn find_dynsym(bytes: &[u8], lay: Layout, table: usize, stride: usize, count: usize) -> (r: Option<
    usize,
>)
    requires
        sections_readable(bytes@, lay),
        table == section_table(bytes@, lay),
        stride == section_stride(bytes@, lay),
        count == section_count(bytes@, lay),
    ensures
        match first_dynsym(bytes@, lay, 0) {
            Some(d) => r matches Some(sec) && sec == section_at(bytes@, lay, d) && sec + stride
                <= bytes@.len(),
            None => r is None,
        },
{
    proof {
        vstd::slice::axiom_spec_len(bytes);
    }
    let mut i: usize = 0;
    while i < count
        invariant
            bytes@.len() <= usize::MAX,
            sections_readable(bytes@, lay),
            table == section_table(bytes@, lay),
            stride == section_stride(bytes@, lay),
            count == section_count(bytes@, lay),
            0 <= i <= count,
            first_dynsym(bytes@, lay, 0) == first_dynsym(bytes@, lay, i as int),
        decreases count - i,
    {
        proof {
            lemma_record_fits(
                bytes@.len() as int,
                table as int,
                count as int,
                stride as int,
                i as int,
            );
        }
        let sec: usize = table + i * stride;
        if read_u32(bytes, sec + 4, lay.big_endian) == SHT_DYNSYM {
            return Some(sec);
        }
        i += 1;
    }
    None
}

/// Tests whether the symbol table entry at `sym` is exported.
fn is_exported(bytes: &[u8], lay: Layout, sym: usize) -> (r: bool)
    requires
        sym + symbol_len(lay) <= bytes@.len(),
    ensures
        r == symbol_exported(bytes@, lay, sym as int),
{
    proof {
        vstd::slice::axiom_spec_len(bytes);
    }
    let at: usize = if lay.wide {
        sym + 4
    } else {
        sym + 12
    };
    let binding: u8 = bytes[at] / 16;
    let visibility: u8 = bytes[at + 1] % 4;
    let defined_in: u16 = read_u16(bytes, at + 2, lay.big_endian);
    (binding == 1 || binding == 2) && (visibility == 0 || visibility == 3) && defined_in != 0
}

/// Asks the `count` symbols that begin at `symbols`, in order, for `symbol`.
/// Their names lie in the `strings_len` bytes at `strings`.
fn scan_symbols(
    bytes: &[u8],
    lay: Layout,
    symbols: usize,
    count: usize,
    strings: usize,
    strings_len: usize,
    symbol: &[u8],
) -> (r: Result<bool, ParseError>)
    requires
        table_fits(bytes@.len() as int, symbols as int, count as int, symbol_len(lay)),
        strings + strings_len <= bytes@.len(),
    ensures
        r == scan(
            |i: int|
                symbol_probe(
                    bytes@,
                    lay,
                    symbols as int,
                    strings as int,
                    strings_len as int,
                    symbol@,
                    i,
                ),
            0,
            count as int,
        ),
{
    proof {
        vstd::slice::axiom_spec_len(bytes);
    }
    let ghost probe = |i: int|
        symbol_probe(bytes@, lay, symbols as int, strings as int, strings_len as int, symbol@, i);
    let entry: usize = if lay.wide {
        24
    } else {
        16
    };
    let mut i: usize = 0;
    while i < count
        invariant
            bytes@.len() <= usize::MAX,
            table_fits(bytes@.len() as int, symbols as int, count as int, symbol_len(lay)),
            strings + strings_len <= bytes@.len(),
            entry == symbol_len(lay),
            probe == |i: int|
                symbol_probe(
                    bytes@,
                    lay,
                    symbols as int,
                    strings as int,
                    strings_len as int,
                    symbol@,
                    i,
                ),
            0 <= i <= count,
            scan(probe, 0, count as int) == scan(probe, i as int, count as int),
        decreases count - i,
    {
        proof {
            lemma_record_fits(
                bytes@.len() as int,
                symbols as int,
                count as int,
                entry as int,
                i as int,
            );
        }
        let sym: usize = symbols + i * entry;
        if is_exported(bytes, lay, sym) {
            let name: u32 = read_u32(bytes, sym, lay.big_endian);
            if name as u64 >= strings_len as u64 {
                return Err(ParseError::Malformed);
            }
            match check_name(bytes, strings + name as usize, strings + strings_len, symbol) {
                Probe::Matches => {
                    return Ok(true);
                },
                Probe::Broken => {
                    return Err(ParseError::Malformed);
                },
                Probe::Differs => {},
            }
        }
        i += 1;
    }
    Ok(false)
}

/// Answers for the dynamic symbol table whose section header is at `sec`.
fn dynsym_exports_symbol(
    bytes: &[u8],
    lay: Layout,
    table: usize,
    stride: usize,
    count: usize,
    sec: usize,
    symbol: &[u8],
) -> (r: Result<bool, ParseError>)
    requires
        sections_readable(bytes@, lay),
        table == section_table(bytes@, lay),
        stride == section_stride(bytes@, lay),
        count == section_count(bytes@, lay),
        sec + stride <= bytes@.len(),
    ensures
        r == dynsym_exports(bytes@, lay, sec as int, symbol@),
{
    let len: usize = bytes.len();
    let entry: u64 = if lay.wide {
        24
    } else {
        16
    };
    let link: u32 = read_u32(
        bytes,
        if lay.wide {
            sec + 40
        } else {
            sec + 24
        },
        lay.big_endian,
    );
    if link as u64 >= count as u64 {
        return Err(ParseError::Malformed);
    }
    proof {
        lemma_record_fits(len as int, table as int, count as int, stride as int, link as int);
    }
    let names: usize = table + link as usize * stride;
    if read_u32(bytes, names + 4, lay.big_endian) != SHT_STRTAB {
        return Err(ParseError::Malformed);
    }
    let entry_size: u64 = read_word(
        bytes,
        if lay.wide {
            sec + 56
        } else {
            sec + 36
        },
        lay,
    );
    if entry_size != entry {
        return Err(ParseError::Malformed);
    }
    let symbols: u64 = read_word(
        bytes,
        if lay.wide {
            sec + 24
        } else {
            sec + 16
        },
        lay,
    );
    let symbols_len: u64 = read_word(
        bytes,
        if lay.wide {
            sec + 32
        } else {
            sec + 20
        },
        lay,
    );
    if !fits_table(len, symbols, symbols_len, 1) {
        return Err(ParseError::Malformed);
    }
    let strings: u64 = read_word(
        bytes,
        if lay.wide {
            names + 24
        } else {
            names + 16
        },
        lay,
    );
    let strings_len: u64 = read_word(
        bytes,
        if lay.wide {
            names + 32
        } else {
            names + 20
        },
        lay,
    );
    if !fits_table(len, strings, strings_len, 1) {
        return Err(ParseError::Malformed);
    }
    scan_symbols(
        bytes,
        lay,
        symbols as usize,
        (symbols_len / entry) as usize,
        strings as usize,
        strings_len as usize,
        symbol,
    )
}

/// Tells whether the ELF object in `bytes` exports `symbol` as a dynamic
/// symbol, reading nothing outside the buffer.
pub fn elf_exports_symbol(bytes: &[u8], symbol: &[u8]) -> (r: Result<bool, ParseError>)
    ensures
        r == elf_exports(bytes@, symbol@),
{
    let len: usize = bytes.len();
    if !(len >= 4 && bytes[0] == 0x7f && bytes[1] == 0x45 && bytes[2] == 0x4c && bytes[3]
        == 0x46) {
        return Err(ParseError::UnrecognizedFormat);
    }
    if len < 6 {
        return Err(ParseError::Malformed);
    }
    let class: u8 = bytes[4];
    let data: u8 = bytes[5];
    if !((class == 1 || class == 2) && (data == 1 || data == 2)) {
        return Err(ParseError::Malformed);
    }
    let lay = Layout { wide: class == 2, big_endian: data == 2 };
    if len < (if lay.wide {
        64
    } else {
        52
    }) {
        return Err(ParseError::Malformed);
    }
    let table: u64 = read_word(
        bytes,
        if lay.wide {
            40
        } else {
            32
        },
        lay,
    );
    let stride: u16 = read_u16(
        bytes,
        if lay.wide {
            58
        } else {
            46
        },
        lay.big_endian,
    );
    let count: u16 = read_u16(
        bytes,
        if lay.wide {
            60
        } else {
            48
        },
        lay.big_endian,
    );
    if table == 0 || count == 0 {
        return Ok(false);
    }
    let least: u16 = if lay.wide {
        64
    } else {
        40
    };
    if stride < least || !fits_table(len, table, count as u64, stride as u64) {
        return Err(ParseError::Malformed);
    }
    proof {
        lemma_record_fits(len as int, table as int, count as int, stride as int, 0);
    }
    match find_dynsym(bytes, lay, table as usize, stride as usize, count as usize) {
        None => Ok(false),
        Some(sec) => dynsym_exports_symbol(
            bytes,
            lay,
            table as usize,
            stride as usize,
            count as usize,
            sec,
            symbol,
        ),
    }
}

} // verus!
