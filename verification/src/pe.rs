//! Exported names of PE images.
//!
//! The DOS header leads to the PE header, whose optional header names the
//! export directory by its address in the loaded image. Such an address is
//! turned into a file offset through the section that holds it.

use vstd::prelude::*;
use crate::bytes::{
    check_name, fits_table, lemma_record_fits, probe_name, read_u16, read_u32, scan, table_fits,
    u16_at, u32_at, ParseError, Probe,
};

verus! {

broadcast use vstd::slice::group_slice_axioms;

/// Magic number of a 32-bit optional header.
pub const PE32: u16 = 0x10b;

/// Magic number of a 64-bit optional header.
pub const PE32_PLUS: u16 = 0x20b;

/// Size of the DOS header, whose last field locates the PE header.
pub const DOS_HEADER_LEN: usize = 64;

/// Size of the PE signature and the file header that follows it.
pub const PE_HEADER_LEN: usize = 24;

/// Size of a section header.
pub const SECTION_LEN: usize = 40;

/// Size of the export directory table.
pub const EXPORT_DIRECTORY_LEN: usize = 40;

/// Whether the buffer begins with the letters `MZ`.
pub open spec fn pe_magic(s: Seq<u8>) -> bool {
    s.len() >= 2 && s[0] == 0x4d && s[1] == 0x5a
}

/// File offset of the PE header, as the DOS header gives it.
pub open spec fn pe_header(s: Seq<u8>) -> int {
    u32_at(s, 60, false)
}

/// Whether the signature `PE\0\0` stands at `pe`.
pub open spec fn pe_signed(s: Seq<u8>, pe: int) -> bool {
    s[pe] == 0x50 && s[pe + 1] == 0x45 && s[pe + 2] == 0 && s[pe + 3] == 0
}

/// Number of sections.
pub open spec fn pe_section_count(s: Seq<u8>, pe: int) -> int {
    u16_at(s, pe + 6, false)
}

/// Size of the optional header.
pub open spec fn optional_len(s: Seq<u8>, pe: int) -> int {
    u16_at(s, pe + 20, false)
}

/// File offset of the optional header.
pub open spec fn optional_at(pe: int) -> int {
    pe + PE_HEADER_LEN
}

/// File offset of the section table, which follows the optional header.
pub open spec fn sections_at(s: Seq<u8>, pe: int) -> int {
    optional_at(pe) + optional_len(s, pe)
}

/// Where in an optional header with the given magic number the data
/// directories begin. Their count is the field just before them.
pub open spec fn directories_at(magic: int) -> Option<int> {
    if magic == PE32 {
        Some(96)
    } else if magic == PE32_PLUS {
        Some(112)
    } else {
        None
    }
}

/// Whether the section whose header is at `sec` holds the image address
/// `rva` in the part of it that is stored in the file.
pub open spec fn section_holds(s: Seq<u8>, sec: int, rva: int) -> bool {
    u32_at(s, sec + 12, false) <= rva < u32_at(s, sec + 12, false) + u32_at(s, sec + 16, false)
}

/// The file offset of the image address `rva` in the section at `sec`.
pub open spec fn offset_in_section(s: Seq<u8>, sec: int, rva: int) -> int {
    rva - u32_at(s, sec + 12, false) + u32_at(s, sec + 20, false)
}

/// The file offset of the image address `rva`: that in the first section,
/// from section `i` on, that holds it.
pub open spec fn rva_offset(s: Seq<u8>, table: int, count: int, rva: int, i: int) -> Option<int>
    decreases count - i,
{
    if i >= count {
        None
    } else if section_holds(s, table + i * SECTION_LEN, rva) {
        Some(offset_in_section(s, table + i * SECTION_LEN, rva))
    } else {
        rva_offset(s, table, count, rva, i + 1)
    }
}

/// What entry `i` of the name pointer table at `pointers` says about
/// `symbol`: the entry must be an address that some section holds, and the
/// name there must end inside the buffer.
pub open spec fn name_probe(
    s: Seq<u8>,
    table: int,
    count: int,
    pointers: int,
    symbol: Seq<u8>,
    i: int,
) -> Probe {
    match rva_offset(s, table, count, u32_at(s, pointers + i * 4, false), 0) {
        None => Probe::Broken,
        Some(at) => probe_name(s, at, s.len() as int, symbol),
    }
}

/// The answer of the export directory at the image address `rva`. The
/// directory and its name pointer table must lie inside the buffer; a
/// directory without names exports nothing by name.
pub open spec fn directory_exports(
    s: Seq<u8>,
    table: int,
    count: int,
    rva: int,
    symbol: Seq<u8>,
) -> Result<bool, ParseError> {
    match rva_offset(s, table, count, rva, 0) {
        None => Err(ParseError::Malformed),
        Some(dir) => if dir + EXPORT_DIRECTORY_LEN > s.len() {
            Err(ParseError::Malformed)
        } else if u32_at(s, dir + 24, false) == 0 {
            Ok(false)
        } else {
            match rva_offset(s, table, count, u32_at(s, dir + 32, false), 0) {
                None => Err(ParseError::Malformed),
                Some(pointers) => if !table_fits(
                    s.len() as int,
                    pointers,
                    u32_at(s, dir + 24, false),
                    4,
                ) {
                    Err(ParseError::Malformed)
                } else {
                    scan(
                        |i: int| name_probe(s, table, count, pointers, symbol, i),
                        0,
                        u32_at(s, dir + 24, false),
                    )
                },
            }
        },
    }
}

/// The answer of the optional header at `opt`, `len` bytes long. An image
/// with no optional header, with no data directories, or whose export
/// directory entry is empty, exports nothing.
pub open spec fn optional_exports(
    s: Seq<u8>,
    opt: int,
    len: int,
    table: int,
    count: int,
    symbol: Seq<u8>,
) -> Result<bool, ParseError> {
    if len == 0 {
        Ok(false)
    } else if len < 2 {
        Err(ParseError::Malformed)
    } else {
        match directories_at(u16_at(s, opt, false)) {
            None => Err(ParseError::Malformed),
            Some(d) => if len < d {
                Err(ParseError::Malformed)
            } else if u32_at(s, opt + d - 4, false) == 0 {
                Ok(false)
            } else if len < d + 8 {
                Err(ParseError::Malformed)
            } else if u32_at(s, opt + d, false) == 0 || u32_at(s, opt + d + 4, false) == 0 {
                Ok(false)
            } else {
                directory_exports(s, table, count, u32_at(s, opt + d, false), symbol)
            },
        }
    }
}

/// Whether the PE image in `s` exports `symbol` by name.
pub open spec fn pe_exports(s: Seq<u8>, symbol: Seq<u8>) -> Result<bool, ParseError> {
    if !pe_magic(s) {
        Err(ParseError::UnrecognizedFormat)
    } else if s.len() < DOS_HEADER_LEN {
        Err(ParseError::Malformed)
    } else {
        let pe = pe_header(s);
        if pe + PE_HEADER_LEN > s.len() || !pe_signed(s, pe) || !table_fits(
            s.len() as int,
            sections_at(s, pe),
            pe_section_count(s, pe),
            SECTION_LEN as int,
        ) {
            Err(ParseError::Malformed)
        } else {
            optional_exports(
                s,
                optional_at(pe),
                optional_len(s, pe),
                sections_at(s, pe),
                pe_section_count(s, pe),
                symbol,
            )
        }
    }
}

/// Turns an image address into a file offset.
fn find_offset(bytes: &[u8], table: usize, count: usize, rva: u32) -> (r: Option<u64>)
    requires
        table_fits(bytes@.len() as int, table as int, count as int, SECTION_LEN as int),
    ensures
        match rva_offset(bytes@, table as int, count as int, rva as int, 0) {
            Some(at) => r matches Some(got) && got == at,
            None => r is None,
        },
{
    proof {
        vstd::slice::axiom_spec_len(bytes);
    }
    let mut i: usize = 0;
    while i < count
        invariant
            bytes@.len() <= usize::MAX,
            table_fits(bytes@.len() as int, table as int, count as int, SECTION_LEN as int),
            0 <= i <= count,
            rva_offset(bytes@, table as int, count as int, rva as int, 0) == rva_offset(
                bytes@,
                table as int,
                count as int,
                rva as int,
                i as int,
            ),
        decreases count - i,
    {
        proof {
            lemma_record_fits(
                bytes@.len() as int,
                table as int,
                count as int,
                SECTION_LEN as int,
                i as int,
            );
        }
        let sec: usize = table + i * SECTION_LEN;
        let address: u32 = read_u32(bytes, sec + 12, false);
        let stored: u32 = read_u32(bytes, sec + 16, false);
        if address <= rva && (rva as u64) < address as u64 + stored as u64 {
            let start: u32 = read_u32(bytes, sec + 20, false);
            return Some((rva - address) as u64 + start as u64);
        }
        i += 1;
    }
    None
}

/// Asks the `names` entries of the name pointer table at `pointers`, in
/// order, for `symbol`.
fn scan_names(
    bytes: &[u8],
    table: usize,
    count: usize,
    pointers: usize,
    names: u32,
    symbol: &[u8],
) -> (r: Result<bool, ParseError>)
    requires
        table_fits(bytes@.len() as int, table as int, count as int, SECTION_LEN as int),
        table_fits(bytes@.len() as int, pointers as int, names as int, 4),
    ensures
        r == scan(
            |i: int| name_probe(bytes@, table as int, count as int, pointers as int, symbol@, i),
            0,
            names as int,
        ),
{
    let len: usize = bytes.len();
    let ghost probe = |i: int|
        name_probe(bytes@, table as int, count as int, pointers as int, symbol@, i);
    let mut i: u32 = 0;
    while i < names
        invariant
            len == bytes@.len(),
            table_fits(len as int, table as int, count as int, SECTION_LEN as int),
            table_fits(len as int, pointers as int, names as int, 4),
            probe == |i: int|
                name_probe(bytes@, table as int, count as int, pointers as int, symbol@, i),
            0 <= i <= names,
            scan(probe, 0, names as int) == scan(probe, i as int, names as int),
        decreases names - i,
    {
        proof {
            lemma_record_fits(len as int, pointers as int, names as int, 4, i as int);
        }
        let address: u32 = read_u32(bytes, pointers + i as usize * 4, false);
        match find_offset(bytes, table, count, address) {
            None => {
                return Err(ParseError::Malformed);
            },
            Some(at) => {
                if at >= len as u64 {
                    return Err(ParseError::Malformed);
                }
                match check_name(bytes, at as usize, len, symbol) {
                    Probe::Matches => {
                        return Ok(true);
                    },
                    Probe::Broken => {
                        return Err(ParseError::Malformed);
                    },
                    Probe::Differs => {},
                }
            },
        }
        i += 1;
    }
    Ok(false)
}

/// Answers for the export directory at the image address `rva`.
fn directory_exports_symbol(
    bytes: &[u8],
    table: usize,
    count: usize,
    rva: u32,
    symbol: &[u8],
) -> (r: Result<bool, ParseError>)
    requires
        table_fits(bytes@.len() as int, table as int, count as int, SECTION_LEN as int),
    ensures
        r == directory_exports(bytes@, table as int, count as int, rva as int, symbol@),
{
    let len: usize = bytes.len();
    let dir: usize = match find_offset(bytes, table, count, rva) {
        None => {
            return Err(ParseError::Malformed);
        },
        Some(at) => {
            if !fits_table(len, at, EXPORT_DIRECTORY_LEN as u64, 1) {
                return Err(ParseError::Malformed);
            }
            at as usize
        },
    };
    let names: u32 = read_u32(bytes, dir + 24, false);
    if names == 0 {
        return Ok(false);
    }
    match find_offset(bytes, table, count, read_u32(bytes, dir + 32, false)) {
        None => Err(ParseError::Malformed),
        Some(pointers) => {
            if !fits_table(len, pointers, names as u64, 4) {
                return Err(ParseError::Malformed);
            }
            proof {
                lemma_record_fits(len as int, pointers as int, names as int, 4, 0);
            }
            scan_names(bytes, table, count, pointers as usize, names, symbol)
        },
    }
}

/// Answers for the optional header at `opt`, `len` bytes long.
fn optional_exports_symbol(
    bytes: &[u8],
    opt: usize,
    len: usize,
    table: usize,
    count: usize,
    symbol: &[u8],
) -> (r: Result<bool, ParseError>)
    requires
        opt + len <= bytes@.len(),
        table_fits(bytes@.len() as int, table as int, count as int, SECTION_LEN as int),
    ensures
        r == optional_exports(
            bytes@,
            opt as int,
            len as int,
            table as int,
            count as int,
            symbol@,
        ),
{
    proof {
        vstd::slice::axiom_spec_len(bytes);
    }
    if len == 0 {
        return Ok(false);
    }
    if len < 2 {
        return Err(ParseError::Malformed);
    }
    let magic: u16 = read_u16(bytes, opt, false);
    let d: usize = if magic == PE32 {
        96
    } else if magic == PE32_PLUS {
        112
    } else {
        return Err(ParseError::Malformed);
    };
    if len < d {
        return Err(ParseError::Malformed);
    }
    if read_u32(bytes, opt + d - 4, false) == 0 {
        return Ok(false);
    }
    if len < d + 8 {
        return Err(ParseError::Malformed);
    }
    let rva: u32 = read_u32(bytes, opt + d, false);
    let size: u32 = read_u32(bytes, opt + d + 4, false);
    if rva == 0 || size == 0 {
        return Ok(false);
    }
    directory_exports_symbol(bytes, table, count, rva, symbol)
}

/// Tells whether the PE image in `bytes` exports `symbol` by name, reading
/// nothing outside the buffer.
pub fn pe_exports_symbol(bytes: &[u8], symbol: &[u8]) -> (r: Result<bool, ParseError>)
    ensures
        r == pe_exports(bytes@, symbol@),
{
    let len: usize = bytes.len();
    if !(len >= 2 && bytes[0] == 0x4d && bytes[1] == 0x5a) {
        return Err(ParseError::UnrecognizedFormat);
    }
    if len < DOS_HEADER_LEN {
        return Err(ParseError::Malformed);
    }
    let pe64: u64 = read_u32(bytes, 60, false) as u64;
    if !fits_table(len, pe64, PE_HEADER_LEN as u64, 1) {
        return Err(ParseError::Malformed);
    }
    let pe: usize = pe64 as usize;
    if !(bytes[pe] == 0x50 && bytes[pe + 1] == 0x45 && bytes[pe + 2] == 0 && bytes[pe + 3] == 0) {
        return Err(ParseError::Malformed);
    }
    let count: u16 = read_u16(bytes, pe + 6, false);
    let optional: u16 = read_u16(bytes, pe + 20, false);
    let table: u64 = pe64 + PE_HEADER_LEN as u64 + optional as u64;
    if !fits_table(len, table, count as u64, SECTION_LEN as u64) {
        return Err(ParseError::Malformed);
    }
    assert(0 <= count * SECTION_LEN) by (nonlinear_arith)
        requires
            0 <= count,
    ;
    optional_exports_symbol(
        bytes,
        pe + PE_HEADER_LEN,
        optional as usize,
        table as usize,
        count as usize,
        symbol,
    )
}

} // verus!
