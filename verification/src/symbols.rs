//! Which symbols a compiled library exports, whatever its container.
//!
//! The container is chosen by the magic number at the start of the buffer,
//! and its export table is walked without loading or running anything.

use vstd::prelude::*;
use vstd::string::*;
use vstd::utf8::encode_utf8;
use crate::bytes::{lemma_scan_decider, scan, table_fits, u32_at, ParseError, Probe};
use crate::elf::{
    elf_exports, elf_exports_symbol, elf_layout, elf_magic, header_len, section_count,
    section_stride, section_table,
};
use crate::macho::{
    fat_arch_len, fat_first_offset, fat_first_size, fat_header_len, fat_wide, macho_exports,
    macho_exports_symbol, macho_header_len, macho_magic, thin_exports, thin_layout,
};
use crate::pe::{
    pe_exports, pe_exports_symbol, pe_header, pe_magic, pe_section_count, sections_at,
    DOS_HEADER_LEN, SECTION_LEN,
};

verus! {

/// The container formats that can be read.
#[derive(Debug, Clone, Copy, PartialEq, Eq, Structural)]
pub enum Container {
    /// ELF, the format of Linux shared objects.
    Elf,
    /// Mach-O, the format of macOS dynamic libraries, universal or not.
    MachO,
    /// PE, the format of Windows dynamic-link libraries.
    Pe,
}

/// The container that the first bytes of `s` announce.
pub open spec fn container_of(s: Seq<u8>) -> Option<Container> {
    if elf_magic(s) {
        Some(Container::Elf)
    } else if macho_magic(s) {
        Some(Container::MachO)
    } else if pe_magic(s) {
        Some(Container::Pe)
    } else {
        None
    }
}

/// Whether the binary in `s` exports a symbol whose name is the bytes
/// `symbol`, compared exactly.
pub open spec fn exports_name(s: Seq<u8>, symbol: Seq<u8>) -> Result<bool, ParseError> {
    match container_of(s) {
        Some(Container::Elf) => elf_exports(s, symbol),
        Some(Container::MachO) => macho_exports(s, symbol),
        Some(Container::Pe) => pe_exports(s, symbol),
        None => Err(ParseError::UnrecognizedFormat),
    }
}

/// Whether the binary in `s` exports the symbol named `symbol`: the name in
/// the export table must be the UTF-8 encoding of `symbol`, byte for byte.
pub open spec fn exports(s: Seq<u8>, symbol: Seq<char>) -> Result<bool, ParseError> {
    exports_name(s, encode_utf8(symbol))
}

/// Tells the container format of `bytes` from its magic number.
pub fn sniff(bytes: &[u8]) -> (r: Option<Container>)
    ensures
        r == container_of(bytes@),
{
    let len: usize = bytes.len();
    if len >= 4 && bytes[0] == 0x7f && bytes[1] == 0x45 && bytes[2] == 0x4c && bytes[3] == 0x46 {
        return Some(Container::Elf);
    }
    if len >= 4 {
        let b0: u8 = bytes[0];
        let b1: u8 = bytes[1];
        let b2: u8 = bytes[2];
        let b3: u8 = bytes[3];
        if (b0 == 0xfe && b1 == 0xed && b2 == 0xfa && (b3 == 0xce || b3 == 0xcf)) || ((b0 == 0xce
            || b0 == 0xcf) && b1 == 0xfa && b2 == 0xed && b3 == 0xfe) || (b0 == 0xca && b1 == 0xfe
            && b2 == 0xba && (b3 == 0xbe || b3 == 0xbf)) {
            return Some(Container::MachO);
        }
    }
    if len >= 2 && bytes[0] == 0x4d && bytes[1] == 0x5a {
        return Some(Container::Pe);
    }
    None
}

/// Tells whether the binary in `bytes` exports the symbol named `symbol`.
///
/// The answer is `Ok(false)` for a well-formed binary that lacks the
/// symbol, `Err(UnrecognizedFormat)` exactly where the buffer begins with
/// no known magic number, and `Err(Malformed)` where a table that the
/// query has to read is cut off or points outside the buffer. Nothing
/// outside the buffer is read and nothing in it is run.
pub fn exports_symbol(bytes: &[u8], symbol: &str) -> (r: Result<bool, ParseError>)
    ensures
        r == exports(bytes@, symbol@),
{
    let name = symbol.as_bytes();
    match sniff(bytes) {
        Some(Container::Elf) => elf_exports_symbol(bytes, name),
        Some(Container::MachO) => macho_exports_symbol(bytes, name),
        Some(Container::Pe) => pe_exports_symbol(bytes, name),
        None => Err(ParseError::UnrecognizedFormat),
    }
}

/// Whether `s` begins with the magic number of a container and ends
/// before that container's file header does.
pub open spec fn header_cut_off(s: Seq<u8>) -> bool {
    match container_of(s) {
        Some(Container::Elf) => match elf_layout(s) {
            Some(lay) => s.len() < header_len(lay),
            None => s.len() < 6,
        },
        Some(Container::MachO) => match (thin_layout(s), fat_wide(s)) {
            (Some(lay), _) => s.len() < macho_header_len(lay),
            (None, Some(wide)) => s.len() < fat_header_len() + fat_arch_len(wide),
            (None, None) => false,
        },
        Some(Container::Pe) => s.len() < DOS_HEADER_LEN,
        None => false,
    }
}

/// A binary is unrecognized exactly where it begins with no known magic
/// number: once a container is recognised, whatever is wrong with it is
/// `Malformed`.
pub proof fn lemma_unrecognized_means_no_magic(s: Seq<u8>, symbol: Seq<u8>)
    ensures
        exports_name(s, symbol) == Err::<bool, ParseError>(ParseError::UnrecognizedFormat)
            <==> container_of(s) is None,
{
    match container_of(s) {
        Some(Container::Elf) => {
            lemma_no_scan_is_unrecognized(s, symbol);
        },
        Some(Container::MachO) => {
            lemma_no_scan_is_unrecognized(s, symbol);
            if thin_layout(s) is None {
                let wide = fat_wide(s)->0;
                if !(s.len() < fat_header_len() + fat_arch_len(wide) || u32_at(s, 4, true) == 0
                    || fat_first_offset(s, wide) + fat_first_size(s, wide) > s.len()) {
                    let inner = s.subrange(
                        fat_first_offset(s, wide),
                        fat_first_offset(s, wide) + fat_first_size(s, wide),
                    );
                    lemma_no_scan_is_unrecognized(inner, symbol);
                }
            }
        },
        Some(Container::Pe) => {
            lemma_no_scan_is_unrecognized(s, symbol);
        },
        None => {},
    }
}

/// No walk of a symbol table ends in `UnrecognizedFormat`.
proof fn lemma_no_scan_is_unrecognized(s: Seq<u8>, symbol: Seq<u8>)
    ensures
        elf_magic(s) ==> elf_exports(s, symbol) != Err::<bool, ParseError>(
            ParseError::UnrecognizedFormat,
        ),
        thin_layout(s) is Some ==> thin_exports(s, symbol) != Err::<bool, ParseError>(
            ParseError::UnrecognizedFormat,
        ),
        pe_magic(s) ==> pe_exports(s, symbol) != Err::<bool, ParseError>(
            ParseError::UnrecognizedFormat,
        ),
{
    let unrecognized = Err::<bool, ParseError>(ParseError::UnrecognizedFormat);
    assert forall|probe: spec_fn(int) -> Probe, i: int, n: int| #[trigger]
        scan(probe, i, n) != unrecognized by {
        if scan(probe, i, n) != Ok::<bool, ParseError>(false) {
            let k = lemma_scan_decider(probe, i, n);
        }
    }
}

/// A binary that is cut off inside its file header is malformed, whatever
/// symbol is asked for.
pub proof fn lemma_cut_header_is_malformed(s: Seq<u8>, symbol: Seq<u8>)
    requires
        header_cut_off(s),
    ensures
        exports_name(s, symbol) == Err::<bool, ParseError>(ParseError::Malformed),
{
}

/// A table that is needed and reaches past the end of the buffer makes the
/// binary malformed: the section header table of an ELF object that has
/// one, the first architecture of a universal file, and the section table
/// of a PE image.
pub proof fn lemma_table_out_of_range_is_malformed(s: Seq<u8>, symbol: Seq<u8>)
    requires
        !header_cut_off(s),
        match container_of(s) {
            Some(Container::Elf) => {
                let lay = elf_layout(s)->0;
                elf_layout(s) is Some && section_table(s, lay) != 0 && section_count(s, lay) != 0
                    && !table_fits(
                    s.len() as int,
                    section_table(s, lay),
                    section_count(s, lay),
                    section_stride(s, lay),
                )
            },
            Some(Container::MachO) => thin_layout(s) is None && fat_first_offset(
                s,
                fat_wide(s)->0,
            ) + fat_first_size(s, fat_wide(s)->0) > s.len(),
            Some(Container::Pe) => !table_fits(
                s.len() as int,
                sections_at(s, pe_header(s)),
                pe_section_count(s, pe_header(s)),
                SECTION_LEN as int,
            ),
            None => false,
        },
    ensures
        exports_name(s, symbol) == Err::<bool, ParseError>(ParseError::Malformed),
{
}

} // verus!
