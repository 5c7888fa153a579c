//! The plugin interfaces that a compiled library may implement.
//!
//! A library implements an interface where it exports the entry point that
//! hosts of that interface look up. One library may implement several, so
//! detection answers with a list: known interfaces in their fixed order,
//! each at most once.

use vstd::prelude::*;
use vstd::string::*;
use crate::bytes::ParseError;
use crate::symbols::{exports, exports_symbol};

verus! {

/// A plugin interface for which bundles can be made.
#[derive(Debug, Clone, Copy, PartialEq, Eq, Structural)]
pub enum PluginInterface {
    /// Steinberg's VST3.
    Vst3,
}

/// The interfaces that detection looks for, in the order in which they are
/// reported.
pub open spec fn known_interfaces() -> Seq<PluginInterface> {
    seq![PluginInterface::Vst3]
}

/// The symbol whose export marks a library as implementing `interface`.
pub open spec fn marker_symbol(interface: PluginInterface) -> Seq<char> {
    match interface {
        PluginInterface::Vst3 => "GetPluginFactory"@,
    }
}

/// The interfaces among the first `n` of `known` whose marker the binary
/// in `s` exports, in the order of `known`. The first marker that cannot
/// be looked up fails the whole detection.
pub open spec fn detected_among(s: Seq<u8>, known: Seq<PluginInterface>, n: int) -> Result<
    Seq<PluginInterface>,
    ParseError,
>
    decreases n,
{
    if n <= 0 {
        Ok(Seq::empty())
    } else {
        match detected_among(s, known, n - 1) {
            Err(e) => Err(e),
            Ok(found) => match exports(s, marker_symbol(known[n - 1])) {
                Err(e) => Err(e),
                Ok(true) => Ok(found.push(known[n - 1])),
                Ok(false) => Ok(found),
            },
        }
    }
}

/// The interfaces that the binary in `s` implements.
pub open spec fn detected(s: Seq<u8>) -> Result<Seq<PluginInterface>, ParseError> {
    detected_among(s, known_interfaces(), known_interfaces().len() as int)
}

/// The symbol whose export marks a library as implementing `interface`.
pub fn marker(interface: PluginInterface) -> (r: &'static str)
    ensures
        r@ == marker_symbol(interface),
{
    match interface {
        PluginInterface::Vst3 => "GetPluginFactory",
    }
}

/// The interfaces that detection looks for.
pub fn all_interfaces() -> (r: Vec<PluginInterface>)
    ensures
        r@ == known_interfaces(),
{
    let mut known: Vec<PluginInterface> = Vec::new();
    known.push(PluginInterface::Vst3);
    proof {
        assert(known@ =~= known_interfaces());
    }
    known
}

/// Finds the plugin interfaces that the binary in `bytes` implements, by
/// its export table alone. An empty list is a valid answer: the library
/// then exports no plugin. A binary that cannot be read yields the error
/// of the first marker whose lookup failed, never a partial answer.
pub fn detect_interfaces(bytes: &[u8]) -> (r: Result<Vec<PluginInterface>, ParseError>)
    ensures
        match detected(bytes@) {
            Ok(found) => r matches Ok(v) && v@ == found,
            Err(e) => r == Err::<Vec<PluginInterface>, ParseError>(e),
        },
{
    let known = all_interfaces();
    let mut found: Vec<PluginInterface> = Vec::new();
    let mut i: usize = 0;
    while i < known.len()
        invariant
            known@ == known_interfaces(),
            0 <= i <= known@.len(),
            detected_among(bytes@, known@, i as int) == Ok::<Seq<PluginInterface>, ParseError>(
                found@,
            ),
        decreases known@.len() - i,
    {
        let interface: PluginInterface = known[i];
        match exports_symbol(bytes, marker(interface)) {
            Err(e) => {
                return Err(e);
            },
            Ok(true) => {
                found.push(interface);
            },
            Ok(false) => {},
        }
        i += 1;
    }
    Ok(found)
}

/// A library is reported to implement VST3 exactly where it exports
/// `GetPluginFactory`, and detection fails exactly where that lookup does.
pub proof fn lemma_detected_vst3(s: Seq<u8>)
    ensures
        detected(s) == match exports(s, "GetPluginFactory"@) {
            Ok(true) => Ok::<Seq<PluginInterface>, ParseError>(seq![PluginInterface::Vst3]),
            Ok(false) => Ok(Seq::empty()),
            Err(e) => Err(e),
        },
{
    reveal_with_fuel(detected_among, 2);
    assert(Seq::<PluginInterface>::empty().push(PluginInterface::Vst3) =~= seq![
        PluginInterface::Vst3,
    ]);
}

} // verus!
