//! The platforms a bundle can be made for.

use vstd::prelude::*;
use vstd::string::*;
use crate::text::same_text;

verus! {

/// The platform that a plugin is compiled for, native or cross-compiled.
#[derive(Debug, Clone, Copy, PartialEq, Eq, Structural)]
pub enum CompilationTarget {
    Linux64,
    Linux32,
    Mac64,
    Windows64,
    Windows32,
}

/// Why no [`CompilationTarget`] could be chosen.
#[derive(Debug, PartialEq, Eq)]
pub enum UnknownTarget {
    /// The requested cross-compilation triple is not one of the recognised ones.
    Triple(String),
    /// No triple was requested and the host is not a supported platform.
    Host,
}

/// An [`UnknownTarget`] as plain values.
pub enum UnknownTargetView {
    Triple(Seq<char>),
    Host,
}

impl View for UnknownTarget {
    type V = UnknownTargetView;

    open spec fn view(&self) -> UnknownTargetView {
        match self {
            UnknownTarget::Triple(t) => UnknownTargetView::Triple(t@),
            UnknownTarget::Host => UnknownTargetView::Host,
        }
    }
}

/// Why a request resolves to no target: its triple where it names one,
/// the host otherwise.
pub open spec fn rejection(triple: Option<Seq<char>>) -> UnknownTargetView {
    match triple {
        Some(t) => UnknownTargetView::Triple(t),
        None => UnknownTargetView::Host,
    }
}

/// The target that a recognised cross-compilation triple stands for.
pub open spec fn triple_target(triple: Seq<char>) -> Option<CompilationTarget> {
    if triple == "x86_64-unknown-linux-gnu"@ {
        Some(CompilationTarget::Linux64)
    } else if triple == "x86_64-apple-darwin"@ {
        Some(CompilationTarget::Mac64)
    } else if triple == "x86_64-pc-windows-gnu"@ {
        Some(CompilationTarget::Windows64)
    } else {
        None
    }
}

/// The target of a native build on a host with the given operating system and
/// architecture, named as `std::env::consts::OS` and `ARCH` name them.
pub open spec fn host_target(os: Seq<char>, arch: Seq<char>) -> Option<CompilationTarget> {
    if os == "linux"@ && arch == "x86_64"@ {
        Some(CompilationTarget::Linux64)
    } else if os == "linux"@ && arch == "x86"@ {
        Some(CompilationTarget::Linux32)
    } else if os == "macos"@ && arch == "x86_64"@ {
        Some(CompilationTarget::Mac64)
    } else if os == "windows"@ && arch == "x86_64"@ {
        Some(CompilationTarget::Windows64)
    } else if os == "windows"@ && arch == "x86"@ {
        Some(CompilationTarget::Windows32)
    } else {
        None
    }
}

/// The target that a request resolves to: that of the triple where one is
/// given, that of the host otherwise.
pub open spec fn resolved_target(
    triple: Option<Seq<char>>,
    os: Seq<char>,
    arch: Seq<char>,
) -> Option<CompilationTarget> {
    match triple {
        Some(t) => triple_target(t),
        None => host_target(os, arch),
    }
}

/// The view of an optional text.
pub open spec fn opt_view(s: Option<&str>) -> Option<Seq<char>> {
    match s {
        Some(t) => Some(t@),
        None => None,
    }
}

/// The target of a native build on the given host, if it is supported.
pub fn native_target(host_os: &str, host_arch: &str) -> (r: Option<CompilationTarget>)
    ensures
        r == host_target(host_os@, host_arch@),
{
    let x64 = same_text(host_arch, "x86_64");
    let x86 = same_text(host_arch, "x86");
    if same_text(host_os, "linux") && x64 {
        Some(CompilationTarget::Linux64)
    } else if same_text(host_os, "linux") && x86 {
        Some(CompilationTarget::Linux32)
    } else if same_text(host_os, "macos") && x64 {
        Some(CompilationTarget::Mac64)
    } else if same_text(host_os, "windows") && x64 {
        Some(CompilationTarget::Windows64)
    } else if same_text(host_os, "windows") && x86 {
        Some(CompilationTarget::Windows32)
    } else {
        None
    }
}

/// The target we're compiling for: that of `cross_compile_target` where a
/// triple is given, that of the host otherwise. An unrecognised triple is an
/// error that carries the triple; no target is ever made up.
pub fn compilation_target(
    cross_compile_target: Option<&str>,
    host_os: &str,
    host_arch: &str,
) -> (r: Result<CompilationTarget, UnknownTarget>)
    ensures
        match resolved_target(opt_view(cross_compile_target), host_os@, host_arch@) {
            Some(t) => r == Ok::<CompilationTarget, UnknownTarget>(t),
            None => r matches Err(e) && e@ == rejection(opt_view(cross_compile_target)),
        },
{
    match cross_compile_target {
        Some(triple) => {
            if same_text(triple, "x86_64-unknown-linux-gnu") {
                Ok(CompilationTarget::Linux64)
            } else if same_text(triple, "x86_64-apple-darwin") {
                Ok(CompilationTarget::Mac64)
            } else if same_text(triple, "x86_64-pc-windows-gnu") {
                Ok(CompilationTarget::Windows64)
            } else {
                Err(UnknownTarget::Triple(String::from_str(triple)))
            }
        },
        None => match native_target(host_os, host_arch) {
            Some(t) => Ok(t),
            None => Err(UnknownTarget::Host),
        },
    }
}

/// A request that names a triple is decided by the triple alone, whatever
/// the host: each of the three recognised triples resolves to its target,
/// and every other text resolves to none.
pub proof fn lemma_triple_decides(triple: Seq<char>, os: Seq<char>, arch: Seq<char>)
    ensures
        resolved_target(Some(triple), os, arch) == triple_target(triple),
        triple == "x86_64-unknown-linux-gnu"@ ==> triple_target(triple) == Some(
            CompilationTarget::Linux64,
        ),
        triple == "x86_64-apple-darwin"@ ==> triple_target(triple) == Some(
            CompilationTarget::Mac64,
        ),
        triple == "x86_64-pc-windows-gnu"@ ==> triple_target(triple) == Some(
            CompilationTarget::Windows64,
        ),
        triple != "x86_64-unknown-linux-gnu"@ && triple != "x86_64-apple-darwin"@ && triple
            != "x86_64-pc-windows-gnu"@ ==> triple_target(triple) is None,
{
    reveal_strlit("x86_64-unknown-linux-gnu");
    reveal_strlit("x86_64-apple-darwin");
    reveal_strlit("x86_64-pc-windows-gnu");
    assert("x86_64-unknown-linux-gnu"@.len() == 24);
    assert("x86_64-apple-darwin"@.len() == 19);
    assert("x86_64-pc-windows-gnu"@.len() == 21);
}

} // verus!
