//! Where things lie on disk: the compiled library that the build leaves
//! behind, and the bundle that is made from it.
//!
//! Paths are texts whose components are separated by `/`. The layout of a
//! bundle is a total mapping from the target: every target has a platform
//! directory and a naming rule.

use vstd::prelude::*;
use vstd::string::*;
use crate::target::{opt_view, rejection, triple_target, CompilationTarget, UnknownTarget};
use crate::text::same_text;

verus! {

/// The base directory for the bundler's output.
pub open spec fn bundle_home() -> Seq<char> {
    "target/bundled"@
}

/// The directory for the compiled binaries: `target` for a native build,
/// `target/<triple>` for a cross-compilation to a recognised triple.
pub open spec fn target_root(triple: Option<Seq<char>>) -> Option<Seq<char>> {
    match triple {
        None => Some("target"@),
        Some(t) => if triple_target(t) is Some {
            Some("target/"@ + t)
        } else {
            None
        },
    }
}

/// The subdirectory of the build profile.
pub open spec fn profile_dir(release: bool) -> Seq<char> {
    if release {
        "release"@
    } else {
        "debug"@
    }
}

/// The file name that the platform gives a shared library made from
/// `package`.
pub open spec fn library_file_name(package: Seq<char>, target: CompilationTarget) -> Seq<char> {
    match target {
        CompilationTarget::Linux64 | CompilationTarget::Linux32 => "lib"@ + package + ".so"@,
        CompilationTarget::Mac64 => "lib"@ + package + ".dylib"@,
        CompilationTarget::Windows64 | CompilationTarget::Windows32 => package + ".dll"@,
    }
}

/// Where the build leaves the library of `package`.
pub open spec fn artifact_location(
    package: Seq<char>,
    target: CompilationTarget,
    release: bool,
    triple: Option<Seq<char>>,
) -> Option<Seq<char>> {
    match target_root(triple) {
        Some(root) => Some(
            root + "/"@ + profile_dir(release) + "/"@ + library_file_name(package, target),
        ),
        None => None,
    }
}

/// The name of the directory inside a VST3 bundle that holds the library.
pub open spec fn platform_dir(target: CompilationTarget) -> Seq<char> {
    match target {
        CompilationTarget::Linux64 => "x86_64-linux"@,
        CompilationTarget::Linux32 => "i386-linux"@,
        CompilationTarget::Mac64 => "MacOS"@,
        CompilationTarget::Windows64 => "x86_64-win"@,
        CompilationTarget::Windows32 => "x86-win"@,
    }
}

/// What follows the bundle's name in the name of the library inside a VST3
/// bundle.
pub open spec fn bundled_extension(target: CompilationTarget) -> Seq<char> {
    match target {
        CompilationTarget::Linux64 | CompilationTarget::Linux32 => ".so"@,
        CompilationTarget::Mac64 => ""@,
        CompilationTarget::Windows64 | CompilationTarget::Windows32 => ".vst3"@,
    }
}

/// The directory of a VST3 bundle that holds its contents, relative to the
/// bundle home.
pub open spec fn vst3_contents(name: Seq<char>) -> Seq<char> {
    name + ".vst3/Contents/"@
}

/// The path of the library inside a VST3 bundle, relative to the bundle
/// home: `<name>.vst3/Contents/<platform directory>/<name><extension>`.
pub open spec fn vst3_library_path(name: Seq<char>, target: CompilationTarget) -> Seq<char> {
    vst3_contents(name) + platform_dir(target) + "/"@ + name + bundled_extension(target)
}

/// The base directory for the compiled binaries. This does not take a
/// [`CompilationTarget`], since native and cross-compiled builds of one
/// target lie in different places.
pub fn target_base(cross_compile_target: Option<&str>) -> (r: Result<&'static str, UnknownTarget>)
    ensures
        match target_root(opt_view(cross_compile_target)) {
            Some(root) => r matches Ok(base) && base@ == root,
            None => r matches Err(e) && e@ == rejection(opt_view(cross_compile_target)),
        },
{
    match cross_compile_target {
        Some(triple) => {
            proof {
                reveal_strlit("target/");
            }
            if same_text(triple, "x86_64-unknown-linux-gnu") {
                proof {
                    reveal_strlit("x86_64-unknown-linux-gnu");
                    reveal_strlit("target/x86_64-unknown-linux-gnu");
                    assert("target/x86_64-unknown-linux-gnu"@ =~= "target/"@
                        + "x86_64-unknown-linux-gnu"@);
                }
                Ok("target/x86_64-unknown-linux-gnu")
            } else if same_text(triple, "x86_64-apple-darwin") {
                proof {
                    reveal_strlit("x86_64-apple-darwin");
                    reveal_strlit("target/x86_64-apple-darwin");
                    assert("target/x86_64-apple-darwin"@ =~= "target/"@ + "x86_64-apple-darwin"@);
                }
                Ok("target/x86_64-apple-darwin")
            } else if same_text(triple, "x86_64-pc-windows-gnu") {
                proof {
                    reveal_strlit("x86_64-pc-windows-gnu");
                    reveal_strlit("target/x86_64-pc-windows-gnu");
                    assert("target/x86_64-pc-windows-gnu"@ =~= "target/"@
                        + "x86_64-pc-windows-gnu"@);
                }
                Ok("target/x86_64-pc-windows-gnu")
            } else {
                Err(UnknownTarget::Triple(String::from_str(triple)))
            }
        },
        None => Ok("target"),
    }
}

/// The file name of the compiled library for a `cdylib` crate.
pub fn library_basename(package: &str, target: CompilationTarget) -> (r: String)
    ensures
        r@ == library_file_name(package@, target),
{
    match target {
        CompilationTarget::Linux64 | CompilationTarget::Linux32 => {
            let mut name = String::from_str("lib");
            name.append(package);
            name.append(".so");
            name
        },
        CompilationTarget::Mac64 => {
            let mut name = String::from_str("lib");
            name.append(package);
            name.append(".dylib");
            name
        },
        CompilationTarget::Windows64 | CompilationTarget::Windows32 => {
            let mut name = String::from_str(package);
            name.append(".dll");
            name
        },
    }
}

/// The path at which the build leaves the library of `package`:
/// `<target base>/<profile>/<library file name>`. Fails exactly where the
/// cross-compilation triple is not a recognised one.
pub fn expected_artifact(
    package: &str,
    target: CompilationTarget,
    release: bool,
    cross_compile_target: Option<&str>,
) -> (r: Result<String, UnknownTarget>)
    ensures
        match artifact_location(package@, target, release, opt_view(cross_compile_target)) {
            Some(path) => r matches Ok(p) && p@ == path,
            None => r matches Err(e) && e@ == rejection(opt_view(cross_compile_target)),
        },
{
    match target_base(cross_compile_target) {
        Ok(base) => {
            let mut path = String::from_str(base);
            path.append("/");
            path.append(
                if release {
                    "release"
                } else {
                    "debug"
                },
            );
            path.append("/");
            let file = library_basename(package, target);
            path.append(file.as_str());
            Ok(path)
        },
        Err(e) => Err(e),
    }
}

/// The name of the platform directory of `target` inside a VST3 bundle.
pub fn platform_directory(target: CompilationTarget) -> (r: &'static str)
    ensures
        r@ == platform_dir(target),
{
    match target {
        CompilationTarget::Linux64 => "x86_64-linux",
        CompilationTarget::Linux32 => "i386-linux",
        CompilationTarget::Mac64 => "MacOS",
        CompilationTarget::Windows64 => "x86_64-win",
        CompilationTarget::Windows32 => "x86-win",
    }
}

/// The full path to the library file inside of a VST3 bundle, including
/// the leading `.vst3` directory.
pub fn vst3_bundle_library_name(package: &str, target: CompilationTarget) -> (r: String)
    ensures
        r@ == vst3_library_path(package@, target),
{
    let mut path = String::from_str(package);
    path.append(".vst3/Contents/");
    path.append(platform_directory(target));
    path.append("/");
    path.append(package);
    match target {
        CompilationTarget::Linux64 | CompilationTarget::Linux32 => {
            path.append(".so");
        },
        CompilationTarget::Mac64 => {
            path.append("");
        },
        CompilationTarget::Windows64 | CompilationTarget::Windows32 => {
            path.append(".vst3");
        },
    }
    path
}

/// No two targets share a platform directory.
pub proof fn lemma_platform_dirs_differ(a: CompilationTarget, b: CompilationTarget)
    requires
        platform_dir(a) == platform_dir(b),
    ensures
        a == b,
{
    reveal_strlit("x86_64-linux");
    reveal_strlit("i386-linux");
    reveal_strlit("MacOS");
    reveal_strlit("x86_64-win");
    reveal_strlit("x86-win");
    assert("x86_64-linux"@[0] == 'x' && "x86_64-linux"@[7] == 'l' && "x86_64-linux"@.len() == 12);
    assert("i386-linux"@[0] == 'i');
    assert("MacOS"@[0] == 'M');
    assert("x86_64-win"@[0] == 'x' && "x86_64-win"@[7] == 'w' && "x86_64-win"@.len() == 10);
    assert("x86-win"@[0] == 'x' && "x86-win"@.len() == 7);
}

/// The path of the library inside a bundle is made of four components:
/// the bundle's directory, `Contents`, the platform directory of the
/// target, and the file, whose name begins with the bundle's name.
pub proof fn lemma_library_path_components(name: Seq<char>, target: CompilationTarget)
    ensures
        vst3_library_path(name, target) == name + ".vst3"@ + "/"@ + "Contents"@ + "/"@
            + platform_dir(target) + "/"@ + name + bundled_extension(target),
{
    reveal_strlit(".vst3/Contents/");
    reveal_strlit(".vst3");
    reveal_strlit("Contents");
    reveal_strlit("/");
    assert(".vst3/Contents/"@ =~= ".vst3"@ + "/"@ + "Contents"@ + "/"@);
    assert(vst3_library_path(name, target) =~= name + ".vst3"@ + "/"@ + "Contents"@ + "/"@
        + platform_dir(target) + "/"@ + name + bundled_extension(target));
}

} // verus!
