//! The plan of a bundle: every path to create and every file to write,
//! computed before anything is touched.

use vstd::prelude::*;
use vstd::string::*;
use crate::interface::PluginInterface;
use crate::layout::{
    bundle_home, platform_dir, platform_directory, vst3_bundle_library_name, vst3_contents,
    vst3_library_path,
};
use crate::target::CompilationTarget;

verus! {

/// A file that a bundle needs beside the library, with its whole contents.
#[derive(Debug, PartialEq, Eq)]
pub struct AuxiliaryFile {
    /// Where the file is written.
    pub path: String,
    /// What is written, replacing whatever the file held.
    pub contents: String,
}

/// An [`AuxiliaryFile`] as plain text.
pub struct AuxiliaryFileView {
    pub path: Seq<char>,
    pub contents: Seq<char>,
}

impl View for AuxiliaryFile {
    type V = AuxiliaryFileView;

    open spec fn view(&self) -> AuxiliaryFileView {
        AuxiliaryFileView { path: self.path@, contents: self.contents@ }
    }
}

/// The views of a list of files.
pub open spec fn files_view(files: Seq<AuxiliaryFile>) -> Seq<AuxiliaryFileView> {
    files.map_values(|f: AuxiliaryFile| f@)
}

/// Everything to create for one bundle.
#[derive(Debug, PartialEq, Eq)]
pub struct BundlePlan {
    /// The interface that the bundle is for.
    pub interface: PluginInterface,
    /// The bundle's top directory.
    pub bundle_root: String,
    /// The directory that holds the library; creating it with its parents
    /// creates the whole tree.
    pub library_dir: String,
    /// Where the library is placed.
    pub library_path: String,
    /// The descriptor files that the platform requires.
    pub auxiliary: Vec<AuxiliaryFile>,
}

/// A [`BundlePlan`] as plain text.
pub struct BundlePlanView {
    pub interface: PluginInterface,
    pub bundle_root: Seq<char>,
    pub library_dir: Seq<char>,
    pub library_path: Seq<char>,
    pub auxiliary: Seq<AuxiliaryFileView>,
}

impl View for BundlePlan {
    type V = BundlePlanView;

    open spec fn view(&self) -> BundlePlanView {
        BundlePlanView {
            interface: self.interface,
            bundle_root: self.bundle_root@,
            library_dir: self.library_dir@,
            library_path: self.library_path@,
            auxiliary: files_view(self.auxiliary@),
        }
    }
}

/// One entry of a property list dictionary whose value is a string.
pub open spec fn plist_entry(key: Seq<char>, value: Seq<char>) -> Seq<char> {
    "    <key>"@ + key + "</key>\n    <string>"@ + value + "</string>\n"@
}

/// What precedes the entries of the property list.
pub open spec fn plist_head() -> Seq<char> {
    "<?xml version=\"1.0\" encoding=\"UTF-8\"?>\n\n<!DOCTYPE plist PUBLIC \"-//Apple//DTD PLIST 1.0//EN\" \"http://www.apple.com/DTDs/PropertyList-1.0.dtd\">\n<plist>\n  <dict>\n"@
}

/// What follows the string entries of the property list.
pub open spec fn plist_tail() -> Seq<char> {
    "    <key>NSHighResolutionCapable</key>\n    <true/>\n  </dict>\n</plist>\n"@
}

/// The bundle identifier of `package`, in reverse domain name form.
pub open spec fn bundle_identifier(package: Seq<char>) -> Seq<char> {
    "com.nih-plug."@ + package
}

/// The text of the `Info.plist` of the bundle of `package`. The package
/// name is the executable, the last part of the identifier, the name and
/// the display name.
pub open spec fn info_plist(package: Seq<char>) -> Seq<char> {
    plist_head() + plist_entry("CFBundleExecutable"@, package) + plist_entry(
        "CFBundleIconFile"@,
        ""@,
    ) + plist_entry("CFBundleIdentifier"@, bundle_identifier(package)) + plist_entry(
        "CFBundleName"@,
        package,
    ) + plist_entry("CFBundleDisplayName"@, package) + plist_entry(
        "CFBundlePackageType"@,
        "BNDL"@,
    ) + plist_entry("CFBundleSignature"@, "????"@) + plist_entry(
        "CFBundleShortVersionString"@,
        "1.0.0"@,
    ) + plist_entry("CFBundleVersion"@, "1.0.0"@) + plist_entry(
        "NSHumanReadableCopyright"@,
        ""@,
    ) + plist_tail()
}

/// The text of the `PkgInfo` of a bundle: its type and its creator, four
/// characters each.
pub open spec fn pkg_info() -> Seq<char> {
    "BNDL????"@
}

/// The path of the descriptor file `file` of the bundle of `package`.
pub open spec fn descriptor_path(package: Seq<char>, file: Seq<char>) -> Seq<char> {
    bundle_home() + "/"@ + vst3_contents(package) + file
}

/// The descriptor files of the bundle of `package`: `PkgInfo` and
/// `Info.plist` for macOS, none for any other target.
pub open spec fn macos_descriptors(
    package: Seq<char>,
    target: CompilationTarget,
) -> Seq<AuxiliaryFileView> {
    if target == CompilationTarget::Mac64 {
        seq![
            AuxiliaryFileView {
                path: descriptor_path(package, "PkgInfo"@),
                contents: pkg_info(),
            },
            AuxiliaryFileView {
                path: descriptor_path(package, "Info.plist"@),
                contents: info_plist(package),
            },
        ]
    } else {
        Seq::empty()
    }
}

/// The plan of the bundle named `name` for `interface` and `target`.
pub open spec fn planned(
    name: Seq<char>,
    interface: PluginInterface,
    target: CompilationTarget,
) -> BundlePlanView {
    match interface {
        PluginInterface::Vst3 => BundlePlanView {
            interface,
            bundle_root: bundle_home() + "/"@ + name + ".vst3"@,
            library_dir: bundle_home() + "/"@ + vst3_contents(name) + platform_dir(target),
            library_path: bundle_home() + "/"@ + vst3_library_path(name, target),
            auxiliary: macos_descriptors(name, target),
        },
    }
}

/// Appends one string entry to a property list.
fn push_entry(text: &mut String, key: &str, value: &str)
    ensures
        final(text)@ == old(text)@ + plist_entry(key@, value@),
{
    text.append("    <key>");
    text.append(key);
    text.append("</key>\n    <string>");
    text.append(value);
    text.append("</string>\n");
    proof {
        assert(text@ =~= old(text)@ + plist_entry(key@, value@));
    }
}

/// Writes the `Info.plist` of the bundle of `package`.
pub fn info_plist_text(package: &str) -> (r: String)
    ensures
        r@ == info_plist(package@),
{
    let mut identifier = String::from_str("com.nih-plug.");
    identifier.append(package);
    let mut text = String::from_str(
        "<?xml version=\"1.0\" encoding=\"UTF-8\"?>\n\n<!DOCTYPE plist PUBLIC \"-//Apple//DTD PLIST 1.0//EN\" \"http://www.apple.com/DTDs/PropertyList-1.0.dtd\">\n<plist>\n  <dict>\n",
    );
    push_entry(&mut text, "CFBundleExecutable", package);
    push_entry(&mut text, "CFBundleIconFile", "");
    push_entry(&mut text, "CFBundleIdentifier", identifier.as_str());
    push_entry(&mut text, "CFBundleName", package);
    push_entry(&mut text, "CFBundleDisplayName", package);
    push_entry(&mut text, "CFBundlePackageType", "BNDL");
    push_entry(&mut text, "CFBundleSignature", "????");
    push_entry(&mut text, "CFBundleShortVersionString", "1.0.0");
    push_entry(&mut text, "CFBundleVersion", "1.0.0");
    push_entry(&mut text, "NSHumanReadableCopyright", "");
    text.append("    <key>NSHighResolutionCapable</key>\n    <true/>\n  </dict>\n</plist>\n");
    text
}

/// The path of the descriptor file `file` of the bundle of `package`.
fn descriptor_file_path(package: &str, file: &str) -> (r: String)
    ensures
        r@ == descriptor_path(package@, file@),
{
    let mut path = String::from_str("target/bundled");
    path.append("/");
    path.append(package);
    path.append(".vst3/Contents/");
    path.append(file);
    proof {
        assert(path@ =~= descriptor_path(package@, file@));
    }
    path
}

/// If compiling for macOS, lists all of the bundle-y stuff Steinberg and
/// Apple require you to have: the files to write and what to write into
/// them. For any other target the list is empty.
pub fn maybe_create_macos_vst3_bundle(package: &str, target: CompilationTarget) -> (r: Vec<
    AuxiliaryFile,
>)
    ensures
        files_view(r@) == macos_descriptors(package@, target),
{
    let mut files: Vec<AuxiliaryFile> = Vec::new();
    match target {
        CompilationTarget::Mac64 => {
            files.push(
                AuxiliaryFile {
                    path: descriptor_file_path(package, "PkgInfo"),
                    contents: String::from_str("BNDL????"),
                },
            );
            files.push(
                AuxiliaryFile {
                    path: descriptor_file_path(package, "Info.plist"),
                    contents: info_plist_text(package),
                },
            );
        },
        _ => {},
    }
    proof {
        assert(files_view(files@) =~= macos_descriptors(package@, target));
    }
    files
}

/// Plans the bundle named `bundle_name` for `interface` and `target`: the
/// bundle's root, the place of the library in it, and the descriptor files
/// with their contents. Nothing is created here.
pub fn plan(bundle_name: &str, interface: PluginInterface, target: CompilationTarget) -> (r:
    BundlePlan)
    ensures
        r@ == planned(bundle_name@, interface, target),
{
    match interface {
        PluginInterface::Vst3 => {
            let mut bundle_root = String::from_str("target/bundled");
            bundle_root.append("/");
            bundle_root.append(bundle_name);
            bundle_root.append(".vst3");
            let mut library_dir = String::from_str("target/bundled");
            library_dir.append("/");
            library_dir.append(bundle_name);
            library_dir.append(".vst3/Contents/");
            library_dir.append(platform_directory(target));
            let mut library_path = String::from_str("target/bundled");
            library_path.append("/");
            let inside = vst3_bundle_library_name(bundle_name, target);
            library_path.append(inside.as_str());
            let auxiliary = maybe_create_macos_vst3_bundle(bundle_name, target);
            proof {
                assert(library_dir@ =~= bundle_home() + "/"@ + vst3_contents(bundle_name@)
                    + platform_dir(target));
            }
            BundlePlan { interface, bundle_root, library_dir, library_path, auxiliary }
        },
    }
}

/// The library of a planned bundle lies directly in the library directory,
/// which lies inside the bundle's root, and the directory's last component
/// is the platform directory of the target.
pub proof fn lemma_plan_nests(name: Seq<char>, interface: PluginInterface, target: CompilationTarget)
    ensures
        planned(name, interface, target).library_dir == planned(name, interface, target).bundle_root
            + "/Contents/"@ + platform_dir(target),
        planned(name, interface, target).library_path == planned(
            name,
            interface,
            target,
        ).library_dir + "/"@ + name + crate::layout::bundled_extension(target),
{
    reveal_strlit(".vst3/Contents/");
    reveal_strlit(".vst3");
    reveal_strlit("/Contents/");
    let p = planned(name, interface, target);
    assert(".vst3/Contents/"@ =~= ".vst3"@ + "/Contents/"@);
    assert(p.library_dir =~= p.bundle_root + "/Contents/"@ + platform_dir(target));
    assert(p.library_path =~= p.library_dir + "/"@ + name + crate::layout::bundled_extension(
        target,
    ));
}

} // verus!
