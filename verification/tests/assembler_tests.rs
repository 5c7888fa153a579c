use nih_plug_xtask::assembler::{begin, step, Action, BundleError, Event, Job, Stage, Step};
use nih_plug_xtask::bytes::ParseError;
use nih_plug_xtask::config::{BundlerConfig, PackageConfig};
use nih_plug_xtask::flags::BuildFlags;
use nih_plug_xtask::target::{CompilationTarget, UnknownTarget};
use std::collections::{BTreeMap, BTreeSet};

/// A file system in memory: the files with their bytes, and the
/// directories.
#[derive(Debug, Clone, PartialEq, Eq, Default)]
struct Disk {
    files: BTreeMap<String, Vec<u8>>,
    dirs: BTreeSet<String>,
    builds: Vec<(String, Vec<String>)>,
    build_succeeds: bool,
}

impl Disk {
    fn with_file(path: &str, bytes: Vec<u8>) -> Disk {
        let mut disk = Disk { build_succeeds: true, ..Disk::default() };
        disk.files.insert(path.to_string(), bytes);
        disk
    }

    fn parent_exists(&self, path: &str) -> bool {
        match path.rfind('/') {
            Some(at) => self.dirs.contains(&path[..at]),
            None => true,
        }
    }

    /// Does what `action` asks for and reports what came of it.
    fn perform(&mut self, action: &Action) -> Event {
        match action {
            Action::Build { package, args } => {
                self.builds.push((package.clone(), args.clone()));
                Event::Built(self.build_succeeds)
            }
            Action::CheckExists { path } => Event::Exists(self.files.contains_key(path)),
            Action::Read { path } => match self.files.get(path) {
                Some(bytes) => Event::Contents(bytes.clone()),
                None => Event::Failed,
            },
            Action::Perform(Step::CreateDirs { path }) => {
                let mut prefix = String::new();
                for component in path.split('/') {
                    if !prefix.is_empty() {
                        prefix.push('/');
                    }
                    prefix.push_str(component);
                    if self.files.contains_key(&prefix) {
                        return Event::Failed;
                    }
                    self.dirs.insert(prefix.clone());
                }
                Event::Completed
            }
            Action::Perform(Step::Place { from, to }) => {
                if !self.parent_exists(to) {
                    return Event::Failed;
                }
                match self.files.get(from).cloned() {
                    Some(bytes) => {
                        self.files.insert(to.clone(), bytes);
                        Event::Completed
                    }
                    None => Event::Failed,
                }
            }
            Action::Perform(Step::Write { path, contents }) => {
                if !self.parent_exists(path) {
                    return Event::Failed;
                }
                self.files.insert(path.clone(), contents.as_bytes().to_vec());
                Event::Completed
            }
            Action::Finish { .. } | Action::Fail { .. } => unreachable!(),
        }
    }
}

/// Runs the assembler against `disk` until it finishes or fails. Returns
/// the last action and every action before it.
fn run(
    disk: &mut Disk,
    package: &str,
    args: &[&str],
    config: Option<&BundlerConfig>,
    host: (&str, &str),
) -> (Action, Vec<Action>) {
    let args: Vec<String> = args.iter().map(|s| s.to_string()).collect();
    let mut log = Vec::new();
    let (job, mut stage, mut action) = match begin(package, args, config, host.0, host.1) {
        Ok(started) => started,
        Err(error) => return (Action::Fail { error }, log),
    };
    for _ in 0..100 {
        if matches!(action, Action::Finish { .. } | Action::Fail { .. }) {
            assert_eq!(stage, Stage::Finished);
            return (action, log);
        }
        let event = disk.perform(&action);
        log.push(action);
        let (next_stage, next_action) = step(&job, stage, event);
        stage = next_stage;
        action = next_action;
    }
    panic!("the run does not end");
}

fn le16(out: &mut Vec<u8>, v: u16) {
    out.extend_from_slice(&v.to_le_bytes());
}

fn le32(out: &mut Vec<u8>, v: u32) {
    out.extend_from_slice(&v.to_le_bytes());
}

fn le64(out: &mut Vec<u8>, v: u64) {
    out.extend_from_slice(&v.to_le_bytes());
}

/// A 64-bit little-endian ELF shared object that exports `names`.
fn elf_exporting(names: &[&str]) -> Vec<u8> {
    let mut strings = vec![0u8];
    let mut offsets = Vec::new();
    for name in names {
        offsets.push(strings.len() as u32);
        strings.extend_from_slice(name.as_bytes());
        strings.push(0);
    }
    let symbols_at: u64 = 64 + 3 * 64;
    let symbols_size: u64 = 24 * (names.len() as u64 + 1);
    let strings_at = symbols_at + symbols_size;
    let mut out = vec![0x7f, b'E', b'L', b'F', 2, 1, 1];
    out.resize(16, 0);
    le16(&mut out, 3);
    le16(&mut out, 62);
    le32(&mut out, 1);
    le64(&mut out, 0);
    le64(&mut out, 0);
    le64(&mut out, 64);
    le32(&mut out, 0);
    le16(&mut out, 64);
    le16(&mut out, 0);
    le16(&mut out, 0);
    le16(&mut out, 64);
    le16(&mut out, 3);
    le16(&mut out, 0);
    for (kind, offset, size, link, entsize) in [
        (0u32, 0u64, 0u64, 0u32, 0u64),
        (11, symbols_at, symbols_size, 2, 24),
        (3, strings_at, strings.len() as u64, 0, 0),
    ] {
        le32(&mut out, 0);
        le32(&mut out, kind);
        le64(&mut out, 0);
        le64(&mut out, 0);
        le64(&mut out, offset);
        le64(&mut out, size);
        le32(&mut out, link);
        le32(&mut out, 0);
        le64(&mut out, 1);
        le64(&mut out, entsize);
    }
    out.resize(out.len() + 24, 0);
    for name in offsets {
        le32(&mut out, name);
        out.push(0x12);
        out.push(0);
        le16(&mut out, 1);
        le64(&mut out, 0x1000);
        le64(&mut out, 8);
    }
    out.extend_from_slice(&strings);
    out
}

/// A 64-bit little-endian Mach-O dynamic library that exports `names`.
fn macho_exporting(names: &[&str]) -> Vec<u8> {
    let mut strings = vec![0u8];
    let mut offsets = Vec::new();
    for name in names {
        offsets.push(strings.len() as u32);
        strings.extend_from_slice(name.as_bytes());
        strings.push(0);
    }
    let symbols_at: u32 = 32 + 24 + 80;
    let strings_at = symbols_at + 16 * names.len() as u32;
    let mut out = Vec::new();
    for v in [0xfeedfacfu32, 0x0100_0007, 3, 6, 2, 104, 0, 0] {
        le32(&mut out, v);
    }
    for v in [2u32, 24, symbols_at, names.len() as u32, strings_at, strings.len() as u32] {
        le32(&mut out, v);
    }
    for v in [0xbu32, 80, 0, 0, 0, names.len() as u32, names.len() as u32, 0] {
        le32(&mut out, v);
    }
    out.resize(symbols_at as usize, 0);
    for name in offsets {
        le32(&mut out, name);
        out.push(0x0f);
        out.push(1);
        le16(&mut out, 0);
        le64(&mut out, 0x1000);
    }
    out.extend_from_slice(&strings);
    out
}

const LINUX: (&str, &str) = ("linux", "x86_64");
const MACOS: (&str, &str) = ("macos", "x86_64");

#[test]
fn linux_package_with_marker_is_bundled() {
    let artifact = elf_exporting(&["GetPluginFactory"]);
    let mut disk = Disk::with_file("target/debug/libfoo.so", artifact.clone());
    let (last, log) = run(&mut disk, "foo", &[], None, LINUX);
    assert_eq!(last, Action::Finish { bundles: vec!["target/bundled/foo.vst3".to_string()] });
    assert_eq!(
        disk.files.get("target/bundled/foo.vst3/Contents/x86_64-linux/foo.so"),
        Some(&artifact)
    );
    assert_eq!(disk.files.len(), 2);
    assert_eq!(
        log,
        vec![
            Action::Build { package: "foo".to_string(), args: vec![] },
            Action::CheckExists { path: "target/debug/libfoo.so".to_string() },
            Action::Read { path: "target/debug/libfoo.so".to_string() },
            Action::Perform(Step::CreateDirs {
                path: "target/bundled/foo.vst3/Contents/x86_64-linux".to_string()
            }),
            Action::Perform(Step::Place {
                from: "target/debug/libfoo.so".to_string(),
                to: "target/bundled/foo.vst3/Contents/x86_64-linux/foo.so".to_string()
            }),
        ]
    );
}

#[test]
fn package_without_marker_makes_no_bundle() {
    let artifact = elf_exporting(&["main", "GetPluginFactoryButNot"]);
    let mut disk = Disk::with_file("target/debug/libfoo.so", artifact);
    let before = disk.clone();
    let (last, log) = run(&mut disk, "foo", &[], None, LINUX);
    assert_eq!(last, Action::Finish { bundles: vec![] });
    assert_eq!(disk.files, before.files);
    assert!(disk.dirs.is_empty());
    assert!(!disk.dirs.iter().any(|d| d.starts_with("target/bundled/foo.vst3")));
    assert!(!disk.files.keys().any(|f| f.starts_with("target/bundled/foo.vst3")));
    assert_eq!(log.len(), 3);
}

#[test]
fn macos_bundle_gets_its_descriptors() {
    let artifact = macho_exporting(&["GetPluginFactory"]);
    let mut disk = Disk::with_file("target/debug/libbar.dylib", artifact.clone());
    let (last, _) = run(&mut disk, "bar", &[], None, MACOS);
    assert_eq!(last, Action::Finish { bundles: vec!["target/bundled/bar.vst3".to_string()] });
    assert_eq!(disk.files.get("target/bundled/bar.vst3/Contents/MacOS/bar"), Some(&artifact));
    assert_eq!(
        disk.files.get("target/bundled/bar.vst3/Contents/PkgInfo"),
        Some(&b"BNDL????".to_vec())
    );
    let plist = disk.files.get("target/bundled/bar.vst3/Contents/Info.plist").unwrap();
    let plist = String::from_utf8(plist.clone()).unwrap();
    assert!(plist.contains("com.nih-plug.bar"));
    for key in ["CFBundleExecutable", "CFBundleName", "CFBundleDisplayName"] {
        assert!(plist.contains(&format!("<key>{}</key>\n    <string>bar</string>", key)));
    }
    assert!(plist.contains("<key>CFBundleIdentifier</key>\n    <string>com.nih-plug.bar</string>"));
    assert_eq!(disk.files.len(), 4);
}

#[test]
fn bundling_twice_leaves_the_same_files() {
    for (host, path, artifact) in [
        (LINUX, "target/debug/libfoo.so", elf_exporting(&["GetPluginFactory"])),
        (MACOS, "target/debug/libfoo.dylib", macho_exporting(&["GetPluginFactory"])),
    ] {
        let mut disk = Disk::with_file(path, artifact);
        let (first, first_log) = run(&mut disk, "foo", &[], None, host);
        let after_first = disk.clone();
        let (second, second_log) = run(&mut disk, "foo", &[], None, host);
        assert_eq!(first, second);
        assert_eq!(first_log, second_log);
        assert_eq!(disk.files, after_first.files);
        assert_eq!(disk.dirs, after_first.dirs);
    }
}

#[test]
fn stale_descriptors_are_overwritten() {
    let mut disk =
        Disk::with_file("target/debug/libbar.dylib", macho_exporting(&["GetPluginFactory"]));
    disk.dirs.insert("target/bundled/bar.vst3/Contents".to_string());
    disk.files.insert("target/bundled/bar.vst3/Contents/PkgInfo".to_string(), b"stale".to_vec());
    disk.files.insert("target/bundled/bar.vst3/Contents/MacOS/bar".to_string(), b"old".to_vec());
    let (last, _) = run(&mut disk, "bar", &[], None, MACOS);
    assert!(matches!(last, Action::Finish { .. }));
    assert_eq!(
        disk.files.get("target/bundled/bar.vst3/Contents/PkgInfo"),
        Some(&b"BNDL????".to_vec())
    );
    assert_ne!(disk.files.get("target/bundled/bar.vst3/Contents/MacOS/bar"), Some(&b"old".to_vec()));
}

#[test]
fn cross_compiled_release_build_is_found_under_its_triple() {
    let artifact = elf_exporting(&["GetPluginFactory"]);
    let mut disk =
        Disk::with_file("target/x86_64-unknown-linux-gnu/release/libfoo.so", artifact.clone());
    let args = ["--release", "--target", "x86_64-unknown-linux-gnu"];
    let (last, _) = run(&mut disk, "foo", &args, None, MACOS);
    assert_eq!(last, Action::Finish { bundles: vec!["target/bundled/foo.vst3".to_string()] });
    assert_eq!(
        disk.files.get("target/bundled/foo.vst3/Contents/x86_64-linux/foo.so"),
        Some(&artifact)
    );
    assert_eq!(
        disk.builds,
        vec![("foo".to_string(), args.iter().map(|s| s.to_string()).collect::<Vec<_>>())]
    );
}

#[test]
fn configured_name_names_the_bundle() {
    let mut config = BundlerConfig::new();
    config.insert("foo".to_string(), PackageConfig { name: Some("Foo Deluxe".to_string()) });
    let artifact = elf_exporting(&["GetPluginFactory"]);
    let mut disk = Disk::with_file("target/debug/libfoo.so", artifact.clone());
    let (last, _) = run(&mut disk, "foo", &[], Some(&config), LINUX);
    assert_eq!(last, Action::Finish { bundles: vec!["target/bundled/Foo Deluxe.vst3".to_string()] });
    assert_eq!(
        disk.files.get("target/bundled/Foo Deluxe.vst3/Contents/x86_64-linux/Foo Deluxe.so"),
        Some(&artifact)
    );
}

#[test]
fn dangling_target_flag_fails_before_the_build() {
    let mut disk = Disk::with_file("target/debug/libfoo.so", elf_exporting(&[]));
    let (last, log) = run(&mut disk, "foo", &["--release", "--target"], None, LINUX);
    assert_eq!(last, Action::Fail { error: BundleError::MissingTarget });
    assert!(log.is_empty());
    assert!(disk.builds.is_empty());
}

#[test]
fn failed_build_ends_the_run() {
    let mut disk = Disk::with_file("target/debug/libfoo.so", elf_exporting(&["GetPluginFactory"]));
    disk.build_succeeds = false;
    let (last, log) = run(&mut disk, "foo", &[], None, LINUX);
    assert_eq!(last, Action::Fail { error: BundleError::BuildFailed });
    assert_eq!(log.len(), 1);
}

#[test]
fn unknown_targets_end_the_run() {
    let mut disk = Disk::with_file("target/debug/libfoo.so", elf_exporting(&["GetPluginFactory"]));
    let (last, _) = run(&mut disk, "foo", &["--target=riscv64-unknown-linux-gnu"], None, LINUX);
    assert_eq!(
        last,
        Action::Fail {
            error: BundleError::UnknownTarget(UnknownTarget::Triple(
                "riscv64-unknown-linux-gnu".to_string()
            ))
        }
    );
    let (last, _) = run(&mut disk, "foo", &[], None, ("linux", "riscv64"));
    assert_eq!(last, Action::Fail { error: BundleError::UnknownTarget(UnknownTarget::Host) });
    assert_eq!(disk.files.len(), 1);
}

#[test]
fn missing_artifact_is_reported_with_its_path() {
    let mut disk = Disk::with_file("target/release/libfoo.so", elf_exporting(&["GetPluginFactory"]));
    let (last, _) = run(&mut disk, "foo", &[], None, LINUX);
    assert_eq!(
        last,
        Action::Fail { error: BundleError::NotFound { path: "target/debug/libfoo.so".to_string() } }
    );
}

#[test]
fn unreadable_artifact_is_reported_with_its_cause() {
    let whole = elf_exporting(&["GetPluginFactory"]);
    let mut disk = Disk::with_file("target/debug/libfoo.so", whole[..100].to_vec());
    let (last, _) = run(&mut disk, "foo", &[], None, LINUX);
    assert_eq!(
        last,
        Action::Fail {
            error: BundleError::Unclassifiable {
                path: "target/debug/libfoo.so".to_string(),
                cause: ParseError::Malformed
            }
        }
    );
    let mut disk = Disk::with_file("target/debug/libfoo.so", b"just text".to_vec());
    let (last, _) = run(&mut disk, "foo", &[], None, LINUX);
    assert_eq!(
        last,
        Action::Fail {
            error: BundleError::Unclassifiable {
                path: "target/debug/libfoo.so".to_string(),
                cause: ParseError::UnrecognizedFormat
            }
        }
    );
    assert_eq!(disk.files.len(), 1);
    assert!(disk.dirs.is_empty());
}

#[test]
fn failed_step_is_reported_with_its_path() {
    let mut disk = Disk::with_file("target/debug/libfoo.so", elf_exporting(&["GetPluginFactory"]));
    // a file stands where the bundle's directory should be
    disk.files.insert("target/bundled".to_string(), vec![]);
    let (last, _) = run(&mut disk, "foo", &[], None, LINUX);
    assert_eq!(
        last,
        Action::Fail {
            error: BundleError::Io {
                path: "target/bundled/foo.vst3/Contents/x86_64-linux".to_string()
            }
        }
    );
}

fn linux_job() -> Job {
    Job {
        package: "foo".to_string(),
        bundle_name: "foo".to_string(),
        flags: BuildFlags { release: false, cross_target: None },
        host_os: "linux".to_string(),
        host_arch: "x86_64".to_string(),
    }
}

#[test]
fn failures_while_reading_name_the_artifact() {
    let job = linux_job();
    let path = "target/debug/libfoo.so".to_string();
    let target = CompilationTarget::Linux64;
    assert_eq!(
        step(&job, Stage::Locating { artifact: path.clone(), target }, Event::Failed),
        (Stage::Finished, Action::Fail { error: BundleError::Io { path: path.clone() } })
    );
    assert_eq!(
        step(&job, Stage::Reading { artifact: path.clone(), target }, Event::Failed),
        (Stage::Finished, Action::Fail { error: BundleError::Io { path: path.clone() } })
    );
    assert_eq!(
        step(&job, Stage::Building, Event::Failed),
        (Stage::Finished, Action::Fail { error: BundleError::BuildFailed })
    );
}

#[test]
fn failed_placement_names_the_destination() {
    let job = linux_job();
    let work = vec![
        Step::CreateDirs { path: "a/b".to_string() },
        Step::Place { from: "x".to_string(), to: "a/b/y".to_string() },
        Step::Write { path: "a/z".to_string(), contents: "text".to_string() },
    ];
    for (next, path) in [(1usize, "a/b"), (2, "a/b/y"), (3, "a/z")] {
        let stage = Stage::Assembling { work: work.clone_steps(), next, bundles: vec![] };
        assert_eq!(
            step(&job, stage, Event::Failed),
            (Stage::Finished, Action::Fail { error: BundleError::Io { path: path.to_string() } })
        );
    }
}

trait CloneSteps {
    fn clone_steps(&self) -> Vec<Step>;
}

impl CloneSteps for Vec<Step> {
    fn clone_steps(&self) -> Vec<Step> {
        self.iter()
            .map(|s| match s {
                Step::CreateDirs { path } => Step::CreateDirs { path: path.clone() },
                Step::Place { from, to } => Step::Place { from: from.clone(), to: to.clone() },
                Step::Write { path, contents } => {
                    Step::Write { path: path.clone(), contents: contents.clone() }
                }
            })
            .collect()
    }
}

#[test]
fn steps_are_asked_for_one_after_the_other() {
    let job = linux_job();
    let work = vec![
        Step::CreateDirs { path: "a/b".to_string() },
        Step::Write { path: "a/z".to_string(), contents: "text".to_string() },
    ];
    let bundles = vec!["a".to_string()];
    let stage = Stage::Assembling { work: work.clone_steps(), next: 0, bundles: bundles.clone() };
    let (stage, action) = step(&job, stage, Event::Completed);
    assert_eq!(action, Action::Perform(Step::CreateDirs { path: "a/b".to_string() }));
    assert_eq!(
        stage,
        Stage::Assembling { work: work.clone_steps(), next: 1, bundles: bundles.clone() }
    );
    let (stage, action) = step(&job, stage, Event::Completed);
    assert_eq!(
        action,
        Action::Perform(Step::Write { path: "a/z".to_string(), contents: "text".to_string() })
    );
    let (stage, action) = step(&job, stage, Event::Completed);
    assert_eq!(action, Action::Finish { bundles });
    assert_eq!(stage, Stage::Finished);
}

#[test]
fn events_out_of_turn_end_the_run() {
    let job = linux_job();
    let path = "target/debug/libfoo.so".to_string();
    let target = CompilationTarget::Linux64;
    let out_of_turn = (Stage::Finished, Action::Fail { error: BundleError::OutOfTurn });
    assert_eq!(step(&job, Stage::Building, Event::Exists(true)), out_of_turn);
    assert_eq!(step(&job, Stage::Building, Event::Completed), out_of_turn);
    assert_eq!(step(&job, Stage::Building, Event::Contents(vec![])), out_of_turn);
    assert_eq!(
        step(&job, Stage::Locating { artifact: path.clone(), target }, Event::Built(true)),
        out_of_turn
    );
    assert_eq!(
        step(&job, Stage::Reading { artifact: path.clone(), target }, Event::Exists(true)),
        out_of_turn
    );
    let stage = Stage::Assembling { work: vec![], next: 0, bundles: vec![] };
    assert_eq!(step(&job, stage, Event::Built(true)), out_of_turn);
    let stage = Stage::Assembling { work: vec![], next: 0, bundles: vec![] };
    assert_eq!(step(&job, stage, Event::Failed), out_of_turn);
    let stage = Stage::Assembling { work: vec![], next: 5, bundles: vec![] };
    assert_eq!(step(&job, stage, Event::Failed), out_of_turn);
    for event in [Event::Built(true), Event::Exists(true), Event::Completed, Event::Failed] {
        assert_eq!(step(&job, Stage::Finished, event), out_of_turn);
    }
}

#[test]
fn begin_fixes_the_job() {
    let mut config = BundlerConfig::new();
    config.insert("foo".to_string(), PackageConfig { name: Some("Foo".to_string()) });
    let args = vec!["--target=x86_64-apple-darwin".to_string(), "--release".to_string()];
    let started = begin("foo", args.clone(), Some(&config), "linux", "x86_64");
    assert_eq!(
        started,
        Ok((
            Job {
                package: "foo".to_string(),
                bundle_name: "Foo".to_string(),
                flags: BuildFlags {
                    release: true,
                    cross_target: Some("x86_64-apple-darwin".to_string())
                },
                host_os: "linux".to_string(),
                host_arch: "x86_64".to_string(),
            },
            Stage::Building,
            Action::Build { package: "foo".to_string(), args },
        ))
    );
}
