use nih_plug_xtask::config::{bundle_name, known_packages, BundlerConfig, PackageConfig};
use nih_plug_xtask::flags::{parse_flags, BuildFlags, MissingTarget};
use nih_plug_xtask::text::{after_prefix, same_bytes, same_text};
use nih_plug_xtask::wrapper::util::strlcpy;

fn named(name: &str) -> PackageConfig {
    PackageConfig { name: Some(name.to_string()) }
}

fn args(list: &[&str]) -> Vec<String> {
    list.iter().map(|s| s.to_string()).collect()
}

fn flags(release: bool, cross_target: Option<&str>) -> Result<BuildFlags, MissingTarget> {
    Ok(BuildFlags { release, cross_target: cross_target.map(|s| s.to_string()) })
}

#[test]
fn texts_are_compared_exactly() {
    assert!(same_text("", ""));
    assert!(same_text("--target", "--target"));
    assert!(!same_text("--target", "--target="));
    assert!(!same_text("--target", "--targeT"));
    assert!(same_text("größe", "größe"));
    assert!(!same_text("große", "größe"));
    assert!(same_bytes(b"abc", b"abc"));
    assert!(!same_bytes(b"abc", b"abd"));
    assert!(!same_bytes(b"abc", b"ab"));
}

#[test]
fn prefixes_are_split_off_by_characters() {
    assert_eq!(after_prefix("--target=x86_64", "--target="), Some("x86_64"));
    assert_eq!(after_prefix("--target=", "--target="), Some(""));
    assert_eq!(after_prefix("--target", "--target="), None);
    assert_eq!(after_prefix("--targets=x", "--target="), None);
    assert_eq!(after_prefix("anything", ""), Some("anything"));
    assert_eq!(after_prefix("größe=ä", "größe="), Some("ä"));
    assert_eq!(after_prefix("", "x"), None);
}

#[test]
fn no_flags_mean_a_native_debug_build() {
    assert_eq!(parse_flags(&args(&[])), flags(false, None));
    assert_eq!(parse_flags(&args(&["--features", "simd", "-v"])), flags(false, None));
}

#[test]
fn release_is_found_anywhere() {
    assert_eq!(parse_flags(&args(&["--release"])), flags(true, None));
    assert_eq!(parse_flags(&args(&["-v", "--release", "-j", "4"])), flags(true, None));
    assert_eq!(parse_flags(&args(&["--Release"])), flags(false, None));
    assert_eq!(parse_flags(&args(&["--release=true"])), flags(false, None));
}

#[test]
fn target_is_read_in_both_spellings() {
    assert_eq!(
        parse_flags(&args(&["--target", "x86_64-pc-windows-gnu"])),
        flags(false, Some("x86_64-pc-windows-gnu"))
    );
    assert_eq!(
        parse_flags(&args(&["--target=x86_64-apple-darwin", "--release"])),
        flags(true, Some("x86_64-apple-darwin"))
    );
    assert_eq!(parse_flags(&args(&["--target="])), flags(false, Some("")));
    assert_eq!(parse_flags(&args(&["--target", "--release"])), flags(true, Some("--release")));
}

#[test]
fn the_first_target_counts() {
    assert_eq!(
        parse_flags(&args(&["--target", "a", "--target=b", "--target", "c"])),
        flags(false, Some("a"))
    );
    assert_eq!(parse_flags(&args(&["--target=b", "--target", "a"])), flags(false, Some("b")));
    assert_eq!(parse_flags(&args(&["--target", "--target", "x"])), flags(false, Some("--target")));
}

#[test]
fn a_dangling_target_is_an_error() {
    assert_eq!(parse_flags(&args(&["--target"])), Err(MissingTarget));
    assert_eq!(parse_flags(&args(&["--release", "--target"])), Err(MissingTarget));
    assert_eq!(parse_flags(&args(&["--target=a", "--target"])), Err(MissingTarget));
}

#[test]
fn bundle_name_defaults_to_the_package() {
    assert_eq!(bundle_name(None, "foo"), "foo");
    let mut config = BundlerConfig::new();
    assert_eq!(bundle_name(Some(&config), "foo"), "foo");
    config.insert("bar".to_string(), named("Bar Deluxe"));
    config.insert("baz".to_string(), PackageConfig { name: None });
    assert_eq!(bundle_name(Some(&config), "foo"), "foo");
    assert_eq!(bundle_name(Some(&config), "baz"), "baz");
    assert_eq!(bundle_name(Some(&config), "bar"), "Bar Deluxe");
    assert_eq!(bundle_name(Some(&config), "Bar"), "Bar");
}

#[test]
fn a_package_has_one_entry() {
    let mut config = BundlerConfig::new();
    assert_eq!(config.len(), 0);
    assert_eq!(config.get("foo"), None);
    config.insert("foo".to_string(), named("One"));
    config.insert("bar".to_string(), named("Two"));
    config.insert("foo".to_string(), named("Three"));
    assert_eq!(config.len(), 2);
    assert_eq!(config.get("foo"), Some(&named("Three")));
    assert_eq!(config.get("bar"), Some(&named("Two")));
    assert_eq!(config.get("baz"), None);
    assert_eq!(config.packages(), vec!["foo".to_string(), "bar".to_string()]);
    config.insert("foo".to_string(), PackageConfig { name: None });
    assert_eq!(config.get("foo"), Some(&PackageConfig { name: None }));
    assert_eq!(config.len(), 2);
}

#[test]
fn known_packages_are_the_configured_ones() {
    assert_eq!(known_packages(None), Vec::<String>::new());
    let mut config = BundlerConfig::new();
    assert_eq!(known_packages(Some(&config)), Vec::<String>::new());
    config.insert("gain".to_string(), named("Gain"));
    config.insert("sine".to_string(), PackageConfig { name: None });
    assert_eq!(known_packages(Some(&config)), vec!["gain".to_string(), "sine".to_string()]);
}

#[test]
fn strlcpy_copies_and_terminates() {
    let mut dest = [0x55i8; 8];
    strlcpy(&mut dest, "abc");
    assert_eq!(dest, [97, 98, 99, 0, 0x55, 0x55, 0x55, 0x55]);
}

#[test]
fn strlcpy_truncates_to_leave_room_for_the_terminator() {
    let mut dest = [0x55i8; 4];
    strlcpy(&mut dest, "abcdefgh");
    assert_eq!(dest, [97, 98, 99, 0]);
    let mut dest = [0x55i8; 4];
    strlcpy(&mut dest, "abc");
    assert_eq!(dest, [97, 98, 99, 0]);
    let mut dest = [0x55i8; 4];
    strlcpy(&mut dest, "abcd");
    assert_eq!(dest, [97, 98, 99, 0]);
    let mut dest = [0x55i8; 1];
    strlcpy(&mut dest, "abc");
    assert_eq!(dest, [0]);
}

#[test]
fn strlcpy_leaves_an_empty_buffer_alone() {
    let mut dest: [i8; 0] = [];
    strlcpy(&mut dest, "abc");
    assert_eq!(dest, []);
    let mut dest = [0x55i8; 3];
    strlcpy(&mut dest, "");
    assert_eq!(dest, [0, 0x55, 0x55]);
}

#[test]
fn strlcpy_keeps_the_bit_pattern_of_every_byte() {
    let mut dest = [0i8; 8];
    strlcpy(&mut dest, "é\u{7f}ÿ");
    assert_eq!(dest, [-61, -87, 127, -61, -65, 0, 0, 0]);
}
