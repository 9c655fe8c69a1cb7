//! Build facts.

use aurora::built_info::BuiltInfo;

fn this_build() -> BuiltInfo {
    BuiltInfo::new(
        "x86_64-unknown-linux-gnu",
        "x86_64-unknown-linux-gnu",
        false,
        "rustc 1.0.0",
        "0",
        true,
        &[],
        "x86_64",
        "little",
        "gnu",
        "unix",
        "linux",
        "64",
        &[],
        None,
        None,
        None,
        None,
    )
}

#[test]
fn print_built_info() {
    let info = this_build();
    println!("{info:#?}");
}

#[test]
fn built_info_keeps_what_it_is_given() {
    let info = this_build();
    assert_eq!(info.pkg_name, "aurora");
    assert_eq!(info.pkg_version, "0.12.0");
    assert_eq!(info.profile, "debug");
    assert!(info.debug);
    assert_eq!(info.cfg_os, "linux");
    assert_eq!(info.cfg_endian, "little");
    let tagged = BuiltInfo::new(
        "t", "h", true, "r", "3", false, &["std"], "a", "e", "v", "f", "o", "w", &["X"], Some("v1"), Some(false),
        Some("refs/heads/main"), Some("0123456789abcdef0123456789abcdef01234567"),
    );
    assert_eq!(tagged.profile, "release");
    assert_eq!(tagged.target, "t");
    assert_eq!(tagged.host, "h");
    assert_eq!(tagged.rustc_version, "r");
    assert_eq!(tagged.opt_level, "3");
    assert_eq!(tagged.features, &["std"]);
    assert_eq!(tagged.override_variables_used, &["X"]);
    assert_eq!(tagged.git_version, Some("v1"));
    assert_eq!(tagged.git_dirty, Some(false));
    assert_eq!(tagged.git_head_ref, Some("refs/heads/main"));
    assert_eq!(tagged.git_commit_hash, Some("0123456789abcdef0123456789abcdef01234567"));
}
