use vstd::prelude::*;

verus! {

/// The name this provider registers itself under.
pub const PROV_NAME: &'static str = "aurora";

/// The version of this provider.
pub const PROV_VER: &'static str = "0.12.0";

/// Facts about the build of this library.
///
/// The package name and version are fixed by the package; the other facts
/// are recorded by the build and handed to [`BuiltInfo::new`].
#[derive(Debug, Clone, Copy)]
pub struct BuiltInfo {
    /// The name of the package.
    pub pkg_name: &'static str,
    /// The full version.
    pub pkg_version: &'static str,
    /// The target triple that was being compiled for.
    pub target: &'static str,
    /// The host triple of the rust compiler.
    pub host: &'static str,
    /// `release` for release builds, `debug` for other builds.
    pub profile: &'static str,
    /// The output of `rustc -V`.
    pub rustc_version: &'static str,
    /// Value of OPT_LEVEL for the profile used during compilation.
    pub opt_level: &'static str,
    /// Value of DEBUG for the profile used during compilation.
    pub debug: bool,
    /// The features that were enabled during compilation.
    pub features: &'static [&'static str],
    /// The target architecture.
    pub cfg_target_arch: &'static str,
    /// The endianness.
    pub cfg_endian: &'static str,
    /// The toolchain environment.
    pub cfg_env: &'static str,
    /// The OS family.
    pub cfg_family: &'static str,
    /// The operating system.
    pub cfg_os: &'static str,
    /// The pointer width.
    pub cfg_pointer_width: &'static str,
    /// The override variables that were used during compilation.
    pub override_variables_used: &'static [&'static str],
    /// HEAD's tag, or its short commit id if HEAD is not tagged.
    pub git_version: Option<&'static str>,
    /// Whether the repository had dirty or staged files.
    pub git_dirty: Option<bool>,
    /// The full name of the reference HEAD points to.
    pub git_head_ref: Option<&'static str>,
    /// HEAD's full commit hash.
    pub git_commit_hash: Option<&'static str>,
}

/// Whether `c` is a hexadecimal digit (either case).
pub open spec fn is_hex_digit(c: char) -> bool {
    ('0' <= c && c <= '9') || ('a' <= c && c <= 'f') || ('A' <= c && c <= 'F')
}

/// The git facts of a build inside a git repository hang together: a
/// commit hash is a full SHA-1 of 40 hexadecimal digits, and a head
/// reference comes only with a commit hash.
pub open spec fn git_facts_wf(git_head_ref: Option<&'static str>, git_commit_hash: Option<&'static str>) -> bool {
    &&& git_commit_hash matches Some(h) ==> h@.len() == 40 && forall|i: int|
        0 <= i < 40 ==> #[trigger] is_hex_digit(h@[i])
    &&& git_head_ref is Some ==> git_commit_hash is Some
}

impl BuiltInfo {
    /// The build facts of this library: its package name and version, and
    /// the facts the build recorded, as given. The profile is `release` for
    /// release builds and `debug` for other builds. The git facts must hang
    /// together (see [`git_facts_wf`]), as a build records them.
    pub fn new(
        target: &'static str,
        host: &'static str,
        release: bool,
        rustc_version: &'static str,
        opt_level: &'static str,
        debug: bool,
        features: &'static [&'static str],
        cfg_target_arch: &'static str,
        cfg_endian: &'static str,
        cfg_env: &'static str,
        cfg_family: &'static str,
        cfg_os: &'static str,
        cfg_pointer_width: &'static str,
        override_variables_used: &'static [&'static str],
        git_version: Option<&'static str>,
        git_dirty: Option<bool>,
        git_head_ref: Option<&'static str>,
        git_commit_hash: Option<&'static str>,
    ) -> (info: Self)
        requires
            git_facts_wf(git_head_ref, git_commit_hash),
        ensures
            git_facts_wf(info.git_head_ref, info.git_commit_hash),
            info.pkg_name == PROV_NAME,
            info.pkg_version == PROV_VER,
            info.target == target,
            info.host == host,
            info.profile@ == if release {
                "release"@
            } else {
                "debug"@
            },
            info.rustc_version == rustc_version,
            info.opt_level == opt_level,
            info.debug == debug,
            info.features == features,
            info.cfg_target_arch == cfg_target_arch,
            info.cfg_endian == cfg_endian,
            info.cfg_env == cfg_env,
            info.cfg_family == cfg_family,
            info.cfg_os == cfg_os,
            info.cfg_pointer_width == cfg_pointer_width,
            info.override_variables_used == override_variables_used,
            info.git_version == git_version,
            info.git_dirty == git_dirty,
            info.git_head_ref == git_head_ref,
            info.git_commit_hash == git_commit_hash,
    {
        let profile = if release {
            "release"
        } else {
            "debug"
        };
        BuiltInfo {
            pkg_name: PROV_NAME,
            pkg_version: PROV_VER,
            target,
            host,
            profile,
            rustc_version,
            opt_level,
            debug,
            features,
            cfg_target_arch,
            cfg_endian,
            cfg_env,
            cfg_family,
            cfg_os,
            cfg_pointer_width,
            override_variables_used,
            git_version,
            git_dirty,
            git_head_ref,
            git_commit_hash,
        }
    }
}

} // verus!
