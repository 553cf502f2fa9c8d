//! The build option model: an immutable, validated set of user-supplied
//! options, together with the fixed string constants of the toolchain.

use vstd::prelude::*;

verus! {

/// The fixed custom compilation target identifier.  Generated paths and
/// flags depend on it, so it is a stable compatibility surface.
pub open spec fn build_target() -> Seq<char> {
    "riscv32im-succinct-zkvm-elf"@
}

/// The fixed target identifier as an owned string.
pub fn build_target_name() -> (r: String)
    ensures
        r@ == build_target(),
{
    "riscv32im-succinct-zkvm-elf".to_owned()
}

/// The default container image tag used when none is supplied.
pub open spec fn default_tag() -> Seq<char> {
    "v1.1.0"@
}

/// The default container image tag as an owned string.
pub fn default_tag_name() -> (r: String)
    ensures
        r@ == default_tag(),
{
    "v1.1.0".to_owned()
}

/// The default directory, relative to the workspace, that the final
/// artifact is copied into.
pub open spec fn default_output_dir() -> Seq<char> {
    "elf"@
}

/// The default output directory as an owned string.
pub fn default_output_dir_name() -> (r: String)
    ensures
        r@ == default_output_dir(),
{
    "elf".to_owned()
}

/// The dedicated sub-directory of the toolchain's target directory that
/// this tool builds into, so that it never shares build state with the
/// caller's own builds.
pub open spec fn helper_target_subdir() -> Seq<char> {
    "elf-compilation"@
}

/// The helper target sub-directory as an owned string.
pub fn helper_target_subdir_name() -> (r: String)
    ensures
        r@ == helper_target_subdir(),
{
    "elf-compilation".to_owned()
}

/// Options for one build invocation.  Constructed once and then only
/// read; every downstream component receives it by shared reference.
///
/// An empty `binary` or `elf_name` means "unset": `binary` empty builds
/// all binaries and falls back to the package name when a source file
/// name is needed, and `elf_name` empty derives the destination name
/// from `binary` or from the fixed target identifier.
#[derive(Clone, Debug)]
pub struct BuildArgs {
    /// Run the compilation through the containerized backend.
    pub docker: bool,
    /// Container image tag to use when `docker` is set.
    pub tag: String,
    /// Feature names passed through in order, duplicates permitted.
    pub features: Vec<String>,
    /// Do not activate the default feature.
    pub no_default_features: bool,
    /// Skip the minimum-toolchain-version check.
    pub ignore_rust_version: bool,
    /// Require the dependency lockfile to be used as-is.
    pub locked: bool,
    /// Build only this binary; empty means all binaries.
    pub binary: String,
    /// Name for the copied artifact; empty means derive it.
    pub elf_name: String,
    /// Directory the artifact is copied into, relative or absolute.
    pub output_directory: String,
}

impl Default for BuildArgs {
    /// The defaults: local build, default tag, no features, no
    /// restrictions, artifact copied into the default output directory.
    fn default() -> (r: Self)
        ensures
            r.docker == false,
            r.tag@ == default_tag(),
            r.features@.len() == 0,
            r.no_default_features == false,
            r.ignore_rust_version == false,
            r.locked == false,
            r.binary@.len() == 0,
            r.elf_name@.len() == 0,
            r.output_directory@ == default_output_dir(),
    {
        BuildArgs {
            docker: false,
            tag: default_tag_name(),
            features: Vec::new(),
            no_default_features: false,
            ignore_rust_version: false,
            locked: false,
            binary: String::new(),
            elf_name: String::new(),
            output_directory: default_output_dir_name(),
        }
    }
}

} // verus!
