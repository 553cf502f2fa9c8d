//! The command builder: combines the translated arguments with the
//! filesystem and metadata context into a fully configured, not yet
//! started subprocess description.
//!
//! The builder is pure.  Everything it needs from the environment (the
//! resolved program directory, whether the caller already sets the
//! target C compiler, the default cross-compiler if one is installed)
//! is handed in as plain values, and the environment changes it decides
//! on are returned as explicit override lists; the calling process's
//! own environment is never touched.

use vstd::prelude::*;
use crate::errors::BuildError;
use crate::flags::encoded_rustflags;
use crate::flags::get_program_build_args;
use crate::flags::get_rust_compiler_flags;
use crate::flags::program_build_args_spec;
use crate::options::BuildArgs;
use crate::options::helper_target_subdir;
use crate::options::helper_target_subdir_name;
use crate::path::join_path;
use crate::path::path_join;

verus! {

/// What the metadata collaborator reports about the workspace: the
/// root package name (absent for an unnamed virtual workspace) and the
/// absolute target directory.  Read-only input, not owned by the core.
pub struct PackageMetadata {
    /// The root package name, when the workspace has one.
    pub root_package_name: Option<String>,
    /// The workspace's absolute target/output directory.
    pub target_directory: String,
}

/// A fully configured, not yet started subprocess: program, working
/// directory, ordered arguments, and explicit environment overrides.
/// Constructed once per build attempt and executed exactly once.
pub struct SubprocessSpec {
    /// The program to start.
    pub program: String,
    /// The directory the subprocess runs in.
    pub working_directory: String,
    /// The ordered argument list.
    pub arguments: Vec<String>,
    /// Environment variables set for the subprocess, in order.
    pub env_set: Vec<(String, String)>,
    /// Environment variables removed for the subprocess.
    pub env_unset: Vec<String>,
}

/// The environment variable that names the C cross-compiler for the
/// fixed custom target.
pub open spec fn cc_env_var() -> Seq<char> {
    "CC_riscv32im_succinct_zkvm_elf"@
}

/// The per-user path where the default C cross-compiler is installed:
/// `.sp1/bin/riscv32-unknown-elf-gcc` under the given home directory.
pub open spec fn cc_candidate_spec(home_dir: Seq<char>) -> Seq<char> {
    path_join(path_join(path_join(home_dir, ".sp1"@), "bin"@), "riscv32-unknown-elf-gcc"@)
}

/// Where the default C cross-compiler would be installed under the
/// given home directory.
pub fn default_cc_candidate(home_dir: &str) -> (r: String)
    ensures
        r@ == cc_candidate_spec(home_dir@),
{
    let a = join_path(home_dir, ".sp1");
    let b = join_path(a.as_str(), "bin");
    join_path(b.as_str(), "riscv32-unknown-elf-gcc")
}

/// Which C compiler the command sets, if any: the candidate only when
/// the caller's environment does not already choose one and a default
/// compiler is installed.  Absence is never an error here; it only
/// matters later if the compile step itself needs the compiler.
pub open spec fn effective_cc_spec(cc_already_set: bool, cc_candidate: Option<Seq<char>>) -> Option<
    Seq<char>,
> {
    if cc_already_set {
        None
    } else {
        cc_candidate
    }
}

/// The environment overrides of a local build: force the dedicated
/// toolchain, hand the encoded compiler flags through, redirect the
/// target directory into the dedicated sub-directory, and set the C
/// cross-compiler when `cc` says one should be set.
pub open spec fn local_env_spec(target_directory: Seq<char>, cc: Option<Seq<char>>) -> Seq<
    (Seq<char>, Seq<char>),
> {
    let base = seq![
        ("RUSTUP_TOOLCHAIN"@, "succinct"@),
        ("CARGO_ENCODED_RUSTFLAGS"@, encoded_rustflags()),
        ("CARGO_TARGET_DIR"@, path_join(target_directory, helper_target_subdir())),
    ];
    match cc {
        Some(cc_path) => seq![(cc_env_var(), cc_path)] + base,
        None => base,
    }
}

/// Whatever the options and the environment probes said, the overrides
/// of a local build always carry the same encoded compiler flags: the
/// flags are independent of every user option.
pub proof fn lemma_env_always_carries_encoded_flags(
    target_directory: Seq<char>,
    cc: Option<Seq<char>>,
)
    ensures
        ({
            let env = local_env_spec(target_directory, cc);
            exists|i: int|
                0 <= i < env.len() && #[trigger] env[i] == (
                    "CARGO_ENCODED_RUSTFLAGS"@,
                    encoded_rustflags(),
                )
        }),
{
    let env = local_env_spec(target_directory, cc);
    match cc {
        Some(cc_path) => {
            assert(env[2] == ("CARGO_ENCODED_RUSTFLAGS"@, encoded_rustflags()));
        },
        None => {
            assert(env[1] == ("CARGO_ENCODED_RUSTFLAGS"@, encoded_rustflags()));
        },
    }
}

/// Build the subprocess description for a local (non-containerized)
/// build.
///
/// `program_dir` is the directory as the caller gave it and
/// `resolved_program_dir` its canonical absolute form, or `None` when
/// it could not be resolved — the one configuration error this builder
/// reports.  `cc_already_set` says whether the caller's environment
/// already names a C compiler for the target, and `cc_candidate` is
/// the installed default compiler, if any.
///
/// On success the subprocess runs the toolchain driver in the resolved
/// directory with exactly the translated arguments, the environment
/// overrides of a local build, and the inherited raw-compiler override
/// removed, so that build-script sub-invocations cannot fall back to
/// the host's default toolchain.
pub fn create_local_command(
    args: &BuildArgs,
    program_dir: &String,
    resolved_program_dir: &Option<String>,
    metadata: &PackageMetadata,
    cc_already_set: bool,
    cc_candidate: &Option<String>,
) -> (r: Result<SubprocessSpec, BuildError>)
    ensures
        resolved_program_dir is Some <==> r is Ok,
        match r {
            Ok(spec) => {
                &&& spec.program@ == "cargo"@
                &&& spec.working_directory@ == resolved_program_dir->Some_0@
                &&& spec.arguments.deep_view() == program_build_args_spec(*args)
                &&& spec.env_set.deep_view() == local_env_spec(
                    metadata.target_directory@,
                    effective_cc_spec(cc_already_set, cc_candidate.deep_view()),
                )
                &&& spec.env_unset.deep_view() == seq!["RUSTC"@]
            },
            Err(e) => e matches BuildError::Configuration { path } && path@ == program_dir@,
        },
{
    let working_directory = match resolved_program_dir {
        Some(dir) => dir.clone(),
        None => {
            return Err(BuildError::Configuration { path: program_dir.clone() });
        },
    };
    let mut env_set: Vec<(String, String)> = Vec::new();
    if !cc_already_set {
        match cc_candidate {
            Some(cc_path) => {
                env_set.push(("CC_riscv32im_succinct_zkvm_elf".to_owned(), cc_path.clone()));
            },
            None => {},
        }
    }
    env_set.push(("RUSTUP_TOOLCHAIN".to_owned(), "succinct".to_owned()));
    env_set.push(("CARGO_ENCODED_RUSTFLAGS".to_owned(), get_rust_compiler_flags()));
    let target_dir = join_path(metadata.target_directory.as_str(), "elf-compilation");
    env_set.push(("CARGO_TARGET_DIR".to_owned(), target_dir));
    let mut env_unset: Vec<String> = Vec::new();
    env_unset.push("RUSTC".to_owned());
    proof {
        assert(helper_target_subdir() == "elf-compilation"@);
        assert(env_set.deep_view() =~= local_env_spec(
            metadata.target_directory@,
            effective_cc_spec(cc_already_set, cc_candidate.deep_view()),
        ));
        assert(env_unset.deep_view() =~= seq!["RUSTC"@]);
    }
    Ok(
        SubprocessSpec {
            program: "cargo".to_owned(),
            working_directory,
            arguments: get_program_build_args(args),
            env_set,
            env_unset,
        },
    )
}

} // verus!
