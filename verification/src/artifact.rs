//! The artifact resolver: where the toolchain writes the compiled
//! artifact, and where it is copied to for the user.  Both paths are
//! recomputed from scratch on every invocation; nothing derived is
//! ever cached.  The copy itself, and creating the output directory,
//! are filesystem work left to the embedding application.

use vstd::prelude::*;
use vstd::string::StringExecFns;
use crate::errors::BuildError;
use crate::command::PackageMetadata;
use crate::options::BuildArgs;
use crate::options::build_target;
use crate::options::build_target_name;
use crate::options::helper_target_subdir;
use crate::options::helper_target_subdir_name;
use crate::path::join_path;
use crate::path::parent_dir;
use crate::path::path_join;
use crate::path::path_parent;

verus! {

/// The sub-directory of the target directory that this build's output
/// lands in.  A containerized build gets one extra nested segment, so
/// local and containerized builds never share build state.
pub open spec fn target_dir_suffix(docker: bool) -> Seq<char> {
    if docker {
        helper_target_subdir() + "/"@ + "docker"@
    } else {
        helper_target_subdir()
    }
}

/// The target-directory suffix for the chosen backend.
pub fn target_dir_suffix_name(docker: bool) -> (r: String)
    ensures
        r@ == target_dir_suffix(docker),
{
    let mut r = helper_target_subdir_name();
    if docker {
        r.append("/");
        r.append("docker");
    }
    r
}

/// The file name the toolchain gives the compiled artifact: the
/// requested binary when one is named, else the root package name;
/// nothing, when neither exists.
pub open spec fn source_file_name_spec(binary: Seq<char>, root_package_name: Option<Seq<char>>) -> Option<
    Seq<char>,
> {
    if binary.len() > 0 {
        Some(binary)
    } else {
        root_package_name
    }
}

/// The toolchain-internal path of the compiled artifact: the target
/// directory, the backend-dependent suffix, the fixed target
/// identifier, the release directory, and the file name.
pub open spec fn source_path_spec(
    target_directory: Seq<char>,
    docker: bool,
    file_name: Seq<char>,
) -> Seq<char> {
    path_join(
        path_join(
            path_join(path_join(target_directory, target_dir_suffix(docker)), build_target()),
            "release"@,
        ),
        file_name,
    )
}

/// The user-facing name of the copied artifact: the artifact name when
/// given, else the binary name, else the fixed target identifier.  It
/// never falls back to the package name — an intentional asymmetry
/// with the source-name resolution, kept for compatibility.
pub open spec fn destination_name_spec(elf_name: Seq<char>, binary: Seq<char>) -> Seq<char> {
    if elf_name.len() > 0 {
        elf_name
    } else if binary.len() > 0 {
        binary
    } else {
        build_target()
    }
}

/// The directory the artifact is copied into: the requested output
/// directory, relative or absolute as given, resolved against the
/// parent of the target directory.
pub open spec fn destination_dir_spec(
    target_directory: Seq<char>,
    output_directory: Seq<char>,
) -> Seq<char> {
    path_join(path_parent(target_directory), output_directory)
}

/// Where the compiled artifact is read from and where it is copied to,
/// both derived deterministically from the options and the metadata.
pub struct ArtifactLocation {
    /// The toolchain-internal path of the compiled artifact.
    pub source_path: String,
    /// The directory the artifact is copied into; created recursively
    /// by the caller if absent.
    pub destination_directory: String,
    /// The final, user-facing path of the copied artifact.
    pub destination_path: String,
}

/// Resolve the artifact's source and destination for the given options
/// and metadata.
///
/// Resolution succeeds exactly when a source file name exists: a
/// non-empty binary name, or failing that a root package name.  An
/// unnamed workspace with no binary requested is the one error here.
pub fn resolve_artifact_location(args: &BuildArgs, metadata: &PackageMetadata) -> (r: Result<
    ArtifactLocation,
    BuildError,
>)
    ensures
        r is Ok <==> (args.binary@.len() > 0 || metadata.root_package_name is Some),
        match r {
            Ok(loc) => {
                let file = source_file_name_spec(
                    args.binary@,
                    metadata.root_package_name.deep_view(),
                );
                &&& file is Some
                &&& loc.source_path@ == source_path_spec(
                    metadata.target_directory@,
                    args.docker,
                    file->Some_0,
                )
                &&& loc.destination_directory@ == destination_dir_spec(
                    metadata.target_directory@,
                    args.output_directory@,
                )
                &&& loc.destination_path@ == path_join(
                    destination_dir_spec(metadata.target_directory@, args.output_directory@),
                    destination_name_spec(args.elf_name@, args.binary@),
                )
            },
            Err(e) => e == BuildError::MissingPackageName,
        },
{
    let source_file_name = if !args.binary.as_str().is_empty() {
        args.binary.clone()
    } else {
        match &metadata.root_package_name {
            Some(name) => name.clone(),
            None => {
                return Err(BuildError::MissingPackageName);
            },
        }
    };
    let suffix = target_dir_suffix_name(args.docker);
    let under_target = join_path(metadata.target_directory.as_str(), suffix.as_str());
    let target_name = build_target_name();
    let under_triple = join_path(under_target.as_str(), target_name.as_str());
    let release_dir = join_path(under_triple.as_str(), "release");
    let source_path = join_path(release_dir.as_str(), source_file_name.as_str());
    let elf_name = if !args.elf_name.as_str().is_empty() {
        args.elf_name.clone()
    } else if !args.binary.as_str().is_empty() {
        args.binary.clone()
    } else {
        build_target_name()
    };
    let parent = parent_dir(metadata.target_directory.as_str());
    let destination_directory = join_path(parent.as_str(), args.output_directory.as_str());
    let destination_path = join_path(destination_directory.as_str(), elf_name.as_str());
    Ok(ArtifactLocation { source_path, destination_directory, destination_path })
}

/// Destination-name precedence: a given artifact name always wins, the
/// binary name comes second, and with neither set the name is the
/// fixed target identifier — by construction never the package name.
pub proof fn lemma_destination_name_precedence(elf_name: Seq<char>, binary: Seq<char>)
    ensures
        elf_name.len() > 0 ==> destination_name_spec(elf_name, binary) == elf_name,
        elf_name.len() == 0 && binary.len() > 0 ==> destination_name_spec(elf_name, binary)
            == binary,
        elf_name.len() == 0 && binary.len() == 0 ==> destination_name_spec(elf_name, binary)
            == build_target(),
{
}

/// Toggling the containerized backend changes the source path by
/// inserting exactly one additional path segment after the helper
/// sub-directory, and nothing else.
///
/// The one family of inputs left out is a file name that is itself
/// absolute: joining replaces the whole path with it, so both
/// backends then compute the same path.
pub proof fn lemma_source_path_docker_insertion(target_directory: Seq<char>, file_name: Seq<char>)
    requires
        !(file_name.len() > 0 && file_name[0] == '/'),
    ensures
        ({
            let p0 = source_path_spec(target_directory, false, file_name);
            let p1 = source_path_spec(target_directory, true, file_name);
            let base = path_join(target_directory, helper_target_subdir());
            &&& base.len() <= p0.len()
            &&& p0 == base + p0.skip(base.len() as int)
            &&& p1 == base + "/docker"@ + p0.skip(base.len() as int)
        }),
{
    reveal_strlit("elf-compilation");
    reveal_strlit("docker");
    reveal_strlit("/docker");
    reveal_strlit("/");
    reveal_strlit("riscv32im-succinct-zkvm-elf");
    reveal_strlit("release");
    let hs = helper_target_subdir();
    let bt = build_target();
    let base = path_join(target_directory, hs);
    assert(base.len() > 0);
    assert(base[base.len() - 1] == 'n');
    let mid0 = path_join(base, bt);
    assert(mid0 == base + "/"@ + bt);
    assert(mid0.len() > 0 && mid0[mid0.len() - 1] == 'f');
    let mid1 = path_join(mid0, "release"@);
    assert(mid1 == mid0 + "/"@ + "release"@);
    assert(mid1.len() > 0 && mid1[mid1.len() - 1] == 'e');
    let p0 = source_path_spec(target_directory, false, file_name);
    assert(p0 == mid1 + "/"@ + file_name);
    let rest = "/"@ + bt + "/"@ + "release"@ + "/"@ + file_name;
    assert(p0 =~= base + rest);
    assert(p0.skip(base.len() as int) =~= rest);
    let suffix = target_dir_suffix(true);
    assert(suffix[0] == 'e');
    let base1 = path_join(target_directory, suffix);
    assert(base1 =~= base + "/docker"@);
    assert(base1.len() > 0);
    assert(base1[base1.len() - 1] == 'r');
    let mid2 = path_join(base1, bt);
    assert(mid2 == base1 + "/"@ + bt);
    assert(mid2.len() > 0 && mid2[mid2.len() - 1] == 'f');
    let mid3 = path_join(mid2, "release"@);
    assert(mid3 == mid2 + "/"@ + "release"@);
    assert(mid3.len() > 0 && mid3[mid3.len() - 1] == 'e');
    let p1 = source_path_spec(target_directory, true, file_name);
    assert(p1 == mid3 + "/"@ + file_name);
    assert(p1 =~= base + "/docker"@ + rest);
}

} // verus!
