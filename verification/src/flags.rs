//! The flag translator: a pure function from build options to the
//! compiler invocation's argument list, and the fixed encoded compiler
//! flags for the custom target.

use vstd::prelude::*;
use crate::options::BuildArgs;
use crate::options::build_target;
use crate::options::build_target_name;
use crate::text::excludes;
use crate::text::join_strings;
use crate::text::join_with;
use crate::text::lemma_split_join;
use crate::text::split_on;

verus! {

/// The argument list for one build invocation: always a release build
/// against the fixed target, then one optional flag group per option,
/// in a fixed order.  The feature list is joined with commas exactly as
/// supplied: no sorting, no deduplication.
pub open spec fn program_build_args_spec(args: BuildArgs) -> Seq<Seq<char>> {
    let a = seq!["build"@, "--release"@, "--target"@, build_target()];
    let a = if args.ignore_rust_version {
        a.push("--ignore-rust-version"@)
    } else {
        a
    };
    let a = if args.binary@.len() > 0 {
        a.push("--bin"@).push(args.binary@)
    } else {
        a
    };
    let a = if args.features@.len() > 0 {
        a.push("--features"@).push(join_with(args.features.deep_view(), ","@))
    } else {
        a
    };
    let a = if args.no_default_features {
        a.push("--no-default-features"@)
    } else {
        a
    };
    if args.locked {
        a.push("--locked"@)
    } else {
        a
    }
}

/// The arguments to build the program with, from the given options.
pub fn get_program_build_args(args: &BuildArgs) -> (r: Vec<String>)
    ensures
        r.deep_view() == program_build_args_spec(*args),
{
    let mut build_args: Vec<String> = Vec::new();
    build_args.push("build".to_owned());
    build_args.push("--release".to_owned());
    build_args.push("--target".to_owned());
    build_args.push(build_target_name());
    if args.ignore_rust_version {
        build_args.push("--ignore-rust-version".to_owned());
    }
    if !args.binary.as_str().is_empty() {
        build_args.push("--bin".to_owned());
        build_args.push(args.binary.clone());
    }
    if !args.features.is_empty() {
        build_args.push("--features".to_owned());
        build_args.push(join_strings(&args.features, ","));
    }
    if args.no_default_features {
        build_args.push("--no-default-features".to_owned());
    }
    if args.locked {
        build_args.push("--locked".to_owned());
    }
    proof {
        assert(build_args.deep_view() =~= program_build_args_spec(*args));
    }
    build_args
}

/// The translated arguments always carry the features flag followed
/// immediately by the comma-join of the features in their original
/// order, whenever the feature list is non-empty.
pub proof fn lemma_features_flag(args: BuildArgs)
    requires
        args.features@.len() > 0,
    ensures
        ({
            let a = program_build_args_spec(args);
            exists|i: int|
                0 <= i && i + 1 < a.len() && #[trigger] a[i] == "--features"@ && a[i + 1]
                    == join_with(args.features.deep_view(), ","@)
        }),
{
    let a = program_build_args_spec(args);
    let a0 = seq!["build"@, "--release"@, "--target"@, build_target()];
    let a1 = if args.ignore_rust_version {
        a0.push("--ignore-rust-version"@)
    } else {
        a0
    };
    let a2 = if args.binary@.len() > 0 {
        a1.push("--bin"@).push(args.binary@)
    } else {
        a1
    };
    let j = a2.len() as int;
    assert(a[j] == "--features"@);
    assert(a[j + 1] == join_with(args.features.deep_view(), ","@));
}

/// The non-printable separator that the toolchain's encoded-flags
/// environment convention requires between flags.
pub open spec fn unit_separator() -> char {
    '\x1f'
}

/// The six fixed compiler flag tokens for the custom target: disable
/// the lock-free-atomics lowering pass, force the code start address,
/// and force abort-on-panic.  They do not depend on any user option.
pub open spec fn rustflag_tokens() -> Seq<Seq<char>> {
    seq![
        "-C"@,
        "passes=loweratomic"@,
        "-C"@,
        "link-arg=-Ttext=0x00200800"@,
        "-C"@,
        "panic=abort"@,
    ]
}

/// The fixed flag tokens joined with the unit separator.
pub open spec fn encoded_rustflags() -> Seq<char> {
    join_with(rustflag_tokens(), seq![unit_separator()])
}

/// The encoded compiler flags for the custom target.
pub fn get_rust_compiler_flags() -> (r: String)
    ensures
        r@ == encoded_rustflags(),
{
    let mut rust_flags: Vec<String> = Vec::new();
    rust_flags.push("-C".to_owned());
    rust_flags.push("passes=loweratomic".to_owned());
    rust_flags.push("-C".to_owned());
    rust_flags.push("link-arg=-Ttext=0x00200800".to_owned());
    rust_flags.push("-C".to_owned());
    rust_flags.push("panic=abort".to_owned());
    let r = join_strings(&rust_flags, "\x1f");
    proof {
        reveal_strlit("\x1f");
        assert(rust_flags.deep_view() =~= rustflag_tokens());
        assert("\x1f"@ =~= seq![unit_separator()]);
    }
    r
}

/// Splitting the encoded flags on the unit separator gives back
/// exactly the six fixed tokens, independent of every user option.
pub proof fn lemma_encoded_rustflags_tokens()
    ensures
        rustflag_tokens().len() == 6,
        split_on(encoded_rustflags(), unit_separator()) == rustflag_tokens(),
{
    reveal_strlit("-C");
    reveal_strlit("passes=loweratomic");
    reveal_strlit("link-arg=-Ttext=0x00200800");
    reveal_strlit("panic=abort");
    assert(excludes("-C"@, unit_separator()));
    assert(excludes("passes=loweratomic"@, unit_separator()));
    assert(excludes("link-arg=-Ttext=0x00200800"@, unit_separator()));
    assert(excludes("panic=abort"@, unit_separator()));
    lemma_split_join(rustflag_tokens(), unit_separator());
}

} // verus!
