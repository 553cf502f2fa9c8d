//! Tests for the command builder, the runner decisions, and the
//! artifact resolver, including a full stubbed round trip.

use std::collections::HashMap;

use sp1_build::artifact::resolve_artifact_location;
use sp1_build::command::{create_local_command, default_cc_candidate, PackageMetadata};
use sp1_build::errors::BuildError;
use sp1_build::flags::get_rust_compiler_flags;
use sp1_build::options::BuildArgs;
use sp1_build::path::{join_path, parent_dir};
use sp1_build::runner::{output_prefix, prefixed_line, process_outcome, relay_lines};

const TARGET: &str = "riscv32im-succinct-zkvm-elf";

fn demo_metadata() -> PackageMetadata {
    PackageMetadata {
        root_package_name: Some("demo".to_string()),
        target_directory: "/w/target".to_string(),
    }
}

#[test]
fn join_path_inserts_one_separator() {
    assert_eq!(join_path("a", "b"), "a/b");
    assert_eq!(join_path("a/", "b"), "a/b");
    assert_eq!(join_path("", "b"), "b");
    assert_eq!(join_path("a", "/abs"), "/abs");
}

#[test]
fn parent_dir_drops_last_component() {
    assert_eq!(parent_dir("/w/target"), "/w");
    assert_eq!(parent_dir("/a"), "/");
    assert_eq!(parent_dir("plain"), "");
}

#[test]
fn local_command_is_fully_configured() {
    let args = BuildArgs::default();
    let spec = create_local_command(
        &args,
        &"prog".to_string(),
        &Some("/w/prog".to_string()),
        &demo_metadata(),
        false,
        &None,
    );
    let spec = match spec {
        Ok(s) => s,
        Err(_) => panic!("expected a subprocess spec"),
    };
    assert_eq!(spec.program, "cargo");
    assert_eq!(spec.working_directory, "/w/prog");
    assert_eq!(spec.arguments, vec!["build", "--release", "--target", TARGET]);
    assert_eq!(
        spec.env_set,
        vec![
            ("RUSTUP_TOOLCHAIN".to_string(), "succinct".to_string()),
            ("CARGO_ENCODED_RUSTFLAGS".to_string(), get_rust_compiler_flags()),
            ("CARGO_TARGET_DIR".to_string(), "/w/target/elf-compilation".to_string()),
        ]
    );
    assert_eq!(spec.env_unset, vec!["RUSTC".to_string()]);
}

#[test]
fn unresolved_program_dir_is_a_configuration_error() {
    let args = BuildArgs::default();
    let r = create_local_command(&args, &"nowhere".to_string(), &None, &demo_metadata(), false, &None);
    match r {
        Err(BuildError::Configuration { path }) => assert_eq!(path, "nowhere"),
        _ => panic!("expected a configuration error"),
    }
}

#[test]
fn default_cc_is_set_only_when_caller_sets_none() {
    let args = BuildArgs::default();
    let cc = "/home/u/.sp1/bin/riscv32-unknown-elf-gcc".to_string();
    let with_cc = create_local_command(
        &args,
        &"prog".to_string(),
        &Some("/w/prog".to_string()),
        &demo_metadata(),
        false,
        &Some(cc.clone()),
    )
    .ok()
    .unwrap();
    assert_eq!(
        with_cc.env_set[0],
        ("CC_riscv32im_succinct_zkvm_elf".to_string(), cc.clone())
    );
    let caller_wins = create_local_command(
        &args,
        &"prog".to_string(),
        &Some("/w/prog".to_string()),
        &demo_metadata(),
        true,
        &Some(cc),
    )
    .ok()
    .unwrap();
    assert!(caller_wins
        .env_set
        .iter()
        .all(|(k, _)| k != "CC_riscv32im_succinct_zkvm_elf"));
}

#[test]
fn default_cc_candidate_is_under_the_home_directory() {
    assert_eq!(
        default_cc_candidate("/home/u"),
        "/home/u/.sp1/bin/riscv32-unknown-elf-gcc"
    );
}

#[test]
fn docker_inserts_exactly_one_path_segment() {
    let mut args = BuildArgs::default();
    args.binary = "prog".to_string();
    let local = resolve_artifact_location(&args, &demo_metadata()).ok().unwrap();
    args.docker = true;
    let docker = resolve_artifact_location(&args, &demo_metadata()).ok().unwrap();
    assert_eq!(
        local.source_path,
        format!("/w/target/elf-compilation/{}/release/prog", TARGET)
    );
    assert_eq!(
        docker.source_path,
        format!("/w/target/elf-compilation/docker/{}/release/prog", TARGET)
    );
    let base = "/w/target/elf-compilation";
    let rest = &local.source_path[base.len()..];
    assert_eq!(docker.source_path, format!("{}/docker{}", base, rest));
}

#[test]
fn destination_name_precedence_artifact_name_wins() {
    let mut args = BuildArgs::default();
    args.binary = "bin".to_string();
    args.elf_name = "named".to_string();
    let loc = resolve_artifact_location(&args, &demo_metadata()).ok().unwrap();
    assert_eq!(loc.destination_path, "/w/elf/named");
    args.elf_name = String::new();
    let loc = resolve_artifact_location(&args, &demo_metadata()).ok().unwrap();
    assert_eq!(loc.destination_path, "/w/elf/bin");
}

#[test]
fn destination_name_never_falls_back_to_package_name() {
    let args = BuildArgs::default();
    let loc = resolve_artifact_location(&args, &demo_metadata()).ok().unwrap();
    assert_eq!(loc.destination_path, format!("/w/elf/{}", TARGET));
    assert_eq!(loc.source_path, format!("/w/target/elf-compilation/{}/release/demo", TARGET));
}

#[test]
fn missing_binary_and_package_name_is_an_error() {
    let args = BuildArgs::default();
    let meta = PackageMetadata {
        root_package_name: None,
        target_directory: "/w/target".to_string(),
    };
    let r = resolve_artifact_location(&args, &meta);
    assert!(matches!(r, Err(BuildError::MissingPackageName)));
}

#[test]
fn named_binary_resolves_without_package_name() {
    let mut args = BuildArgs::default();
    args.binary = "prog".to_string();
    let meta = PackageMetadata {
        root_package_name: None,
        target_directory: "/w/target".to_string(),
    };
    let loc = resolve_artifact_location(&args, &meta).ok().unwrap();
    assert_eq!(loc.source_path, format!("/w/target/elf-compilation/{}/release/prog", TARGET));
}

#[test]
fn output_prefix_marks_the_backend() {
    assert_eq!(output_prefix(false), "[sp1] ");
    assert_eq!(output_prefix(true), "[sp1] [docker] ");
    assert_eq!(prefixed_line("[sp1] ", "hello"), "[sp1]  hello");
}

#[test]
fn relay_emits_every_line_once_in_order() {
    let lines = vec!["error[E0001]".to_string(), "more".to_string()];
    let relayed = relay_lines("[sp1] ", &lines);
    assert_eq!(
        relayed,
        vec!["[sp1]  error[E0001]".to_string(), "[sp1]  more".to_string()]
    );
    let occurrences: usize = relayed.iter().filter(|l| l.contains("error[E0001]")).count();
    assert_eq!(occurrences, 1);
}

#[test]
fn failing_exit_code_is_reported_unchanged_without_extra_message() {
    assert!(process_outcome(Some(0)).is_ok());
    match process_outcome(Some(2)) {
        Err(BuildError::ProcessFailure { exit_code }) => assert_eq!(exit_code, 2),
        _ => panic!("expected a process failure"),
    }
    match process_outcome(None) {
        Err(BuildError::ProcessFailure { exit_code }) => assert_eq!(exit_code, 1),
        _ => panic!("expected a process failure"),
    }
}

#[test]
fn stubbed_round_trip_copies_the_seeded_artifact() {
    let mut args = BuildArgs::default();
    args.binary = "prog".to_string();
    let meta = demo_metadata();

    // A fake toolchain output directory, pre-seeded with the artifact.
    let seeded = b"\x7fELF-demo-bytes".to_vec();
    let mut files: HashMap<String, Vec<u8>> = HashMap::new();
    files.insert(
        format!("/w/target/elf-compilation/{}/release/prog", TARGET),
        seeded.clone(),
    );

    let spec = create_local_command(
        &args,
        &"prog".to_string(),
        &Some("/w/prog".to_string()),
        &meta,
        false,
        &None,
    )
    .ok()
    .unwrap();
    assert_eq!(spec.program, "cargo");

    // A stub runner that immediately reports success.
    process_outcome(Some(0)).ok().unwrap();

    let loc = resolve_artifact_location(&args, &meta).ok().unwrap();
    let data = files.get(&loc.source_path).expect("artifact must be found").clone();
    files.insert(loc.destination_path.clone(), data);

    assert_eq!(files.get("/w/elf/prog"), Some(&seeded));
}

#[test]
fn absolute_output_directory_is_used_as_given() {
    let mut args = BuildArgs::default();
    args.output_directory = "/abs/out".to_string();
    let loc = resolve_artifact_location(&args, &demo_metadata()).ok().unwrap();
    assert_eq!(loc.destination_directory, "/abs/out");
    assert_eq!(loc.destination_path, format!("/abs/out/{}", TARGET));
}

#[test]
fn resolution_is_deterministic_across_invocations() {
    let args = BuildArgs::default();
    let first = resolve_artifact_location(&args, &demo_metadata()).ok().unwrap();
    let second = resolve_artifact_location(&args, &demo_metadata()).ok().unwrap();
    assert_eq!(first.source_path, second.source_path);
    assert_eq!(first.destination_directory, second.destination_directory);
    assert_eq!(first.destination_path, second.destination_path);
}
