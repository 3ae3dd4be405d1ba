use cbuild::errors::BuildError;
use cbuild::flags::FileKind;
use cbuild::library::plan_library;
use cbuild::orchestrate::{
    BuildPlan, LibraryInput, SourceManifestEntry, core_sources, is_perlasm, plan_build,
    search_directive, sources_for_arch,
};
use cbuild::target::{TargetDescriptor, build_target};
use cbuild::unit::{CompilationUnit, UnitStatus, compile_command, unit_for_source};

fn target(arch: &str, os: &str, env: &str) -> TargetDescriptor {
    build_target(
        Some(arch.to_string()),
        Some(os.to_string()),
        Some(env.to_string()),
        None,
        false,
    )
    .unwrap()
}

fn status(unit: CompilationUnit, source_mtime: u64, object_mtime: Option<u64>) -> UnitStatus {
    UnitStatus { unit, source_mtime, object_mtime }
}

fn c_unit(source: &str, object: &str) -> CompilationUnit {
    CompilationUnit {
        source_path: source.to_string(),
        object_path: object.to_string(),
        kind: FileKind::CSource,
    }
}

fn asm_unit(source: &str, object: &str) -> CompilationUnit {
    CompilationUnit {
        source_path: source.to_string(),
        object_path: object.to_string(),
        kind: FileKind::Assembly,
    }
}

#[test]
fn unit_for_c_source() {
    let u = unit_for_source("crypto/foo.c", "out", "o").unwrap();
    assert_eq!(u.kind, FileKind::CSource);
    assert_eq!(u.source_path, "crypto/foo.c");
    assert_eq!(u.object_path, "out/foo.o");
}

#[test]
fn unit_for_assembly_msvc_extension() {
    let u = unit_for_source("crypto/chacha.S", "out", "obj").unwrap();
    assert_eq!(u.kind, FileKind::Assembly);
    assert_eq!(u.object_path, "out/chacha.obj");
}

#[test]
fn unit_for_prebuilt_object_passes_through() {
    let u = unit_for_source("prebuilt/aes.obj", "out", "o").unwrap();
    assert_eq!(u.kind, FileKind::PrebuiltObject);
    assert_eq!(u.object_path, "prebuilt/aes.obj");
}

#[test]
fn unit_for_unknown_extension_is_fatal() {
    match unit_for_source("crypto/poly.txt", "out", "o") {
        Err(BuildError::UnsupportedExtension(e)) => assert_eq!(e, "txt"),
        _ => panic!("expected an unsupported-extension error"),
    }
    match unit_for_source("crypto/nodots", "out", "o") {
        Err(BuildError::UnsupportedExtension(e)) => assert_eq!(e, ""),
        _ => panic!("expected an unsupported-extension error"),
    }
}

#[test]
fn compile_command_shape() {
    let t = target("x86_64", "linux", "gnu");
    let u = c_unit("crypto/foo.c", "out/foo.o");
    let cmd = compile_command(&u, &t, false, "3", false);
    assert_eq!(cmd[0], "-I");
    assert_eq!(cmd[1], "include");
    let n = cmd.len();
    assert_eq!(cmd[n - 3], "-c");
    assert_eq!(cmd[n - 2], "-oout/foo.o");
    assert_eq!(cmd[n - 1], "crypto/foo.c");
}

#[test]
fn compile_command_msvc_object_flag() {
    let t = target("x86_64", "windows", "msvc");
    let u = c_unit("crypto/foo.c", "out/foo.obj");
    let cmd = compile_command(&u, &t, false, "2", false);
    assert_eq!(cmd[cmd.len() - 2], "/Foout/foo.obj");
}

#[test]
fn manifest_selection_by_architecture() {
    let entries = vec![
        SourceManifestEntry { archs: vec![], path: "crypto/common.c".to_string() },
        SourceManifestEntry {
            archs: vec!["x86_64".to_string()],
            path: "crypto/fast64.c".to_string(),
        },
        SourceManifestEntry { archs: vec!["arm".to_string()], path: "crypto/arm.c".to_string() },
        SourceManifestEntry {
            archs: vec!["x86_64".to_string()],
            path: "crypto/gen.pl".to_string(),
        },
    ];
    let all = sources_for_arch(&entries, "x86_64");
    assert_eq!(all, vec!["crypto/common.c", "crypto/fast64.c", "crypto/gen.pl"]);

    let core = core_sources(&entries, "x86_64");
    assert_eq!(core, vec!["crypto/common.c", "crypto/fast64.c"]);

    let arm = core_sources(&entries, "arm");
    assert_eq!(arm, vec!["crypto/common.c", "crypto/arm.c"]);
}

#[test]
fn perlasm_recognition() {
    assert!(is_perlasm("crypto/gen.pl"));
    assert!(!is_perlasm("crypto/gen.c"));
    assert!(!is_perlasm("crypto/plainname"));
}

#[test]
fn msvc_silently_excludes_assembly() {
    let t = target("x86_64", "windows", "msvc");
    let statuses = vec![
        status(c_unit("a.c", "out/a.obj"), 5, None),
        status(asm_unit("b.S", "out/b.obj"), 5, None),
    ];
    let plan = plan_library(
        &t,
        "core",
        &statuses,
        None,
        0,
        false,
        &Some("2".to_string()),
        false,
    )
    .unwrap();
    assert_eq!(plan.steps.len(), 1);
    assert_eq!(plan.steps[0].object_path, "out/a.obj");
    let archive = plan.archive.unwrap();
    assert_eq!(archive.objects, vec!["out/a.obj"]);
}

#[test]
fn fresh_output_directory_compiles_everything_and_archives() {
    let t = target("x86_64", "linux", "gnu");
    let statuses = vec![
        status(c_unit("a.c", "out/a.o"), 5, None),
        status(asm_unit("b.S", "out/b.o"), 5, None),
    ];
    let plan = plan_library(&t, "core", &statuses, None, 4, false, &None, false).unwrap();
    assert_eq!(plan.steps.len(), 2);
    assert!(plan.steps.iter().all(|s| s.command.is_some()));
    let archive = plan.archive.unwrap();
    assert_eq!(archive.archive_name, "libcore.a");
    assert_eq!(archive.objects, vec!["out/a.o", "out/b.o"]);
    assert_eq!(archive.flags, vec!["-Wl,--gc-sections"]);
    assert_eq!(plan.link_directive, "cargo:rustc-link-lib=static=core");
}

#[test]
fn settled_tree_reuses_archive_but_still_links() {
    let t = target("x86_64", "linux", "gnu");
    let statuses = vec![
        status(c_unit("a.c", "out/a.o"), 5, Some(10)),
        status(asm_unit("b.S", "out/b.o"), 6, Some(11)),
    ];
    let plan = plan_library(&t, "core", &statuses, Some(20), 4, false, &None, false).unwrap();
    assert_eq!(plan.steps.len(), 2);
    assert!(plan.steps.iter().all(|s| s.command.is_none()));
    assert!(plan.archive.is_none());
    assert_eq!(plan.link_directive, "cargo:rustc-link-lib=static=core");
}

#[test]
fn touched_source_forces_exactly_one_recompilation() {
    let t = target("x86_64", "linux", "gnu");
    let statuses = vec![
        status(c_unit("a.c", "out/a.o"), 12, Some(10)),
        status(c_unit("b.c", "out/b.o"), 6, Some(11)),
    ];
    let plan = plan_library(&t, "core", &statuses, Some(20), 4, false, &None, false).unwrap();
    assert!(plan.steps[0].command.is_some());
    assert!(plan.steps[1].command.is_none());
    assert!(plan.archive.is_some());
}

#[test]
fn floor_invalidates_every_object_and_the_archive() {
    let t = target("x86_64", "linux", "gnu");
    let statuses = vec![
        status(c_unit("a.c", "out/a.o"), 5, Some(10)),
        status(c_unit("b.c", "out/b.o"), 6, Some(11)),
    ];
    let plan = plan_library(&t, "core", &statuses, Some(20), 30, false, &None, false).unwrap();
    assert!(plan.steps.iter().all(|s| s.command.is_some()));
    assert!(plan.archive.is_some());
}

#[test]
fn macos_archive_flags() {
    let t = target("aarch64", "macos", "gnu");
    let statuses = vec![status(c_unit("a.c", "out/a.o"), 5, None)];
    let plan = plan_library(&t, "core", &statuses, None, 0, false, &None, false).unwrap();
    assert_eq!(plan.archive.unwrap().flags, vec!["-fPIC", "-Wl,-dead_strip"]);
}

#[test]
fn msvc_needs_opt_level_to_compile() {
    let t = target("x86_64", "windows", "msvc");
    let statuses = vec![status(c_unit("a.c", "out/a.obj"), 5, None)];
    match plan_library(&t, "core", &statuses, None, 0, false, &None, false) {
        Err(BuildError::MissingEnvInput(name)) => assert_eq!(name, "OPT_LEVEL"),
        _ => panic!("expected a missing-input error"),
    }
    let fresh = vec![status(c_unit("a.c", "out/a.obj"), 5, Some(10))];
    assert!(plan_library(&t, "core", &fresh, Some(20), 0, false, &None, false).is_ok());
}

#[test]
fn wasm_without_native_feature_short_circuits() {
    let t = target("wasm32", "unknown", "");
    let libs = vec![LibraryInput {
        name: "core".to_string(),
        statuses: vec![],
        archive_mtime: None,
    }];
    let plan = plan_build(&t, false, "out", &vec![1], &libs, &None, false).unwrap();
    match plan {
        BuildPlan::Skipped { warning } => assert_eq!(warning, "cargo:warning=build for wasm"),
        _ => panic!("expected the orchestrator to skip"),
    }
}

#[test]
fn wasm_with_native_feature_builds() {
    let t = target("wasm32", "unknown", "");
    let libs = vec![LibraryInput {
        name: "core".to_string(),
        statuses: vec![status(c_unit("a.c", "out/a.o"), 5, None)],
        archive_mtime: None,
    }];
    let plan = plan_build(&t, true, "out", &vec![1], &libs, &None, false).unwrap();
    match plan {
        BuildPlan::Native { libraries, search_directive } => {
            assert_eq!(libraries.len(), 1);
            assert!(libraries[0].archive.is_some());
            assert_eq!(search_directive, "cargo:rustc-link-search=native=out");
        }
        _ => panic!("expected a native plan"),
    }
}

#[test]
fn orchestration_emits_search_path_once() {
    assert_eq!(search_directive("target/out"), "cargo:rustc-link-search=native=target/out");
}

#[test]
fn second_run_after_first_is_quiet_with_same_directives() {
    let t = target("x86_64", "linux", "gnu");
    // First run: nothing on disk yet.
    let before = vec![LibraryInput {
        name: "core".to_string(),
        statuses: vec![status(c_unit("a.c", "out/a.o"), 5, None)],
        archive_mtime: None,
    }];
    let first = plan_build(&t, false, "out", &vec![4], &before, &None, false).unwrap();
    // Second run: the objects and archive the first run wrote, newer than
    // their sources and the floor, nothing touched since.
    let after = vec![LibraryInput {
        name: "core".to_string(),
        statuses: vec![status(c_unit("a.c", "out/a.o"), 5, Some(10))],
        archive_mtime: Some(20),
    }];
    let second = plan_build(&t, false, "out", &vec![4], &after, &None, false).unwrap();
    match (first, second) {
        (
            BuildPlan::Native { libraries: l1, search_directive: d1 },
            BuildPlan::Native { libraries: l2, search_directive: d2 },
        ) => {
            assert!(l1[0].steps[0].command.is_some());
            assert!(l1[0].archive.is_some());
            assert!(l2[0].steps[0].command.is_none());
            assert!(l2[0].archive.is_none());
            assert_eq!(d1, d2);
            assert_eq!(l1[0].link_directive, l2[0].link_directive);
        }
        _ => panic!("expected native plans"),
    }
}
