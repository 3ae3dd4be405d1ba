use cbuild::errors::BuildError;
use cbuild::staleness::{needs_rebuild, staleness_floor};
use cbuild::target::build_target;

#[test]
fn it_works() {
    let result: i32 = 2 + 2;
    assert_eq!(result, 4);
}

#[test]
fn build_target_gnu_pairing() {
    let t = build_target(
        Some("x86_64".to_string()),
        Some("linux".to_string()),
        Some("gnu".to_string()),
        None,
        false,
    )
    .unwrap();
    assert_eq!(t.arch, "x86_64");
    assert_eq!(t.os, "linux");
    assert_eq!(t.env, "gnu");
    assert_eq!(t.obj_ext, "o");
    assert_eq!(t.obj_opt, "-o");
    assert!(!t.is_git);
    assert!(!t.is_debug);
}

#[test]
fn build_target_msvc_pairing() {
    let t = build_target(
        Some("x86_64".to_string()),
        Some("windows".to_string()),
        Some("msvc".to_string()),
        None,
        false,
    )
    .unwrap();
    assert_eq!(t.obj_ext, "obj");
    assert_eq!(t.obj_opt, "/Fo");
}

#[test]
fn build_target_missing_arch_is_fatal() {
    let r = build_target(
        None,
        Some("linux".to_string()),
        Some("gnu".to_string()),
        None,
        false,
    );
    match r {
        Err(BuildError::MissingEnvInput(name)) => assert_eq!(name, "CARGO_CFG_TARGET_ARCH"),
        _ => panic!("expected a missing-input error"),
    }
}

#[test]
fn build_target_missing_os_is_fatal() {
    let r = build_target(
        Some("x86_64".to_string()),
        None,
        Some("gnu".to_string()),
        None,
        false,
    );
    match r {
        Err(BuildError::MissingEnvInput(name)) => assert_eq!(name, "CARGO_CFG_TARGET_OS"),
        _ => panic!("expected a missing-input error"),
    }
}

#[test]
fn build_target_missing_env_is_fatal() {
    let r = build_target(
        Some("x86_64".to_string()),
        Some("linux".to_string()),
        None,
        None,
        false,
    );
    match r {
        Err(BuildError::MissingEnvInput(name)) => assert_eq!(name, "CARGO_CFG_TARGET_ENV"),
        _ => panic!("expected a missing-input error"),
    }
}

#[test]
fn build_target_debug_required_in_checkout() {
    let r = build_target(
        Some("x86_64".to_string()),
        Some("linux".to_string()),
        Some("gnu".to_string()),
        None,
        true,
    );
    match r {
        Err(BuildError::MissingEnvInput(name)) => assert_eq!(name, "DEBUG"),
        _ => panic!("expected a missing-input error"),
    }
}

#[test]
fn build_target_debug_only_in_checkout() {
    let in_checkout = build_target(
        Some("x86_64".to_string()),
        Some("linux".to_string()),
        Some("gnu".to_string()),
        Some("true".to_string()),
        true,
    )
    .unwrap();
    assert!(in_checkout.is_debug);

    let disabled = build_target(
        Some("x86_64".to_string()),
        Some("linux".to_string()),
        Some("gnu".to_string()),
        Some("false".to_string()),
        true,
    )
    .unwrap();
    assert!(!disabled.is_debug);

    let published = build_target(
        Some("x86_64".to_string()),
        Some("linux".to_string()),
        Some("gnu".to_string()),
        Some("true".to_string()),
        false,
    )
    .unwrap();
    assert!(!published.is_debug);
}

#[test]
fn needs_rebuild_missing_target() {
    assert!(needs_rebuild(5, None, 0));
}

#[test]
fn needs_rebuild_equal_timestamps_are_stale() {
    assert!(needs_rebuild(10, Some(10), 0));
    assert!(needs_rebuild(0, Some(10), 10));
}

#[test]
fn needs_rebuild_fresh_target() {
    assert!(!needs_rebuild(9, Some(10), 9));
}

#[test]
fn needs_rebuild_floor_forces() {
    assert!(needs_rebuild(1, Some(10), 11));
}

#[test]
fn staleness_floor_is_the_maximum() {
    assert_eq!(staleness_floor(&vec![3, 9, 2]), 9);
    assert_eq!(staleness_floor(&vec![7]), 7);
}

#[test]
fn error_descriptions() {
    let e = BuildError::MissingEnvInput("DEBUG".to_string());
    assert_eq!(e.describe(), "missing required environment input: DEBUG");
    let e = BuildError::UnsupportedExtension("cc".to_string());
    assert_eq!(e.describe(), "unsupported file extension: cc");
    let e = BuildError::UntrackedFile("crypto/x.c".to_string());
    assert_eq!(e.describe(), "file is not tracked in the manifest: crypto/x.c");
}
