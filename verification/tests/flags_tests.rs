use cbuild::flags::{FileKind, c_flags, compile_flags, cpp_flags};
use cbuild::target::{TargetDescriptor, build_target};

fn target(arch: &str, os: &str, env: &str, is_git: bool, debug: Option<&str>) -> TargetDescriptor {
    build_target(
        Some(arch.to_string()),
        Some(os.to_string()),
        Some(env.to_string()),
        debug.map(|d| d.to_string()),
        is_git,
    )
    .unwrap()
}

#[test]
fn c_flags_non_msvc() {
    let t = target("x86_64", "linux", "gnu", false, None);
    let expected: Vec<String> = vec![
        "-std=c1x".to_string(),
        "-Wbad-function-cast".to_string(),
        "-Wnested-externs".to_string(),
        "-Wstrict-prototypes".to_string(),
    ];
    assert_eq!(c_flags(&t), expected);
}

#[test]
fn c_flags_msvc_empty() {
    let t = target("x86_64", "windows", "msvc", false, None);
    assert!(c_flags(&t).is_empty());
}

#[test]
fn cpp_flags_by_family() {
    let gnu = cpp_flags(&target("x86_64", "linux", "gnu", false, None));
    assert_eq!(gnu.len(), 23);
    assert_eq!(gnu[0], "-pedantic");
    assert_eq!(gnu[22], "-fvisibility=hidden");

    let msvc = cpp_flags(&target("x86_64", "windows", "msvc", false, None));
    assert_eq!(msvc.len(), 17);
    assert_eq!(msvc[0], "/GS");
    assert_eq!(msvc[16], "/wd5045");
}

#[test]
fn compile_flags_linux_gnu_release() {
    let t = target("x86_64", "linux", "gnu", false, None);
    let flags = compile_flags(&t, FileKind::CSource, false, "3", false);
    let mut expected: Vec<String> = Vec::new();
    expected.extend(c_flags(&t));
    expected.extend(cpp_flags(&t));
    expected.push("-fstack-protector".to_string());
    expected.push("-g3".to_string());
    expected.push("-DNDEBUG".to_string());
    assert_eq!(flags, expected);
}

#[test]
fn compile_flags_assembly_has_no_c_flags() {
    let t = target("x86_64", "linux", "gnu", false, None);
    let flags = compile_flags(&t, FileKind::Assembly, false, "3", false);
    assert!(!flags.contains(&"-std=c1x".to_string()));
    assert!(flags.contains(&"-pedantic".to_string()));
}

#[test]
fn compile_flags_deterministic() {
    let t = target("aarch64", "macos", "gnu", true, Some("true"));
    let a = compile_flags(&t, FileKind::CSource, true, "0", true);
    let b = compile_flags(&t, FileKind::CSource, true, "0", true);
    assert_eq!(a, b);
}

#[test]
fn compile_flags_macos_debug_symbols() {
    let t = target("aarch64", "macos", "gnu", false, None);
    let flags = compile_flags(&t, FileKind::CSource, false, "3", false);
    assert!(flags.contains(&"-gfull".to_string()));
    assert!(!flags.contains(&"-g3".to_string()));
}

#[test]
fn compile_flags_msvc_optimization_levels() {
    let t = target("x86_64", "windows", "msvc", false, None);
    let debug = compile_flags(&t, FileKind::CSource, false, "0", false);
    assert!(debug.contains(&"/Od".to_string()));
    assert!(debug.contains(&"/RTCsu".to_string()));
    assert!(!debug.contains(&"/Ox".to_string()));
    assert!(!debug.contains(&"-fstack-protector".to_string()));

    let release = compile_flags(&t, FileKind::CSource, false, "2", false);
    assert!(release.contains(&"/Ox".to_string()));
    assert!(!release.contains(&"/Od".to_string()));
}

#[test]
fn compile_flags_warnings_as_errors_spelling() {
    let gnu = target("x86_64", "linux", "gnu", true, Some("false"));
    assert!(compile_flags(&gnu, FileKind::CSource, true, "3", false)
        .contains(&"-Werror".to_string()));
    let msvc = target("x86_64", "windows", "msvc", true, Some("false"));
    assert!(compile_flags(&msvc, FileKind::CSource, true, "2", false)
        .contains(&"/WX".to_string()));
}

#[test]
fn compile_flags_musl_fortify_disable() {
    let t = target("x86_64", "linux", "musl", false, None);
    let flags = compile_flags(&t, FileKind::CSource, false, "3", false);
    assert_eq!(flags.last().unwrap(), "-U_FORTIFY_SOURCE");
}

#[test]
fn compile_flags_nostdlibinc_needs_clang() {
    let t = target("arm", "linux", "musleabi", false, None);
    let with_clang = compile_flags(&t, FileKind::CSource, false, "3", true);
    assert!(with_clang.contains(&"-nostdlibinc".to_string()));
    assert!(with_clang.contains(&"-DGFp_NOSTDLIBINC=1".to_string()));

    let without = compile_flags(&t, FileKind::CSource, false, "3", false);
    assert!(!without.contains(&"-nostdlibinc".to_string()));
}

#[test]
fn compile_flags_wasm_without_sysroot() {
    let t = target("wasm32", "unknown", "", false, None);
    let flags = compile_flags(&t, FileKind::CSource, false, "3", true);
    assert!(flags.contains(&"-nostdlibinc".to_string()));
    assert!(!flags.contains(&"-fstack-protector".to_string()));
}

#[test]
fn compile_flags_x86_64_musl_keeps_sysroot() {
    let t = target("x86_64", "linux", "musl", false, None);
    let flags = compile_flags(&t, FileKind::CSource, false, "3", true);
    assert!(!flags.contains(&"-nostdlibinc".to_string()));
}

#[test]
fn compile_flags_debug_build_keeps_asserts() {
    let t = target("x86_64", "linux", "gnu", true, Some("true"));
    let flags = compile_flags(&t, FileKind::CSource, false, "0", false);
    assert!(!flags.contains(&"-DNDEBUG".to_string()));
}
