use cbuild::audit::{audit_files, is_tracked};
use cbuild::errors::BuildError;
use cbuild::orchestrate::SourceManifestEntry;

fn includes() -> Vec<String> {
    vec!["include/foo.h".to_string(), "crypto/internal.inl".to_string()]
}

fn sources() -> Vec<SourceManifestEntry> {
    vec![
        SourceManifestEntry { archs: vec![], path: "crypto/foo.c".to_string() },
        SourceManifestEntry {
            archs: vec!["x86_64".to_string()],
            path: "crypto/fast.S".to_string(),
        },
        SourceManifestEntry {
            archs: vec!["x86_64".to_string()],
            path: "crypto/win.asm".to_string(),
        },
    ]
}

#[test]
fn fully_declared_tree_passes() {
    let files = vec![
        "include/foo.h".to_string(),
        "crypto/internal.inl".to_string(),
        "crypto/foo.c".to_string(),
        "crypto/fast.S".to_string(),
        "crypto/win.asm".to_string(),
        "crypto/README.md".to_string(),
        "crypto/LICENSE".to_string(),
    ];
    assert!(audit_files(&files, &includes(), &sources()).is_ok());
}

#[test]
fn undeclared_source_aborts() {
    let files = vec!["crypto/foo.c".to_string(), "crypto/new.c".to_string()];
    match audit_files(&files, &includes(), &sources()) {
        Err(BuildError::UntrackedFile(p)) => assert_eq!(p, "crypto/new.c"),
        _ => panic!("expected an untracked-file error"),
    }
}

#[test]
fn undeclared_header_aborts() {
    let files = vec!["include/other.h".to_string()];
    assert!(audit_files(&files, &includes(), &sources()).is_err());
}

#[test]
fn other_extensions_are_exempt() {
    assert!(is_tracked("crypto/notes.txt", &includes(), &sources()));
    assert!(is_tracked("crypto/gen.pl", &includes(), &sources()));
    assert!(is_tracked("crypto/no_extension", &includes(), &sources()));
}

#[test]
fn source_matching_ignores_declared_architecture() {
    // A source declared for any architecture satisfies the audit, whatever
    // the target being built.
    assert!(is_tracked("crypto/fast.S", &includes(), &sources()));
}

#[test]
fn verdict_is_order_independent() {
    let a = vec![
        "crypto/foo.c".to_string(),
        "include/foo.h".to_string(),
        "crypto/new.c".to_string(),
    ];
    let b = vec![
        "crypto/new.c".to_string(),
        "crypto/foo.c".to_string(),
        "include/foo.h".to_string(),
    ];
    assert!(audit_files(&a, &includes(), &sources()).is_err());
    assert!(audit_files(&b, &includes(), &sources()).is_err());

    let a_ok = vec!["crypto/foo.c".to_string(), "include/foo.h".to_string()];
    let b_ok = vec!["include/foo.h".to_string(), "crypto/foo.c".to_string()];
    assert!(audit_files(&a_ok, &includes(), &sources()).is_ok());
    assert!(audit_files(&b_ok, &includes(), &sources()).is_ok());
}
