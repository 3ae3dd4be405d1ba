//! The flag selector: a pure function from target descriptor, file kind and
//! build mode to the ordered list of compiler flags. No I/O; the one
//! environment-dependent fact it needs, whether the detected compiler is of
//! the clang family, is handed in as a plain value.

use vstd::prelude::*;
use crate::strutil::{str_eq, starts_with, string_views, spec_starts_with};
use crate::target::{TargetDescriptor, TargetView, spec_msvc};

verus! {

/// What kind of compilation unit a source file is.
#[derive(Clone, Copy, Debug, PartialEq, Eq, Structural)]
pub enum FileKind {
    /// A C source file, compiled with the C-specific flags.
    CSource,
    /// An assembly file, compiled without the C-specific flags.
    Assembly,
    /// An object file built elsewhere; never compiled, used as it stands.
    PrebuiltObject,
}

/// C-specific flags: strict-C warnings on every toolchain but the MSVC
/// family, which has no equivalent switches.
pub open spec fn spec_c_flags(env: Seq<char>) -> Seq<Seq<char>> {
    if env == spec_msvc() {
        Seq::empty()
    } else {
        seq!["-std=c1x"@, "-Wbad-function-cast"@, "-Wnested-externs"@, "-Wstrict-prototypes"@]
    }
}

/// General compiler flags: one fixed strictness/hardening list on the MSVC
/// family, a different fixed list everywhere else.
pub open spec fn spec_cpp_flags(env: Seq<char>) -> Seq<Seq<char>> {
    if env == spec_msvc() {
        seq![
            "/GS"@,
            "/Gy"@,
            "/EHsc"@,
            "/GR-"@,
            "/Zc:wchar_t"@,
            "/Zc:forScope"@,
            "/Zc:inline"@,
            "/Zc:rvalueCast"@,
            "/sdl"@,
            "/Wall"@,
            "/wd4127"@,
            "/wd4464"@,
            "/wd4514"@,
            "/wd4710"@,
            "/wd4711"@,
            "/wd4820"@,
            "/wd5045"@,
        ]
    } else {
        seq![
            "-pedantic"@,
            "-pedantic-errors"@,
            "-Wall"@,
            "-Wextra"@,
            "-Wcast-align"@,
            "-Wcast-qual"@,
            "-Wconversion"@,
            "-Wenum-compare"@,
            "-Wfloat-equal"@,
            "-Wformat=2"@,
            "-Winline"@,
            "-Winvalid-pch"@,
            "-Wmissing-field-initializers"@,
            "-Wmissing-include-dirs"@,
            "-Wredundant-decls"@,
            "-Wshadow"@,
            "-Wsign-compare"@,
            "-Wsign-conversion"@,
            "-Wundef"@,
            "-Wuninitialized"@,
            "-Wwrite-strings"@,
            "-fno-strict-aliasing"@,
            "-fvisibility=hidden"@,
        ]
    }
}

/// The target libc is the lightweight musl family.
pub open spec fn spec_is_musl(env: Seq<char>) -> bool {
    spec_starts_with(env, "musl"@)
}

/// Stack protection applies except on bare-metal or unsupported operating
/// systems and on the portable byte-code architecture.
pub open spec fn spec_stack_protector_applies(t: TargetView) -> bool {
    t.os != "none"@ && t.os != "redox"@ && t.os != "windows"@ && t.arch != "wasm32"@
}

/// Debug-symbol flag: the full form Apple's dead-code stripping needs on its
/// OS family, none on MSVC, the generic form elsewhere.
pub open spec fn spec_debug_symbol_flags(t: TargetView) -> Seq<Seq<char>> {
    if t.os == "macos"@ {
        seq!["-gfull"@]
    } else if t.env == spec_msvc() {
        Seq::empty()
    } else {
        seq!["-g3"@]
    }
}

/// Cross-compiling without a system root: the portable byte-code target with
/// an unknown OS, or musl libc on a non-primary architecture.
pub open spec fn spec_nostdlib_applies(t: TargetView) -> bool {
    (t.arch == "wasm32"@ && t.os == "unknown"@) || (t.os == "linux"@ && spec_is_musl(t.env)
        && t.arch != "x86_64"@)
}

/// The whole flag list for one compilation, in selection order:
/// kind-specific flags, general flags, stack protection, debug symbols, the
/// `NDEBUG` define on release builds, MSVC optimization-vs-runtime-checks,
/// the no-standard-library-includes pair when cross-compiling without a
/// system root on a clang-family compiler, warnings-as-errors, and the
/// fortification disable for musl.
pub open spec fn spec_compile_flags(
    t: TargetView,
    kind: FileKind,
    warnings_are_errors: bool,
    opt_level: Seq<char>,
    compiler_is_clang: bool,
) -> Seq<Seq<char>> {
    (if kind is CSource {
        spec_c_flags(t.env)
    } else {
        Seq::empty()
    }) + spec_cpp_flags(t.env) + (if spec_stack_protector_applies(t) {
        seq!["-fstack-protector"@]
    } else {
        Seq::empty()
    }) + spec_debug_symbol_flags(t) + (if !t.is_debug {
        seq!["-DNDEBUG"@]
    } else {
        Seq::empty()
    }) + (if t.env == spec_msvc() {
        if opt_level == "0"@ {
            seq!["/Od"@, "/RTCsu"@]
        } else {
            seq!["/Ox"@]
        }
    } else {
        Seq::empty()
    }) + (if spec_nostdlib_applies(t) && compiler_is_clang {
        seq!["-nostdlibinc"@, "-DGFp_NOSTDLIBINC=1"@]
    } else {
        Seq::empty()
    }) + (if warnings_are_errors {
        if t.env == spec_msvc() {
            seq!["/WX"@]
        } else {
            seq!["-Werror"@]
        }
    } else {
        Seq::empty()
    }) + (if spec_is_musl(t.env) {
        seq!["-U_FORTIFY_SOURCE"@]
    } else {
        Seq::empty()
    })
}

/// Appends one flag, given as a literal slice, to an owned flag list.
pub fn push_flag(flags: &mut Vec<String>, flag: &str)
    ensures
        string_views(final(flags)@) == string_views(old(flags)@).push(flag@),
{
    flags.push(String::from_str(flag));
    proof {
        assert(string_views(flags@) =~= string_views(old(flags)@).push(flag@));
    }
}

/// The views of a concatenation are the concatenation of the views.
pub proof fn lemma_string_views_concat(a: Seq<String>, b: Seq<String>)
    ensures
        string_views(a + b) == string_views(a) + string_views(b),
{
    assert(string_views(a + b) =~= string_views(a) + string_views(b));
}

/// The C-specific flags for a target.
pub fn c_flags(target: &TargetDescriptor) -> (flags: Vec<String>)
    ensures
        string_views(flags@) == spec_c_flags(target@.env),
{
    let mut flags: Vec<String> = Vec::new();
    if !str_eq(target.env.as_str(), "msvc") {
        push_flag(&mut flags, "-std=c1x");
        push_flag(&mut flags, "-Wbad-function-cast");
        push_flag(&mut flags, "-Wnested-externs");
        push_flag(&mut flags, "-Wstrict-prototypes");
    }
    proof {
        assert(string_views(flags@) =~= spec_c_flags(target@.env));
    }
    flags
}

/// The general compiler flags for a target.
pub fn cpp_flags(target: &TargetDescriptor) -> (flags: Vec<String>)
    ensures
        string_views(flags@) == spec_cpp_flags(target@.env),
{
    let mut flags: Vec<String> = Vec::new();
    if str_eq(target.env.as_str(), "msvc") {
        push_flag(&mut flags, "/GS");
        push_flag(&mut flags, "/Gy");
        push_flag(&mut flags, "/EHsc");
        push_flag(&mut flags, "/GR-");
        push_flag(&mut flags, "/Zc:wchar_t");
        push_flag(&mut flags, "/Zc:forScope");
        push_flag(&mut flags, "/Zc:inline");
        push_flag(&mut flags, "/Zc:rvalueCast");
        push_flag(&mut flags, "/sdl");
        push_flag(&mut flags, "/Wall");
        push_flag(&mut flags, "/wd4127");
        push_flag(&mut flags, "/wd4464");
        push_flag(&mut flags, "/wd4514");
        push_flag(&mut flags, "/wd4710");
        push_flag(&mut flags, "/wd4711");
        push_flag(&mut flags, "/wd4820");
        push_flag(&mut flags, "/wd5045");
    } else {
        push_flag(&mut flags, "-pedantic");
        push_flag(&mut flags, "-pedantic-errors");
        push_flag(&mut flags, "-Wall");
        push_flag(&mut flags, "-Wextra");
        push_flag(&mut flags, "-Wcast-align");
        push_flag(&mut flags, "-Wcast-qual");
        push_flag(&mut flags, "-Wconversion");
        push_flag(&mut flags, "-Wenum-compare");
        push_flag(&mut flags, "-Wfloat-equal");
        push_flag(&mut flags, "-Wformat=2");
        push_flag(&mut flags, "-Winline");
        push_flag(&mut flags, "-Winvalid-pch");
        push_flag(&mut flags, "-Wmissing-field-initializers");
        push_flag(&mut flags, "-Wmissing-include-dirs");
        push_flag(&mut flags, "-Wredundant-decls");
        push_flag(&mut flags, "-Wshadow");
        push_flag(&mut flags, "-Wsign-compare");
        push_flag(&mut flags, "-Wsign-conversion");
        push_flag(&mut flags, "-Wundef");
        push_flag(&mut flags, "-Wuninitialized");
        push_flag(&mut flags, "-Wwrite-strings");
        push_flag(&mut flags, "-fno-strict-aliasing");
        push_flag(&mut flags, "-fvisibility=hidden");
    }
    proof {
        assert(string_views(flags@) =~= spec_cpp_flags(target@.env));
    }
    flags
}
/// The stack-protection flag group for a target.
fn stack_protector_flags(target: &TargetDescriptor) -> (flags: Vec<String>)
    ensures
        string_views(flags@) == (if spec_stack_protector_applies(target@) {
            seq!["-fstack-protector"@]
        } else {
            Seq::<Seq<char>>::empty()
        }),
{
    let mut flags: Vec<String> = Vec::new();
    if !str_eq(target.os.as_str(), "none") && !str_eq(target.os.as_str(), "redox") && !str_eq(
        target.os.as_str(),
        "windows",
    ) && !str_eq(target.arch.as_str(), "wasm32") {
        push_flag(&mut flags, "-fstack-protector");
    }
    proof {
        assert(string_views(flags@) =~= (if spec_stack_protector_applies(target@) {
            seq!["-fstack-protector"@]
        } else {
            Seq::<Seq<char>>::empty()
        }));
    }
    flags
}

/// The debug-symbol flag group for a target.
fn debug_symbol_flags(target: &TargetDescriptor) -> (flags: Vec<String>)
    ensures
        string_views(flags@) == spec_debug_symbol_flags(target@),
{
    let mut flags: Vec<String> = Vec::new();
    if str_eq(target.os.as_str(), "macos") {
        push_flag(&mut flags, "-gfull");
    } else if !str_eq(target.env.as_str(), "msvc") {
        push_flag(&mut flags, "-g3");
    }
    proof {
        assert(string_views(flags@) =~= spec_debug_symbol_flags(target@));
    }
    flags
}

/// The `NDEBUG` define group: present on release builds only.
fn ndebug_flags(target: &TargetDescriptor) -> (flags: Vec<String>)
    ensures
        string_views(flags@) == (if !target@.is_debug {
            seq!["-DNDEBUG"@]
        } else {
            Seq::<Seq<char>>::empty()
        }),
{
    let mut flags: Vec<String> = Vec::new();
    if !target.is_debug {
        push_flag(&mut flags, "-DNDEBUG");
    }
    proof {
        assert(string_views(flags@) =~= (if !target@.is_debug {
            seq!["-DNDEBUG"@]
        } else {
            Seq::<Seq<char>>::empty()
        }));
    }
    flags
}

/// The MSVC optimization-vs-runtime-checks group, driven by the optimization
/// level the outer build tool requested.
fn msvc_opt_flags(target: &TargetDescriptor, opt_level: &str) -> (flags: Vec<String>)
    ensures
        string_views(flags@) == (if target@.env == spec_msvc() {
            if opt_level@ == "0"@ {
                seq!["/Od"@, "/RTCsu"@]
            } else {
                seq!["/Ox"@]
            }
        } else {
            Seq::<Seq<char>>::empty()
        }),
{
    let mut flags: Vec<String> = Vec::new();
    if str_eq(target.env.as_str(), "msvc") {
        if str_eq(opt_level, "0") {
            push_flag(&mut flags, "/Od");
            push_flag(&mut flags, "/RTCsu");
        } else {
            push_flag(&mut flags, "/Ox");
        }
    }
    proof {
        assert(string_views(flags@) =~= (if target@.env == spec_msvc() {
            if opt_level@ == "0"@ {
                seq!["/Od"@, "/RTCsu"@]
            } else {
                seq!["/Ox"@]
            }
        } else {
            Seq::<Seq<char>>::empty()
        }));
    }
    flags
}

/// The no-standard-library-includes group: applies only when cross-compiling
/// without a system root and the detected compiler is of the clang family.
fn nostdlib_flags(target: &TargetDescriptor, compiler_is_clang: bool) -> (flags: Vec<String>)
    ensures
        string_views(flags@) == (if spec_nostdlib_applies(target@) && compiler_is_clang {
            seq!["-nostdlibinc"@, "-DGFp_NOSTDLIBINC=1"@]
        } else {
            Seq::<Seq<char>>::empty()
        }),
{
    let mut flags: Vec<String> = Vec::new();
    let cross_no_sysroot = (str_eq(target.arch.as_str(), "wasm32") && str_eq(
        target.os.as_str(),
        "unknown",
    )) || (str_eq(target.os.as_str(), "linux") && starts_with(target.env.as_str(), "musl")
        && !str_eq(target.arch.as_str(), "x86_64"));
    if cross_no_sysroot && compiler_is_clang {
        push_flag(&mut flags, "-nostdlibinc");
        push_flag(&mut flags, "-DGFp_NOSTDLIBINC=1");
    }
    proof {
        assert(string_views(flags@) =~= (if spec_nostdlib_applies(target@) && compiler_is_clang {
            seq!["-nostdlibinc"@, "-DGFp_NOSTDLIBINC=1"@]
        } else {
            Seq::<Seq<char>>::empty()
        }));
    }
    flags
}

/// The warnings-are-errors group, in the environment's spelling.
fn werror_flags(target: &TargetDescriptor, warnings_are_errors: bool) -> (flags: Vec<String>)
    ensures
        string_views(flags@) == (if warnings_are_errors {
            if target@.env == spec_msvc() {
                seq!["/WX"@]
            } else {
                seq!["-Werror"@]
            }
        } else {
            Seq::<Seq<char>>::empty()
        }),
{
    let mut flags: Vec<String> = Vec::new();
    if warnings_are_errors {
        if str_eq(target.env.as_str(), "msvc") {
            push_flag(&mut flags, "/WX");
        } else {
            push_flag(&mut flags, "-Werror");
        }
    }
    proof {
        assert(string_views(flags@) =~= (if warnings_are_errors {
            if target@.env == spec_msvc() {
                seq!["/WX"@]
            } else {
                seq!["-Werror"@]
            }
        } else {
            Seq::<Seq<char>>::empty()
        }));
    }
    flags
}

/// The fortification-disable group: musl does not yet support the
/// fortification feature some platforms enable by default.
fn fortify_flags(target: &TargetDescriptor) -> (flags: Vec<String>)
    ensures
        string_views(flags@) == (if spec_is_musl(target@.env) {
            seq!["-U_FORTIFY_SOURCE"@]
        } else {
            Seq::<Seq<char>>::empty()
        }),
{
    let mut flags: Vec<String> = Vec::new();
    if starts_with(target.env.as_str(), "musl") {
        push_flag(&mut flags, "-U_FORTIFY_SOURCE");
    }
    proof {
        assert(string_views(flags@) =~= (if spec_is_musl(target@.env) {
            seq!["-U_FORTIFY_SOURCE"@]
        } else {
            Seq::<Seq<char>>::empty()
        }));
    }
    flags
}

/// Selects the whole ordered flag list for compiling one unit. Pure and
/// deterministic: the result is a function of the arguments alone, as the
/// postcondition states.
pub fn compile_flags(
    target: &TargetDescriptor,
    kind: FileKind,
    warnings_are_errors: bool,
    opt_level: &str,
    compiler_is_clang: bool,
) -> (flags: Vec<String>)
    requires
        !(kind is PrebuiltObject),
    ensures
        string_views(flags@) == spec_compile_flags(
            target@,
            kind,
            warnings_are_errors,
            opt_level@,
            compiler_is_clang,
        ),
{
    let mut flags: Vec<String> = if kind == FileKind::CSource {
        c_flags(target)
    } else {
        Vec::new()
    };
    proof {
        assert(string_views(flags@) =~= (if kind is CSource {
            spec_c_flags(target@.env)
        } else {
            Seq::<Seq<char>>::empty()
        }));
    }

    let mut group = cpp_flags(target);
    proof {
        lemma_string_views_concat(flags@, group@);
    }
    flags.append(&mut group);

    let mut group = stack_protector_flags(target);
    proof {
        lemma_string_views_concat(flags@, group@);
    }
    flags.append(&mut group);

    let mut group = debug_symbol_flags(target);
    proof {
        lemma_string_views_concat(flags@, group@);
    }
    flags.append(&mut group);

    let mut group = ndebug_flags(target);
    proof {
        lemma_string_views_concat(flags@, group@);
    }
    flags.append(&mut group);

    let mut group = msvc_opt_flags(target, opt_level);
    proof {
        lemma_string_views_concat(flags@, group@);
    }
    flags.append(&mut group);

    let mut group = nostdlib_flags(target, compiler_is_clang);
    proof {
        lemma_string_views_concat(flags@, group@);
    }
    flags.append(&mut group);

    let mut group = werror_flags(target, warnings_are_errors);
    proof {
        lemma_string_views_concat(flags@, group@);
    }
    flags.append(&mut group);

    let mut group = fortify_flags(target);
    proof {
        lemma_string_views_concat(flags@, group@);
    }
    flags.append(&mut group);

    flags
}

} // verus!
