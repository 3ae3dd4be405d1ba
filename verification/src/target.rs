//! The target descriptor: an immutable record of the compilation target,
//! constructed once from environment inputs and passed explicitly into every
//! component.

use vstd::prelude::*;
use crate::errors::BuildError;

verus! {

/// The environment/ABI string of the MSVC toolchain family.
pub open spec fn spec_msvc() -> Seq<char> {
    "msvc"@
}

/// Description of the compilation target.
pub struct TargetDescriptor {
    pub arch: String,
    pub os: String,
    pub env: String,
    /// Extension of object files on this target.
    pub obj_ext: String,
    /// Compiler flag that names the output object file.
    pub obj_opt: String,
    /// Whether the build runs from a version-controlled source checkout.
    pub is_git: bool,
    /// Whether this is a debug build.
    pub is_debug: bool,
}

/// The mathematical image of a `TargetDescriptor`.
pub struct TargetView {
    pub arch: Seq<char>,
    pub os: Seq<char>,
    pub env: Seq<char>,
    pub obj_ext: Seq<char>,
    pub obj_opt: Seq<char>,
    pub is_git: bool,
    pub is_debug: bool,
}

impl View for TargetDescriptor {
    type V = TargetView;

    open spec fn view(&self) -> TargetView {
        TargetView {
            arch: self.arch@,
            os: self.os@,
            env: self.env@,
            obj_ext: self.obj_ext@,
            obj_opt: self.obj_opt@,
            is_git: self.is_git,
            is_debug: self.is_debug,
        }
    }
}

/// The object extension/flag pairing is a function of the environment alone:
/// one fixed pair for the MSVC family, one default.
pub open spec fn spec_obj_pairing_ok(t: TargetView) -> bool {
    if t.env == spec_msvc() {
        t.obj_ext == "obj"@ && t.obj_opt == "/Fo"@
    } else {
        t.obj_ext == "o"@ && t.obj_opt == "-o"@
    }
}

/// A well-formed descriptor: the pairing invariant holds, and a debug build
/// only ever happens from a source checkout.
pub open spec fn spec_target_wf(t: TargetView) -> bool {
    spec_obj_pairing_ok(t) && (t.is_debug ==> t.is_git)
}

/// Constructs the target descriptor from environment inputs. Each input is
/// `None` when the corresponding environment variable is absent; absence of a
/// required one is a fatal configuration error. The debug setting is only
/// required, and only consulted, when running from a source checkout:
/// published builds are always release builds.
pub fn build_target(
    arch: Option<String>,
    os: Option<String>,
    env: Option<String>,
    debug: Option<String>,
    is_git: bool,
) -> (r: Result<TargetDescriptor, BuildError>)
    ensures
        r is Ok <==> arch is Some && os is Some && env is Some && (is_git ==> debug is Some),
        r matches Ok(t) ==> {
            &&& t@.arch == arch->0@
            &&& t@.os == os->0@
            &&& t@.env == env->0@
            &&& t@.is_git == is_git
            &&& t@.is_debug == (is_git && debug->0@ != "false"@)
            &&& spec_target_wf(t@)
        },
        arch is None ==> (r matches Err(e) && e matches BuildError::MissingEnvInput(n)
            && n@ == "CARGO_CFG_TARGET_ARCH"@),
        arch is Some && os is None ==> (r matches Err(e) && e matches BuildError::MissingEnvInput(n)
            && n@ == "CARGO_CFG_TARGET_OS"@),
        arch is Some && os is Some && env is None ==> (r matches Err(e)
            && e matches BuildError::MissingEnvInput(n) && n@ == "CARGO_CFG_TARGET_ENV"@),
        arch is Some && os is Some && env is Some && is_git && debug is None ==> (r matches Err(e)
            && e matches BuildError::MissingEnvInput(n) && n@ == "DEBUG"@),
{
    let arch = match arch {
        Some(a) => a,
        None => {
            return Err(BuildError::MissingEnvInput(String::from_str("CARGO_CFG_TARGET_ARCH")));
        },
    };
    let os = match os {
        Some(o) => o,
        None => {
            return Err(BuildError::MissingEnvInput(String::from_str("CARGO_CFG_TARGET_OS")));
        },
    };
    let env = match env {
        Some(e) => e,
        None => {
            return Err(BuildError::MissingEnvInput(String::from_str("CARGO_CFG_TARGET_ENV")));
        },
    };
    let is_debug = if is_git {
        match debug {
            Some(d) => !crate::strutil::str_eq(d.as_str(), "false"),
            None => {
                return Err(BuildError::MissingEnvInput(String::from_str("DEBUG")));
            },
        }
    } else {
        false
    };
    let is_msvc = crate::strutil::str_eq(env.as_str(), "msvc");
    let (obj_ext, obj_opt) = if is_msvc {
        (String::from_str("obj"), String::from_str("/Fo"))
    } else {
        (String::from_str("o"), String::from_str("-o"))
    };
    Ok(TargetDescriptor { arch, os, env, obj_ext, obj_opt, is_git, is_debug })
}

} // verus!
