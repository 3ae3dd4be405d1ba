//! The compiler invoker's planning half: one source file mapped to one
//! derived object file, with the command that would compile it. Executing
//! the command is the caller's part; deciding whether and how is planned and
//! verified here.

use vstd::prelude::*;
use crate::errors::BuildError;
use crate::flags::{FileKind, compile_flags, spec_compile_flags};
use crate::staleness::{needs_rebuild, spec_needs_rebuild};
use crate::strutil::{
    extension,
    file_stem,
    spec_extension,
    spec_file_stem,
    str_eq,
    string_views,
};
use crate::target::{TargetDescriptor, TargetView};

verus! {

/// One source file mapped to one object file.
pub struct CompilationUnit {
    pub source_path: String,
    /// Where the object file stands; for a pre-built object, the source
    /// path itself.
    pub object_path: String,
    pub kind: FileKind,
}

/// The mathematical image of a `CompilationUnit`.
pub struct UnitView {
    pub source_path: Seq<char>,
    pub object_path: Seq<char>,
    pub kind: FileKind,
}

impl View for CompilationUnit {
    type V = UnitView;

    open spec fn view(&self) -> UnitView {
        UnitView {
            source_path: self.source_path@,
            object_path: self.object_path@,
            kind: self.kind,
        }
    }
}

/// The object path derived for a compilable source: the source's file stem
/// moved into the output directory, with the target's object extension.
pub open spec fn spec_object_path(
    source_path: Seq<char>,
    out_dir: Seq<char>,
    obj_ext: Seq<char>,
) -> Seq<char> {
    out_dir + "/"@ + spec_file_stem(source_path) + "."@ + obj_ext
}

/// The file kind a path's extension selects: `c` compiles as C source, `S`
/// as assembly, `obj` is a pre-built object; anything else, or a missing
/// extension, has no defined compile rule.
pub open spec fn spec_file_kind(path: Seq<char>) -> Option<FileKind> {
    match spec_extension(path) {
        None => None,
        Some(e) => if e == "c"@ {
            Some(FileKind::CSource)
        } else if e == "S"@ {
            Some(FileKind::Assembly)
        } else if e == "obj"@ {
            Some(FileKind::PrebuiltObject)
        } else {
            None
        },
    }
}

/// Builds the compilation unit for one source path. A pre-built object keeps
/// its own path as object path; a compilable source gets a derived object
/// path in the output directory. An extension with no defined rule is a
/// fatal unsupported-input error carrying the extension, empty when the file
/// has none.
pub fn unit_for_source(source_path: &str, out_dir: &str, obj_ext: &str) -> (r: Result<
    CompilationUnit,
    BuildError,
>)
    ensures
        r is Ok <==> spec_file_kind(source_path@) is Some,
        r matches Ok(u) ==> {
            &&& Some(u.kind) == spec_file_kind(source_path@)
            &&& u@.source_path == source_path@
            &&& u@.object_path == (if u.kind is PrebuiltObject {
                source_path@
            } else {
                spec_object_path(source_path@, out_dir@, obj_ext@)
            })
        },
        r matches Err(e) ==> (e matches BuildError::UnsupportedExtension(x) && x@ == (
        match spec_extension(source_path@) {
            Some(e) => e,
            None => Seq::<char>::empty(),
        })),
{
    let kind = match extension(source_path) {
        None => {
            return Err(BuildError::UnsupportedExtension(String::new()));
        },
        Some(e) => {
            if str_eq(e, "c") {
                FileKind::CSource
            } else if str_eq(e, "S") {
                FileKind::Assembly
            } else if str_eq(e, "obj") {
                FileKind::PrebuiltObject
            } else {
                return Err(BuildError::UnsupportedExtension(String::from_str(e)));
            }
        },
    };
    if kind == FileKind::PrebuiltObject {
        Ok(
            CompilationUnit {
                source_path: String::from_str(source_path),
                object_path: String::from_str(source_path),
                kind,
            },
        )
    } else {
        let stem = file_stem(source_path);
        let object_path = String::from_str(out_dir).concat("/").concat(stem).concat(".").concat(
            obj_ext,
        );
        Ok(CompilationUnit { source_path: String::from_str(source_path), object_path, kind })
    }
}

/// The full argument list for compiling one unit: the include directory, the
/// selected flags, then compile-only, the output-object flag fused with the
/// object path, and the source path.
pub open spec fn spec_compile_command(
    u: UnitView,
    t: TargetView,
    warnings_are_errors: bool,
    opt_level: Seq<char>,
    compiler_is_clang: bool,
) -> Seq<Seq<char>> {
    seq!["-I"@, "include"@] + spec_compile_flags(
        t,
        u.kind,
        warnings_are_errors,
        opt_level,
        compiler_is_clang,
    ) + seq!["-c"@, t.obj_opt + u.object_path, u.source_path]
}

/// Builds the compile command for one unit, as the ordered argument list
/// handed to the platform compiler.
pub fn compile_command(
    unit: &CompilationUnit,
    target: &TargetDescriptor,
    warnings_are_errors: bool,
    opt_level: &str,
    compiler_is_clang: bool,
) -> (cmd: Vec<String>)
    requires
        !(unit@.kind is PrebuiltObject),
    ensures
        string_views(cmd@) == spec_compile_command(
            unit@,
            target@,
            warnings_are_errors,
            opt_level@,
            compiler_is_clang,
        ),
{
    let mut cmd: Vec<String> = Vec::new();
    cmd.push(String::from_str("-I"));
    cmd.push(String::from_str("include"));
    proof {
        assert(string_views(cmd@) =~= seq!["-I"@, "include"@]);
    }
    let mut selected = compile_flags(
        target,
        unit.kind,
        warnings_are_errors,
        opt_level,
        compiler_is_clang,
    );
    proof {
        crate::flags::lemma_string_views_concat(cmd@, selected@);
    }
    cmd.append(&mut selected);
    let ghost mid = string_views(cmd@);
    cmd.push(String::from_str("-c"));
    cmd.push(target.obj_opt.clone().concat(unit.object_path.as_str()));
    cmd.push(unit.source_path.clone());
    proof {
        assert(string_views(cmd@) =~= mid + seq![
            "-c"@,
            target@.obj_opt + unit@.object_path,
            unit@.source_path,
        ]);
    }
    cmd
}

/// One planned step: the object the unit contributes, and the command that
/// produces it, absent when the object on disk can be reused as it stands.
pub struct CompileStep {
    pub kind: FileKind,
    pub object_path: String,
    pub command: Option<Vec<String>>,
}

/// The mathematical image of a `CompileStep`.
pub struct StepView {
    pub kind: FileKind,
    pub object_path: Seq<char>,
    pub command: Option<Seq<Seq<char>>>,
}

impl View for CompileStep {
    type V = StepView;

    open spec fn view(&self) -> StepView {
        StepView {
            kind: self.kind,
            object_path: self.object_path@,
            command: match self.command {
                None => None,
                Some(c) => Some(string_views(c@)),
            },
        }
    }
}

/// One unit together with what the filesystem shows of it: its source's
/// modification time and its object's, `None` when the object does not
/// exist. For a pre-built object the source is the object, so
/// `source_mtime` describes both and `object_mtime` is ignored.
pub struct UnitStatus {
    pub unit: CompilationUnit,
    pub source_mtime: u64,
    pub object_mtime: Option<u64>,
}

/// The mathematical image of a `UnitStatus`.
pub struct UnitStatusView {
    pub unit: UnitView,
    pub source_mtime: u64,
    pub object_mtime: Option<u64>,
}

impl View for UnitStatus {
    type V = UnitStatusView;

    open spec fn view(&self) -> UnitStatusView {
        UnitStatusView {
            unit: self.unit@,
            source_mtime: self.source_mtime,
            object_mtime: self.object_mtime,
        }
    }
}

/// A unit's step compiles when the unit is not a pre-built object and its
/// object is stale.
pub open spec fn spec_step_compiles(s: UnitStatusView, floor: u64) -> bool {
    !(s.unit.kind is PrebuiltObject) && spec_needs_rebuild(s.source_mtime, s.object_mtime, floor)
}

/// The step planned for one unit: a pre-built object passes through
/// untouched; a stale unit gets its compile command; a fresh one has its
/// object reused.
pub open spec fn spec_plan_compile(
    s: UnitStatusView,
    t: TargetView,
    warnings_are_errors: bool,
    opt_level: Seq<char>,
    compiler_is_clang: bool,
    floor: u64,
) -> StepView {
    StepView {
        kind: s.unit.kind,
        object_path: s.unit.object_path,
        command: if spec_step_compiles(s, floor) {
            Some(spec_compile_command(s.unit, t, warnings_are_errors, opt_level, compiler_is_clang))
        } else {
            None
        },
    }
}

/// Plans one unit's step from the observed modification times.
pub fn plan_compile(
    status: &UnitStatus,
    target: &TargetDescriptor,
    warnings_are_errors: bool,
    opt_level: &str,
    compiler_is_clang: bool,
    floor: u64,
) -> (step: CompileStep)
    ensures
        step@ == spec_plan_compile(
            status@,
            target@,
            warnings_are_errors,
            opt_level@,
            compiler_is_clang,
            floor,
        ),
{
    let command = if status.unit.kind == FileKind::PrebuiltObject {
        None
    } else if needs_rebuild(status.source_mtime, status.object_mtime, floor) {
        Some(
            compile_command(
                &status.unit,
                target,
                warnings_are_errors,
                opt_level,
                compiler_is_clang,
            ),
        )
    } else {
        None
    };
    CompileStep { kind: status.unit.kind, object_path: status.unit.object_path.clone(), command }
}

} // verus!
