//! The library builder's planning half: which units of a named library are
//! compiled, whether the archive is rebuilt, and the link directive that is
//! always emitted.

use vstd::prelude::*;
use crate::errors::BuildError;
use crate::flags::{FileKind, push_flag};
use crate::staleness::spec_needs_rebuild;
use crate::strutil::{str_eq, string_views};
use crate::target::{TargetDescriptor, TargetView, spec_msvc};
use crate::unit::{
    CompileStep,
    StepView,
    UnitStatus,
    UnitStatusView,
    UnitView,
    plan_compile,
    spec_plan_compile,
    spec_step_compiles,
};

verus! {

/// The views of a list of unit statuses.
pub open spec fn unit_status_views(statuses: Seq<UnitStatus>) -> Seq<UnitStatusView> {
    statuses.map_values(|s: UnitStatus| s@)
}

/// The views of a list of planned steps.
pub open spec fn step_views(steps: Seq<CompileStep>) -> Seq<StepView> {
    steps.map_values(|s: CompileStep| s@)
}

/// The object paths a list of steps contributes, in order.
pub open spec fn spec_step_objects(steps: Seq<StepView>) -> Seq<Seq<char>> {
    steps.map_values(|s: StepView| s.object_path)
}

/// Whether a unit takes part in the build at all: the MSVC toolchain family
/// does not support assembly units in this design, so they are silently
/// excluded there.
pub open spec fn spec_unit_included(u: UnitView, env: Seq<char>) -> bool {
    !(env == spec_msvc() && u.kind is Assembly)
}

/// The ordered steps planned for a library: one per included unit, in
/// declaration order.
pub open spec fn spec_library_steps(
    statuses: Seq<UnitStatusView>,
    t: TargetView,
    warnings_are_errors: bool,
    opt_level: Seq<char>,
    compiler_is_clang: bool,
    floor: u64,
) -> Seq<StepView>
    decreases statuses.len(),
{
    if statuses.len() == 0 {
        Seq::empty()
    } else {
        let prefix = spec_library_steps(
            statuses.drop_last(),
            t,
            warnings_are_errors,
            opt_level,
            compiler_is_clang,
            floor,
        );
        if spec_unit_included(statuses.last().unit, t.env) {
            prefix.push(
                spec_plan_compile(
                    statuses.last(),
                    t,
                    warnings_are_errors,
                    opt_level,
                    compiler_is_clang,
                    floor,
                ),
            )
        } else {
            prefix
        }
    }
}

/// Whether one unit's state forces the archive to be rebuilt: its step
/// compiles (a fresh object is at least as new as any pre-existing archive),
/// or the object it contributes as it stands on disk is at least as new as
/// the archive, or the archive is absent, or the floor reaches the archive.
/// For a pre-built object the contributed object is the source file itself.
pub open spec fn spec_archive_trigger(
    s: UnitStatusView,
    archive_mtime: Option<u64>,
    floor: u64,
) -> bool {
    if s.unit.kind is PrebuiltObject {
        spec_needs_rebuild(s.source_mtime, archive_mtime, floor)
    } else {
        spec_needs_rebuild(s.source_mtime, s.object_mtime, floor) || (s.object_mtime matches Some(
            m,
        ) && spec_needs_rebuild(m, archive_mtime, floor))
    }
}

/// The archive is rebuilt when any included unit triggers it.
pub open spec fn spec_archive_needed(
    statuses: Seq<UnitStatusView>,
    env: Seq<char>,
    archive_mtime: Option<u64>,
    floor: u64,
) -> bool {
    exists|i: int|
        0 <= i < statuses.len() && spec_unit_included(#[trigger] statuses[i].unit, env)
            && spec_archive_trigger(statuses[i], archive_mtime, floor)
}

/// The archiver's platform-specific flags: dead-code stripping and
/// position-independent code on Apple's OS family, garbage-collected
/// sections elsewhere.
pub open spec fn spec_archive_flags(os: Seq<char>) -> Seq<Seq<char>> {
    if os == "macos"@ {
        seq!["-fPIC"@, "-Wl,-dead_strip"@]
    } else {
        seq!["-Wl,--gc-sections"@]
    }
}

/// Selects the archiver's platform-specific flags.
pub fn archive_flags(target: &TargetDescriptor) -> (flags: Vec<String>)
    ensures
        string_views(flags@) == spec_archive_flags(target@.os),
{
    let mut flags: Vec<String> = Vec::new();
    if str_eq(target.os.as_str(), "macos") {
        push_flag(&mut flags, "-fPIC");
        push_flag(&mut flags, "-Wl,-dead_strip");
    } else {
        push_flag(&mut flags, "-Wl,--gc-sections");
    }
    proof {
        assert(string_views(flags@) =~= spec_archive_flags(target@.os));
    }
    flags
}

/// The file name of a library's static archive.
pub open spec fn spec_archive_name(lib_name: Seq<char>) -> Seq<char> {
    "lib"@ + lib_name + ".a"@
}

/// The directive that asks the outer build tool to link a static library.
/// It is emitted whether or not anything was rebuilt: linking is declarative
/// and idempotent.
pub open spec fn spec_link_directive(lib_name: Seq<char>) -> Seq<char> {
    "cargo:rustc-link-lib=static="@ + lib_name
}

/// The archiving planned for a library, when any of its objects is newer
/// than the archive.
pub struct ArchivePlan {
    /// The archive's file name.
    pub archive_name: String,
    /// The archiver's platform-specific flags.
    pub flags: Vec<String>,
    /// Every object of the library, in source order; the archiver is fed
    /// all of them together.
    pub objects: Vec<String>,
}

/// The mathematical image of an `ArchivePlan`.
pub struct ArchivePlanView {
    pub archive_name: Seq<char>,
    pub flags: Seq<Seq<char>>,
    pub objects: Seq<Seq<char>>,
}

impl View for ArchivePlan {
    type V = ArchivePlanView;

    open spec fn view(&self) -> ArchivePlanView {
        ArchivePlanView {
            archive_name: self.archive_name@,
            flags: string_views(self.flags@),
            objects: string_views(self.objects@),
        }
    }
}

/// Everything planned for one library: its steps, its archiving when
/// needed, and the link directive that is always emitted.
pub struct LibraryPlan {
    pub steps: Vec<CompileStep>,
    pub archive: Option<ArchivePlan>,
    pub link_directive: String,
}

/// The mathematical image of a `LibraryPlan`.
pub struct LibraryPlanView {
    pub steps: Seq<StepView>,
    pub archive: Option<ArchivePlanView>,
    pub link_directive: Seq<char>,
}

impl View for LibraryPlan {
    type V = LibraryPlanView;

    open spec fn view(&self) -> LibraryPlanView {
        LibraryPlanView {
            steps: step_views(self.steps@),
            archive: match self.archive {
                None => None,
                Some(a) => Some(a@),
            },
            link_directive: self.link_directive@,
        }
    }
}

/// The optimization level actually used in planning: the given one, or
/// empty when none was given. It is only ever consulted for the MSVC
/// family, where a missing one is a fatal configuration error.
pub open spec fn spec_opt_view(opt_level: Option<String>) -> Seq<char> {
    match opt_level {
        Some(o) => o@,
        None => Seq::empty(),
    }
}

/// The planner cannot go on for a library: the MSVC family needs the
/// requested optimization level to compile, but none was given and some
/// included unit is stale.
pub open spec fn spec_opt_level_missing(
    views: Seq<UnitStatusView>,
    t: TargetView,
    opt_level: Option<String>,
    floor: u64,
) -> bool {
    t.env == spec_msvc() && opt_level is None && exists|i: int|
        0 <= i < views.len() && spec_unit_included(#[trigger] views[i].unit, t.env)
            && spec_step_compiles(views[i], floor)
}

/// What a successful library plan says: the steps are those planned for the
/// included units in order, the archive is rebuilt exactly when some
/// included unit triggers it and then holds every object in order with the
/// platform's archiver flags, and the link directive is always present.
pub open spec fn spec_library_plan_ok(
    plan: LibraryPlanView,
    lib_name: Seq<char>,
    views: Seq<UnitStatusView>,
    archive_mtime: Option<u64>,
    t: TargetView,
    warnings_are_errors: bool,
    opt_level: Seq<char>,
    compiler_is_clang: bool,
    floor: u64,
) -> bool {
    let steps = spec_library_steps(
        views,
        t,
        warnings_are_errors,
        opt_level,
        compiler_is_clang,
        floor,
    );
    &&& plan.steps == steps
    &&& (plan.archive is Some <==> spec_archive_needed(views, t.env, archive_mtime, floor))
    &&& (plan.archive matches Some(a) ==> {
        &&& a.archive_name == spec_archive_name(lib_name)
        &&& a.flags == spec_archive_flags(t.os)
        &&& a.objects == spec_step_objects(steps)
    })
    &&& plan.link_directive == spec_link_directive(lib_name)
}

/// Plans one library: a step per included unit, the archiving decision, and
/// the link directive.
pub fn plan_library(
    target: &TargetDescriptor,
    lib_name: &str,
    statuses: &Vec<UnitStatus>,
    archive_mtime: Option<u64>,
    floor: u64,
    warnings_are_errors: bool,
    opt_level: &Option<String>,
    compiler_is_clang: bool,
) -> (r: Result<LibraryPlan, BuildError>)
    ensures
        ({
            let views = unit_status_views(statuses@);
            let opt = spec_opt_view(*opt_level);
            &&& (r is Ok <==> !spec_opt_level_missing(views, target@, *opt_level, floor))
            &&& r matches Ok(plan) ==> spec_library_plan_ok(
                plan@,
                lib_name@,
                views,
                archive_mtime,
                target@,
                warnings_are_errors,
                opt,
                compiler_is_clang,
                floor,
            )
            &&& r matches Err(e) ==> (e matches BuildError::MissingEnvInput(n) && n@
                == "OPT_LEVEL"@)
        }),
{
    let ghost views = unit_status_views(statuses@);
    let ghost opt = spec_opt_view(*opt_level);
    let is_msvc = str_eq(target.env.as_str(), "msvc");
    let opt_str: &str = match opt_level {
        Some(o) => o.as_str(),
        None => "",
    };
    proof {
        reveal_strlit("");
        assert(opt_str@ =~= opt);
    }

    let mut steps: Vec<CompileStep> = Vec::new();
    let mut objects: Vec<String> = Vec::new();
    let mut any_trigger: bool = false;
    let mut i: usize = 0;
    while i < statuses.len()
        invariant
            0 <= i <= statuses@.len(),
            views == unit_status_views(statuses@),
            opt == spec_opt_view(*opt_level),
            opt_str@ == opt,
            is_msvc == (target@.env == spec_msvc()),
            forall|j: int| 0 <= j < i ==> #[trigger] views[j] == statuses@[j]@,
            step_views(steps@) == spec_library_steps(
                views.take(i as int),
                target@,
                warnings_are_errors,
                opt,
                compiler_is_clang,
                floor,
            ),
            string_views(objects@) == spec_step_objects(
                spec_library_steps(
                    views.take(i as int),
                    target@,
                    warnings_are_errors,
                    opt,
                    compiler_is_clang,
                    floor,
                ),
            ),
            any_trigger == (exists|j: int|
                0 <= j < i && spec_unit_included(#[trigger] views[j].unit, target@.env)
                    && spec_archive_trigger(views[j], archive_mtime, floor)),
            (target@.env == spec_msvc() && opt_level is None) ==> forall|j: int|
                0 <= j < i ==> !(spec_unit_included(#[trigger] views[j].unit, target@.env)
                    && spec_step_compiles(views[j], floor)),
        decreases statuses@.len() - i,
    {
        let status = &statuses[i];
        proof {
            assert(views[i as int] == status@);
        }
        let included = !(is_msvc && status.unit.kind == FileKind::Assembly);
        if included {
            if is_msvc && opt_level.is_none() && status.unit.kind != FileKind::PrebuiltObject
                && crate::staleness::needs_rebuild(status.source_mtime, status.object_mtime, floor)
            {
                return Err(BuildError::MissingEnvInput(String::from_str("OPT_LEVEL")));
            }
            let step = plan_compile(
                status,
                target,
                warnings_are_errors,
                opt_str,
                compiler_is_clang,
                floor,
            );
            let trigger = if status.unit.kind == FileKind::PrebuiltObject {
                crate::staleness::needs_rebuild(status.source_mtime, archive_mtime, floor)
            } else {
                crate::staleness::needs_rebuild(status.source_mtime, status.object_mtime, floor)
                    || match status.object_mtime {
                    Some(m) => crate::staleness::needs_rebuild(m, archive_mtime, floor),
                    None => false,
                }
            };
            proof {
                assert(trigger == spec_archive_trigger(views[i as int], archive_mtime, floor));
            }
            if trigger {
                any_trigger = true;
            }
            let ghost prev_steps = step_views(steps@);
            let ghost prev_objects = string_views(objects@);
            objects.push(step.object_path.clone());
            steps.push(step);
            proof {
                assert(step_views(steps@) =~= prev_steps.push(
                    spec_plan_compile(
                        views[i as int],
                        target@,
                        warnings_are_errors,
                        opt,
                        compiler_is_clang,
                        floor,
                    ),
                ));
                assert(views.take(i + 1).drop_last() =~= views.take(i as int));
                assert(views.take(i + 1).last() == views[i as int]);
                let new_spec = spec_library_steps(
                    views.take(i + 1),
                    target@,
                    warnings_are_errors,
                    opt,
                    compiler_is_clang,
                    floor,
                );
                assert(new_spec == prev_steps.push(
                    spec_plan_compile(
                        views[i as int],
                        target@,
                        warnings_are_errors,
                        opt,
                        compiler_is_clang,
                        floor,
                    ),
                ));
                assert(string_views(objects@) =~= prev_objects.push(step@.object_path));
                assert(spec_step_objects(new_spec) =~= prev_objects.push(step@.object_path));
                assert(string_views(objects@) == spec_step_objects(new_spec));
            }
        } else {
            proof {
                assert(views.take(i + 1).drop_last() =~= views.take(i as int));
                assert(views.take(i + 1).last() == views[i as int]);
                assert(spec_library_steps(
                    views.take(i + 1),
                    target@,
                    warnings_are_errors,
                    opt,
                    compiler_is_clang,
                    floor,
                ) == spec_library_steps(
                    views.take(i as int),
                    target@,
                    warnings_are_errors,
                    opt,
                    compiler_is_clang,
                    floor,
                ));
            }
        }
        i += 1;
    }
    proof {
        assert(views.take(i as int) =~= views);
    }

    let archive = if any_trigger {
        let flags = archive_flags(target);
        let archive_name = String::from_str("lib").concat(lib_name).concat(".a");
        Some(ArchivePlan { archive_name, flags, objects })
    } else {
        None
    };
    let link_directive = String::from_str("cargo:rustc-link-lib=static=").concat(lib_name);
    Ok(LibraryPlan { steps, archive, link_directive })
}

} // verus!
