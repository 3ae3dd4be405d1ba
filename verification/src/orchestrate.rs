//! The build orchestrator's planning half: selecting the sources that apply
//! to the target architecture, the portable byte-code short-circuit, and the
//! whole-run plan over every declared library.

use vstd::prelude::*;
use crate::errors::BuildError;
use crate::library::{
    LibraryPlan,
    LibraryPlanView,
    plan_library,
    spec_library_plan_ok,
    spec_opt_level_missing,
    spec_opt_view,
    unit_status_views,
};
use crate::staleness::{spec_staleness_floor, staleness_floor};
use crate::strutil::{contains_str, spec_extension, str_eq, string_views};
use crate::target::{TargetDescriptor, TargetView};
use crate::unit::{UnitStatus, UnitStatusView};

verus! {

/// One entry of the static source manifest: a relative path, applicable to
/// the listed architectures, or to all of them when the list is empty.
pub struct SourceManifestEntry {
    pub archs: Vec<String>,
    pub path: String,
}

/// The mathematical image of a `SourceManifestEntry`.
pub struct EntryView {
    pub archs: Seq<Seq<char>>,
    pub path: Seq<char>,
}

impl View for SourceManifestEntry {
    type V = EntryView;

    open spec fn view(&self) -> EntryView {
        EntryView { archs: string_views(self.archs@), path: self.path@ }
    }
}

/// The views of a list of manifest entries.
pub open spec fn entry_views(entries: Seq<SourceManifestEntry>) -> Seq<EntryView> {
    entries.map_values(|e: SourceManifestEntry| e@)
}

/// An entry applies to an architecture when its list is empty or names it.
pub open spec fn spec_entry_matches(e: EntryView, arch: Seq<char>) -> bool {
    e.archs.len() == 0 || e.archs.contains(arch)
}

/// An assembly-generator script, recognised by its extension; such scripts
/// stand in the manifest but are never compiled directly.
pub open spec fn spec_is_perlasm(path: Seq<char>) -> bool {
    spec_extension(path) == Some("pl"@)
}

/// Recognises an assembly-generator script.
pub fn is_perlasm(path: &str) -> (r: bool)
    ensures
        r == spec_is_perlasm(path@),
{
    match crate::strutil::extension(path) {
        Some(e) => str_eq(e, "pl"),
        None => false,
    }
}

/// The paths of the manifest entries that apply to an architecture, in
/// manifest order.
pub open spec fn spec_sources_for_arch(entries: Seq<EntryView>, arch: Seq<char>) -> Seq<Seq<char>>
    decreases entries.len(),
{
    if entries.len() == 0 {
        Seq::empty()
    } else {
        let prefix = spec_sources_for_arch(entries.drop_last(), arch);
        if spec_entry_matches(entries.last(), arch) {
            prefix.push(entries.last().path)
        } else {
            prefix
        }
    }
}

/// Selects the manifest paths that apply to an architecture.
pub fn sources_for_arch(entries: &Vec<SourceManifestEntry>, arch: &str) -> (srcs: Vec<String>)
    ensures
        string_views(srcs@) == spec_sources_for_arch(entry_views(entries@), arch@),
{
    let ghost views = entry_views(entries@);
    let mut srcs: Vec<String> = Vec::new();
    let mut i: usize = 0;
    while i < entries.len()
        invariant
            0 <= i <= entries@.len(),
            views == entry_views(entries@),
            string_views(srcs@) == spec_sources_for_arch(views.take(i as int), arch@),
        decreases entries@.len() - i,
    {
        let entry = &entries[i];
        proof {
            assert(views[i as int] == entry@);
            assert(views.take(i + 1).drop_last() =~= views.take(i as int));
            assert(views.take(i + 1).last() == views[i as int]);
        }
        let ghost prev = string_views(srcs@);
        if entry.archs.len() == 0 || contains_str(&entry.archs, arch) {
            srcs.push(entry.path.clone());
            proof {
                assert(string_views(srcs@) =~= prev.push(entry@.path));
            }
        }
        i += 1;
    }
    proof {
        assert(views.take(i as int) =~= views);
    }
    srcs
}

/// The core sources for an architecture: the applicable manifest paths with
/// the assembly-generator scripts left out.
pub open spec fn spec_core_sources(entries: Seq<EntryView>, arch: Seq<char>) -> Seq<Seq<char>>
    decreases entries.len(),
{
    if entries.len() == 0 {
        Seq::empty()
    } else {
        let prefix = spec_core_sources(entries.drop_last(), arch);
        if spec_entry_matches(entries.last(), arch) && !spec_is_perlasm(entries.last().path) {
            prefix.push(entries.last().path)
        } else {
            prefix
        }
    }
}

/// Selects the core sources for an architecture.
pub fn core_sources(entries: &Vec<SourceManifestEntry>, arch: &str) -> (srcs: Vec<String>)
    ensures
        string_views(srcs@) == spec_core_sources(entry_views(entries@), arch@),
{
    let ghost views = entry_views(entries@);
    let mut srcs: Vec<String> = Vec::new();
    let mut i: usize = 0;
    while i < entries.len()
        invariant
            0 <= i <= entries@.len(),
            views == entry_views(entries@),
            string_views(srcs@) == spec_core_sources(views.take(i as int), arch@),
        decreases entries@.len() - i,
    {
        let entry = &entries[i];
        proof {
            assert(views[i as int] == entry@);
            assert(views.take(i + 1).drop_last() =~= views.take(i as int));
            assert(views.take(i + 1).last() == views[i as int]);
        }
        let ghost prev = string_views(srcs@);
        if (entry.archs.len() == 0 || contains_str(&entry.archs, arch)) && !is_perlasm(
            entry.path.as_str(),
        ) {
            srcs.push(entry.path.clone());
            proof {
                assert(string_views(srcs@) =~= prev.push(entry@.path));
            }
        }
        i += 1;
    }
    proof {
        assert(views.take(i as int) =~= views);
    }
    srcs
}

/// One declared library, with what the filesystem shows of its units and
/// its archive.
pub struct LibraryInput {
    pub name: String,
    /// Every unit of the library in build order — auxiliary sources first,
    /// then the primary ones — the order in which objects reach the
    /// archiver.
    pub statuses: Vec<UnitStatus>,
    /// The archive's modification time, `None` when it does not exist.
    pub archive_mtime: Option<u64>,
}

/// The mathematical image of a `LibraryInput`.
pub struct LibraryInputView {
    pub name: Seq<char>,
    pub statuses: Seq<UnitStatusView>,
    pub archive_mtime: Option<u64>,
}

impl View for LibraryInput {
    type V = LibraryInputView;

    open spec fn view(&self) -> LibraryInputView {
        LibraryInputView {
            name: self.name@,
            statuses: unit_status_views(self.statuses@),
            archive_mtime: self.archive_mtime,
        }
    }
}

/// The views of a list of library inputs.
pub open spec fn library_input_views(libs: Seq<LibraryInput>) -> Seq<LibraryInputView> {
    libs.map_values(|l: LibraryInput| l@)
}

/// The views of a list of library plans.
pub open spec fn library_plan_views(plans: Seq<LibraryPlan>) -> Seq<LibraryPlanView> {
    plans.map_values(|p: LibraryPlan| p@)
}

/// The warning emitted when the portable byte-code target is built without
/// its native-compile feature.
pub open spec fn spec_wasm_warning() -> Seq<char> {
    "cargo:warning=build for wasm"@
}

/// The directive that adds the output directory to the native library
/// search path.
pub open spec fn spec_search_directive(out_dir: Seq<char>) -> Seq<char> {
    "cargo:rustc-link-search=native="@ + out_dir
}

/// Builds the search-path directive for the output directory.
pub fn search_directive(out_dir: &str) -> (d: String)
    ensures
        d@ == spec_search_directive(out_dir@),
{
    String::from_str("cargo:rustc-link-search=native=").concat(out_dir)
}

/// The whole-run plan: either a short-circuit with a warning and no build
/// action, or one plan per declared library plus the search-path directive.
pub enum BuildPlan {
    Skipped { warning: String },
    Native { libraries: Vec<LibraryPlan>, search_directive: String },
}

/// The mathematical image of a `BuildPlan`.
pub enum BuildPlanView {
    Skipped { warning: Seq<char> },
    Native { libraries: Seq<LibraryPlanView>, search_directive: Seq<char> },
}

impl View for BuildPlan {
    type V = BuildPlanView;

    open spec fn view(&self) -> BuildPlanView {
        match self {
            BuildPlan::Skipped { warning } => BuildPlanView::Skipped { warning: warning@ },
            BuildPlan::Native { libraries, search_directive } => BuildPlanView::Native {
                libraries: library_plan_views(libraries@),
                search_directive: search_directive@,
            },
        }
    }
}

/// The orchestrator short-circuits when targeting the portable byte-code
/// architecture without the native-compile feature.
pub open spec fn spec_build_skipped(t: TargetView, wasm_native_feature: bool) -> bool {
    t.arch == "wasm32"@ && !wasm_native_feature
}

/// Plans a whole orchestration run. `include_mtimes` holds the modification
/// times of every tracked include and of the build definition itself; it is
/// never empty, since the build definition always exists. Warnings are
/// treated as errors exactly when running from a source checkout.
pub fn plan_build(
    target: &TargetDescriptor,
    wasm_native_feature: bool,
    out_dir: &str,
    include_mtimes: &Vec<u64>,
    libraries: &Vec<LibraryInput>,
    opt_level: &Option<String>,
    compiler_is_clang: bool,
) -> (r: Result<BuildPlan, BuildError>)
    requires
        include_mtimes@.len() > 0,
    ensures
        ({
            let floor = spec_staleness_floor(include_mtimes@);
            let wae = target@.is_git;
            let opt = spec_opt_view(*opt_level);
            let lib_views = library_input_views(libraries@);
            &&& spec_build_skipped(target@, wasm_native_feature) ==> (r matches Ok(p)
                && p@ matches BuildPlanView::Skipped { warning } && warning == spec_wasm_warning())
            &&& !spec_build_skipped(target@, wasm_native_feature) ==> {
                &&& (r is Ok <==> forall|k: int|
                    0 <= k < lib_views.len() ==> !spec_opt_level_missing(
                        (#[trigger] lib_views[k]).statuses,
                        target@,
                        *opt_level,
                        floor,
                    ))
                &&& r matches Ok(p) ==> (p@ matches BuildPlanView::Native {
                    libraries: plans,
                    search_directive: sd,
                } && plans.len() == lib_views.len() && sd == spec_search_directive(out_dir@)
                    && forall|k: int|
                    0 <= k < lib_views.len() ==> spec_library_plan_ok(
                        #[trigger] plans[k],
                        lib_views[k].name,
                        lib_views[k].statuses,
                        lib_views[k].archive_mtime,
                        target@,
                        wae,
                        opt,
                        compiler_is_clang,
                        floor,
                    ))
            }
            &&& r matches Err(e) ==> (e matches BuildError::MissingEnvInput(n) && n@
                == "OPT_LEVEL"@)
        }),
{
    if str_eq(target.arch.as_str(), "wasm32") && !wasm_native_feature {
        return Ok(BuildPlan::Skipped { warning: String::from_str("cargo:warning=build for wasm") });
    }
    let floor = staleness_floor(include_mtimes);
    let wae = target.is_git;
    let ghost lib_views = library_input_views(libraries@);

    let mut plans: Vec<LibraryPlan> = Vec::new();
    let mut i: usize = 0;
    while i < libraries.len()
        invariant
            0 <= i <= libraries@.len(),
            lib_views == library_input_views(libraries@),
            !spec_build_skipped(target@, wasm_native_feature),
            floor == spec_staleness_floor(include_mtimes@),
            wae == target@.is_git,
            library_plan_views(plans@).len() == i,
            forall|k: int|
                0 <= k < i ==> spec_library_plan_ok(
                    #[trigger] library_plan_views(plans@)[k],
                    lib_views[k].name,
                    lib_views[k].statuses,
                    lib_views[k].archive_mtime,
                    target@,
                    wae,
                    spec_opt_view(*opt_level),
                    compiler_is_clang,
                    floor,
                ),
            forall|k: int|
                0 <= k < i ==> !spec_opt_level_missing(
                    (#[trigger] lib_views[k]).statuses,
                    target@,
                    *opt_level,
                    floor,
                ),
        decreases libraries@.len() - i,
    {
        let lib = &libraries[i];
        proof {
            assert(lib_views[i as int] == lib@);
        }
        let ghost prev = library_plan_views(plans@);
        match plan_library(
            target,
            lib.name.as_str(),
            &lib.statuses,
            lib.archive_mtime,
            floor,
            wae,
            opt_level,
            compiler_is_clang,
        ) {
            Ok(plan) => {
                plans.push(plan);
                proof {
                    assert(library_plan_views(plans@) =~= prev.push(plans@.last()@));
                }
            },
            Err(e) => {
                proof {
                    assert(spec_opt_level_missing(
                        lib_views[i as int].statuses,
                        target@,
                        *opt_level,
                        floor,
                    ));
                }
                return Err(e);
            },
        }
        i += 1;
    }
    let sd = search_directive(out_dir);
    Ok(BuildPlan::Native { libraries: plans, search_directive: sd })
}

} // verus!
