//! The planner's cross-cutting laws, proved over the same specification
//! functions that the executable planners are verified against: a settled
//! tree plans no work, touching one source forces exactly that unit's
//! recompilation, and a raised staleness floor invalidates everything.

use vstd::prelude::*;
use crate::library::{
    spec_archive_needed,
    spec_archive_trigger,
    spec_library_steps,
    spec_unit_included,
};
use crate::target::TargetView;
use crate::unit::{UnitStatusView, spec_plan_compile, spec_step_compiles};

verus! {

/// A unit is fresh when the object it contributes exists and is strictly
/// newer than both its source and the staleness floor. A pre-built object
/// is always fresh: it is never compiled.
pub open spec fn spec_unit_fresh(s: UnitStatusView, floor: u64) -> bool {
    !(s.unit.kind is PrebuiltObject) ==> (s.object_mtime matches Some(m) && m > s.source_mtime
        && m > floor)
}

/// What a completed, undisturbed run leaves behind: every included unit is
/// fresh, and the archive exists and is strictly newer than the floor and
/// than every object contributed to it (for a pre-built object, than the
/// source file itself).
pub open spec fn spec_settled(
    statuses: Seq<UnitStatusView>,
    env: Seq<char>,
    archive_mtime: Option<u64>,
    floor: u64,
) -> bool {
    &&& archive_mtime is Some
    &&& archive_mtime->0 > floor
    &&& forall|j: int|
        0 <= j < statuses.len() && spec_unit_included(
            (#[trigger] statuses[j]).unit,
            env,
        ) ==> spec_unit_fresh(statuses[j], floor) && (if statuses[j].unit.kind is PrebuiltObject {
            archive_mtime->0 > statuses[j].source_mtime
        } else {
            archive_mtime->0 > statuses[j].object_mtime->0
        })
}

/// If no included unit's step compiles, no planned step carries a command.
pub proof fn lemma_steps_quiet(
    statuses: Seq<UnitStatusView>,
    t: TargetView,
    warnings_are_errors: bool,
    opt_level: Seq<char>,
    compiler_is_clang: bool,
    floor: u64,
)
    requires
        forall|j: int|
            0 <= j < statuses.len() && spec_unit_included((#[trigger] statuses[j]).unit, t.env)
                ==> !spec_step_compiles(statuses[j], floor),
    ensures
        ({
            let steps = spec_library_steps(
                statuses,
                t,
                warnings_are_errors,
                opt_level,
                compiler_is_clang,
                floor,
            );
            forall|i: int| 0 <= i < steps.len() ==> (#[trigger] steps[i]).command is None
        }),
    decreases statuses.len(),
{
    if statuses.len() > 0 {
        assert(forall|j: int|
            0 <= j < statuses.drop_last().len() ==> #[trigger] statuses.drop_last()[j]
                == statuses[j]);
        lemma_steps_quiet(
            statuses.drop_last(),
            t,
            warnings_are_errors,
            opt_level,
            compiler_is_clang,
            floor,
        );
    }
}

/// If every included unit that is not a pre-built object has a stale step,
/// every planned step but the pre-built passthroughs carries a command.
pub proof fn lemma_steps_all_compile(
    statuses: Seq<UnitStatusView>,
    t: TargetView,
    warnings_are_errors: bool,
    opt_level: Seq<char>,
    compiler_is_clang: bool,
    floor: u64,
)
    requires
        forall|j: int|
            0 <= j < statuses.len() && spec_unit_included((#[trigger] statuses[j]).unit, t.env)
                && !(statuses[j].unit.kind is PrebuiltObject) ==> spec_step_compiles(
                statuses[j],
                floor,
            ),
    ensures
        ({
            let steps = spec_library_steps(
                statuses,
                t,
                warnings_are_errors,
                opt_level,
                compiler_is_clang,
                floor,
            );
            forall|i: int|
                0 <= i < steps.len() ==> ((#[trigger] steps[i]).kind is PrebuiltObject || steps[i].command
                    is Some)
        }),
    decreases statuses.len(),
{
    if statuses.len() > 0 {
        assert(forall|j: int|
            0 <= j < statuses.drop_last().len() ==> #[trigger] statuses.drop_last()[j]
                == statuses[j]);
        lemma_steps_all_compile(
            statuses.drop_last(),
            t,
            warnings_are_errors,
            opt_level,
            compiler_is_clang,
            floor,
        );
    }
}

/// When every unit takes part (nothing is excluded for the toolchain), the
/// planned steps align with the units one to one, in order.
pub proof fn lemma_steps_all_included(
    statuses: Seq<UnitStatusView>,
    t: TargetView,
    warnings_are_errors: bool,
    opt_level: Seq<char>,
    compiler_is_clang: bool,
    floor: u64,
)
    requires
        forall|j: int|
            0 <= j < statuses.len() ==> spec_unit_included((#[trigger] statuses[j]).unit, t.env),
    ensures
        ({
            let steps = spec_library_steps(
                statuses,
                t,
                warnings_are_errors,
                opt_level,
                compiler_is_clang,
                floor,
            );
            &&& steps.len() == statuses.len()
            &&& forall|j: int|
                0 <= j < statuses.len() ==> #[trigger] steps[j] == spec_plan_compile(
                    statuses[j],
                    t,
                    warnings_are_errors,
                    opt_level,
                    compiler_is_clang,
                    floor,
                )
        }),
    decreases statuses.len(),
{
    if statuses.len() > 0 {
        assert(forall|j: int|
            0 <= j < statuses.drop_last().len() ==> #[trigger] statuses.drop_last()[j]
                == statuses[j]);
        lemma_steps_all_included(
            statuses.drop_last(),
            t,
            warnings_are_errors,
            opt_level,
            compiler_is_clang,
            floor,
        );
    }
}

/// Idempotence: over a settled tree — the state any completed run leaves
/// behind when nothing on disk changed afterwards — the next plan carries
/// no compile command and no archiving. The directives are functions of the
/// declared library names and the output directory alone, so an unchanged
/// declaration re-emits the same directives.
pub proof fn lemma_idempotence(
    statuses: Seq<UnitStatusView>,
    t: TargetView,
    warnings_are_errors: bool,
    opt_level: Seq<char>,
    compiler_is_clang: bool,
    archive_mtime: Option<u64>,
    floor: u64,
)
    requires
        spec_settled(statuses, t.env, archive_mtime, floor),
    ensures
        ({
            let steps = spec_library_steps(
                statuses,
                t,
                warnings_are_errors,
                opt_level,
                compiler_is_clang,
                floor,
            );
            forall|i: int| 0 <= i < steps.len() ==> (#[trigger] steps[i]).command is None
        }),
        !spec_archive_needed(statuses, t.env, archive_mtime, floor),
{
    lemma_steps_quiet(statuses, t, warnings_are_errors, opt_level, compiler_is_clang, floor);
    assert forall|i: int|
        0 <= i < statuses.len() && spec_unit_included(
            (#[trigger] statuses[i]).unit,
            t.env,
        ) implies !spec_archive_trigger(statuses[i], archive_mtime, floor) by {
        assert(spec_unit_fresh(statuses[i], floor));
    }
}

/// Staleness monotonicity: over a tree where nothing is stale, touching one
/// unit's source to a time at or after its object's forces exactly that
/// unit's step to compile on the next plan, and no other; units whose state
/// did not change keep their decision.
pub proof fn lemma_staleness_monotonicity(
    before: Seq<UnitStatusView>,
    after: Seq<UnitStatusView>,
    k: int,
    floor: u64,
)
    requires
        0 <= k < before.len(),
        after.len() == before.len(),
        forall|j: int| 0 <= j < before.len() ==> !spec_step_compiles(#[trigger] before[j], floor),
        !(before[k].unit.kind is PrebuiltObject),
        after[k].unit == before[k].unit,
        after[k].object_mtime == before[k].object_mtime,
        before[k].object_mtime matches Some(m) && after[k].source_mtime >= m,
        forall|j: int| 0 <= j < before.len() && j != k ==> #[trigger] after[j] == before[j],
    ensures
        forall|j: int|
            0 <= j < after.len() ==> (spec_step_compiles(#[trigger] after[j], floor) <==> j == k),
{
}

/// Staleness monotonicity at the plan level: when every unit takes part,
/// the plan drawn after touching one unit's source carries a command for
/// exactly that unit's step.
pub proof fn lemma_touch_recompiles_only_the_touched(
    before: Seq<UnitStatusView>,
    after: Seq<UnitStatusView>,
    k: int,
    t: TargetView,
    warnings_are_errors: bool,
    opt_level: Seq<char>,
    compiler_is_clang: bool,
    floor: u64,
)
    requires
        0 <= k < before.len(),
        after.len() == before.len(),
        forall|j: int| 0 <= j < before.len() ==> !spec_step_compiles(#[trigger] before[j], floor),
        !(before[k].unit.kind is PrebuiltObject),
        after[k].unit == before[k].unit,
        after[k].object_mtime == before[k].object_mtime,
        before[k].object_mtime matches Some(m) && after[k].source_mtime >= m,
        forall|j: int| 0 <= j < before.len() && j != k ==> #[trigger] after[j] == before[j],
        forall|j: int|
            0 <= j < after.len() ==> spec_unit_included((#[trigger] after[j]).unit, t.env),
    ensures
        ({
            let steps = spec_library_steps(
                after,
                t,
                warnings_are_errors,
                opt_level,
                compiler_is_clang,
                floor,
            );
            &&& steps.len() == after.len()
            &&& forall|j: int|
                0 <= j < steps.len() ==> ((#[trigger] steps[j]).command is Some <==> j == k)
        }),
{
    lemma_staleness_monotonicity(before, after, k, floor);
    lemma_steps_all_included(after, t, warnings_are_errors, opt_level, compiler_is_clang, floor);
}

/// Floor propagation: when the staleness floor reaches every existing
/// object and the archive — as it does after a change to any tracked
/// include or build-definition file — every included unit but the pre-built
/// passthroughs is recompiled and the archive is rebuilt.
pub proof fn lemma_floor_propagation(
    statuses: Seq<UnitStatusView>,
    t: TargetView,
    warnings_are_errors: bool,
    opt_level: Seq<char>,
    compiler_is_clang: bool,
    archive_mtime: Option<u64>,
    floor: u64,
)
    requires
        forall|j: int|
            0 <= j < statuses.len() ==> ((#[trigger] statuses[j]).object_mtime matches Some(m)
                ==> floor >= m),
        archive_mtime matches Some(a) ==> floor >= a,
        exists|j: int|
            0 <= j < statuses.len() && spec_unit_included((#[trigger] statuses[j]).unit, t.env),
    ensures
        ({
            let steps = spec_library_steps(
                statuses,
                t,
                warnings_are_errors,
                opt_level,
                compiler_is_clang,
                floor,
            );
            forall|i: int|
                0 <= i < steps.len() ==> ((#[trigger] steps[i]).kind is PrebuiltObject || steps[i].command
                    is Some)
        }),
        spec_archive_needed(statuses, t.env, archive_mtime, floor),
{
    lemma_steps_all_compile(statuses, t, warnings_are_errors, opt_level, compiler_is_clang, floor);
    let j = choose|j: int|
        0 <= j < statuses.len() && spec_unit_included((#[trigger] statuses[j]).unit, t.env);
    assert(spec_archive_trigger(statuses[j], archive_mtime, floor));
}

} // verus!
