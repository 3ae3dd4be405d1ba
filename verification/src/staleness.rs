//! The staleness checker: decides, from modification times alone, whether a
//! build product has to be regenerated.

use vstd::prelude::*;

verus! {

/// A build product must be regenerated when it does not exist, when its
/// source is at least as new as it, or when the staleness floor is at least
/// as new as it. Equality counts as stale: on filesystems with coarse clocks
/// a write made in the same instant as the product may not yet be reflected,
/// so the conservative answer is to rebuild.
pub open spec fn spec_needs_rebuild(
    source_mtime: u64,
    target_mtime: Option<u64>,
    floor: u64,
) -> bool {
    match target_mtime {
        None => true,
        Some(t) => source_mtime >= t || floor >= t,
    }
}

/// Decides whether the product at `target_mtime` (`None` when it does not
/// exist) is stale with respect to its source and the staleness floor.
pub fn needs_rebuild(source_mtime: u64, target_mtime: Option<u64>, floor: u64) -> (stale: bool)
    ensures
        stale == spec_needs_rebuild(source_mtime, target_mtime, floor),
{
    match target_mtime {
        None => true,
        Some(t) => source_mtime >= t || floor >= t,
    }
}

/// The newest modification time in a non-empty list.
pub open spec fn spec_staleness_floor(mtimes: Seq<u64>) -> u64
    decreases mtimes.len(),
{
    if mtimes.len() <= 1 {
        if mtimes.len() == 0 {
            0
        } else {
            mtimes[0]
        }
    } else {
        let rest = spec_staleness_floor(mtimes.drop_last());
        if mtimes.last() > rest {
            mtimes.last()
        } else {
            rest
        }
    }
}

/// The staleness floor: the newest modification time among all files whose
/// change must invalidate every build output (tracked includes and the build
/// definition itself). The list always holds at least the build definition,
/// so it is never empty.
pub fn staleness_floor(mtimes: &Vec<u64>) -> (floor: u64)
    requires
        mtimes@.len() > 0,
    ensures
        floor == spec_staleness_floor(mtimes@),
        mtimes@.contains(floor),
        forall|i: int| 0 <= i < mtimes@.len() ==> mtimes@[i] <= floor,
{
    let mut floor: u64 = mtimes[0];
    let mut i: usize = 1;
    proof {
        assert(mtimes@.take(1) =~= seq![mtimes@[0]]);
    }
    while i < mtimes.len()
        invariant
            1 <= i <= mtimes@.len(),
            floor == spec_staleness_floor(mtimes@.take(i as int)),
            mtimes@.contains(floor),
            forall|j: int| 0 <= j < i ==> mtimes@[j] <= floor,
        decreases mtimes@.len() - i,
    {
        proof {
            assert(mtimes@.take(i + 1).drop_last() =~= mtimes@.take(i as int));
            assert(mtimes@.take(i + 1).last() == mtimes@[i as int]);
        }
        if mtimes[i] > floor {
            floor = mtimes[i];
        }
        i += 1;
    }
    proof {
        assert(mtimes@.take(i as int) =~= mtimes@);
    }
    floor
}

} // verus!
