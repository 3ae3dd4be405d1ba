//! The manifest auditor: every compilable or header file found under the
//! audited roots must be declared in the static manifests. The walk itself
//! is the caller's part; the policy over the collected paths is verified
//! here, and its verdict is a set-membership test, indifferent to the order
//! in which the walk found the files.

use vstd::prelude::*;
use crate::errors::BuildError;
use crate::orchestrate::{EntryView, SourceManifestEntry, entry_views};
use crate::strutil::{contains_str, extension, spec_extension, str_eq, string_views};

verus! {

/// A source manifest declares a path when some entry carries it, whatever
/// that entry's architectures.
pub open spec fn spec_sources_declare(sources: Seq<EntryView>, path: Seq<char>) -> bool {
    exists|i: int| 0 <= i < sources.len() && (#[trigger] sources[i]).path == path
}

/// Whether the manifests account for one on-disk file: headers and inline
/// headers must stand in the include manifest, compilable sources (C,
/// assembly, platform assembly) in the source manifest, matched by exact
/// relative path; any other extension is exempt.
pub open spec fn spec_is_tracked(
    path: Seq<char>,
    includes: Seq<Seq<char>>,
    sources: Seq<EntryView>,
) -> bool {
    match spec_extension(path) {
        Some(e) => if e == "h"@ || e == "inl"@ {
            includes.contains(path)
        } else if e == "c"@ || e == "S"@ || e == "asm"@ {
            spec_sources_declare(sources, path)
        } else {
            true
        },
        None => true,
    }
}

/// Every collected file is accounted for.
pub open spec fn spec_all_tracked(
    files: Seq<Seq<char>>,
    includes: Seq<Seq<char>>,
    sources: Seq<EntryView>,
) -> bool {
    forall|i: int| 0 <= i < files.len() ==> spec_is_tracked(#[trigger] files[i], includes, sources)
}

/// Whether some source manifest entry carries this exact path.
pub fn sources_declare(sources: &Vec<SourceManifestEntry>, path: &str) -> (found: bool)
    ensures
        found == spec_sources_declare(entry_views(sources@), path@),
{
    let ghost views = entry_views(sources@);
    let mut i: usize = 0;
    while i < sources.len()
        invariant
            0 <= i <= sources@.len(),
            views == entry_views(sources@),
            forall|j: int| 0 <= j < i ==> (#[trigger] views[j]).path != path@,
        decreases sources@.len() - i,
    {
        if str_eq(sources[i].path.as_str(), path) {
            proof {
                assert(views[i as int].path == path@);
            }
            return true;
        }
        i += 1;
    }
    false
}

/// Decides whether the manifests account for one file.
pub fn is_tracked(
    path: &str,
    includes: &Vec<String>,
    sources: &Vec<SourceManifestEntry>,
) -> (accounted: bool)
    ensures
        accounted == spec_is_tracked(path@, string_views(includes@), entry_views(sources@)),
{
    match extension(path) {
        Some(e) => {
            if str_eq(e, "h") || str_eq(e, "inl") {
                contains_str(includes, path)
            } else if str_eq(e, "c") || str_eq(e, "S") || str_eq(e, "asm") {
                sources_declare(sources, path)
            } else {
                true
            }
        },
        None => true,
    }
}

/// Audits the collected files against the manifests. The verdict is `Ok`
/// exactly when every file is accounted for; otherwise the error names the
/// first file, in the given order, that is not. Which file is named depends
/// on the order; the verdict itself does not.
pub fn audit_files(
    files: &Vec<String>,
    includes: &Vec<String>,
    sources: &Vec<SourceManifestEntry>,
) -> (r: Result<(), BuildError>)
    ensures
        ({
            let file_views = string_views(files@);
            let include_views = string_views(includes@);
            let source_views = entry_views(sources@);
            &&& (r is Ok <==> spec_all_tracked(file_views, include_views, source_views))
            &&& r matches Err(e) ==> (e matches BuildError::UntrackedFile(p) && exists|i: int|
                0 <= i < file_views.len() && p@ == file_views[i] && !spec_is_tracked(
                    file_views[i],
                    include_views,
                    source_views,
                ))
        }),
{
    let ghost file_views = string_views(files@);
    let mut i: usize = 0;
    while i < files.len()
        invariant
            0 <= i <= files@.len(),
            file_views == string_views(files@),
            forall|j: int| 0 <= j < i ==> spec_is_tracked(
                #[trigger] file_views[j],
                string_views(includes@),
                entry_views(sources@),
            ),
        decreases files@.len() - i,
    {
        if !is_tracked(files[i].as_str(), includes, sources) {
            proof {
                assert(file_views[i as int] == files@[i as int]@);
            }
            return Err(BuildError::UntrackedFile(files[i].clone()));
        }
        i += 1;
    }
    Ok(())
}

/// The audit verdict is a set-membership test: two collections that hold
/// the same paths, in whatever order and multiplicity, get the same
/// verdict.
pub proof fn lemma_audit_order_independent(
    files_a: Seq<Seq<char>>,
    files_b: Seq<Seq<char>>,
    includes: Seq<Seq<char>>,
    sources: Seq<EntryView>,
)
    requires
        forall|p: Seq<char>| files_a.contains(p) <==> files_b.contains(p),
    ensures
        spec_all_tracked(files_a, includes, sources) == spec_all_tracked(
            files_b,
            includes,
            sources,
        ),
{
    if spec_all_tracked(files_a, includes, sources) {
        assert forall|i: int|
            0 <= i < files_b.len() implies spec_is_tracked(
            #[trigger] files_b[i],
            includes,
            sources,
        ) by {
            assert(files_b.contains(files_b[i]));
            assert(files_a.contains(files_b[i]));
            let j = choose|j: int| 0 <= j < files_a.len() && files_a[j] == files_b[i];
            assert(spec_is_tracked(files_a[j], includes, sources));
        }
    }
    if spec_all_tracked(files_b, includes, sources) {
        assert forall|i: int|
            0 <= i < files_a.len() implies spec_is_tracked(
            #[trigger] files_a[i],
            includes,
            sources,
        ) by {
            assert(files_a.contains(files_a[i]));
            assert(files_b.contains(files_a[i]));
            let j = choose|j: int| 0 <= j < files_b.len() && files_b[j] == files_a[i];
            assert(spec_is_tracked(files_b[j], includes, sources));
        }
    }
}

} // verus!
