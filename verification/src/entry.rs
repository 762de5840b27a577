//! What is found at the directory of a target, and what a lookup makes of it.

use crate::dependency::{spec_file, spec_verdict, Dependency, DependencyView, Probe, ProbeView};
use crate::utils::spec_hash;
use vstd::prelude::*;

verus! {

/// A recorded dependency together with what the caller saw at its place.
#[derive(Debug)]
pub struct Observed {
    pub dependency: Dependency,
    pub probe: Probe,
}

/// The mathematical content of an [`Observed`].
pub struct ObservedView {
    pub dependency: DependencyView,
    pub probe: ProbeView,
}

impl View for Observed {
    type V = ObservedView;

    open spec fn view(&self) -> ObservedView {
        ObservedView { dependency: self.dependency@, probe: self.probe@ }
    }
}

/// What the caller saw at the directory of a target.
#[derive(Debug)]
pub enum Entry {
    /// There is no such directory.
    Absent,
    /// The directory is there.
    Present {
        /// The manifest of dependencies, each with what is at its place now,
        /// or the failure to read or decode the manifest.
        manifest: Result<Vec<Observed>, std::io::Error>,
        /// The stored output, or the failure to read or decode it.
        output: Result<serde_json::Value, std::io::Error>,
    },
}

/// The mathematical content of an [`Entry`].
pub enum EntryView {
    Absent,
    Present {
        manifest: Result<Seq<ObservedView>, std::io::Error>,
        output: Result<serde_json::Value, std::io::Error>,
    },
}

/// The mathematical content of a list of observed dependencies.
pub open spec fn spec_observations(list: Seq<Observed>) -> Seq<ObservedView> {
    list.map_values(|observed: Observed| observed@)
}

/// The mathematical content of a manifest that may have failed to load.
pub open spec fn spec_manifest(manifest: Result<Vec<Observed>, std::io::Error>) -> Result<
    Seq<ObservedView>,
    std::io::Error,
> {
    match manifest {
        Ok(list) => Ok(spec_observations(list@)),
        Err(error) => Err(error),
    }
}

impl View for Entry {
    type V = EntryView;

    open spec fn view(&self) -> EntryView {
        match *self {
            Entry::Absent => EntryView::Absent,
            Entry::Present { manifest, output } => EntryView::Present {
                manifest: spec_manifest(manifest),
                output,
            },
        }
    }
}

/// What a look at an entry comes to.
pub enum Lookup {
    /// Nothing valid is cached.
    Miss,
    /// The entry is valid and holds this output.
    Hit(serde_json::Value),
    /// The entry could not be judged or read.
    Failed(std::io::Error),
}

/// Whether a dependency is found unchanged: its file was read and holds
/// bytes of the digest recorded for it.
pub open spec fn spec_unchanged(observed: ObservedView) -> bool {
    observed.probe matches ProbeView::Content(bytes) && spec_hash(bytes)
        == observed.dependency.checksum()
}

/// The verdict on a manifest: the dependencies are judged in their order, and
/// the first that is not found unchanged decides, be it changed, missing or
/// unreadable. A manifest of unchanged dependencies, the empty one among
/// them, is valid.
pub open spec fn spec_valid(manifest: Seq<ObservedView>) -> Result<bool, std::io::Error>
    decreases manifest.len(),
{
    if manifest.len() == 0 {
        Ok(true)
    } else if spec_unchanged(manifest[0]) {
        spec_valid(manifest.drop_first())
    } else {
        spec_verdict(manifest[0].dependency, manifest[0].probe)
    }
}

/// The verdict on a manifest that may itself have failed to load.
pub open spec fn spec_check(manifest: Result<Seq<ObservedView>, std::io::Error>) -> Result<
    bool,
    std::io::Error,
> {
    match manifest {
        Ok(list) => spec_valid(list),
        Err(error) => Err(error),
    }
}

/// What a look at `entry` comes to. An absent entry is a miss. A present one
/// is judged by its manifest first: a failure there is the failure of the
/// lookup, an invalid dependency makes it a miss. Only then the output counts.
pub open spec fn spec_lookup(entry: EntryView) -> Lookup {
    match entry {
        EntryView::Absent => Lookup::Miss,
        EntryView::Present { manifest, output } => match spec_check(manifest) {
            Err(error) => Lookup::Failed(error),
            Ok(false) => Lookup::Miss,
            Ok(true) => match output {
                Ok(value) => Lookup::Hit(value),
                Err(error) => Lookup::Failed(error),
            },
        },
    }
}

/// While every dependency before `k` is found unchanged, the verdict on the
/// manifest is the verdict on what follows from `k` on.
pub proof fn lemma_valid_skip(manifest: Seq<ObservedView>, k: int)
    requires
        0 <= k <= manifest.len(),
        forall|j: int| 0 <= j < k ==> spec_unchanged(#[trigger] manifest[j]),
    ensures
        spec_valid(manifest) == spec_valid(manifest.skip(k)),
    decreases k,
{
    if k == 0 {
        assert(manifest.skip(0) =~= manifest);
    } else {
        lemma_valid_skip(manifest, k - 1);
        let rest = manifest.skip(k - 1);
        assert(rest[0] == manifest[k - 1]);
        assert(rest.drop_first() =~= manifest.skip(k));
    }
}

/// The first dependency that is not found unchanged decides the verdict on
/// the manifest.
pub proof fn lemma_first_invalid_decides(manifest: Seq<ObservedView>, k: int)
    requires
        0 <= k < manifest.len(),
        forall|j: int| 0 <= j < k ==> spec_unchanged(#[trigger] manifest[j]),
        !spec_unchanged(manifest[k]),
    ensures
        spec_valid(manifest) == spec_verdict(manifest[k].dependency, manifest[k].probe),
{
    lemma_valid_skip(manifest, k);
    assert(manifest.skip(k)[0] == manifest[k]);
}

/// A manifest is valid exactly when each of its dependencies is found
/// unchanged.
pub proof fn lemma_valid_iff_unchanged(manifest: Seq<ObservedView>)
    ensures
        spec_valid(manifest) == Ok::<bool, std::io::Error>(true) <==> forall|j: int|
            0 <= j < manifest.len() ==> spec_unchanged(#[trigger] manifest[j]),
    decreases manifest.len(),
{
    if manifest.len() > 0 {
        let rest = manifest.drop_first();
        lemma_valid_iff_unchanged(rest);
        if spec_valid(manifest) == Ok::<bool, std::io::Error>(true) {
            assert forall|j: int| 0 <= j < manifest.len() implies spec_unchanged(
                #[trigger] manifest[j],
            ) by {
                if j > 0 {
                    assert(rest[j - 1] == manifest[j]);
                }
            }
        }
        if forall|j: int| 0 <= j < manifest.len() ==> spec_unchanged(#[trigger] manifest[j]) {
            assert(spec_unchanged(manifest[0]));
            assert forall|j: int| 0 <= j < rest.len() implies spec_unchanged(
                #[trigger] rest[j],
            ) by {
                assert(rest[j] == manifest[j + 1]);
            }
        }
    }
}

/// A dependency that is found changed or missing makes the manifest invalid,
/// unless a dependency before it could not be read: then that failure is the
/// verdict.
pub proof fn lemma_invalid_dependency_misses(manifest: Seq<ObservedView>, k: int)
    requires
        0 <= k < manifest.len(),
        !spec_unchanged(manifest[k]),
        forall|j: int| 0 <= j <= k ==> !(#[trigger] manifest[j].probe is Failed),
    ensures
        spec_valid(manifest) == Ok::<bool, std::io::Error>(false),
    decreases k,
{
    assert(!(manifest[0].probe is Failed));
    if k > 0 {
        let rest = manifest.drop_first();
        assert(rest[k - 1] == manifest[k]);
        assert forall|j: int| 0 <= j <= k - 1 implies !(#[trigger] rest[j].probe is Failed) by {
            assert(rest[j] == manifest[j + 1]);
        }
        lemma_invalid_dependency_misses(rest, k - 1);
    }
}

/// A lookup is a hit exactly on an entry whose manifest and output were read
/// and whose dependencies are all found unchanged; it then yields the stored
/// output. With any dependency changed, missing or unreadable it is no hit.
pub proof fn lemma_hit_iff_unchanged(entry: EntryView, value: serde_json::Value)
    ensures
        spec_lookup(entry) == Lookup::Hit(value) <==> {
            &&& entry matches EntryView::Present { manifest: Ok(list), output: Ok(stored) }
            &&& stored == value
            &&& forall|j: int| 0 <= j < list.len() ==> spec_unchanged(#[trigger] list[j])
        },
{
    match entry {
        EntryView::Present { manifest: Ok(list), output } => {
            lemma_valid_iff_unchanged(list);
        },
        _ => {},
    }
}

/// A dependency whose file is gone makes the lookup a miss, provided that
/// the manifest was read and no dependency before it failed to be read.
pub proof fn lemma_missing_dependency_misses(entry: EntryView, k: int)
    requires
        entry matches EntryView::Present { manifest: Ok(list), .. } && 0 <= k < list.len()
            && list[k].probe is Missing && forall|j: int|
            0 <= j < k ==> !(#[trigger] list[j].probe is Failed),
    ensures
        spec_lookup(entry) is Miss,
{
    lemma_invalid_dependency_misses(entry->manifest->Ok_0, k);
}

/// A dependency whose file now holds bytes of another digest than the one
/// recorded makes the lookup a miss, provided that the manifest was read and
/// no dependency before it failed to be read.
pub proof fn lemma_changed_dependency_misses(entry: EntryView, k: int)
    requires
        entry matches EntryView::Present { manifest: Ok(list), .. } && 0 <= k < list.len() && (
        list[k].probe matches ProbeView::Content(bytes) && spec_hash(bytes)
            != list[k].dependency.checksum()) && forall|j: int|
            0 <= j < k ==> !(#[trigger] list[j].probe is Failed),
    ensures
        spec_lookup(entry) is Miss,
{
    lemma_invalid_dependency_misses(entry->manifest->Ok_0, k);
}

/// What is found later at the directory of a finished build whose output
/// and manifest were stored as they are, in a world whose readable files are
/// `files`: each dependency with the bytes that its place holds now, or
/// missing.
pub open spec fn spec_revisit(
    files: Map<Seq<Seq<char>>, Seq<u8>>,
    dependencies: Seq<DependencyView>,
    output: serde_json::Value,
) -> EntryView {
    EntryView::Present {
        manifest: Ok(
            Seq::new(
                dependencies.len(),
                |j: int|
                    ObservedView {
                        dependency: dependencies[j],
                        probe: if files.contains_key(dependencies[j].path()) {
                            ProbeView::Content(files[dependencies[j].path()])
                        } else {
                            ProbeView::Missing
                        },
                    },
            ),
        ),
        output: Ok(output),
    }
}

/// Whether `dependencies` is what a build records that opens files of the
/// world `files`: each names a file that is there, with the digest of its
/// bytes.
pub open spec fn spec_recorded_from(
    files: Map<Seq<Seq<char>>, Seq<u8>>,
    dependencies: Seq<DependencyView>,
) -> bool {
    forall|j: int|
        0 <= j < dependencies.len() ==> files.contains_key((#[trigger] dependencies[j]).path())
            && dependencies[j] == spec_file(dependencies[j].path(), files[dependencies[j].path()])
}

/// What a finished build leaves at its directory: the dependencies it
/// recorded, in the order of discovery, and its output.
pub struct StoredView {
    pub dependencies: Seq<DependencyView>,
    pub output: serde_json::Value,
}

/// What is found at the directory `dir` in a cache that holds `stored`, in a
/// world whose readable files are `files`.
pub open spec fn spec_observe(
    stored: Map<Seq<Seq<char>>, StoredView>,
    files: Map<Seq<Seq<char>>, Seq<u8>>,
    dir: Seq<Seq<char>>,
) -> EntryView {
    if stored.contains_key(dir) {
        spec_revisit(files, stored[dir].dependencies, stored[dir].output)
    } else {
        EntryView::Absent
    }
}

/// A finished build is a hit, with the output it stored, as long as every
/// file it depends on holds the bytes it held during the build.
pub proof fn lemma_unchanged_files_hit(
    then: Map<Seq<Seq<char>>, Seq<u8>>,
    now: Map<Seq<Seq<char>>, Seq<u8>>,
    dependencies: Seq<DependencyView>,
    output: serde_json::Value,
)
    requires
        spec_recorded_from(then, dependencies),
        forall|j: int|
            0 <= j < dependencies.len() ==> now.contains_key((#[trigger] dependencies[j]).path())
                && now[dependencies[j].path()] == then[dependencies[j].path()],
    ensures
        spec_lookup(spec_revisit(now, dependencies, output)) == Lookup::Hit(output),
{
    lemma_hit_iff_unchanged(spec_revisit(now, dependencies, output), output);
}

/// A finished build is a miss once a file it depends on holds bytes of
/// another digest than during the build.
pub proof fn lemma_changed_file_misses(
    then: Map<Seq<Seq<char>>, Seq<u8>>,
    now: Map<Seq<Seq<char>>, Seq<u8>>,
    dependencies: Seq<DependencyView>,
    output: serde_json::Value,
    k: int,
)
    requires
        spec_recorded_from(then, dependencies),
        0 <= k < dependencies.len(),
        now.contains_key(dependencies[k].path()),
        spec_hash(now[dependencies[k].path()]) != spec_hash(then[dependencies[k].path()]),
    ensures
        spec_lookup(spec_revisit(now, dependencies, output)) is Miss,
{
    let entry = spec_revisit(now, dependencies, output);
    let list = entry->manifest->Ok_0;
    assert(!spec_unchanged(list[k]));
    lemma_invalid_dependency_misses(list, k);
}

/// A finished build is a miss once a file it depends on is gone.
pub proof fn lemma_deleted_file_misses(
    now: Map<Seq<Seq<char>>, Seq<u8>>,
    dependencies: Seq<DependencyView>,
    output: serde_json::Value,
    k: int,
)
    requires
        0 <= k < dependencies.len(),
        !now.contains_key(dependencies[k].path()),
    ensures
        spec_lookup(spec_revisit(now, dependencies, output)) is Miss,
{
    let entry = spec_revisit(now, dependencies, output);
    let list = entry->manifest->Ok_0;
    assert(!spec_unchanged(list[k]));
    lemma_invalid_dependency_misses(list, k);
}

} // verus!
