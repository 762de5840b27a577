//! The store: where a target lives, whether what is cached there is still
//! valid, and the two phases a store goes through.

use crate::dependency::{Dependency, Opening};
use crate::entry::{
    lemma_valid_skip, spec_check, spec_lookup, spec_manifest, spec_observations, spec_observe,
    spec_unchanged, Entry, Lookup, Observed, ObservedView, StoredView,
};
use crate::foreign::{canonical_bytes, canonical_json};
use crate::location::Location;
use crate::utils::{hash, hex, lemma_hex_injective, spec_hash, spec_hex};
use vstd::pervasive::cloned;
use std::marker::PhantomData;
use vstd::prelude::*;

verus! {

/// A build procedure. The store hands it the source, the input of this build
/// and a handle in the building phase, scoped to the build's own working
/// directory and with no dependency recorded yet. Through the handle the
/// procedure learns where its files go, and tells which files it reads.
pub trait Builder: Sized {
    fn build(source: &[u8], input: &serde_json::Value, store: &mut Store<Single, Self>) -> (output:
        Result<serde_json::Value, std::io::Error>)
        requires
            old(store).is_scoped_to(*input),
    ;
}

/// The cache, in the phase `State`, serving the build procedure `B`.
#[derive(Debug, PartialEq)]
pub struct Store<State, B> {
    /// The root directory of the cache.
    pub path: Location,
    /// What the store holds in its present phase.
    pub state: State,
    /// Binds the store to its build procedure; holds nothing.
    pub _b: PhantomData<B>,
}

impl<State: Clone, B> Clone for Store<State, B> {
    fn clone(&self) -> (copy: Self)
        ensures
            copy.path@ == self.path@,
            cloned(self.state, copy.state),
    {
        Store { path: self.path.clone(), state: self.state.clone(), _b: PhantomData }
    }
}

/// The phase of a store in which no build is in progress.
#[derive(Debug, Clone, Copy, PartialEq)]
pub struct General;

/// The phase of a store that is bound to the working directory of one build.
#[derive(Debug, Clone, PartialEq)]
pub struct Single {
    /// The working directory of the build.
    pub path: Location,
    /// The canonical place of the working directory, as the caller resolved
    /// it. Whether a file lies inside or outside is judged against it.
    pub canonical: Location,
    /// The dependencies recorded so far, in the order of discovery.
    pub dependencies: Vec<Dependency>,
}

/// The digest that identifies an input: that of its canonical JSON text.
pub open spec fn spec_digest(input: serde_json::Value) -> u64 {
    spec_hash(canonical_json(input))
}

/// Where the target `name` with `input` lives under `root`: in the directory
/// `name`, in the directory named by the input's digest in hexadecimal.
pub open spec fn spec_build_path(
    root: Seq<Seq<char>>,
    name: Seq<char>,
    input: serde_json::Value,
) -> Seq<Seq<char>> {
    root.push(name).push(spec_hex(spec_digest(input) as nat))
}

/// The root that a store gets when none is configured: `./flakes`.
pub open spec fn spec_default_root() -> Seq<Seq<char>> {
    seq!["."@, "flakes"@]
}

/// A store in the root phase, at the configured root or else at the default
/// one.
pub fn store<B: Builder>(configured: Option<Location>) -> (root: Store<General, B>)
    ensures
        root.path@ == (match configured {
            Some(path) => path@,
            None => spec_default_root(),
        }),
{
    match configured {
        Some(path) => Store::new(path),
        None => Store::new(Location::new().child(".").child("flakes")),
    }
}

/// One step of making a directory ready for a build.
#[derive(Debug, Clone, PartialEq)]
pub enum Reset {
    /// Remove the directory at this place with all that is in it.
    Remove(Location),
    /// Create the directory at this place, and those above it that are missing.
    Create(Location),
}

/// The steps that leave an empty directory at `path`: when something is
/// there, it is removed first; then the directory is created.
pub open spec fn spec_is_reset(steps: Seq<Reset>, path: Seq<Seq<char>>, exists: bool) -> bool {
    if exists {
        &&& steps.len() == 2
        &&& steps[0] matches Reset::Remove(place) && place@ == path
        &&& steps[1] matches Reset::Create(place) && place@ == path
    } else {
        &&& steps.len() == 1
        &&& steps[0] matches Reset::Create(place) && place@ == path
    }
}

/// What `create` decides.
#[derive(Debug)]
pub enum Creation {
    /// A valid entry is cached: this is its directory and its output. No
    /// build is to be run.
    Hit { path: Location, output: serde_json::Value },
    /// Nothing valid is cached: the target is to be built in the directory
    /// `path`, once the steps of `reset` have been carried out.
    Miss { path: Location, reset: Vec<Reset> },
}

/// The list of dependencies of a finished build, and the file it goes to.
#[derive(Debug, Clone, PartialEq)]
pub struct Manifest {
    pub path: Location,
    pub dependencies: Vec<Dependency>,
}

/// A build that succeeded, with all that has to be written down for it.
#[derive(Debug)]
pub struct Completed {
    /// The directory of the target.
    pub path: Location,
    /// What the build procedure returned.
    pub output: serde_json::Value,
    /// The file that the output is to be stored in.
    pub output_file: Location,
    /// The manifest, to be stored after the output.
    pub manifest: Manifest,
}

/// The file that holds the stored output of the target at `path`.
pub fn output_file(path: &Location) -> (file: Location)
    ensures
        file@ == path@.push(".output"@),
{
    path.child(".output")
}

/// The file that holds the manifest of the target at `path`.
pub fn manifest_file(path: &Location) -> (file: Location)
    ensures
        file@ == path@.push(".deps"@),
{
    path.child(".deps")
}

impl<B> Store<Single, B> {
    /// Whether this handle is as a build finds it: scoped to the working
    /// directory of `input` under some target name, nothing recorded yet.
    pub open spec fn is_scoped_to(&self, input: serde_json::Value) -> bool {
        &&& self.state.dependencies@.len() == 0
        &&& exists|name: Seq<char>| self.state.path@ == spec_build_path(self.path@, name, input)
    }

    /// Whether the canonical place `place` lies outside the working
    /// directory of the build: it is neither the canonical place of that
    /// directory nor a place below it.
    pub open spec fn spec_is_outside(&self, place: Seq<Seq<char>>) -> bool {
        !self.state.canonical@.is_prefix_of(place)
    }

    /// Whether `built` is how a build ends that leaves this handle, for the
    /// target at `path`, when its procedure returned `outcome`: a failure is
    /// handed on; on success the output is stored in the output file of
    /// `path`, and the manifest holds the dependencies of the handle and goes
    /// to the manifest file of its working directory.
    pub open spec fn spec_complete(
        self,
        path: Seq<Seq<char>>,
        outcome: Result<serde_json::Value, std::io::Error>,
        built: Result<Completed, std::io::Error>,
    ) -> bool {
        match outcome {
            Ok(output) => {
                &&& built matches Ok(completed)
                &&& completed.path@ == path
                &&& completed.output == output
                &&& completed.output_file@ == path.push(".output"@)
                &&& completed.manifest.path@ == self.state.path@.push(".deps"@)
                &&& completed.manifest.dependencies == self.state.dependencies
            },
            Err(error) => built == Err::<Completed, std::io::Error>(error),
        }
    }
}

impl<S, B: Builder> Store<S, B> {
    /// The directory of the target `name` with `input`.
    pub fn build_path(&self, name: &str, input: &serde_json::Value) -> (path: Location)
        ensures
            path@ == spec_build_path(self.path@, name@, *input),
    {
        let text = canonical_bytes(input);
        let leaf = hex(hash(text.as_slice()));
        self.path.child(name).child(leaf.as_str())
    }

    /// Judges a manifest as the caller observed it.
    pub fn check_dependencies(&self, manifest: Result<Vec<Observed>, std::io::Error>) -> (valid:
        Result<bool, std::io::Error>)
        ensures
            valid == spec_check(spec_manifest(manifest)),
    {
        let list = match manifest {
            Ok(list) => list,
            Err(error) => {
                return Err(error);
            },
        };
        let ghost all = spec_observations(list@);
        for observed in iter: list
            invariant
                all == spec_observations(iter.seq()),
                spec_manifest(manifest) == Ok::<Seq<ObservedView>, std::io::Error>(all),
                forall|j: int| 0 <= j < iter.index() ==> spec_unchanged(#[trigger] all[j]),
        {
            let ghost k: int = iter.index();
            assert(all[k] == observed@);
            let Observed { dependency, probe } = observed;
            match dependency.is_consisten(probe) {
                Ok(true) => {},
                verdict => {
                    proof {
                        lemma_valid_skip(all, k);
                        assert(all.skip(k)[0] == all[k]);
                    }
                    return verdict;
                },
            }
        }
        proof {
            lemma_valid_skip(all, all.len() as int);
        }
        Ok(true)
    }

    /// Looks the target `name` with `input` up in what the caller saw at its
    /// directory.
    pub fn get(&self, name: &str, input: &serde_json::Value, entry: Entry) -> (found: Result<
        Option<(Location, serde_json::Value)>,
        std::io::Error,
    >)
        ensures
            match spec_lookup(entry@) {
                Lookup::Miss => found is Ok && found->Ok_0 is None,
                Lookup::Hit(value) => {
                    &&& found is Ok
                    &&& found->Ok_0 is Some
                    &&& found->Ok_0->Some_0.0@ == spec_build_path(self.path@, name@, *input)
                    &&& found->Ok_0->Some_0.1 == value
                },
                Lookup::Failed(error) => found is Err && found->Err_0 == error,
            },
    {
        match entry {
            Entry::Absent => Ok(None),
            Entry::Present { manifest, output } => match self.check_dependencies(manifest) {
                Err(error) => Err(error),
                Ok(false) => Ok(None),
                Ok(true) => match output {
                    Ok(value) => Ok(Some((self.build_path(name, input), value))),
                    Err(error) => Err(error),
                },
            },
        }
    }

    /// The steps that leave an empty directory at `path`, given whether
    /// something is there now.
    pub fn remove_create(&self, path: &Location, exists: bool) -> (steps: Vec<Reset>)
        ensures
            spec_is_reset(steps@, path@, exists),
    {
        let mut steps: Vec<Reset> = Vec::new();
        if exists {
            steps.push(Reset::Remove(path.clone()));
        }
        steps.push(Reset::Create(path.clone()));
        steps
    }
}

impl<B: Builder> Store<General, B> {
    /// A store in the root phase, with its cache at `path`.
    pub fn new(path: Location) -> (root: Self)
        ensures
            root.path == path,
    {
        Self { path, state: General, _b: PhantomData }
    }

    /// Enters the building phase for the target `name` with `input`: a handle
    /// scoped to the target's directory, with an empty list of dependencies.
    /// `canonical` is the canonical place of that directory, as the caller
    /// resolved it.
    pub fn scope(&self, name: &str, input: &serde_json::Value, canonical: Location) -> (scoped:
        Store<Single, B>)
        ensures
            scoped.path@ == self.path@,
            scoped.state.path@ == spec_build_path(self.path@, name@, *input),
            scoped.state.canonical == canonical,
            scoped.state.dependencies@ == Seq::<Dependency>::empty(),
            scoped.is_scoped_to(*input),
    {
        let path = self.build_path(name, input);
        let scoped = Store {
            path: self.path.clone(),
            state: Single { path, canonical, dependencies: Vec::new() },
            _b: PhantomData,
        };
        assert(scoped.state.path@ == spec_build_path(scoped.path@, name@, *input));
        scoped
    }

    /// Decides what is to be done for the target `name` with `input`, from
    /// what the caller saw at its directory. A valid entry is returned as it
    /// is. Where nothing valid is cached, the target is to be built anew in a
    /// directory made empty. A lookup that fails is the failure of the call:
    /// nothing is removed and nothing is built.
    pub fn create(&self, name: &str, input: &serde_json::Value, entry: Entry) -> (creation: Result<
        Creation,
        std::io::Error,
    >)
        ensures
            match spec_lookup(entry@) {
                Lookup::Hit(value) => {
                    &&& creation matches Ok(Creation::Hit { path, output })
                    &&& path@ == spec_build_path(self.path@, name@, *input)
                    &&& output == value
                },
                Lookup::Miss => {
                    &&& creation matches Ok(Creation::Miss { path, reset })
                    &&& path@ == spec_build_path(self.path@, name@, *input)
                    &&& spec_is_reset(reset@, path@, entry is Present)
                },
                Lookup::Failed(error) => creation == Err::<Creation, std::io::Error>(error),
            },
    {
        let exists = match &entry {
            Entry::Absent => false,
            Entry::Present { .. } => true,
        };
        match self.get(name, input, entry) {
            Ok(Some((path, output))) => Ok(Creation::Hit { path, output }),
            Ok(None) => {
                let path = self.build_path(name, input);
                let reset = self.remove_create(&path, exists);
                Ok(Creation::Miss { path, reset })
            },
            Err(error) => Err(error),
        }
    }

    /// Builds the target `name` with `input`: enters the building phase,
    /// runs the build procedure on a fresh handle and ends the build with what
    /// the procedure returned, as [`Store::complete`] does. So a failure of the
    /// procedure is the failure of the build, and on success the output is
    /// that of the procedure and the manifest is what the procedure left in
    /// the handle. `canonical` is the canonical place of the target's
    /// directory, as the caller resolved it.
    pub fn build(
        &self,
        name: &str,
        source: &[u8],
        input: &serde_json::Value,
        canonical: Location,
    ) -> (built: Result<Completed, std::io::Error>)
        ensures
            built matches Ok(completed) ==> {
                &&& completed.path@ == spec_build_path(self.path@, name@, *input)
                &&& completed.output_file@ == completed.path@.push(".output"@)
            },
            exists|handle: &mut Store<Single, B>, outcome: Result<
                serde_json::Value,
                std::io::Error,
            >|
                {
                    &&& handle.path@ == self.path@
                    &&& handle.state.path@ == spec_build_path(self.path@, name@, *input)
                    &&& handle.state.canonical == canonical
                    &&& handle.state.dependencies@ == Seq::<Dependency>::empty()
                    &&& #[trigger] call_ensures(B::build, (source, input, handle), outcome)
                    &&& final(handle).spec_complete(
                        spec_build_path(self.path@, name@, *input),
                        outcome,
                        built,
                    )
                },
    {
        let mut scoped = self.scope(name, input, canonical);
        let path = scoped.state.path.clone();
        let ghost fresh = scoped;
        let outcome = B::build(source, input, &mut scoped);
        let ghost after = scoped;
        let ghost returned = outcome;
        let built = scoped.complete(path, outcome);
        assert(exists|handle: &mut Store<Single, B>|
            *handle == fresh && *final(handle) == after && #[trigger] call_ensures(
                B::build,
                (source, input, handle),
                returned,
            ));
        assert(after.spec_complete(spec_build_path(self.path@, name@, *input), returned, built));
        built
    }
}

impl<B: Builder> Store<Single, B> {
    /// Whether the canonical place `path` lies outside the working directory
    /// of the build.
    pub fn is_outside(&self, path: &Location) -> (outside: bool)
        ensures
            outside == self.spec_is_outside(path@),
    {
        !path.starts_with(&self.state.canonical)
    }

    /// Records a dependency, after those recorded before.
    pub fn add_dep(&mut self, dependency: Dependency)
        ensures
            final(self).state.dependencies@ == old(self).state.dependencies@.push(dependency),
            final(self).state.path == old(self).state.path,
            final(self).state.canonical == old(self).state.canonical,
            final(self).path == old(self).path,
    {
        self.state.dependencies.push(dependency);
    }

    /// The place of a file that the build creates at `path`, which is taken
    /// from the working directory.
    pub fn create_file(&self, path: &Location) -> (place: Location)
        ensures
            place@ == self.state.path@ + path@,
    {
        self.state.path.join(path)
    }

    /// Takes note that the build opens a file for reading, from what the
    /// caller saw when it resolved the path and read the file. A path that
    /// cannot be resolved is the failure of the call. A file whose canonical
    /// place lies in the working directory is not recorded, whether it could
    /// be read or not. A file outside is recorded with the digest of its
    /// bytes, after those recorded before; where it could not be read, that
    /// is the failure of the call.
    pub fn open_file(&mut self, opening: Opening) -> (opened: Result<(), std::io::Error>)
        ensures
            final(self).state.path == old(self).state.path,
            final(self).state.canonical == old(self).state.canonical,
            final(self).path == old(self).path,
            match opening {
                Opening::Unresolved(error) => {
                    &&& opened == Err::<(), std::io::Error>(error)
                    &&& final(self).state.dependencies@ == old(self).state.dependencies@
                },
                Opening::Unreadable(place, error) => {
                    &&& final(self).state.dependencies@ == old(self).state.dependencies@
                    &&& opened == if old(self).spec_is_outside(place@) {
                        Err::<(), std::io::Error>(error)
                    } else {
                        Ok::<(), std::io::Error>(())
                    }
                },
                Opening::Read(place, bytes) => {
                    &&& opened is Ok
                    &&& final(self).state.dependencies@ == if old(self).spec_is_outside(place@) {
                        old(self).state.dependencies@.push(
                            Dependency::File { pathbuf: place, checksum: spec_hash(bytes@) },
                        )
                    } else {
                        old(self).state.dependencies@
                    }
                },
            },
    {
        match opening {
            Opening::Unresolved(error) => Err(error),
            Opening::Unreadable(place, error) => {
                if self.is_outside(&place) {
                    Err(error)
                } else {
                    Ok(())
                }
            },
            Opening::Read(place, bytes) => {
                if self.is_outside(&place) {
                    self.add_dep(Dependency::file(place, bytes.as_slice()));
                }
                Ok(())
            },
        }
    }

    /// The place of a directory that the build creates at `path`, which is
    /// taken from the working directory.
    pub fn create_dir(&self, path: &Location) -> (place: Location)
        ensures
            place@ == self.state.path@ + path@,
    {
        self.state.path.join(path)
    }

    /// Ends the building phase: the dependencies recorded, in their order,
    /// and the manifest file in the working directory that they go to.
    pub fn finalize(self) -> (manifest: Manifest)
        ensures
            manifest.path@ == self.state.path@.push(".deps"@),
            manifest.dependencies == self.state.dependencies,
    {
        let path = manifest_file(&self.state.path);
        Manifest { path, dependencies: self.state.dependencies }
    }

    /// Ends a build whose procedure returned `outcome` for the target at
    /// `path`. A failure of the procedure is handed on: nothing is stored
    /// for it, and what the procedure has written stays where it is. On
    /// success the output goes to the output file of `path`, and the handle is
    /// finalized.
    pub fn complete(self, path: Location, outcome: Result<serde_json::Value, std::io::Error>) -> (built:
        Result<Completed, std::io::Error>)
        ensures
            match outcome {
                Ok(output) => {
                    &&& built matches Ok(completed)
                    &&& completed.path == path
                    &&& completed.output == output
                    &&& completed.output_file@ == path@.push(".output"@)
                    &&& completed.manifest.path@ == self.state.path@.push(".deps"@)
                    &&& completed.manifest.dependencies == self.state.dependencies
                },
                Err(error) => built == Err::<Completed, std::io::Error>(error),
            },
    {
        match outcome {
            Ok(output) => {
                let output_file = output_file(&path);
                let manifest = self.finalize();
                Ok(Completed { path, output, output_file, manifest })
            },
            Err(error) => Err(error),
        }
    }
}

/// Inputs of one canonical text have one directory.
pub proof fn lemma_build_path_deterministic(
    root: Seq<Seq<char>>,
    name: Seq<char>,
    first: serde_json::Value,
    second: serde_json::Value,
)
    requires
        canonical_json(first) == canonical_json(second),
    ensures
        spec_build_path(root, name, first) == spec_build_path(root, name, second),
{
}

/// Two targets share a directory only if they have one name and their inputs
/// one digest.
pub proof fn lemma_build_path_injective(
    root: Seq<Seq<char>>,
    first_name: Seq<char>,
    first: serde_json::Value,
    second_name: Seq<char>,
    second: serde_json::Value,
)
    requires
        spec_build_path(root, first_name, first) == spec_build_path(root, second_name, second),
    ensures
        first_name == second_name,
        spec_digest(first) == spec_digest(second),
{
    let a = spec_build_path(root, first_name, first);
    let b = spec_build_path(root, second_name, second);
    let at: int = root.len() as int;
    assert(a[at] == first_name);
    assert(b[at] == second_name);
    assert(a[at + 1] == spec_hex(spec_digest(first) as nat));
    assert(b[at + 1] == spec_hex(spec_digest(second) as nat));
    lemma_hex_injective(spec_digest(first) as nat, spec_digest(second) as nat);
}

/// A build of one input leaves the target of an input with another digest
/// to be built: what was not cached before is a miss still.
pub proof fn lemma_other_input_misses(
    stored: Map<Seq<Seq<char>>, StoredView>,
    files: Map<Seq<Seq<char>>, Seq<u8>>,
    root: Seq<Seq<char>>,
    name: Seq<char>,
    first: serde_json::Value,
    built: StoredView,
    second: serde_json::Value,
)
    requires
        spec_digest(first) != spec_digest(second),
        !stored.contains_key(spec_build_path(root, name, second)),
    ensures
        spec_build_path(root, name, first) != spec_build_path(root, name, second),
        spec_lookup(
            spec_observe(
                stored.insert(spec_build_path(root, name, first), built),
                files,
                spec_build_path(root, name, second),
            ),
        ) is Miss,
{
    if spec_build_path(root, name, first) == spec_build_path(root, name, second) {
        lemma_build_path_injective(root, name, first, name, second);
    }
}

} // verus!
