//! External inputs of a build, and how they are checked again later.

use crate::location::Location;
use crate::utils::{hash, spec_hash};
use vstd::prelude::*;

verus! {

/// An external input that a build consumed, with what is needed to tell
/// later whether it is still the same.
#[derive(Debug, Clone, PartialEq)]
pub enum Dependency {
    /// A file, by its canonical place and the digest of the bytes it held
    /// when the build opened it.
    File { pathbuf: Location, checksum: u64 },
}

/// The mathematical content of a [`Dependency`].
pub enum DependencyView {
    File { path: Seq<Seq<char>>, checksum: u64 },
}

impl DependencyView {
    /// The place that the dependency names.
    pub open spec fn path(self) -> Seq<Seq<char>> {
        match self {
            DependencyView::File { path, .. } => path,
        }
    }

    /// The digest recorded for the dependency.
    pub open spec fn checksum(self) -> u64 {
        match self {
            DependencyView::File { checksum, .. } => checksum,
        }
    }
}

impl View for Dependency {
    type V = DependencyView;

    open spec fn view(&self) -> DependencyView {
        match *self {
            Dependency::File { pathbuf, checksum } => DependencyView::File {
                path: pathbuf@,
                checksum,
            },
        }
    }
}

/// What the caller saw when it looked at the place of a dependency.
#[derive(Debug)]
pub enum Probe {
    /// There is no file at that place.
    Missing,
    /// The file was read in full; these are its bytes.
    Content(Vec<u8>),
    /// The file is there but could not be read.
    Failed(std::io::Error),
}

/// The mathematical content of a [`Probe`].
pub enum ProbeView {
    Missing,
    Content(Seq<u8>),
    Failed(std::io::Error),
}

impl View for Probe {
    type V = ProbeView;

    open spec fn view(&self) -> ProbeView {
        match *self {
            Probe::Missing => ProbeView::Missing,
            Probe::Content(bytes) => ProbeView::Content(bytes@),
            Probe::Failed(error) => ProbeView::Failed(error),
        }
    }
}

/// What the caller saw when it resolved the path of a file that a build
/// opens, and read the file.
#[derive(Debug)]
pub enum Opening {
    /// The path could not be resolved to a canonical place.
    Unresolved(std::io::Error),
    /// The file lies at this canonical place, and could not be read.
    Unreadable(Location, std::io::Error),
    /// The file lies at this canonical place and holds these bytes.
    Read(Location, Vec<u8>),
}

/// The dependency that declaring the file at `path` gives while it holds
/// `content`.
pub open spec fn spec_file(path: Seq<Seq<char>>, content: Seq<u8>) -> DependencyView {
    DependencyView::File { path, checksum: spec_hash(content) }
}

/// The verdict on a dependency, given what is at its place now: a missing
/// file is invalid, a file that was read is valid exactly when its digest is
/// the recorded one, and a failed read is that failure.
pub open spec fn spec_verdict(dependency: DependencyView, probe: ProbeView) -> Result<
    bool,
    std::io::Error,
> {
    match probe {
        ProbeView::Missing => Ok(false),
        ProbeView::Content(bytes) => Ok(spec_hash(bytes) == dependency.checksum()),
        ProbeView::Failed(error) => Err(error),
    }
}

impl Dependency {
    /// Decides whether this dependency is unchanged, from what the caller saw
    /// at its place. A failed read is handed back as an error, never as
    /// "changed".
    pub fn is_consisten(&self, probe: Probe) -> (verdict: Result<bool, std::io::Error>)
        ensures
            verdict == spec_verdict(self@, probe@),
    {
        match self {
            Dependency::File { pathbuf: _, checksum } => match probe {
                Probe::Missing => Ok(false),
                Probe::Content(bytes) => Ok(hash(bytes.as_slice()) == *checksum),
                Probe::Failed(error) => Err(error),
            },
        }
    }

    /// Declares the file at the canonical place `path` as a dependency, with
    /// the digest of the bytes it holds now.
    pub fn file(path: Location, content: &[u8]) -> (dependency: Self)
        ensures
            dependency == (Dependency::File { pathbuf: path, checksum: spec_hash(content@) }),
            dependency@ == spec_file(path@, content@),
    {
        Dependency::File { pathbuf: path, checksum: hash(content) }
    }
}

/// A file declared while it held `content` is valid later exactly when the
/// bytes read then have the digest of `content`. When it is gone it is
/// invalid.
pub proof fn lemma_declared_file(path: Seq<Seq<char>>, content: Seq<u8>, later: Seq<u8>)
    ensures
        spec_verdict(spec_file(path, content), ProbeView::Content(later)) == Ok::<
            bool,
            std::io::Error,
        >(spec_hash(later) == spec_hash(content)),
        spec_verdict(spec_file(path, content), ProbeView::Content(content)) == Ok::<
            bool,
            std::io::Error,
        >(true),
        spec_verdict(spec_file(path, content), ProbeView::Missing) == Ok::<bool, std::io::Error>(
            false,
        ),
{
}

} // verus!
