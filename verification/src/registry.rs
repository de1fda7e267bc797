//! Release bookkeeping: deciding whether crates need publishing.
//!
//! The decisions are pure: given what a registry reported about a crate
//! and the version found locally, they classify the crate's state and say
//! whether it should be submitted. Fetching from the registry, reading
//! manifests and running the publish command are I/O and live outside
//! this library; they hand in plain observations.

use vstd::prelude::*;

verus! {

/// A semantic version as a triple of numbers.
#[derive(Clone, Copy, PartialEq, Eq, Structural, Debug)]
pub struct Version {
    pub major: u64,
    pub minor: u64,
    pub patch: u64,
}

/// Whether `a` precedes `b` in version order: numerically by major, then
/// minor, then patch.
pub open spec fn version_lt(a: Version, b: Version) -> bool {
    if a.major != b.major {
        a.major < b.major
    } else if a.minor != b.minor {
        a.minor < b.minor
    } else {
        a.patch < b.patch
    }
}

impl Version {
    /// Decides `version_lt`.
    pub fn lt(&self, other: &Version) -> (r: bool)
        ensures
            r == version_lt(*self, *other),
    {
        if self.major != other.major {
            self.major < other.major
        } else if self.minor != other.minor {
            self.minor < other.minor
        } else {
            self.patch < other.patch
        }
    }
}

/// The state of a crate relative to the registry.
#[derive(Clone, Copy, PartialEq, Eq, Structural, Debug)]
pub enum CrateState {
    /// Our crate version is ahead of the registry and should be published.
    Ahead,
    /// Our crate version is behind the registry; worth a warning.
    Behind,
    /// Our crate version matches the registry version.
    Published,
    /// An unknown state: the registry does not know the crate yet.
    Unknown,
}

/// An error in the release bookkeeping.
#[derive(Clone, PartialEq, Eq, Debug)]
pub enum RegistryError {
    /// The crate's path was not readable or does not exist.
    PathNotReadable,
    /// The registry answered with an unexpected status code.
    UnexpectedStatus(u16),
}

/// What a lookup of a crate on the registry observed.
#[derive(Clone, PartialEq, Eq, Debug)]
pub enum RegistryLookup {
    /// The crate was not found on the registry.
    NotFound,
    /// The registry answered with a status other than success.
    Status(u16),
    /// The versions published on the registry, newest first.
    Versions(Vec<Version>),
}

/// A crate to be published, known by the path it lives at.
pub struct Crate {
    /// The path to the crate's directory.
    pub path: String,
}

impl Crate {
    /// A crate at the given path.
    pub fn from_path(path: String) -> (r: Crate)
        ensures
            r.path@ == path@,
    {
        Crate { path }
    }

    /// Checks that the crate's path was found readable: `exists` reports
    /// what the file system said about the path.
    pub fn validate(&self, exists: bool) -> (r: Result<(), RegistryError>)
        ensures
            r is Ok <==> exists,
            r is Err ==> r->Err_0 == RegistryError::PathNotReadable,
    {
        match exists {
            true => Ok(()),
            false => Err(RegistryError::PathNotReadable),
        }
    }

    /// Classifies the crate against what the registry lookup observed and
    /// the version `ours` found in the local manifest: unknown when the
    /// registry does not know the crate, published when the newest
    /// registry version equals ours, behind when ours precedes it, ahead
    /// otherwise; a non-success status is an error.
    pub fn determine_state(&self, lookup: &RegistryLookup, ours: &Version) -> (r: Result<
        CrateState,
        RegistryError,
    >)
        requires
            lookup matches RegistryLookup::Versions(vs) ==> vs@.len() > 0,
        ensures
            lookup is NotFound ==> r == Ok::<CrateState, RegistryError>(CrateState::Unknown),
            lookup matches RegistryLookup::Status(s) ==> r == Err::<CrateState, RegistryError>(
                RegistryError::UnexpectedStatus(*s),
            ),
            lookup matches RegistryLookup::Versions(vs) ==> r == Ok::<CrateState, RegistryError>(
                if vs@[0] == *ours {
                    CrateState::Published
                } else if version_lt(*ours, vs@[0]) {
                    CrateState::Behind
                } else {
                    CrateState::Ahead
                },
            ),
    {
        match lookup {
            RegistryLookup::NotFound => Ok(CrateState::Unknown),
            RegistryLookup::Status(s) => Err(RegistryError::UnexpectedStatus(*s)),
            RegistryLookup::Versions(vs) => {
                let theirs = vs[0];
                if theirs == *ours {
                    Ok(CrateState::Published)
                } else if ours.lt(&theirs) {
                    Ok(CrateState::Behind)
                } else {
                    Ok(CrateState::Ahead)
                }
            },
        }
    }
}

impl std::str::FromStr for Crate {
    type Err = RegistryError;

    fn from_str(s: &str) -> Result<Crate, RegistryError> {
        Ok(Crate { path: s.to_string() })
    }
}

/// Whether a crate in the given state should be submitted to the
/// registry: unknown and ahead states are submitted, published and behind
/// states are skipped.
pub fn should_publish(state: &CrateState) -> (r: bool)
    ensures
        r == (state is Unknown || state is Ahead),
{
    match state {
        CrateState::Published | CrateState::Behind => false,
        CrateState::Unknown | CrateState::Ahead => true,
    }
}

/// The crates to publish against one registry.
pub struct Registry {
    /// The authentication token handed to the publish command.
    pub token: String,
    /// The crates to publish, in order.
    pub crates: Vec<Crate>,
    /// Whether publishing runs as a dry run.
    pub dry_run: bool,
}

impl Registry {
    /// A registry client for the given crates.
    pub fn new(token: String, crates: Vec<Crate>, dry_run: bool) -> (r: Registry)
        ensures
            r.token@ == token@,
            r.crates@ == crates@,
            r.dry_run == dry_run,
    {
        Registry { token, crates, dry_run }
    }
}

} // verus!
