//! The state of the service: what is asked, and what it answers.

use std::collections::HashSet;
use vstd::prelude::*;

verus! {

/// `serde_json::Value`, any JSON value. The library sees nothing inside a
/// value of it.
#[verifier::external_type_specification]
#[verifier::external_body]
pub struct ExJsonValue(serde_json::Value);

/// `semver::Version`, a version number with its parts. The library sees
/// nothing inside a value of it.
#[verifier::external_type_specification]
#[verifier::external_body]
pub struct ExVersion(semver::Version);

/// `Clone::clone` of `serde_json::Value`. Nothing is claimed of the copy.
pub assume_specification[ <serde_json::Value as Clone>::clone ](value: &serde_json::Value) -> (copy:
    serde_json::Value)
;

/// `Clone::clone` of `semver::Version`. Nothing is claimed of the copy.
pub assume_specification[ <semver::Version as Clone>::clone ](value: &semver::Version) -> (copy:
    semver::Version)
;

/// `Clone::clone` of `std::collections::HashSet`, on a set of strings: the
/// copy holds the same strings.
#[verifier::external_body]
fn clone_actions(actions: &HashSet<String>) -> (copy: HashSet<String>)
    ensures
        copy@ == actions@,
{
    actions.clone()
}

/// A request for the state of the service.
#[derive(Clone, Copy, Debug, PartialEq, Eq)]
pub struct Manifest {
    /// Whether the answer tells of the state in detail.
    pub verbose: Option<bool>,
}

impl Manifest {
    /// A request with nothing set.
    pub open spec fn unset() -> Self {
        Manifest { verbose: None }
    }

    /// A request with nothing set, to be filled in by the method below.
    pub fn builder() -> (r: Self)
        ensures
            r == Self::unset(),
    {
        Manifest { verbose: None }
    }

    /// Sets whether the answer tells of the state in detail. The detail is
    /// dear to gather, and the service may be set up to refuse it.
    pub fn verbose_output(self, verbose: bool) -> (r: Self)
        ensures
            r == (Manifest { verbose: Some(verbose) }),
    {
        Manifest { verbose: Some(verbose) }
    }
}

impl Default for Manifest {
    /// The request with nothing set.
    fn default() -> (r: Self)
        ensures
            r == Self::unset(),
    {
        Self::builder()
    }
}

/// The state of the service.
#[derive(Debug)]
pub struct Response {
    /// Version of the service, such as `3.1.4`.
    pub version: semver::Version,
    /// When the map data was last changed, in seconds since the start of
    /// 1970 in universal time.
    pub tileset_last_modified: i64,
    /// The actions that the service offers, by name.
    pub available_actions: HashSet<String>,
    /// The state in detail, where it was asked for and is allowed.
    pub verbose: Option<VerboseStatus>,
}

impl Clone for Response {
    /// A copy of the answer, part by part.
    fn clone(&self) -> (copy: Self)
        ensures
            copy.tileset_last_modified == self.tileset_last_modified,
            copy.available_actions@ == self.available_actions@,
            copy.verbose is Some <==> self.verbose is Some,
    {
        Response {
            version: self.version.clone(),
            tileset_last_modified: self.tileset_last_modified,
            available_actions: clone_actions(&self.available_actions),
            verbose: match &self.verbose {
                Some(verbose) => Some(verbose.clone()),
                None => None,
            },
        }
    }
}

/// The state of the service in detail.
#[derive(Clone, Debug)]
pub struct VerboseStatus {
    /// Whether map data is loaded.
    pub has_tiles: bool,
    /// Whether the map data was built with administrative areas.
    pub has_admins: bool,
    /// Whether the map data was built with time zones.
    pub has_timezones: bool,
    /// Whether live traffic is at hand.
    pub has_live_traffic: bool,
    /// Outline of the area that the map data covers, as GeoJSON. It may be
    /// very large.
    pub bbox: serde_json::Value,
    /// Warnings, such as of an option that is no longer in use or of a
    /// value that was cut to its limit.
    pub warnings: Vec<serde_json::Value>,
}

} // verus!
