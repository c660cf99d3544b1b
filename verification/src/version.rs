//! What the host says of itself, and whether the hook may run on it.

use crate::text::{parse_u64, parsed_u64, same_text};
use vstd::prelude::*;
use vstd::string::*;

verus! {

/// The oldest build that the hook runs on.
pub const OLDEST_BUILD: u64 = 2022022801;

/// The newest build that the hook runs on.
pub const NEWEST_BUILD: u64 = 2024040200;

/// The fields by which the host identifies itself.
#[derive(Debug, Clone, Copy, PartialEq, Eq, Structural)]
pub enum VersionField {
    Model,
    Destination,
    Specification,
    Revision,
    Build,
}

impl VersionField {
    /// The path of the field in the host's configuration tree.
    pub fn path(&self) -> (path: &'static str)
        ensures
            path@ == match self {
                VersionField::Model => "/soft/model"@,
                VersionField::Destination => "/soft/dest"@,
                VersionField::Specification => "/soft/spec"@,
                VersionField::Revision => "/soft/rev"@,
                VersionField::Build => "/soft/ext"@,
            },
    {
        match self {
            VersionField::Model => "/soft/model",
            VersionField::Destination => "/soft/dest",
            VersionField::Specification => "/soft/spec",
            VersionField::Revision => "/soft/rev",
            VersionField::Build => "/soft/ext",
        }
    }

    /// How many bytes the field takes up at most.
    pub fn limit(&self) -> (limit: usize)
        ensures
            limit == match self {
                VersionField::Model => 3usize,
                VersionField::Destination => 1usize,
                VersionField::Specification => 1usize,
                VersionField::Revision => 1usize,
                VersionField::Build => 10usize,
            },
    {
        match self {
            VersionField::Model => 3,
            VersionField::Destination => 1,
            VersionField::Specification => 1,
            VersionField::Revision => 1,
            VersionField::Build => 10,
        }
    }
}

/// What the host says of itself.
#[derive(Debug, Clone)]
pub struct VersionInfo {
    pub model: String,
    pub destination: String,
    pub specification: String,
    pub revision: String,
    pub build: u64,
}

/// What a `VersionInfo` holds.
pub struct VersionInfoView {
    pub model: Seq<char>,
    pub destination: Seq<char>,
    pub specification: Seq<char>,
    pub revision: Seq<char>,
    pub build: u64,
}

impl View for VersionInfo {
    type V = VersionInfoView;

    open spec fn view(&self) -> VersionInfoView {
        VersionInfoView {
            model: self.model@,
            destination: self.destination@,
            specification: self.specification@,
            revision: self.revision@,
            build: self.build,
        }
    }
}

/// The build that a build field stands for: the number that it writes, and 0
/// where it writes none.
pub open spec fn build_of(text: Seq<char>) -> u64 {
    match parsed_u64(text) {
        Some(build) => build,
        None => 0,
    }
}

/// The identification that five fields make up: none unless every field
/// could be read.
pub open spec fn assembled(
    model: Option<Seq<char>>,
    destination: Option<Seq<char>>,
    specification: Option<Seq<char>>,
    revision: Option<Seq<char>>,
    build: Option<Seq<char>>,
) -> Option<VersionInfoView> {
    if model is Some && destination is Some && specification is Some && revision is Some && build
        is Some {
        Some(
            VersionInfoView {
                model: model->0,
                destination: destination->0,
                specification: specification->0,
                revision: revision->0,
                build: build_of(build->0),
            },
        )
    } else {
        None
    }
}

/// `true` exactly when the hook may run on a host: the model is `MDX`, the
/// revision is neither `O` nor `X`, and the build lies between the oldest and
/// the newest build, both included.
pub open spec fn supported(info: VersionInfoView) -> bool {
    &&& info.model == "MDX"@
    &&& info.revision != "O"@
    &&& info.revision != "X"@
    &&& OLDEST_BUILD <= info.build <= NEWEST_BUILD
}

/// Whether the hook may run on the host.
#[derive(Debug, Clone, Copy, PartialEq, Eq, Structural)]
pub enum Compatibility {
    /// The host is one that the hook runs on.
    Supported,
    /// The host is one that the hook does not run on.
    Unsupported,
    /// The host could not be identified. The hook runs all the same.
    Unknown,
}

/// The verdict on a host, given its identification or none.
pub open spec fn verdict(info: Option<VersionInfoView>) -> Compatibility {
    match info {
        None => Compatibility::Unknown,
        Some(info) => if supported(info) {
            Compatibility::Supported
        } else {
            Compatibility::Unsupported
        },
    }
}

/// The text inside an optional string.
pub open spec fn text_of(field: Option<String>) -> Option<Seq<char>> {
    match field {
        Some(text) => Some(text@),
        None => None,
    }
}

/// What an optional identification holds.
pub open spec fn info_view(info: Option<VersionInfo>) -> Option<VersionInfoView> {
    match info {
        Some(info) => Some(info@),
        None => None,
    }
}

impl VersionInfo {
    /// Puts the five fields together, as far as they could be read.
    pub fn assemble(
        model: Option<String>,
        destination: Option<String>,
        specification: Option<String>,
        revision: Option<String>,
        build: Option<String>,
    ) -> (info: Option<VersionInfo>)
        ensures
            info_view(info) == assembled(
                text_of(model),
                text_of(destination),
                text_of(specification),
                text_of(revision),
                text_of(build),
            ),
    {
        let model: String = model?;
        let destination: String = destination?;
        let specification: String = specification?;
        let revision: String = revision?;
        let build: String = build?;
        let build: u64 = match parse_u64(build.as_str()) {
            Some(build) => build,
            None => 0,
        };
        Some(VersionInfo { model, destination, specification, revision, build })
    }

    /// Tells whether the hook may run on this host.
    pub fn is_supported(&self) -> (yes: bool)
        ensures
            yes == supported(self@),
    {
        same_text(self.model.as_str(), "MDX") && !same_text(self.revision.as_str(), "O")
            && !same_text(self.revision.as_str(), "X") && OLDEST_BUILD <= self.build && self.build
            <= NEWEST_BUILD
    }
}

/// Gives the verdict on a host.
pub fn version_gate(info: &Option<VersionInfo>) -> (compatibility: Compatibility)
    ensures
        compatibility == verdict(info_view(*info)),
{
    match info {
        None => Compatibility::Unknown,
        Some(info) => if info.is_supported() {
            Compatibility::Supported
        } else {
            Compatibility::Unsupported
        },
    }
}

} // verus!
