//! A snapshot of what the filesystem shows at one managed location.

use vstd::prelude::*;
use crate::state::PathState;

verus! {

/// What one probe of a managed location observed.
///
/// The surrounding program gathers this snapshot with ordinary
/// filesystem calls and hands it in as plain values:
///
/// * `Present` means the location exists when links are followed; it
///   carries the canonical (fully resolved, link-free) form of the
///   location and of the expected repository target, or the failure
///   message if either resolution failed.
/// * `Absent` means the location does not exist when links are
///   followed; a dangling link may still sit there.
///
/// In both variants `is_link` reports whether a link itself occupies
/// the location, from a check that does not follow links; this is what
/// separates a dangling link from a truly empty slot, and a wrong link
/// from a real file.
#[derive(Debug, PartialEq, Eq)]
pub enum FsProbe {
    Absent { is_link: bool },
    Present {
        is_link: bool,
        canonical_home: Result<String, String>,
        canonical_repo: Result<String, String>,
    },
}

/// Whether a probe found the location present with both canonical
/// resolutions succeeding and agreeing: the snapshot of a correctly
/// linked path.
pub open spec fn probe_shows_fine(probe: FsProbe) -> bool {
    match probe {
        FsProbe::Absent { .. } => false,
        FsProbe::Present { is_link, canonical_home, canonical_repo } => {
            &&& canonical_home is Ok
            &&& canonical_repo is Ok
            &&& canonical_home->Ok_0@ == canonical_repo->Ok_0@
        },
    }
}

/// The state that a probe snapshot classifies to.
///
/// The precedence is fixed: an existing location is `Fine` exactly when
/// both canonical resolutions succeed and agree, else `BadLink` for a
/// link and `Conflict` for anything else, with any resolution failure
/// reported as `Error`; an absent location is `Missing` when no link
/// sits there and `Broken` when a dangling link does.
pub open spec fn classify_spec(probe: FsProbe) -> PathState {
    match probe {
        FsProbe::Absent { is_link } => {
            if !is_link {
                PathState::Missing
            } else {
                PathState::Broken
            }
        },
        FsProbe::Present { is_link, canonical_home, canonical_repo } => {
            if canonical_home is Err {
                PathState::Error(canonical_home->Err_0)
            } else if canonical_repo is Err {
                PathState::Error(canonical_repo->Err_0)
            } else if canonical_home->Ok_0@ == canonical_repo->Ok_0@ {
                PathState::Fine
            } else if is_link {
                PathState::BadLink
            } else {
                PathState::Conflict
            }
        },
    }
}

} // verus!
