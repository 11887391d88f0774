//! The guarantees that tie classification to the corrective state
//! machine, stated once for all inputs.

use vstd::prelude::*;
use crate::link::ApplyAction;
use crate::link::ApplyEvent;
use crate::link::CreateEvent;
use crate::link::apply_result_spec;
use crate::link::plan_spec;
use crate::probe::FsProbe;
use crate::probe::classify_spec;
use crate::probe::probe_shows_fine;
use crate::state::PathState;

verus! {

/// A location that exists and canonically resolves to its repository
/// target classifies as `Fine`, and a `Fine` entry is left alone: no
/// corrective action is planned, so no resulting state is ever
/// recorded for it.
pub proof fn lemma_fine_is_left_alone(probe: FsProbe)
    requires
        probe_shows_fine(probe),
    ensures
        classify_spec(probe) == PathState::Fine,
        plan_spec(classify_spec(probe)) == ApplyAction::Leave,
{
}

/// An empty slot — nothing at the location, not even a dangling link
/// — classifies as `Missing`; the planned repair is to create the
/// link, and when every step of that repair succeeds the entry
/// records `Fine`.
pub proof fn lemma_missing_is_created(probe: FsProbe)
    requires
        probe == (FsProbe::Absent { is_link: false }),
    ensures
        classify_spec(probe) == PathState::Missing,
        plan_spec(classify_spec(probe)) == ApplyAction::Create,
        apply_result_spec(ApplyEvent::Create(CreateEvent::Created)) == PathState::Fine,
{
}

/// A dangling link classifies as `Broken`; the planned repair removes
/// it and creates the link anew, and a fully successful repair
/// records `Fine`.
pub proof fn lemma_broken_is_recreated(probe: FsProbe)
    requires
        probe == (FsProbe::Absent { is_link: true }),
    ensures
        classify_spec(probe) == PathState::Broken,
        plan_spec(classify_spec(probe)) == ApplyAction::Recreate,
        apply_result_spec(ApplyEvent::Create(CreateEvent::Created)) == PathState::Fine,
{
}

/// A link that resolves, but to somewhere other than the repository
/// target, classifies as `BadLink`, and its planned repair is the
/// very action planned for a `Broken` entry.
pub proof fn lemma_bad_link_is_recreated(is_link: bool, home_target: String, repo_target: String)
    requires
        is_link,
        home_target@ != repo_target@,
    ensures
        classify_spec(
            FsProbe::Present {
                is_link,
                canonical_home: Ok(home_target),
                canonical_repo: Ok(repo_target),
            },
        ) == PathState::BadLink,
        plan_spec(PathState::BadLink) == plan_spec(PathState::Broken),
        plan_spec(PathState::BadLink) == ApplyAction::Recreate,
{
}

/// A real file or directory at the location classifies as `Conflict`,
/// and a `Conflict` entry is deliberately left alone: deleting user
/// data is not this tool's decision, so no action is planned and no
/// resulting state is recorded.
pub proof fn lemma_conflict_is_left_alone(is_link: bool, home_target: String, repo_target: String)
    requires
        !is_link,
        home_target@ != repo_target@,
    ensures
        classify_spec(
            FsProbe::Present {
                is_link,
                canonical_home: Ok(home_target),
                canonical_repo: Ok(repo_target),
            },
        ) == PathState::Conflict,
        plan_spec(PathState::Conflict) == ApplyAction::Leave,
{
}

/// Reconciliation settles in one pass: any entry whose state calls
/// for a repair records `Fine` once every step of the repair
/// succeeds, and a later probe that finds the link correctly in place
/// classifies as `Fine` and plans nothing further. A second run over
/// repaired entries therefore neither reclassifies them away from
/// `Fine` nor plans any mutation. That a successfully created link
/// probes as correctly in place is a filesystem fact the surrounding
/// program observes; it is taken as this lemma's premise on the
/// second probe.
pub proof fn lemma_repair_settles(first: PathState, second: FsProbe)
    requires
        plan_spec(first) != ApplyAction::Leave,
        probe_shows_fine(second),
    ensures
        apply_result_spec(ApplyEvent::Create(CreateEvent::Created)) == PathState::Fine,
        classify_spec(second) == PathState::Fine,
        plan_spec(classify_spec(second)) == ApplyAction::Leave,
{
}

} // verus!
