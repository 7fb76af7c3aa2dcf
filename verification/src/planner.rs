use vstd::prelude::*;

use crate::errors::GeometryError;
use crate::robot::{
    infinite_cost, is_nearest, lemma_kept_candidates, nearest_index, none_selectable, IkCandidates, JointAngles, Point2,
    TargetGeometry, TwoLinkArm,
};

verus! {

/// Resolves a Cartesian target into the one joint configuration to move
/// to: the inverse-kinematics solution within the joint ranges that is
/// nearest to the arm's current angles.  Fails as inverse kinematics does,
/// and with `NO_VIABLE_SOLUTION` when no solution remains.
pub fn target_planning(
    arm: &TwoLinkArm,
    target: Point2,
    geometry: &TargetGeometry,
    candidates: &IkCandidates,
) -> (r: Result<JointAngles, GeometryError>)
    ensures
        TwoLinkArm::target_violation(target, *geometry) matches Some(e) ==> r == Err::<
            JointAngles,
            GeometryError,
        >(e),
        TwoLinkArm::target_violation(target, *geometry) is None && none_selectable(
            arm.kept_candidates(*candidates),
        ) ==> r == Err::<JointAngles, GeometryError>(GeometryError::NO_VIABLE_SOLUTION),
        r matches Ok(a) ==> {
            &&& TwoLinkArm::target_violation(target, *geometry) is None
            &&& exists|i: int|
                is_nearest(arm.kept_candidates(*candidates), i) && a == (
                #[trigger] arm.kept_candidates(*candidates)[i]).angles
            &&& arm.admits(a)
        },
        r is Ok <==> TwoLinkArm::target_violation(target, *geometry) is None && !none_selectable(
            arm.kept_candidates(*candidates),
        ),
        TwoLinkArm::target_violation(target, *geometry) is None && arm.admits(
            candidates.first.angles,
        ) && candidates.first.cost.less_than(infinite_cost()) ==> r is Ok,
{
    proof {
        lemma_kept_candidates(*arm, *candidates, *candidates);
        if arm.admits(candidates.first.angles) {
            assert(arm.kept_candidates(*candidates)[0] == candidates.first);
        }
    }
    let kept = arm.solve(target, geometry, candidates)?;
    match nearest_index(kept.as_slice()) {
        Some(i) => {
            proof {
                assert(arm.kept_candidates(*candidates)[i as int] == kept@[i as int]);
            }
            Ok(kept[i].angles)
        },
        None => Err(GeometryError::NO_VIABLE_SOLUTION),
    }
}

} // verus!
