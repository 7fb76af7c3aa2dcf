use vstd::prelude::*;

use crate::errors::GeometryError;
use crate::scalar::Scalar;

verus! {

// Hard physical limits of the joints (the machine's capability), as
// binary64 bit patterns of degrees.  Requested operating limits must lie
// within them.
/// Lowest shoulder angle: -90 degrees.
pub const SHOULDER_HARD_MIN_DEG: u64 = 0xC056_8000_0000_0000;

/// Highest shoulder angle: 90 degrees.
pub const SHOULDER_HARD_MAX_DEG: u64 = 0x4056_8000_0000_0000;

/// Lowest elbow angle: 0 degrees.
pub const ELBOW_HARD_MIN_DEG: u64 = 0;

/// Highest elbow angle: 150 degrees.
pub const ELBOW_HARD_MAX_DEG: u64 = 0x4062_C000_0000_0000;

/// Lowest shoulder angle in radians: `-90_f64.to_radians()`.
pub const SHOULDER_HARD_MIN_RAD: u64 = 0xBFF9_21FB_5444_2D18;

/// Highest shoulder angle in radians: `90_f64.to_radians()`.
pub const SHOULDER_HARD_MAX_RAD: u64 = 0x3FF9_21FB_5444_2D18;

/// Lowest elbow angle in radians: `0_f64.to_radians()`.
pub const ELBOW_HARD_MIN_RAD: u64 = 0;

/// Highest elbow angle in radians: `150_f64.to_radians()`.
pub const ELBOW_HARD_MAX_RAD: u64 = 0x4004_F1A6_C638_D03F;

/// The hard limits in degrees: shoulder minimum and maximum, elbow
/// minimum and maximum.
pub open spec fn hard_limits_deg() -> (u64, u64, u64, u64) {
    (SHOULDER_HARD_MIN_DEG, SHOULDER_HARD_MAX_DEG, ELBOW_HARD_MIN_DEG, ELBOW_HARD_MAX_DEG)
}

/// The hard limits in radians, in the same order.
pub open spec fn hard_limits_rad() -> (u64, u64, u64, u64) {
    (SHOULDER_HARD_MIN_RAD, SHOULDER_HARD_MAX_RAD, ELBOW_HARD_MIN_RAD, ELBOW_HARD_MAX_RAD)
}

/// Tolerance of the geometric comparisons: ten to the minus nine.
pub const EPSILON: u64 = 0x3E11_2E0B_E826_D695;

/// The tolerance as a value.
pub open spec fn epsilon() -> Scalar {
    Scalar { bits: EPSILON }
}

/// Operating limits that a user asks for, in degrees.
#[derive(Clone, Copy, Debug)]
pub struct RequestedLimits {
    pub shoulder_min_deg: Scalar,
    pub shoulder_max_deg: Scalar,
    pub elbow_min_deg: Scalar,
    pub elbow_max_deg: Scalar,
}

/// The range of one joint, in radians.
#[derive(Clone, Copy, Debug)]
pub struct JointLimit {
    min_rad: Scalar,
    max_rad: Scalar,
}

/// The ranges of both joints.
#[derive(Clone, Copy, Debug)]
pub struct JointLimits {
    pub elbow: JointLimit,
    pub shoulder: JointLimit,
}

/// Angles of both joints, in radians; the elbow angle is relative to the
/// upper arm.
#[derive(Clone, Copy, Debug)]
pub struct JointAngles {
    pub shoulder_rad: Scalar,
    pub elbow_rad: Scalar,
}

/// A point of the plane of the arm.
#[derive(Clone, Copy, Debug)]
pub struct Point2 {
    pub x: Scalar,
    pub y: Scalar,
}

/// The specification and the current joint state of a planar arm with
/// two links.
pub struct TwoLinkArm {
    link1_length: Scalar,
    link2_length: Scalar,
    limits: JointLimits,
    pub current_angles: JointAngles,
}

impl RequestedLimits {
    /// All four requested angles are finite.
    pub open spec fn all_finite(self) -> bool {
        &&& self.shoulder_max_deg.finite()
        &&& self.shoulder_min_deg.finite()
        &&& self.elbow_max_deg.finite()
        &&& self.elbow_min_deg.finite()
    }

    /// The first rule that a set of limits breaks against the hard limits
    /// `hard` (shoulder minimum, shoulder maximum, elbow minimum, elbow
    /// maximum), if any: non-finite angles, then a minimum below the hard
    /// minimum, then a maximum above the hard maximum, then a minimum above
    /// its maximum (shoulder before elbow).
    pub open spec fn violation_of(self, hard: (u64, u64, u64, u64)) -> Option<GeometryError> {
        if !self.all_finite() {
            Some(GeometryError::NOT_FINITE_ANGLE)
        } else if self.shoulder_min_deg.less_than(Scalar { bits: hard.0 })
            || self.elbow_min_deg.less_than(Scalar { bits: hard.2 }) {
            Some(GeometryError::MIN_ANGLE_NOT_MET)
        } else if self.shoulder_max_deg.greater_than(Scalar { bits: hard.1 })
            || self.elbow_max_deg.greater_than(Scalar { bits: hard.3 }) {
            Some(GeometryError::MAX_ANGLE_EXCEEDED)
        } else if self.shoulder_min_deg.greater_than(self.shoulder_max_deg)
            || self.elbow_min_deg.greater_than(self.elbow_max_deg) {
            Some(GeometryError::MIN_ANGLE_NOT_POSSIBLE)
        } else {
            None
        }
    }

    /// The limits lie within the hard limits `hard`, each minimum at most
    /// its maximum.
    pub open spec fn within(self, hard: (u64, u64, u64, u64)) -> bool {
        &&& Scalar { bits: hard.0 }.at_most(self.shoulder_min_deg)
        &&& self.shoulder_min_deg.at_most(self.shoulder_max_deg)
        &&& self.shoulder_max_deg.at_most(Scalar { bits: hard.1 })
        &&& Scalar { bits: hard.2 }.at_most(self.elbow_min_deg)
        &&& self.elbow_min_deg.at_most(self.elbow_max_deg)
        &&& self.elbow_max_deg.at_most(Scalar { bits: hard.3 })
    }

    /// The first rule that the request, in degrees, breaks.
    pub open spec fn violation(self) -> Option<GeometryError> {
        self.violation_of(hard_limits_deg())
    }

    /// The request lies within the hard limits in degrees, each minimum at
    /// most its maximum.
    pub open spec fn within_hard_limits(self) -> bool {
        self.within(hard_limits_deg())
    }

    /// The first rule that the converted request, in radians, breaks.
    pub open spec fn radian_violation(self) -> Option<GeometryError> {
        self.violation_of(hard_limits_rad())
    }

    /// The converted request lies within the hard limits in radians, each
    /// minimum at most its maximum.
    pub open spec fn within_hard_limits_rad(self) -> bool {
        self.within(hard_limits_rad())
    }

    /// Checks the limits against the hard limits `hard`.
    fn check_within(&self, hard: (u64, u64, u64, u64)) -> (r: Result<(), GeometryError>)
        requires
            (Scalar { bits: hard.0 }).finite(),
            (Scalar { bits: hard.1 }).finite(),
            (Scalar { bits: hard.2 }).finite(),
            (Scalar { bits: hard.3 }).finite(),
        ensures
            match r {
                Ok(()) => self.violation_of(hard) is None,
                Err(e) => self.violation_of(hard) == Some(e),
            },
            r is Ok ==> self.within(hard),
    {
        JointLimits::validate_finite(self)?;
        if self.shoulder_min_deg.is_less_than(Scalar::from_bits(hard.0)) {
            return Err(GeometryError::MIN_ANGLE_NOT_MET);
        }
        if self.elbow_min_deg.is_less_than(Scalar::from_bits(hard.2)) {
            return Err(GeometryError::MIN_ANGLE_NOT_MET);
        }
        if self.shoulder_max_deg.is_greater_than(Scalar::from_bits(hard.1)) {
            return Err(GeometryError::MAX_ANGLE_EXCEEDED);
        }
        if self.elbow_max_deg.is_greater_than(Scalar::from_bits(hard.3)) {
            return Err(GeometryError::MAX_ANGLE_EXCEEDED);
        }
        if self.shoulder_min_deg.is_greater_than(self.shoulder_max_deg) {
            return Err(GeometryError::MIN_ANGLE_NOT_POSSIBLE);
        }
        if self.elbow_min_deg.is_greater_than(self.elbow_max_deg) {
            return Err(GeometryError::MIN_ANGLE_NOT_POSSIBLE);
        }
        Ok(())
    }
}

impl JointLimit {
    /// Lower end of the range.
    pub closed spec fn lower(self) -> Scalar {
        self.min_rad
    }

    /// Upper end of the range.
    pub closed spec fn upper(self) -> Scalar {
        self.max_rad
    }

    /// The angle is finite and inside the closed range.
    pub closed spec fn admits(self, angle: Scalar) -> bool {
        angle.finite() && angle.at_least(self.min_rad) && angle.at_most(self.max_rad)
    }

    /// What `admits` means, for readers outside this module.
    pub proof fn lemma_admits(self, angle: Scalar)
        ensures
            self.admits(angle) <==> angle.finite() && angle.at_least(self.lower())
                && angle.at_most(self.upper()),
    {
    }

    /// Lower end of the range, in radians.
    pub fn min_rad(&self) -> (r: Scalar)
        ensures
            r == self.lower(),
    {
        self.min_rad
    }

    /// Upper end of the range, in radians.
    pub fn max_rad(&self) -> (r: Scalar)
        ensures
            r == self.upper(),
    {
        self.max_rad
    }

    /// Whether the angle is finite and inside the closed range.
    pub fn contains(&self, angle_rad: Scalar) -> (r: bool)
        ensures
            r == self.admits(angle_rad),
    {
        angle_rad.is_finite() && angle_rad.is_at_least(self.min_rad) && angle_rad.is_at_most(
            self.max_rad,
        )
    }
}

impl JointLimits {
    /// Both angles lie within their joint's range.
    pub open spec fn admits(self, angles: JointAngles) -> bool {
        self.shoulder.admits(angles.shoulder_rad) && self.elbow.admits(angles.elbow_rad)
    }

    /// Both ranges are finite, non-empty and inside the hard limits in
    /// radians.
    pub open spec fn within_hard_limits(self) -> bool {
        &&& self.shoulder.lower().finite() && self.shoulder.upper().finite()
        &&& self.elbow.lower().finite() && self.elbow.upper().finite()
        &&& (Scalar { bits: SHOULDER_HARD_MIN_RAD }).at_most(self.shoulder.lower())
        &&& self.shoulder.lower().at_most(self.shoulder.upper())
        &&& self.shoulder.upper().at_most(Scalar { bits: SHOULDER_HARD_MAX_RAD })
        &&& (Scalar { bits: ELBOW_HARD_MIN_RAD }).at_most(self.elbow.lower())
        &&& self.elbow.lower().at_most(self.elbow.upper())
        &&& self.elbow.upper().at_most(Scalar { bits: ELBOW_HARD_MAX_RAD })
    }

    /// Checks that every requested angle is finite.
    pub fn validate_finite(requested: &RequestedLimits) -> (r: Result<(), GeometryError>)
        ensures
            r is Ok <==> requested.all_finite(),
            r is Err ==> r == Err::<(), GeometryError>(GeometryError::NOT_FINITE_ANGLE),
    {
        if !requested.shoulder_max_deg.is_finite() || !requested.shoulder_min_deg.is_finite()
            || !requested.elbow_max_deg.is_finite() || !requested.elbow_min_deg.is_finite() {
            return Err(GeometryError::NOT_FINITE_ANGLE);
        }
        Ok(())
    }

    /// Validates the requested operating limits against the hard limits
    /// and builds the joint ranges from `in_radians`, the same request
    /// converted to radians.  The converted ranges are checked against the
    /// hard limits in radians too, by the same rules, so that the ranges
    /// the arm enforces can never be wider than the hard limits.
    pub fn from_requested(requested: RequestedLimits, in_radians: RequestedLimits) -> (r: Result<
        JointLimits,
        GeometryError,
    >)
        ensures
            match r {
                Ok(limits) => {
                    &&& requested.violation() is None
                    &&& in_radians.radian_violation() is None
                    &&& limits.shoulder.lower() == in_radians.shoulder_min_deg
                    &&& limits.shoulder.upper() == in_radians.shoulder_max_deg
                    &&& limits.elbow.lower() == in_radians.elbow_min_deg
                    &&& limits.elbow.upper() == in_radians.elbow_max_deg
                },
                Err(e) => if requested.violation() is Some {
                    requested.violation() == Some(e)
                } else {
                    in_radians.radian_violation() == Some(e)
                },
            },
            r is Ok ==> requested.within_hard_limits() && in_radians.within_hard_limits_rad(),
            r matches Ok(limits) ==> limits.within_hard_limits(),
            r is Ok <==> requested.shoulder_min_deg.finite() && requested.shoulder_max_deg.finite()
                && requested.elbow_min_deg.finite() && requested.elbow_max_deg.finite()
                && requested.within_hard_limits() && in_radians.shoulder_min_deg.finite()
                && in_radians.shoulder_max_deg.finite() && in_radians.elbow_min_deg.finite()
                && in_radians.elbow_max_deg.finite() && in_radians.within_hard_limits_rad(),
    {
        proof {
            lemma_limit_rules(requested, hard_limits_deg());
            lemma_limit_rules(in_radians, hard_limits_rad());
        }
        let hard_deg = (
            SHOULDER_HARD_MIN_DEG,
            SHOULDER_HARD_MAX_DEG,
            ELBOW_HARD_MIN_DEG,
            ELBOW_HARD_MAX_DEG,
        );
        let hard_rad = (
            SHOULDER_HARD_MIN_RAD,
            SHOULDER_HARD_MAX_RAD,
            ELBOW_HARD_MIN_RAD,
            ELBOW_HARD_MAX_RAD,
        );
        requested.check_within(hard_deg)?;
        in_radians.check_within(hard_rad)?;
        let shoulder = JointLimit {
            min_rad: in_radians.shoulder_min_deg,
            max_rad: in_radians.shoulder_max_deg,
        };
        let elbow = JointLimit {
            min_rad: in_radians.elbow_min_deg,
            max_rad: in_radians.elbow_max_deg,
        };
        Ok(JointLimits { elbow, shoulder })
    }
}

/// Floating-point measurements of a target, taken outside the library
/// for the arm that decides on them.
#[derive(Clone, Copy, Debug)]
pub struct TargetGeometry {
    /// Distance of the target from the base: `x.hypot(y)`.
    pub distance: Scalar,
    /// Shortest reachable distance less the tolerance:
    /// `(link1 - link2).abs() - EPSILON`.
    pub reach_floor: Scalar,
    /// Longest reachable distance plus the tolerance:
    /// `link1 + link2 + EPSILON`.
    pub reach_ceiling: Scalar,
}

/// A joint configuration together with its cost, the squared joint-space
/// distance from the arm's current angles.
#[derive(Clone, Copy, Debug)]
pub struct Candidate {
    pub angles: JointAngles,
    pub cost: Scalar,
}

/// The two mirrored analytical solutions for a target (from the law of
/// cosines), in the order in which they are considered, and the
/// differences `first - second` of their shoulder and elbow angles.
#[derive(Clone, Copy, Debug)]
pub struct IkCandidates {
    pub first: Candidate,
    pub second: Candidate,
    pub shoulder_gap: Scalar,
    pub elbow_gap: Scalar,
}

impl IkCandidates {
    /// The two solutions approximately coincide: both differences are
    /// smaller than the tolerance in absolute value.
    pub open spec fn coincide(self) -> bool {
        self.shoulder_gap.absolute().less_than(epsilon()) && self.elbow_gap.absolute().less_than(
            epsilon(),
        )
    }
}

impl TwoLinkArm {
    /// Both links have a finite, positive length.
    pub closed spec fn lengths_valid(self) -> bool {
        &&& self.link1_length.finite()
        &&& self.link2_length.finite()
        &&& Scalar { bits: 0 }.less_than(self.link1_length)
        &&& Scalar { bits: 0 }.less_than(self.link2_length)
    }

    /// What `lengths_valid` means, for readers outside this module.
    pub proof fn lemma_lengths_valid(self)
        ensures
            self.lengths_valid() <==> self.upper_arm().finite() && self.forearm().finite()
                && (Scalar { bits: 0 }).less_than(self.upper_arm()) && (Scalar {
                bits: 0,
            }).less_than(self.forearm()),
    {
    }

    /// The joint ranges of the arm.
    pub closed spec fn joint_limits(self) -> JointLimits {
        self.limits
    }

    /// Length of the upper arm.
    pub closed spec fn upper_arm(self) -> Scalar {
        self.link1_length
    }

    /// Length of the forearm.
    pub closed spec fn forearm(self) -> Scalar {
        self.link2_length
    }

    /// The current joint angles of the arm.
    pub closed spec fn angles(self) -> JointAngles {
        self.current_angles
    }

    /// The same arm with other current angles.
    pub closed spec fn with_angles(self, angles: JointAngles) -> TwoLinkArm {
        TwoLinkArm { current_angles: angles, ..self }
    }

    /// Replacing the current angles keeps the links and the joint ranges.
    pub proof fn lemma_with_angles(self, angles: JointAngles)
        ensures
            self.with_angles(angles).angles() == angles,
            self.with_angles(angles).upper_arm() == self.upper_arm(),
            self.with_angles(angles).forearm() == self.forearm(),
            self.with_angles(angles).joint_limits() == self.joint_limits(),
            self.with_angles(angles).lengths_valid() == self.lengths_valid(),
    {
    }

    /// The configuration lies within the arm's joint ranges.
    pub open spec fn admits(self, angles: JointAngles) -> bool {
        self.joint_limits().admits(angles)
    }

    /// The arm is well formed: valid links, and its current angles within
    /// its joint ranges.
    pub open spec fn wf(self) -> bool {
        self.lengths_valid() && self.admits(self.angles())
    }

    /// The first rule that a new arm would break, if any.
    pub open spec fn construction_violation(
        link1_length: Scalar,
        link2_length: Scalar,
        limits: JointLimits,
        current_angles: JointAngles,
    ) -> Option<GeometryError> {
        if !link1_length.finite() || !link2_length.finite() {
            Some(GeometryError::ARM_LENGTH_NON_FINITE)
        } else if link1_length.at_most(Scalar { bits: 0 }) || link2_length.at_most(
            Scalar { bits: 0 },
        ) {
            Some(GeometryError::ARM_LENGTH_OUT_OF_BOUNDS)
        } else if !limits.admits(current_angles) {
            Some(GeometryError::CURRENT_ANGLES_OUT_OF_BOUNDS)
        } else {
            None
        }
    }

    /// Moves the arm to `proposed` if both angles lie within their joint's
    /// range; otherwise leaves it unchanged and says which joint is out of
    /// range (the shoulder first).
    pub fn set_angles(&mut self, proposed: JointAngles) -> (r: Result<(), GeometryError>)
        ensures
            !old(self).joint_limits().shoulder.admits(proposed.shoulder_rad) ==> r == Err::<
                (),
                GeometryError,
            >(GeometryError::SHOULDER_ANGLE_OUT_OF_BOUNDS),
            old(self).joint_limits().shoulder.admits(proposed.shoulder_rad)
                && !old(self).joint_limits().elbow.admits(proposed.elbow_rad) ==> r == Err::<
                (),
                GeometryError,
            >(GeometryError::ELBOW_ANGLE_OUT_OF_BOUNDS),
            r is Ok <==> old(self).admits(proposed),
            r is Ok ==> *final(self) == old(self).with_angles(proposed),
            r is Err ==> *final(self) == *old(self),
            final(self).angles() == (if r is Ok { proposed } else { old(self).angles() }),
            final(self).upper_arm() == old(self).upper_arm(),
            final(self).forearm() == old(self).forearm(),
            final(self).joint_limits() == old(self).joint_limits(),
            final(self).lengths_valid() == old(self).lengths_valid(),
            old(self).wf() ==> final(self).wf(),
    {
        let shoulder_valid = self.limits.shoulder.contains(proposed.shoulder_rad);
        let elbow_valid = self.limits.elbow.contains(proposed.elbow_rad);
        if !shoulder_valid {
            return Err(GeometryError::SHOULDER_ANGLE_OUT_OF_BOUNDS);
        }
        if !elbow_valid {
            return Err(GeometryError::ELBOW_ANGLE_OUT_OF_BOUNDS);
        }
        self.current_angles = proposed;
        Ok(())
    }

    /// Builds an arm from finite, positive link lengths, its joint ranges
    /// and initial angles within them.
    pub fn new(
        link1_length: Scalar,
        link2_length: Scalar,
        limits: JointLimits,
        current_angles: JointAngles,
    ) -> (r: Result<Self, GeometryError>)
        ensures
            match r {
                Ok(arm) => {
                    &&& Self::construction_violation(
                        link1_length,
                        link2_length,
                        limits,
                        current_angles,
                    ) is None
                    &&& arm.upper_arm() == link1_length
                    &&& arm.forearm() == link2_length
                    &&& arm.joint_limits() == limits
                    &&& arm.angles() == current_angles
                    &&& arm.wf()
                },
                Err(e) => Self::construction_violation(
                    link1_length,
                    link2_length,
                    limits,
                    current_angles,
                ) == Some(e),
            },
            r is Ok <==> link1_length.finite() && link2_length.finite() && (Scalar {
                bits: 0,
            }).less_than(link1_length) && (Scalar { bits: 0 }).less_than(link2_length)
                && limits.admits(current_angles),
    {
        proof {
            lemma_construction_rules(link1_length, link2_length, limits, current_angles);
        }
        if !link1_length.is_finite() || !link2_length.is_finite() {
            return Err(GeometryError::ARM_LENGTH_NON_FINITE);
        }
        if link1_length.is_at_most(Scalar::zero()) || link2_length.is_at_most(Scalar::zero()) {
            return Err(GeometryError::ARM_LENGTH_OUT_OF_BOUNDS);
        }
        if !limits.shoulder.contains(current_angles.shoulder_rad) {
            return Err(GeometryError::CURRENT_ANGLES_OUT_OF_BOUNDS);
        }
        if !limits.elbow.contains(current_angles.elbow_rad) {
            return Err(GeometryError::CURRENT_ANGLES_OUT_OF_BOUNDS);
        }
        Ok(Self { link1_length, link2_length, limits, current_angles })
    }

    /// Whether the target, with its measured distance and the arm's reach
    /// bounds, lies in the reachable annulus; a target with a non-finite
    /// coordinate is refused.
    pub fn is_reachable(&self, target: Point2, geometry: &TargetGeometry) -> (r: Result<
        bool,
        GeometryError,
    >)
        ensures
            r is Err <==> !(target.x.finite() && target.y.finite()),
            r is Err ==> r == Err::<bool, GeometryError>(GeometryError::POINT_NOT_FINITE),
            r is Ok ==> r == Ok::<bool, GeometryError>(
                geometry.distance.at_least(geometry.reach_floor) && geometry.distance.at_most(
                    geometry.reach_ceiling,
                ),
            ),
    {
        if !target.x.is_finite() || !target.y.is_finite() {
            return Err(GeometryError::POINT_NOT_FINITE);
        }
        let reachable = geometry.distance.is_at_least(geometry.reach_floor)
            && geometry.distance.is_at_most(geometry.reach_ceiling);
        Ok(reachable)
    }
}

/// `+inf`, the cost that no selected candidate reaches.
pub open spec fn infinite_cost() -> Scalar {
    Scalar { bits: crate::scalar::INFINITY_BITS }
}

/// Candidate `i` is the one that the nearest-solution rule selects: its
/// cost is below `+inf`, no candidate costs less, and every candidate
/// before it costs more (or is NaN), so the first of equally cheap
/// candidates wins.
pub open spec fn is_nearest(candidates: Seq<Candidate>, i: int) -> bool {
    &&& 0 <= i < candidates.len()
    &&& candidates[i].cost.less_than(infinite_cost())
    &&& forall|j: int|
        0 <= j < candidates.len() ==> !#[trigger] candidates[j].cost.less_than(candidates[i].cost)
    &&& forall|j: int| 0 <= j < i ==> !#[trigger] candidates[j].cost.at_most(candidates[i].cost)
}

/// No candidate costs less than `+inf` (in particular, there is none).
pub open spec fn none_selectable(candidates: Seq<Candidate>) -> bool {
    forall|j: int| 0 <= j < candidates.len() ==> !#[trigger] candidates[j].cost.less_than(
        infinite_cost(),
    )
}

/// The selection rule picks at most one candidate.
pub proof fn lemma_nearest_unique(candidates: Seq<Candidate>, i: int, k: int)
    requires
        is_nearest(candidates, i),
        is_nearest(candidates, k),
    ensures
        i == k,
{
    assert(!candidates[i].cost.less_than(candidates[k].cost));
    assert(!candidates[k].cost.less_than(candidates[i].cost));
    if i < k {
        assert(!candidates[i].cost.at_most(candidates[k].cost));
    } else if k < i {
        assert(!candidates[k].cost.at_most(candidates[i].cost));
    }
}

/// The index of the candidate with the least cost, the first of equally
/// cheap ones; `None` when no cost is below `+inf`.
pub fn nearest_index(candidates: &[Candidate]) -> (r: Option<usize>)
    ensures
        r is None <==> none_selectable(candidates@),
        r matches Some(i) ==> is_nearest(candidates@, i as int),
{
    let mut best: Option<usize> = None;
    let mut best_cost = Scalar::infinity();
    let n = candidates.len();
    let mut i: usize = 0;
    while i < n
        invariant
            n == candidates@.len(),
            0 <= i <= n,
            best is None ==> best_cost == infinite_cost() && forall|j: int|
                0 <= j < i ==> !#[trigger] candidates@[j].cost.less_than(infinite_cost()),
            best matches Some(b) ==> {
                &&& b < i
                &&& best_cost == candidates@[b as int].cost
                &&& best_cost.less_than(infinite_cost())
                &&& forall|j: int|
                    0 <= j < i ==> !#[trigger] candidates@[j].cost.less_than(best_cost)
                &&& forall|j: int| 0 <= j < b ==> !#[trigger] candidates@[j].cost.at_most(best_cost)
            },
        decreases n - i,
    {
        let cost = candidates[i].cost;
        if cost.is_less_than(best_cost) {
            assert forall|j: int| 0 <= j < i implies !#[trigger] candidates@[j].cost.at_most(
                cost,
            ) by {
                if best is None {
                    assert(!candidates@[j].cost.less_than(infinite_cost()));
                } else {
                    assert(!candidates@[j].cost.less_than(best_cost));
                }
            }
            assert forall|j: int| 0 <= j <= i implies !#[trigger] candidates@[j].cost.less_than(
                cost,
            ) by {
                if j < i {
                    if best is None {
                        assert(!candidates@[j].cost.less_than(infinite_cost()));
                    } else {
                        assert(!candidates@[j].cost.less_than(best_cost));
                    }
                }
            }
            best = Some(i);
            best_cost = cost;
        }
        i = i + 1;
    }
    best
}

impl TwoLinkArm {
    /// The first rule that a target breaks before any candidate is
    /// considered: a non-finite coordinate, a distance outside the
    /// reachable annulus, a target at the base.
    pub open spec fn target_violation(target: Point2, geometry: TargetGeometry) -> Option<
        GeometryError,
    > {
        if !(target.x.finite() && target.y.finite()) {
            Some(GeometryError::POINT_NOT_FINITE)
        } else if !(geometry.distance.at_least(geometry.reach_floor) && geometry.distance.at_most(
            geometry.reach_ceiling,
        )) {
            Some(GeometryError::POINT_OUT_OF_REACH)
        } else if geometry.distance.at_most(epsilon()) {
            Some(GeometryError::POINT_AT_BASE)
        } else {
            None
        }
    }

    /// The candidates kept, in order: each one within the joint ranges,
    /// the second dropped when it coincides with a kept first one.
    pub open spec fn kept_candidates(self, candidates: IkCandidates) -> Seq<Candidate> {
        let first = if self.admits(candidates.first.angles) {
            seq![candidates.first]
        } else {
            Seq::<Candidate>::empty()
        };
        if self.admits(candidates.second.angles) && !(self.admits(candidates.first.angles)
            && candidates.coincide()) {
            first.push(candidates.second)
        } else {
            first
        }
    }

    /// The joint configurations of the kept candidates.
    pub open spec fn kept_solutions(self, candidates: IkCandidates) -> Seq<JointAngles> {
        self.kept_candidates(candidates).map_values(|c: Candidate| c.angles)
    }

    pub(crate) fn solve(&self, target: Point2, geometry: &TargetGeometry, candidates: &IkCandidates) -> (r:
        Result<Vec<Candidate>, GeometryError>)
        ensures
            match r {
                Ok(v) => Self::target_violation(target, *geometry) is None && v@
                    == self.kept_candidates(*candidates),
                Err(e) => Self::target_violation(target, *geometry) == Some(e),
            },
    {
        if !self.is_reachable(target, geometry)? {
            return Err(GeometryError::POINT_OUT_OF_REACH);
        }
        if geometry.distance.is_at_most(Scalar::from_bits(EPSILON)) {
            return Err(GeometryError::POINT_AT_BASE);
        }
        let mut kept: Vec<Candidate> = Vec::new();
        let first = candidates.first;
        if self.limits.shoulder.contains(first.angles.shoulder_rad) && self.limits.elbow.contains(
            first.angles.elbow_rad,
        ) {
            kept.push(first);
        }
        let second = candidates.second;
        if self.limits.shoulder.contains(second.angles.shoulder_rad) && self.limits.elbow.contains(
            second.angles.elbow_rad,
        ) {
            let epsilon = Scalar::from_bits(EPSILON);
            let already_present = kept.len() > 0 && candidates.shoulder_gap.abs().is_less_than(
                epsilon,
            ) && candidates.elbow_gap.abs().is_less_than(epsilon);
            if !already_present {
                kept.push(second);
            }
        }
        assert(kept@ =~= self.kept_candidates(*candidates));
        Ok(kept)
    }

    /// Inverse kinematics: refuses a target that is not finite, out of
    /// reach or at the base, and otherwise returns the analytical
    /// solutions within the joint ranges, without approximate duplicates.
    pub fn inverse_kinematics(
        &self,
        target: Point2,
        geometry: &TargetGeometry,
        candidates: &IkCandidates,
    ) -> (r: Result<Vec<JointAngles>, GeometryError>)
        ensures
            match r {
                Ok(v) => Self::target_violation(target, *geometry) is None && v@
                    == self.kept_solutions(*candidates),
                Err(e) => Self::target_violation(target, *geometry) == Some(e),
            },
            r matches Ok(v) ==> {
                &&& v.len() <= 2
                &&& forall|i: int| 0 <= i < v.len() ==> self.admits(#[trigger] v@[i])
                &&& v.len() == 2 ==> !candidates.coincide()
                &&& self.admits(candidates.first.angles) ==> v.len() >= 1 && v@[0]
                    == candidates.first.angles
                &&& forall|i: int|
                    0 <= i < v.len() ==> #[trigger] v@[i] == candidates.first.angles || v@[i]
                        == candidates.second.angles
            },
    {
        proof {
            lemma_kept_candidates(*self, *candidates, *candidates);
        }
        let kept = self.solve(target, geometry, candidates)?;
        let mut solutions: Vec<JointAngles> = Vec::new();
        let mut i: usize = 0;
        while i < kept.len()
            invariant
                0 <= i <= kept.len(),
                kept@ == self.kept_candidates(*candidates),
                solutions@ =~= kept@.subrange(0, i as int).map_values(|c: Candidate| c.angles),
            decreases kept.len() - i,
        {
            solutions.push(kept[i].angles);
            i = i + 1;
            assert(solutions@ =~= kept@.subrange(0, i as int).map_values(
                |c: Candidate| c.angles,
            ));
        }
        assert(kept@.subrange(0, kept.len() as int) =~= kept@);
        Ok(solutions)
    }

    /// Among candidates whose costs were measured from this arm's current
    /// angles, the configuration needing the least joint-space
    /// displacement (the first of equally near ones); `None` when there is
    /// none, or when no cost is below `+inf`.
    pub fn select_nearest_solution(&self, candidates: &[Candidate]) -> (r: Option<JointAngles>)
        ensures
            r is None <==> none_selectable(candidates@),
            r matches Some(a) ==> exists|i: int|
                is_nearest(candidates@, i) && a == #[trigger] candidates@[i].angles,
    {
        match nearest_index(candidates) {
            Some(i) => Some(candidates[i].angles),
            None => None,
        }
    }
}

/// Every joint configuration that inverse kinematics returns for an arm is
/// one that the arm's `set_angles` accepts: the solutions are valid joint
/// angles for that arm.
pub proof fn lemma_solutions_settable(arm: TwoLinkArm, candidates: IkCandidates, i: int)
    requires
        0 <= i < arm.kept_solutions(candidates).len(),
    ensures
        arm.admits(arm.kept_solutions(candidates)[i]),
        arm.joint_limits().shoulder.admits(arm.kept_solutions(candidates)[i].shoulder_rad),
        arm.joint_limits().elbow.admits(arm.kept_solutions(candidates)[i].elbow_rad),
{
}

/// A well-formed arm whose joint ranges came from `from_requested` never
/// holds an angle outside the hard limits: the operating limits cannot
/// widen the range beyond the machine's safety boundary.
pub proof fn lemma_angles_within_hard_limits(arm: TwoLinkArm)
    requires
        arm.wf(),
        arm.joint_limits().within_hard_limits(),
    ensures
        (Scalar { bits: SHOULDER_HARD_MIN_RAD }).at_most(arm.angles().shoulder_rad),
        arm.angles().shoulder_rad.at_most(Scalar { bits: SHOULDER_HARD_MAX_RAD }),
        (Scalar { bits: ELBOW_HARD_MIN_RAD }).at_most(arm.angles().elbow_rad),
        arm.angles().elbow_rad.at_most(Scalar { bits: ELBOW_HARD_MAX_RAD }),
{
}

impl TwoLinkArm {
    /// The current joint angles.
    pub fn current_angles(&self) -> (r: JointAngles)
        ensures
            r == self.angles(),
    {
        self.current_angles
    }

    /// Length of the upper arm.
    pub fn link1_length(&self) -> (r: Scalar)
        ensures
            r == self.upper_arm(),
    {
        self.link1_length
    }

    /// Length of the forearm.
    pub fn link2_length(&self) -> (r: Scalar)
        ensures
            r == self.forearm(),
    {
        self.link2_length
    }

    /// The joint ranges.
    pub fn limits(&self) -> (r: &JointLimits)
        ensures
            *r == self.joint_limits(),
    {
        &self.limits
    }
}

/// The rules on operating limits, joint by joint: against hard limits
/// that are numbers, a set of limits is accepted exactly when its four
/// angles are finite and, for each joint on its own, hard minimum <=
/// minimum <= maximum <= hard maximum; each error names a rule that is
/// broken, in the order non-finite, minimum too low, maximum too high,
/// minimum above the same joint's maximum.
pub proof fn lemma_limit_rules(r: RequestedLimits, hard: (u64, u64, u64, u64))
    requires
        !(Scalar { bits: hard.0 }).nan(),
        !(Scalar { bits: hard.1 }).nan(),
        !(Scalar { bits: hard.2 }).nan(),
        !(Scalar { bits: hard.3 }).nan(),
    ensures
        ({
            let v = r.violation_of(hard);
            let finite = r.shoulder_min_deg.finite() && r.shoulder_max_deg.finite()
                && r.elbow_min_deg.finite() && r.elbow_max_deg.finite();
            let shoulder_ok = (Scalar { bits: hard.0 }).at_most(r.shoulder_min_deg)
                && r.shoulder_min_deg.at_most(r.shoulder_max_deg) && r.shoulder_max_deg.at_most(
                Scalar { bits: hard.1 },
            );
            let elbow_ok = (Scalar { bits: hard.2 }).at_most(r.elbow_min_deg)
                && r.elbow_min_deg.at_most(r.elbow_max_deg) && r.elbow_max_deg.at_most(
                Scalar { bits: hard.3 },
            );
            &&& v is None <==> finite && shoulder_ok && elbow_ok
            &&& v == Some(GeometryError::NOT_FINITE_ANGLE) <==> !finite
            &&& v == Some(GeometryError::MIN_ANGLE_NOT_MET) ==> finite && (r.shoulder_min_deg.less_than(
                Scalar { bits: hard.0 },
            ) || r.elbow_min_deg.less_than(Scalar { bits: hard.2 }))
            &&& v == Some(GeometryError::MAX_ANGLE_EXCEEDED) ==> finite && (
            r.shoulder_max_deg.greater_than(Scalar { bits: hard.1 })
                || r.elbow_max_deg.greater_than(Scalar { bits: hard.3 }))
            &&& v == Some(GeometryError::MIN_ANGLE_NOT_POSSIBLE) ==> finite && (
            r.shoulder_min_deg.greater_than(r.shoulder_max_deg) || r.elbow_min_deg.greater_than(
                r.elbow_max_deg,
            ))
            &&& v is Some ==> v == Some(GeometryError::NOT_FINITE_ANGLE) || v == Some(
                GeometryError::MIN_ANGLE_NOT_MET,
            ) || v == Some(GeometryError::MAX_ANGLE_EXCEEDED) || v == Some(
                GeometryError::MIN_ANGLE_NOT_POSSIBLE,
            )
        }),
{
}

/// The rules on a new arm: it is accepted exactly when both link lengths
/// are finite and above zero and each current angle is finite and lies in
/// its own joint's range (shoulder angle in the shoulder range, elbow
/// angle in the elbow range); each error names a rule that is broken.
pub proof fn lemma_construction_rules(
    link1_length: Scalar,
    link2_length: Scalar,
    limits: JointLimits,
    current_angles: JointAngles,
)
    ensures
        ({
            let v = TwoLinkArm::construction_violation(
                link1_length,
                link2_length,
                limits,
                current_angles,
            );
            let zero = Scalar { bits: 0 };
            let lengths_finite = link1_length.finite() && link2_length.finite();
            let lengths_positive = zero.less_than(link1_length) && zero.less_than(link2_length);
            let s = current_angles.shoulder_rad;
            let e = current_angles.elbow_rad;
            let angles_in_range = s.finite() && limits.shoulder.lower().at_most(s) && s.at_most(
                limits.shoulder.upper(),
            ) && e.finite() && limits.elbow.lower().at_most(e) && e.at_most(limits.elbow.upper());
            &&& v is None <==> lengths_finite && lengths_positive && angles_in_range
            &&& v == Some(GeometryError::ARM_LENGTH_NON_FINITE) <==> !lengths_finite
            &&& v == Some(GeometryError::ARM_LENGTH_OUT_OF_BOUNDS) <==> lengths_finite
                && !lengths_positive
            &&& v == Some(GeometryError::CURRENT_ANGLES_OUT_OF_BOUNDS) <==> lengths_finite
                && lengths_positive && !angles_in_range
        }),
{
    limits.shoulder.lemma_admits(current_angles.shoulder_rad);
    limits.elbow.lemma_admits(current_angles.elbow_rad);
}

/// What inverse kinematics keeps, stated candidate by candidate: only
/// candidates within the joint ranges, the first one whenever it is within
/// them, the second one whenever it is within them unless a kept first one
/// lies within the tolerance of it in both joints; at most two, and the
/// candidates' costs play no part.
pub proof fn lemma_kept_candidates(arm: TwoLinkArm, c: IkCandidates, other_costs: IkCandidates)
    requires
        other_costs.first.angles == c.first.angles,
        other_costs.second.angles == c.second.angles,
        other_costs.shoulder_gap == c.shoulder_gap,
        other_costs.elbow_gap == c.elbow_gap,
    ensures
        ({
            let k = arm.kept_candidates(c);
            let eps = Scalar { bits: EPSILON };
            let near = eps.negated().less_than(c.shoulder_gap) && c.shoulder_gap.less_than(eps)
                && eps.negated().less_than(c.elbow_gap) && c.elbow_gap.less_than(eps);
            &&& k.len() <= 2
            &&& forall|i: int|
                0 <= i < k.len() ==> (#[trigger] k[i] == c.first && arm.admits(c.first.angles))
                    || (k[i] == c.second && arm.admits(c.second.angles))
            &&& arm.admits(c.first.angles) ==> k.len() >= 1 && k[0] == c.first
            &&& arm.admits(c.second.angles) && !(arm.admits(c.first.angles) && near) ==> k.len()
                >= 1 && k[k.len() - 1] == c.second
            &&& arm.admits(c.first.angles) && arm.admits(c.second.angles) && !near ==> k.len() == 2
            &&& arm.admits(c.first.angles) && near ==> k.len() == 1
            &&& !arm.admits(c.first.angles) && !arm.admits(c.second.angles) ==> k.len() == 0
            &&& arm.kept_solutions(other_costs) == arm.kept_solutions(c)
        }),
{
    c.shoulder_gap.lemma_absolute_below(Scalar { bits: EPSILON });
    c.elbow_gap.lemma_absolute_below(Scalar { bits: EPSILON });
    assert(arm.kept_solutions(other_costs) =~= arm.kept_solutions(c));
}

} // verus!
