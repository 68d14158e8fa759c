//! Where a camera looks, as two angles, and how pointer motion turns it.
//!
//! Angles are whole numbers of nano-radians, so that turning and clamping
//! are exact. The yaw is cyclic and is never clamped: it is kept as it was
//! given, and each motion adds to it what is left of the motion after whole
//! turns are taken away. The pitch is kept clear of straight up and straight
//! down by a small margin: there the yaw would mean nothing, and no
//! right-hand direction would belong to the viewing direction.

use crate::camera::CameraError;
use crate::input::{add_saturating, saturating_sum};
use vstd::prelude::*;

verus! {

/// The number of angle units in one radian.
pub const UNITS_PER_RADIAN: i64 = 1_000_000_000;

/// A full turn, 2π radians, to the nearest unit.
pub const FULL_TURN: i64 = 6_283_185_307;

/// The farthest that a camera looks up or down: the largest whole number of
/// units below π/2 − 0.00001 radians. A camera never looks straight up or
/// down, where its yaw would mean nothing.
pub const PITCH_LIMIT: i64 = 1_570_786_326;

/// The angle in `0 .. FULL_TURN` that points the same way as `angle`. Two
/// angles point the same way where they differ by whole turns.
pub open spec fn wrap_yaw(angle: int) -> int {
    angle % (FULL_TURN as int)
}

/// What is left of `motion` after whole turns are taken away, with the sign
/// of `motion`: a value closer to zero than one full turn.
pub open spec fn reduced(motion: int) -> int {
    if motion >= 0 {
        motion % (FULL_TURN as int)
    } else {
        -((-motion) % (FULL_TURN as int))
    }
}

/// The angle between `-PITCH_LIMIT` and `PITCH_LIMIT` that is nearest to
/// `angle`.
pub open spec fn clamp_pitch(angle: int) -> int {
    if angle < -PITCH_LIMIT {
        -PITCH_LIMIT as int
    } else if angle > PITCH_LIMIT {
        PITCH_LIMIT as int
    } else {
        angle
    }
}

/// A viewing direction as two angles: `yaw` about the vertical axis and
/// `pitch` above the horizontal plane.
pub struct Angles {
    pub yaw: int,
    pub pitch: int,
}

/// What a pointer motion of `dx` to the right and `dy` downwards makes of
/// `angles`: the yaw grows by what is left of `dx` after whole turns are
/// taken away, and the pitch shrinks by `dy` and is clamped. The yaw is not
/// clamped; it only stops at the ends of what an `i64` holds.
pub open spec fn turn(angles: Angles, dx: int, dy: int) -> Angles {
    Angles {
        yaw: saturating_sum(angles.yaw, reduced(dx)),
        pitch: clamp_pitch(angles.pitch - dy),
    }
}

/// The angles after each of `motions`, a pointer motion `(dx, dy)` each, has
/// turned the camera in its turn, starting from `angles`.
pub open spec fn angles_after(angles: Angles, motions: Seq<(int, int)>) -> Angles
    decreases motions.len(),
{
    if motions.len() == 0 {
        angles
    } else {
        turn(angles_after(angles, motions.drop_last()), motions.last().0, motions.last().1)
    }
}

/// The sum of the horizontal parts of `motions`.
pub open spec fn total_yaw(motions: Seq<(int, int)>) -> int
    decreases motions.len(),
{
    if motions.len() == 0 {
        0
    } else {
        total_yaw(motions.drop_last()) + motions.last().0
    }
}

/// Whether the yaw, starting from `angles`, takes every one of `motions` in
/// full: none of them would carry it past either end of what an `i64`
/// holds.
pub open spec fn unhindered(angles: Angles, motions: Seq<(int, int)>) -> bool
    decreases motions.len(),
{
    motions.len() == 0 || {
        let before = angles_after(angles, motions.drop_last());
        &&& unhindered(angles, motions.drop_last())
        &&& i64::MIN <= before.yaw + reduced(motions.last().0) <= i64::MAX
    }
}

/// However the pointer moves, and however often, the pitch stays within the
/// limit: a camera never comes to look straight up or down.
pub proof fn pitch_stays_within_limit(angles: Angles, motions: Seq<(int, int)>)
    requires
        -PITCH_LIMIT <= angles.pitch <= PITCH_LIMIT,
    ensures
        -PITCH_LIMIT <= angles_after(angles, motions).pitch <= PITCH_LIMIT,
    decreases motions.len(),
{
    if motions.len() > 0 {
        pitch_stays_within_limit(angles, motions.drop_last());
    }
}

/// Only the sum of the horizontal motions counts for the direction of the
/// yaw, not how the sum came about: the yaw after all of `motions` points
/// the same way as the first yaw and all horizontal parts added up.
pub proof fn yaw_follows_the_total(angles: Angles, motions: Seq<(int, int)>)
    requires
        unhindered(angles, motions),
    ensures
        wrap_yaw(angles_after(angles, motions).yaw) == wrap_yaw(
            angles.yaw + total_yaw(motions),
        ),
    decreases motions.len(),
{
    if motions.len() > 0 {
        yaw_follows_the_total(angles, motions.drop_last());
    }
}

/// Horizontal motions that add up to one full turn, in however many parts,
/// leave the yaw pointing the way it pointed: it differs from what it was
/// by whole turns.
pub proof fn full_turn_restores_direction(angles: Angles, motions: Seq<(int, int)>)
    requires
        unhindered(angles, motions),
        total_yaw(motions) == FULL_TURN,
    ensures
        wrap_yaw(angles_after(angles, motions).yaw) == wrap_yaw(angles.yaw),
        (angles_after(angles, motions).yaw - angles.yaw) % (FULL_TURN as int) == 0,
{
    yaw_follows_the_total(angles, motions);
}

/// The direction in which a camera looks. Its yaw is any angle; its pitch
/// is at least `-PITCH_LIMIT` and at most [`PITCH_LIMIT`].
#[derive(Clone, Copy, PartialEq, Eq, Debug)]
pub struct Orientation {
    yaw: i64,
    pitch: i64,
}

impl View for Orientation {
    type V = Angles;

    closed spec fn view(&self) -> Angles {
        Angles { yaw: self.yaw as int, pitch: self.pitch as int }
    }
}

impl Orientation {
    #[verifier::type_invariant]
    spec fn in_range(self) -> bool {
        -PITCH_LIMIT <= self.pitch <= PITCH_LIMIT
    }

    /// The direction with the given angles. The yaw may be any angle and is
    /// kept as it is. A pitch beyond the limit is refused.
    pub fn new(yaw: i64, pitch: i64) -> (made: Result<Orientation, CameraError>)
        ensures
            made is Err <==> pitch < -PITCH_LIMIT || pitch > PITCH_LIMIT,
            made matches Err(error) ==> error == CameraError::DegenerateForward,
            made matches Ok(orientation) ==> orientation@ == (Angles {
                yaw: yaw as int,
                pitch: pitch as int,
            }),
    {
        if pitch < -PITCH_LIMIT || pitch > PITCH_LIMIT {
            Err(CameraError::DegenerateForward)
        } else {
            Ok(Orientation { yaw, pitch })
        }
    }

    /// The angle about the vertical axis.
    pub fn yaw(&self) -> (yaw: i64)
        ensures
            yaw == self@.yaw,
    {
        self.yaw
    }

    /// The angle above the horizontal plane.
    pub fn pitch(&self) -> (pitch: i64)
        ensures
            pitch == self@.pitch,
            -PITCH_LIMIT <= pitch <= PITCH_LIMIT,
    {
        proof {
            use_type_invariant(self);
        }
        self.pitch
    }

    /// The direction after a pointer motion of `dx` to the right and `dy`
    /// downwards: see [`turn`].
    pub fn turned(&self, dx: i64, dy: i64) -> (next: Orientation)
        ensures
            next@ == turn(self@, dx as int, dy as int),
    {
        proof {
            use_type_invariant(self);
        }
        let step: i64 = dx.checked_rem(FULL_TURN).unwrap();
        let yaw: i64 = add_saturating(self.yaw, step);
        let wide_pitch: i128 = self.pitch as i128 - dy as i128;
        let pitch: i64 = if wide_pitch < -(PITCH_LIMIT as i128) {
            -PITCH_LIMIT
        } else if wide_pitch > PITCH_LIMIT as i128 {
            PITCH_LIMIT
        } else {
            wide_pitch as i64
        };
        Orientation { yaw, pitch }
    }
}

impl Default for Orientation {
    /// The direction from the point (5, 2, 5) to the origin: a yaw of −3π/4
    /// and a pitch of −asin(2/√54), each to the nearest unit.
    fn default() -> (orientation: Orientation)
        ensures
            orientation@ == (Angles { yaw: -2_356_194_490, pitch: -275_642_799 }),
    {
        Orientation { yaw: -2_356_194_490, pitch: -275_642_799 }
    }
}

} // verus!
