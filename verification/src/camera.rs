//! The camera's state: its mode, the direction in which it looks, and the
//! shape of the surface it projects onto; and what one frame of input does
//! to that state.
//!
//! The vectors and matrices that follow from this state are computed by the
//! renderer.

use crate::input::{Input, Key};
use crate::orientation::{turn, Angles, Orientation, PITCH_LIMIT};
use vstd::prelude::*;

verus! {

/// How the camera is steered.
#[derive(Clone, Copy, PartialEq, Eq, Structural, Debug)]
pub enum ViewMode {
    /// Free flight: the pointer turns the camera, four keys move it.
    FPS,
    /// Circling a target. There is no such camera yet: whatever is asked of
    /// one is answered with [`CameraError::NotImplemented`].
    Orbit,
}

/// Why a camera operation was refused.
#[derive(Clone, Copy, PartialEq, Eq, Structural, Debug)]
pub enum CameraError {
    /// The operation belongs to a mode that does not exist yet.
    NotImplemented,
    /// The viewing direction is vertical, or closer to vertical than a
    /// camera may look: no right-hand direction belongs to it.
    DegenerateForward,
}

/// The exact ratio of a surface's width to its height, kept as the two pixel
/// counts. Neither of them is zero.
#[derive(Clone, Copy, PartialEq, Eq, Debug)]
pub struct AspectRatio {
    width: u32,
    height: u32,
}

impl View for AspectRatio {
    type V = (nat, nat);

    /// Width and height, in this order.
    closed spec fn view(&self) -> (nat, nat) {
        (self.width as nat, self.height as nat)
    }
}

impl AspectRatio {
    #[verifier::type_invariant]
    spec fn both_positive(self) -> bool {
        self.width > 0 && self.height > 0
    }

    /// The ratio of a surface of `width` by `height` pixels; none for a
    /// surface without area, whose ratio would be zero or undefined.
    pub fn new(width: u32, height: u32) -> (ratio: Option<AspectRatio>)
        ensures
            ratio is None <==> width == 0 || height == 0,
            ratio matches Some(r) ==> r@ == (width as nat, height as nat),
    {
        if width == 0 || height == 0 {
            None
        } else {
            Some(AspectRatio { width, height })
        }
    }

    /// The ratio with which a viewer starts in a window of `width` by
    /// `height` pixels: the window's own, or, for a window without area,
    /// that of a surface of 1920 by 1009 pixels.
    pub fn at_start(width: u32, height: u32) -> (ratio: AspectRatio)
        ensures
            ratio@ == if width != 0 && height != 0 {
                (width as nat, height as nat)
            } else {
                (1920nat, 1009nat)
            },
    {
        if width == 0 || height == 0 {
            AspectRatio { width: 1920, height: 1009 }
        } else {
            AspectRatio { width, height }
        }
    }

    /// The width in pixels.
    pub fn width(&self) -> (width: u32)
        ensures
            width == self@.0,
            width > 0,
    {
        proof {
            use_type_invariant(self);
        }
        self.width
    }

    /// The height in pixels.
    pub fn height(&self) -> (height: u32)
        ensures
            height == self@.1,
            height > 0,
    {
        proof {
            use_type_invariant(self);
        }
        self.height
    }
}

/// One step of the camera along its own axes.
#[derive(Clone, Copy, PartialEq, Eq, Structural, Debug)]
pub enum Motion {
    /// Along the viewing direction.
    Forward,
    /// Against the viewing direction.
    Backward,
    /// Against the camera's right-hand direction.
    StrafeLeft,
    /// Along the camera's right-hand direction.
    StrafeRight,
}

/// The steps that a frame takes while the keys in `held` are down, in the
/// order in which they are taken: W forward, then S backward, then A to the
/// left, then D to the right. Opposite keys held together give both steps.
pub open spec fn movement_plan(held: Set<Key>) -> Seq<Motion> {
    let forward = if held.contains(Key::KeyW) {
        seq![Motion::Forward]
    } else {
        Seq::empty()
    };
    let backward = if held.contains(Key::KeyS) {
        seq![Motion::Backward]
    } else {
        Seq::empty()
    };
    let left = if held.contains(Key::KeyA) {
        seq![Motion::StrafeLeft]
    } else {
        Seq::empty()
    };
    let right = if held.contains(Key::KeyD) {
        seq![Motion::StrafeRight]
    } else {
        Seq::empty()
    };
    forward + backward + left + right
}

/// A camera: how it is steered, where it looks, and the shape of the
/// surface that it projects onto.
#[derive(Clone, Copy, PartialEq, Eq, Debug)]
pub struct Camera {
    pub view_mode: ViewMode,
    pub aspect_ratio: AspectRatio,
    pub orientation: Orientation,
}

impl Camera {
    /// A free-flight camera that looks along the given angles and projects
    /// onto a surface of the given shape. The yaw may be any angle and is
    /// kept as it is. A pitch beyond the limit is refused: such a camera would
    /// look straight up or down, or nearly so.
    pub fn new_fps(aspect_ratio: AspectRatio, yaw: i64, pitch: i64) -> (camera: Result<
        Camera,
        CameraError,
    >)
        ensures
            camera is Err <==> pitch < -PITCH_LIMIT || pitch > PITCH_LIMIT,
            camera matches Err(error) ==> error == CameraError::DegenerateForward,
            camera matches Ok(c) ==> {
                &&& c.view_mode == ViewMode::FPS
                &&& c.aspect_ratio == aspect_ratio
                &&& c.orientation@ == (Angles { yaw: yaw as int, pitch: pitch as int })
            },
    {
        match Orientation::new(yaw, pitch) {
            Ok(orientation) => Ok(Camera { view_mode: ViewMode::FPS, aspect_ratio, orientation }),
            Err(error) => Err(error),
        }
    }

    /// There is no orbiting camera yet, so none is made.
    pub fn new_orbital() -> (camera: Result<Camera, CameraError>)
        ensures
            camera == Err::<Camera, CameraError>(CameraError::NotImplemented),
    {
        Err(CameraError::NotImplemented)
    }

    /// Advances the camera by one frame.
    ///
    /// An orbiting camera always refuses, and then neither it nor `input`
    /// has changed. A free-flight camera consumes the pointer's motion and
    /// turns by it (see [`turn`]), and answers with the steps that the held
    /// keys ask for (see [`movement_plan`]), to be taken along the
    /// directions that belong to its new angles.
    pub fn update(&mut self, input: &mut Input) -> (plan: Result<Vec<Motion>, CameraError>)
        ensures
            old(self).view_mode == ViewMode::Orbit ==> {
                &&& plan == Err::<Vec<Motion>, CameraError>(CameraError::NotImplemented)
                &&& *final(self) == *old(self)
                &&& *final(input) == *old(input)
            },
            old(self).view_mode == ViewMode::FPS ==> {
                &&& plan matches Ok(moves)
                &&& moves@ == movement_plan(old(input).held())
                &&& final(self).view_mode == ViewMode::FPS
                &&& final(self).aspect_ratio == old(self).aspect_ratio
                &&& final(self).orientation@ == turn(
                    old(self).orientation@,
                    old(input).pointer_delta().0,
                    old(input).pointer_delta().1,
                )
                &&& final(input).pointer_delta() == (0int, 0int)
                &&& final(input).held() == old(input).held()
                &&& final(input).just_released() == old(input).just_released()
            },
    {
        match self.view_mode {
            ViewMode::Orbit => Err(CameraError::NotImplemented),
            ViewMode::FPS => Ok(self.update_fps(input)),
        }
    }

    /// Gives the camera a surface of another shape. Its mode and the
    /// direction in which it looks stay as they are.
    pub fn set_aspect_ratio(&mut self, aspect_ratio: AspectRatio)
        ensures
            final(self).aspect_ratio == aspect_ratio,
            final(self).view_mode == old(self).view_mode,
            final(self).orientation == old(self).orientation,
    {
        self.aspect_ratio = aspect_ratio;
    }

    fn update_fps(&mut self, input: &mut Input) -> (moves: Vec<Motion>)
        ensures
            moves@ == movement_plan(old(input).held()),
            final(self).view_mode == old(self).view_mode,
            final(self).aspect_ratio == old(self).aspect_ratio,
            final(self).orientation@ == turn(
                old(self).orientation@,
                old(input).pointer_delta().0,
                old(input).pointer_delta().1,
            ),
            final(input).pointer_delta() == (0int, 0int),
            final(input).held() == old(input).held(),
            final(input).just_released() == old(input).just_released(),
    {
        let offset = input.device_offset();
        self.orientation = self.orientation.turned(offset.0, offset.1);

        let mut moves: Vec<Motion> = Vec::new();
        if input.key_down(Key::KeyW) {
            moves.push(Motion::Forward);
        }
        if input.key_down(Key::KeyS) {
            moves.push(Motion::Backward);
        }
        if input.key_down(Key::KeyA) {
            moves.push(Motion::StrafeLeft);
        }
        if input.key_down(Key::KeyD) {
            moves.push(Motion::StrafeRight);
        }
        assert(moves@ =~= movement_plan(input.held()));
        moves
    }
}

impl Default for Camera {
    /// A free-flight camera for a surface of 1920 by 1009 pixels that looks
    /// from the point (5, 2, 5) towards the origin.
    fn default() -> (camera: Camera)
        ensures
            camera.view_mode == ViewMode::FPS,
            camera.aspect_ratio@ == (1920nat, 1009nat),
            camera.orientation@ == (Angles { yaw: -2_356_194_490, pitch: -275_642_799 }),
    {
        Camera {
            view_mode: ViewMode::FPS,
            aspect_ratio: AspectRatio { width: 1920, height: 1009 },
            orientation: Orientation::default(),
        }
    }
}

} // verus!
