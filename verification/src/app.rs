//! The frame loop's decisions: what each window event does to the viewer's
//! state, and what the surrounding program has to do in response.

use crate::camera::{movement_plan, AspectRatio, Camera, CameraError, Motion, ViewMode};
use crate::input::{saturating_sum, Input, Key, KeyState};
use crate::orientation::{turn, Orientation};
use crate::scene::{ModelInstance, Scene};
use vstd::prelude::*;

verus! {

/// What the window system reports.
#[derive(Clone, Copy, PartialEq, Eq, Debug)]
pub enum AppEvent {
    /// The user asked to close the window.
    CloseRequested,
    /// A key went down or came up.
    KeyboardInput { key: Key, state: KeyState },
    /// The pointer moved by `dx` to the right and `dy` downwards, in angle
    /// units.
    MouseMotion { dx: i64, dy: i64 },
    /// The window now measures `width` by `height` pixels.
    Resized { width: u32, height: u32 },
    /// The window wants its content drawn; it measures `width` by `height`
    /// pixels at this moment.
    RedrawRequested { width: u32, height: u32 },
    /// All pending events have been handled.
    AboutToWait,
}

/// What one drawn frame consists of.
#[derive(PartialEq, Eq, Debug)]
pub struct FrameStep {
    /// Where the camera looks in this frame.
    pub orientation: Orientation,
    /// The camera's steps, in the order in which to take them, along the
    /// directions that belong to `orientation`.
    pub moves: Vec<Motion>,
    /// The angle about the vertical axis, in whole degrees below 360, to
    /// which every instance is turned before it is drawn.
    pub spin_degrees: u16,
}

/// What the surrounding program has to do after an event.
#[derive(PartialEq, Eq, Debug)]
pub enum AppAction {
    /// Nothing.
    Idle,
    /// Leave the event loop.
    Exit,
    /// Ask the window for a redraw.
    RequestRedraw,
    /// Give the drawing surface the new size. Where `aspect` is present, the
    /// camera's projection follows it; where the window has no area, the
    /// projection stays as it is.
    Resize { width: u32, height: u32, aspect: Option<AspectRatio> },
    /// One pass of the frame loop is over. `exit` asks to leave the event
    /// loop once the pass is done. `step` is the frame to compute and draw;
    /// it is absent where the window has no area, and then neither the
    /// camera nor any instance is touched.
    Frame { exit: bool, step: Option<FrameStep> },
}

/// Counts the frames. The count runs from 0 up to `u128::MAX - 1` and then
/// starts again at 0.
#[derive(Clone, Copy, Debug)]
pub struct FrameState {
    frame_count: u128,
}

impl View for FrameState {
    type V = nat;

    /// The number of the frame that comes next.
    closed spec fn view(&self) -> nat {
        self.frame_count as nat
    }
}

impl FrameState {
    #[verifier::type_invariant]
    spec fn below_limit(self) -> bool {
        self.frame_count < u128::MAX
    }

    /// The count that follows `count`.
    pub open spec fn successor(count: nat) -> nat {
        (count + 1) % (u128::MAX as nat)
    }

    /// The angle, in whole degrees, to which frame number `count` turns the
    /// instances: one degree more with each frame, and 0 again after 359.
    pub open spec fn spin(count: nat) -> nat {
        count % 360
    }

    /// The state before the first frame.
    pub fn new() -> (state: FrameState)
        ensures
            state@ == 0,
    {
        FrameState { frame_count: 0 }
    }

    /// The state in which frame number `frame_count` comes next; none for
    /// `u128::MAX`, which the count never reaches.
    pub fn starting_at(frame_count: u128) -> (state: Option<FrameState>)
        ensures
            state is None <==> frame_count == u128::MAX,
            state matches Some(s) ==> s@ == frame_count,
    {
        if frame_count == u128::MAX {
            None
        } else {
            Some(FrameState { frame_count })
        }
    }

    /// The number of the frame that comes next.
    pub fn frame_count(&self) -> (count: u128)
        ensures
            count == self@,
            count < u128::MAX,
    {
        proof {
            use_type_invariant(self);
        }
        self.frame_count
    }

    /// The angle to which the next frame turns the instances.
    pub fn spin_degrees(&self) -> (degrees: u16)
        ensures
            degrees == Self::spin(self@),
            degrees < 360,
    {
        (self.frame_count % 360) as u16
    }

    /// Moves on to the next frame.
    pub fn advance(&mut self)
        ensures
            final(self)@ == Self::successor(old(self)@),
    {
        proof {
            use_type_invariant(&*self);
        }
        self.frame_count = (self.frame_count + 1) % u128::MAX;
    }
}

/// The viewer's state between events.
pub struct App<M, T> {
    pub input: Input,
    pub scene: Scene<M, T>,
    pub frame_state: FrameState,
}

/// How many places the viewer's grid of instances has along each side.
pub const SQUARE_SIZE: u32 = 10;

/// The places of a square grid with `square_size` places along each side,
/// column by column: `(0, 0)`, `(0, 1)`, and so on up to
/// `(square_size - 1, square_size - 1)`.
pub open spec fn grid(square_size: nat) -> Seq<(u32, u32)> {
    Seq::new(
        square_size * square_size,
        |i: int| ((i / square_size as int) as u32, (i % square_size as int) as u32),
    )
}

/// Whether a window of `width` by `height` pixels has anything to draw on.
pub open spec fn has_area(width: u32, height: u32) -> bool {
    width != 0 && height != 0
}

/// The places at which the viewer puts its instances: see [`grid`].
pub fn grid_cells(square_size: u32) -> (cells: Vec<(u32, u32)>)
    requires
        square_size * square_size <= usize::MAX,
    ensures
        cells@ == grid(square_size as nat),
{
    let mut cells: Vec<(u32, u32)> = Vec::new();
    let mut x: u32 = 0;
    while x < square_size
        invariant
            x <= square_size,
            cells@ == grid(square_size as nat).take(x * square_size),
        decreases square_size - x,
    {
        let mut y: u32 = 0;
        while y < square_size
            invariant
                x < square_size,
                y <= square_size,
                cells@ == grid(square_size as nat).take(x * square_size + y),
            decreases square_size - y,
        {
            proof {
                let n = square_size as int;
                let i = x * n + y;
                assert(i / n == x && i % n == y) by (nonlinear_arith)
                    requires
                        i == x * n + y,
                        0 <= y < n,
                        0 <= x,
                ;
                assert(i < n * n) by (nonlinear_arith)
                    requires
                        i == x * n + y,
                        0 <= y < n,
                        0 <= x < n,
                ;
                assert(grid(n as nat).take(i + 1) =~= grid(n as nat).take(i).push((x, y)));
            }
            cells.push((x, y));
            y = y + 1;
        }
        proof {
            assert((x + 1) * square_size == x * square_size + square_size) by (nonlinear_arith);
        }
        x = x + 1;
    }
    proof {
        let whole = grid(square_size as nat);
        assert(whole.take(whole.len() as int) =~= whole);
        assert(square_size * square_size == whole.len());
    }
    cells
}

impl<M, T> App<M, T> {
    /// A viewer around `camera`: no key is down, the pointer has not
    /// moved, the scene holds no instance, and the first frame is frame 0.
    pub fn new(camera: Camera) -> (app: Self)
        ensures
            app.input.held() == Set::<Key>::empty(),
            app.input.just_released() == Set::<Key>::empty(),
            app.input.pointer_delta() == (0int, 0int),
            app.scene.camera == camera,
            app.scene.model_instances@ == Seq::<ModelInstance<M, T>>::empty(),
            app.frame_state@ == 0,
    {
        App { input: Input::new(), scene: Scene::new(camera), frame_state: FrameState::new() }
    }

    /// What a redraw of a window of `width` by `height` pixels makes of the
    /// viewer `self`: the viewer `after` it, and the `action` to perform.
    ///
    /// Where the window has no area, the frame is skipped, whatever the
    /// camera's mode: `step` is absent, the scene with its camera is left
    /// alone, and the pointer's motion stays on record for a later frame.
    /// Where it has area, a camera in orbit mode refuses, and nothing
    /// changes; a free-flight camera consumes the pointer's motion, turns by
    /// it, and plans its steps from the keys that are down, and the
    /// instances turn to the angle of the current frame.
    ///
    /// After a frame, skipped or not, the frame count has moved on and the
    /// record of released keys is empty. `exit` is set where Escape is down.
    pub open spec fn redrawn(
        self,
        width: u32,
        height: u32,
        after: Self,
        action: Result<AppAction, CameraError>,
    ) -> bool {
        if has_area(width, height) && self.scene.camera.view_mode == ViewMode::Orbit {
            &&& action == Err::<AppAction, CameraError>(CameraError::NotImplemented)
            &&& after == self
        } else {
            &&& action matches Ok(AppAction::Frame { exit, step })
            &&& exit == self.input.held().contains(Key::Escape)
            &&& after.frame_state@ == FrameState::successor(self.frame_state@)
            &&& after.input.held() == self.input.held()
            &&& after.input.just_released() == Set::<Key>::empty()
            &&& after.scene.model_instances == self.scene.model_instances
            &&& after.scene.camera.view_mode == self.scene.camera.view_mode
            &&& after.scene.camera.aspect_ratio == self.scene.camera.aspect_ratio
            &&& if has_area(width, height) {
                &&& step matches Some(frame)
                &&& frame.orientation == after.scene.camera.orientation
                &&& frame.moves@ == movement_plan(self.input.held())
                &&& frame.spin_degrees == FrameState::spin(self.frame_state@)
                &&& after.scene.camera.orientation@ == turn(
                    self.scene.camera.orientation@,
                    self.input.pointer_delta().0,
                    self.input.pointer_delta().1,
                )
                &&& after.input.pointer_delta() == (0int, 0int)
            } else {
                &&& step is None
                &&& after.scene.camera.orientation == self.scene.camera.orientation
                &&& after.input.pointer_delta() == self.input.pointer_delta()
            }
        }
    }

    /// A window without area gets no frame: whatever the camera's mode,
    /// whichever keys are down and however far the pointer has moved, the
    /// redraw succeeds with an absent `step`; the scene, with the camera's
    /// angles, is afterwards what it was before; and the pointer's motion
    /// is still on record.
    pub proof fn redraw_without_area_is_skipped(
        self,
        width: u32,
        height: u32,
        after: Self,
        action: Result<AppAction, CameraError>,
    )
        requires
            width == 0 || height == 0,
            self.redrawn(width, height, after, action),
        ensures
            action matches Ok(AppAction::Frame { step, .. }) && step is None,
            after.scene.camera == self.scene.camera,
            after.scene.model_instances == self.scene.model_instances,
            after.input.pointer_delta() == self.input.pointer_delta(),
    {
    }

    /// Handles one event of the window system.
    ///
    /// * A close request asks to leave, and an idle event loop asks for a
    ///   redraw; neither changes anything.
    /// * A key event and a pointer motion are recorded in `input`.
    /// * A resize gives the camera the window's aspect ratio, unless the
    ///   window has no area; then the camera keeps the ratio it had.
    /// * A redraw plans a frame, or skips it where the window has no area:
    ///   see [`App::redrawn`].
    ///
    /// No event changes the instances or the camera's mode.
    pub fn handle_event(&mut self, event: AppEvent) -> (action: Result<AppAction, CameraError>)
        ensures
            final(self).scene.model_instances == old(self).scene.model_instances,
            final(self).scene.camera.view_mode == old(self).scene.camera.view_mode,
            match event {
                AppEvent::CloseRequested => {
                    &&& action == Ok::<AppAction, CameraError>(AppAction::Exit)
                    &&& *final(self) == *old(self)
                },
                AppEvent::AboutToWait => {
                    &&& action == Ok::<AppAction, CameraError>(AppAction::RequestRedraw)
                    &&& *final(self) == *old(self)
                },
                AppEvent::MouseMotion { dx, dy } => {
                    &&& action == Ok::<AppAction, CameraError>(AppAction::Idle)
                    &&& final(self).scene == old(self).scene
                    &&& final(self).frame_state == old(self).frame_state
                    &&& final(self).input.held() == old(self).input.held()
                    &&& final(self).input.just_released() == old(self).input.just_released()
                    &&& final(self).input.pointer_delta() == (
                        saturating_sum(old(self).input.pointer_delta().0, dx as int),
                        saturating_sum(old(self).input.pointer_delta().1, dy as int),
                    )
                },
                AppEvent::KeyboardInput { key, state } => {
                    &&& action == Ok::<AppAction, CameraError>(AppAction::Idle)
                    &&& final(self).scene == old(self).scene
                    &&& final(self).frame_state == old(self).frame_state
                    &&& final(self).input.pointer_delta() == old(self).input.pointer_delta()
                    &&& final(self).input.held() == if state == KeyState::Pressed {
                        old(self).input.held().insert(key)
                    } else {
                        old(self).input.held().remove(key)
                    }
                    &&& final(self).input.just_released() == if state == KeyState::Pressed {
                        old(self).input.just_released()
                    } else {
                        old(self).input.just_released().insert(key)
                    }
                },
                AppEvent::Resized { width, height } => {
                    &&& action matches Ok(AppAction::Resize { width: w, height: h, aspect })
                    &&& w == width
                    &&& h == height
                    &&& final(self).input == old(self).input
                    &&& final(self).frame_state == old(self).frame_state
                    &&& final(self).scene.camera.orientation == old(self).scene.camera.orientation
                    &&& if has_area(width, height) {
                        &&& aspect matches Some(ratio)
                        &&& ratio@ == (width as nat, height as nat)
                        &&& final(self).scene.camera.aspect_ratio == ratio
                    } else {
                        &&& aspect is None
                        &&& final(self).scene == old(self).scene
                    }
                },
                AppEvent::RedrawRequested { width, height } => old(self).redrawn(
                    width,
                    height,
                    *final(self),
                    action,
                ),
            },
    {
        match event {
            AppEvent::CloseRequested => Ok(AppAction::Exit),
            AppEvent::AboutToWait => Ok(AppAction::RequestRedraw),
            AppEvent::KeyboardInput { key, state } => {
                self.input.process_key_event(key, state);
                Ok(AppAction::Idle)
            },
            AppEvent::MouseMotion { dx, dy } => {
                self.input.process_pointer_motion(dx, dy);
                Ok(AppAction::Idle)
            },
            AppEvent::Resized { width, height } => {
                let aspect = AspectRatio::new(width, height);
                match aspect {
                    Some(ratio) => {
                        self.scene.camera.set_aspect_ratio(ratio);
                    },
                    None => {},
                }
                Ok(AppAction::Resize { width, height, aspect })
            },
            AppEvent::RedrawRequested { width, height } => self.redraw(width, height),
        }
    }

    fn redraw(&mut self, width: u32, height: u32) -> (action: Result<AppAction, CameraError>)
        ensures
            old(self).redrawn(width, height, *final(self), action),
    {
        let exit = self.input.key_down(Key::Escape);
        let step = if width == 0 || height == 0 {
            None
        } else {
            match self.scene.camera.update(&mut self.input) {
                Ok(moves) => Some(
                    FrameStep {
                        orientation: self.scene.camera.orientation,
                        moves,
                        spin_degrees: self.frame_state.spin_degrees(),
                    },
                ),
                Err(error) => {
                    return Err(error);
                },
            }
        };
        self.frame_state.advance();
        self.input.reset_just_released();
        Ok(AppAction::Frame { exit, step })
    }
}

} // verus!
