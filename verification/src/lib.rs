//! The decision-making core of a small real-time 3D scene viewer.
//!
//! Everything here works on exact state: which keys are down, how far the
//! pointer has moved, which mode the camera is in and where it looks, what
//! the output surface measures in pixels, how many frames have been shown,
//! which instances a scene holds and in what order. Angles are whole
//! numbers of nano-radians. Each public function states in its contract
//! exactly what it returns and what it changes.
//!
//! The renderer that embeds this crate hands every event of the window
//! system to [`app::App::handle_event`] and performs the action that comes
//! back. The vectors and matrices that follow from the camera's angles, and
//! the drawing, are the renderer's.

pub mod app;
pub mod camera;
pub mod input;
pub mod orientation;
pub mod scene;
pub mod uuid;
