//! The core of a small real-time renderer, verified with Verus: the frame
//! loop and what it asks of a scene, the pointer state, the camera, the
//! placement of objects, their draw calls, and the debug overlay.
//!
//! The library decides and records; it never touches a window or a device
//! and does no arithmetic on the numbers of the scene.  A driver beside it
//! owns the window, reads the clock, forms the matrices and submits what
//! the library hands out.

pub mod app;
pub mod camera;
pub mod clock;
pub mod context;
pub mod error;
pub mod event;
pub mod graphics;
pub mod mesh;
pub mod mouse;
pub mod overlay;
pub mod scalar;
pub mod texture;
pub mod transform;
