//! An arcball camera.
//!
//! Pointer motion on the screen is turned into rotation, panning and zooming of a
//! 4x4 view transform. The camera is generic over the scalar type, and all scalar
//! and matrix arithmetic is carried out by `cgmath`.

pub mod algebra;
pub mod camera;

pub use camera::ArcballCamera;
pub use camera::CameraError;
