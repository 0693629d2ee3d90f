//! Arcade-style top-down racing simulation core.
//!
//! All world quantities (positions, axes, boost, camera heights, time
//! steps) are fixed-point numbers with four decimal digits, so every
//! state transition of the simulation is exact integer arithmetic: the
//! controller's edge-driven axis, the cars' kinematics, the scene's
//! collision corrections and the camera that follows the roster.
pub mod camera;
pub mod car;
pub mod controller;
pub mod framebuffer;
pub mod framelimiter;
pub mod fx;
pub mod options;
pub mod scene;
pub mod settings;
pub mod sim;
pub mod trig;
pub mod vec;

pub use fx::Fx;
pub use vec::Vec2;
pub use vec::Vec3;
