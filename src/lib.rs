//! A 3D camera over exact integer coordinates.
//!
//! Positions, directions and matrices hold `i64` values, and every operation is
//! computed without rounding. Each function is proved against its mathematical
//! definition over unbounded integers; its `requires` asks only that the exact
//! results (and the intermediate values of the stated evaluation order) fit in
//! an `i64`.
pub mod camera;
pub mod linalg;

pub use camera::{model_view_projection, Camera};
pub use linalg::{Matrix4, Quaternion, Vector3, Vector4};
