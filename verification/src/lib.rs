//! A deterministic rigid-motion algebra built on 3D projective geometric
//! algebra over fixed-point numbers.
//!
//! The crate provides a fixed-point numeric type ([`Number`]), a 3-component
//! vector ([`Vector3`]), a homogeneous point and a motor that represents a
//! rigid motion as an element of the even subalgebra.  Every executable
//! operation carries a contract that pins down its result bit for bit over
//! the fixed-point representation, and the algebraic laws of the motor
//! product are proved separately over its exact integer model.

pub mod laws;
pub mod motor;
pub mod number;
pub mod trig;
pub mod vector3;

pub use motor::Camera;
pub use motor::Point;
pub use motor::Transform;
pub use number::Number;
pub use trig::sin_cos;
pub use vector3::Vector3;
