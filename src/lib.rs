//! Fixed-size vectors and matrices, unit-tagged angles, Euler angles and
//! quaternions, generic over a scalar type, with the conversions between
//! rotation representations and the usual transform builders.
//!
//! Every function is verified against a contract stated over the scalar's
//! spec operations (see `scalar`), and the algebraic laws that relate them
//! are proved in `algebra`, `matrix` and `angle`.

pub mod scalar;
pub mod algebra;
pub mod matrix;
pub mod vector;
pub mod angle;
pub mod axis_angle;
pub mod euler_angles;
pub mod quaternion;
pub mod sandwich;
pub mod types;
pub mod functions;
