//! Dimension- and scalar-generic geometric algebra: vectors, unit normals,
//! matrices, orthonormal frames, rotors and rigid transforms.
//!
//! Every operation is stated over the abstract arithmetic of the scalar type
//! (see [`traits::Ring`] and [`traits::Field`]), so each contract names the exact
//! expression that is computed, for floats as for exact number types.
pub mod traits;
pub mod homogeneous;
pub mod matrix;
pub mod normal;
pub mod ortho;
pub mod rigid;
pub mod rotor;
pub mod vector;
