//! A deformable-body solver: extended position-based dynamics (XPBD) with a
//! neo-Hookean material over a tetrahedral mesh, on saturating fixed-point
//! numbers so that every step is total and proved against its specification.
pub mod fixed;
pub mod linalg;
pub mod rest;
pub mod system;
pub mod solver;
pub mod mesh;
pub mod laws;
