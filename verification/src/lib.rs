//! Exact two-dimensional vector geometry.
//!
//! A `Point` is a pair of integer coordinates standing for a point in the
//! plane or a displacement. Every operation is exact: the squared magnitude
//! and the component-wise sum and difference are computed precisely, the
//! magnitude and the distance are the floor of the real square root, rotation
//! is by quarter turns (whose rotation matrix has entries 0 and ±1, so the
//! result is again exact), and angles are carried in millidegrees, where the
//! compass ("user angle") convention — 0° = north, 90° = east, increasing
//! clockwise, range [0°, 360°) — is derived from the mathematical ("game
//! angle") convention by the conversion `90° − angle`, normalized by whole
//! turns. Where a value is exact only for some inputs — a vector's own
//! angle, its unit vector, the move toward another point — the operation
//! returns `Some` exactly there (the axes, or the axes and diagonals) and
//! `None` elsewhere, rather than an approximation.

pub mod angle;
pub mod point;
