//! Backend library for a desktop plotting application.
//!
//! The library produces chart payloads as JSON text: a fixed scatter plot,
//! and a surface plot and a heatmap of a synthetic signal-strength grid
//! (signal strength as a function of time and azimuth angle).
//!
//! Floating-point values are carried as their IEEE 754 bit patterns
//! (`u64`), so that the construction of the axes, the grid and the JSON
//! payloads can be verified exactly.  The primitive floating-point
//! operations are trusted functions: the arithmetic ones are named on
//! the domain where IEEE pins their result down, while `sin` and `cos`,
//! whose precision std leaves unspecified, promise nothing, and the
//! grid contract takes their outputs as they are.

pub mod float_bits;
pub mod generator;
pub mod payload;
