//! The logic of a particle-life simulation: the color palette, the
//! behavior matrix between particle kinds, the initial grid layout of
//! particles, the spatial hash used for neighbor lookups, and the
//! decisions that keyboard controls trigger.
pub mod palette;
pub mod matrix;
pub mod system;
pub mod layout;
pub mod spatial;
pub mod controls;
