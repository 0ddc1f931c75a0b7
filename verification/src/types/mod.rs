//! The values that packets carry.

pub mod mpi;
pub mod params;
pub mod s2k;
