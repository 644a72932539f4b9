//! The GPU index: its parameters, its rows, its device memory, and the worker
//! that serves it.

pub mod device;
pub mod factory;
pub mod index;
pub mod params;
pub mod worker;
