//! Narrow Stacked Expander: layer sequencing, sealing and unsealing of a
//! window, and assembly of the kernel program text for the accelerator.

pub mod types;
pub mod accelerator;
pub mod key_generator;
pub mod seal;
pub mod sources;
