//! Fixed-layout argument types for USB Power Delivery controller commands.

pub mod bits;
pub mod constants;
pub mod ucsi;
pub mod vdm;
