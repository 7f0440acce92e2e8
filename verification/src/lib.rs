//! Build-time transform that turns a user-written entry function into a
//! loadable application image for a fixed handheld-device firmware ABI:
//! it validates the entry function's signature, lays out the fixed-format
//! metadata blocks (application name, API level, icon), and selects the
//! build-mode-appropriate fatal-error handler.

pub mod handler;
pub mod image;
pub mod layout;
pub mod sig;
