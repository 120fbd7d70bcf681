//! Core logic of a desktop application shell: the single-instance guard and
//! the lifecycle of the floating overlay window, stated as verified
//! functions over plain values. The host window system and the operating
//! system's lock primitive are driven by the caller, which reports back what
//! happened.
pub mod config;
pub mod overlay;
pub mod placement;
pub mod single_instance;
pub mod transparency;
pub mod windows;
