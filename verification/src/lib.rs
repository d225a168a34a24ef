//! A floating, always-on-top window that hosts an embedded web-content view.
//!
//! The library is the decision core of the window manager: it owns the
//! manager's state (stored address, presented state, disposal flag) and, for
//! each operation, decides which native effects the host must perform. The
//! host performs those effects (window creation, loads, presentation) through
//! its platform adapter and is handed them here as explicit
//! [`manager::NativeCommand`] values, so every decision is verified.

pub mod geometry;
pub mod manager;
