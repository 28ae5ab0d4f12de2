//! Stand-ins for the motion library while the interface runs without it.
pub mod motion;
