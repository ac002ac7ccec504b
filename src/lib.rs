//! Capability and error layer shared by several graph representations.
pub mod error;
pub mod removable;
