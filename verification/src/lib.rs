//! Data shapes and start-up values of a remote-inspection fixture, together
//! with the anchoring rule of an in-place oscillation.
//!
//! The shapes are inert aggregates: an engine attaches them to one entity so
//! that a remote client can enumerate and edit them. What each of them holds
//! at start-up is stated here as a contract over mathematical views.

pub mod animation;
pub mod fixture;
pub mod shapes;
pub mod tables;
