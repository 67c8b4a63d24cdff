//! Library behind a terminal installer for a Debian-derived system.
//!
//! The wizard state machine collects a [`config::Configuration`], the
//! planner turns it into a fixed, ordered sequence of provisioning
//! [`action::Action`]s, and the pipeline runner yields those actions one
//! at a time, stopping for good at the first failure.  All of that logic
//! is verified; performing the actions (spawning commands, fetching
//! files, cloning repositories) is left to the surrounding binary.

pub mod config;
pub mod plan;
pub mod render;
pub mod run;
pub mod action;
pub mod wizard;
