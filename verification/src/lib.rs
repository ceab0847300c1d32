//! Core of a minimal real-time rendering bootstrap.
//!
//! The library decides; it never touches the graphics driver, the window or
//! the disk itself. Every operation that needs one of those collaborators is
//! a resumable computation: it hands out a [`driver::Request`], is resumed
//! with the collaborator's [`driver::Reply`], and finally yields its result.
//! The caller owns the loop that performs the requests.

pub mod driver;
pub mod engine;
pub mod renderer;
pub mod time;
