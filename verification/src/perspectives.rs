//! Perspectives: the fact base compiled from a perspective's links.

pub mod library;
pub mod sdna;
