//! Core of an interactive terminal browser: a fuzzy-filtering list navigator
//! with a scrolling viewport and selection cursor, a bounded navigation
//! history, and a bounded random-retry sampler.

pub mod bytes;
pub mod control;
pub mod history;
pub mod laws;
pub mod item;
pub mod navigator;
pub mod paths;
pub mod sampler;
pub mod score;
pub mod segment;
pub mod sort;
