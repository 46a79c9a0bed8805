//! A small demo library: it evaluates a fixed list of arithmetic, boolean
//! and bitwise expressions, renders each result as a labelled text line, and
//! runs a bounded counting loop.  Every line of the output is pinned down by
//! a specification, so the transcript is proved, not just printed.

pub mod demo;
pub mod render;
