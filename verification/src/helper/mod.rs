//! Helpers for building XML elements and collecting written bytes.

pub mod element_builder;
pub mod string_buffer;
