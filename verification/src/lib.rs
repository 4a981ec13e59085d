//! Core of a cellular automaton that lives on the graphics processor.
//!
//! The automaton is Conway's Game of Life on a torus. Its state is kept in
//! two single-channel textures that trade places after every generation; a
//! compute pass derives the next generation and a display pass paints the
//! current one in square blocks of pixels. This crate holds everything about
//! that design that can be reasoned about without a graphics device: the
//! geometry, the cell rule, and the exact stream of commands a host has
//! to issue. The host only carries the commands out.

pub mod binder;
pub mod command;
pub mod device;
pub mod engine;
pub mod grid;
pub mod quad;
pub mod rule;
pub mod shader;
pub mod size;
