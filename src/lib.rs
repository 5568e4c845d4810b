//! The runtime core of a small real-time 3D engine: scenes made of chunks of
//! drawable objects, a registry of lazily built shaders, a cancellable event
//! bus, and a renderer whose every operation yields the graphics backend calls
//! to make. Each piece is specified and proved with Verus.

pub mod bootstrap;
pub mod bus;
pub mod chunk;
pub mod engine;
pub mod environment;
pub mod events;
pub mod geometry;
pub mod manager;
pub mod object;
pub mod renderer;
pub mod scene;
pub mod shader;
pub mod windowed;
