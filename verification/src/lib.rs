//! The bookkeeping of a small rendering engine: the registries of models
//! and GUI elements that a renderer draws from, the handles that user code
//! holds to them, and the messages by which cloning and dropping a handle
//! reach the registries once per frame.
//!
//! The crate is verified, but for the calls into outside crates, which
//! stand behind small wrappers that say what is taken on trust. A
//! [`game_state::GameState`] that is in order stays in order, and [`laws`]
//! states what follows from that: after the messages are applied, the
//! registries hold exactly what is alive.
//!
//! Numbers with a fraction are kept by their bits ([`math::Float`]) and
//! what lives on the graphics device by its name ([`gpu`]): the crate
//! stores and hands over both and computes with neither.

pub mod error;
pub mod game_state;
pub mod gpu;
pub mod gui;
pub mod internal;
pub mod laws;
pub mod lifecycle;
pub mod lights;
pub mod math;
pub mod model;
pub mod render;
pub mod time;
