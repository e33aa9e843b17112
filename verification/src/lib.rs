//! Render-state orchestration for a real-time scene renderer.
//!
//! The crate decides what a renderer creates on the GPU, how its buffers
//! are laid out byte for byte, what is rebuilt when the window changes
//! size and which commands a frame records, all on plain values. A thin
//! shell turns the descriptions into device calls and does the
//! floating-point arithmetic.
//!
//! - [`gpu`] is the vocabulary of the descriptions, [`bytes`] the byte
//!   images of what is uploaded.
//! - [`vertex`], [`texture`], [`pipeline`] and [`pass`] describe vertex
//!   layouts, textures, pipelines and recorded render passes.
//! - [`model`] loads meshes and materials and draws them; [`instance`],
//!   [`light`] and [`uniform`] hold the instance table and the per-frame
//!   constants.
//! - [`depth_pass`] owns the depth buffer, [`state`] the whole render
//!   state, and [`frame`] the course of a frame.
//! - [`file_reader`] receives files fetched in a browser.

pub mod bytes;
pub mod depth_pass;
pub mod file_reader;
pub mod frame;
pub mod gpu;
pub mod instance;
pub mod light;
pub mod model;
pub mod pass;
pub mod pipeline;
pub mod state;
pub mod texture;
pub mod uniform;
pub mod vertex;
