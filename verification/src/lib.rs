//! Window surfaces of a renderer: which windows are known, how their surfaces are configured, and
//! when a frame is acquired for them.
//!
//! The crate decides; its caller owns the window system and the GPU. A frame goes like this:
//!
//! - [`extract::extract_windows`] takes over the state of the windows;
//! - [`surface::need_surface_configuration`] says whether a surface is missing or out of date, and
//!   [`create::create_surfaces`] then begins a pass that mends it;
//! - [`prepare::prepare_windows`] begins a pass that acquires the frames to render to;
//! - [`window::ExtractedWindow::present`] gives a frame up once it is rendered;
//! - [`blit::blit_offscreen_to_window`] begins a pass that copies an offscreen texture to the
//!   windows instead.
//!
//! A pass is a state machine. Each step takes what the outside answered and returns the next
//! command to carry out. Surfaces, textures, handles and layers stay with the caller; here they
//! are numbers.
//!
//! What holds over more than one call is stated in [`laws`].

pub mod blit;
pub mod containers;
pub mod create;
pub mod extract;
pub mod formats;
pub mod laws;
pub mod metal_layer;
pub mod offscreen;
pub mod pending;
pub mod prepare;
pub mod surface;
pub mod window;
