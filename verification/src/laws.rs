//! What holds of the renderer's windows over more than one call.

pub mod blitting;
pub mod configuration;
pub mod creation;
pub mod extraction;
pub mod layer_search;
pub mod preparation;
