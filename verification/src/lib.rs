//! Input routing for the embedded browser and the selection logic of the
//! native platforms panel.
pub mod text_input;
pub mod panel;
