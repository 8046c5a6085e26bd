//! A verified model of a small collection of UI widget demos.
//!
//! Each demo consists of a static scene description (a list of widget
//! nodes with layout and style data) and the per-frame decision logic
//! that reacts to pointer interaction: hover/press colour transitions,
//! a counter, a confirm/cancel selection, input focus, and submit
//! handling. The scene builders and the decision functions are verified;
//! a host shell renders the scenes and feeds interaction events in.

pub mod button_example;
pub mod color;
pub mod confirmation_example;
pub mod cosmic_input_text;
pub mod counter;
pub mod hierarchy_layout;
pub mod interaction;
pub mod layout;
pub mod root_container;
pub mod scene;
pub mod simple_text_input;