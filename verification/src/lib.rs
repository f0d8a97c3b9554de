//! Interaction core of a terminal front-end that assembles an HTTP transfer
//! or a file download step by step: the navigation stack over the menu
//! screens, the set of chosen options with its merge policy, and the command
//! record that the chosen options are mirrored into.

pub mod app;
pub mod display;
pub mod request;
pub mod screens;
pub mod text;
pub mod vectors;
pub mod widgets;
