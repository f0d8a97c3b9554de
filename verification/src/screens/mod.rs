//! The screens of the interface and what a confirmed choice does on each.

pub mod auth;
pub mod downloads;
pub mod home;
pub mod input;
pub mod render;
pub mod request;
pub mod response;
pub mod screen;
