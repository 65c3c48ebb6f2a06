//! A verified core for a terminal client of the Last.fm web API: the request
//! addresses it builds, how it reads the JSON answers, the state machine behind
//! its key bindings, the text it shows, and the colour arithmetic of its
//! cover-art renderer.

pub mod app;
pub mod colors;
pub mod commands;
pub mod config;
pub mod cover;
pub mod json;
pub mod laws;
pub mod layout;
pub mod palette;
pub mod text;
pub mod view;
