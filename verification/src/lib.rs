//! The measuring logic of an on-screen ruler and protractor: which way the
//! ruler points, what the pointer selects, and what is drawn for a given
//! state. Nothing here touches a window or a drawing surface; the functions
//! take plain values and give plain values back.

pub mod rotation;
pub mod ruler;
pub mod schema;
pub mod actions;
pub mod angle;
pub mod draw;
pub mod events;
pub mod font;
pub mod interval;
pub mod protractor;
pub mod px;
pub mod state;
pub mod text;
