//! Verified core of a desktop-icon animation: icon layout slots, release
//! orders, animation mode switching and the decisions taken around the
//! Windows Shell calls.

pub mod animation;
pub mod control;
pub mod desktop;
pub mod error;
pub mod geometry;
pub mod guid;
pub mod layout;
pub mod shell;
pub mod shuffle;
