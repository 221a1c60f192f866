//! Data types of the Destiny 2 API: the enumerations that its responses use,
//! each with the number that stands for it on the wire and the name it is
//! parsed from, and the plain records built from them.

pub mod activities;
pub mod destiny;
pub mod error;
pub mod flags;
pub mod items;
pub mod presentation;
pub mod profile;
pub mod progression;
pub mod sockets;
pub mod stats;
pub mod text;
pub mod vendors;
