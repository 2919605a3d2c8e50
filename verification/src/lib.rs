//! Input handling for an interactive 3D client: the latch of keys and mouse
//! buttons that steers the camera, and the dispatch of a submitted line of
//! text into a command reply or a chat message.

pub mod event;
pub mod camera;
pub mod command;
