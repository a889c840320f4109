//! The rules of a small real-time terminal loop: how raw key presses move a
//! glyph through a world that follows the terminal's size, what one frame
//! draws, and in which order the raw terminal session is entered and left.
//!
//! Nothing here touches a terminal. The caller reads keys, asks the terminal
//! for its size and performs the operations that the library hands back.

pub mod input;
pub mod render_loop;
pub mod session;
pub mod surface;
pub mod world;
