//! A small terminal text editor: key decoding, a line buffer edited by code
//! point, a paging viewport and the draw operations of one frame.

pub mod utils;
pub mod keys;
pub mod decoder;
pub mod tty;
pub mod editor;
pub mod viewport;
pub mod screen;
