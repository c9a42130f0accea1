//! The render queue and the text cache: what is drawn this frame, and the
//! texts whose shaping is kept from frame to frame.

pub mod font;
pub mod queue;
pub mod types;
