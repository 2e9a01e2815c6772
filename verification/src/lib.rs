//! A small Wayland client toolkit: window decorations, a persistent pixel screen with a
//! bitmapped font, and the translation of compositor input into user events.

pub mod font;
pub mod pool;
pub mod canvas;
pub mod screen;
pub mod buttons;
pub mod frame;
pub mod redraw;
pub mod pixels;
pub mod events;
pub mod laws;
