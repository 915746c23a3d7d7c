//! The decisions of a 4k demo that flies a camera over a generated island:
//! the camera script and its cuts (`timeline`), the mouse-driven free
//! camera (`controls`), the layout of the terrain buffer and of the shader's
//! uniform vectors (`layout`), and the size of the rendered song (`song`).

pub mod controls;
pub mod layout;
pub mod song;
pub mod timeline;
