//! Verified core of the Matrix rain wallpaper renderer: the GLSL header and
//! shader sources, the layout of the audio texture, the split of the spectrum
//! into frequency bands and the per-frame decisions of the renderer.

pub mod audio;
pub mod frame;
pub mod shader;
