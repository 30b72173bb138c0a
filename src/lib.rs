//! The frame interchange of a VR media player: a video decoder writes frames
//! into an image that one graphics API allocated and another imports, and a
//! renderer samples it into the headset's eye images.
//!
//! The modules hold the decisions of that pipeline as verified state
//! machines over plain values and driver handles; the driver calls that
//! carry them out belong to the program around the library.

pub mod action;
pub mod bits;
pub mod button;
pub mod clock;
pub mod cmd_pool;
pub mod config;
pub mod enums;
pub mod events;
pub mod extensions;
pub mod eyes;
pub mod file_key;
pub mod gl_texture;
pub mod hex;
pub mod input;
pub mod redraw;
pub mod shared_texture;
pub mod tracks;
pub mod video_files;
