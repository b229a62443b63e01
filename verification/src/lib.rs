//! Verified core of an immediate-mode GUI windowing binding.
//!
//! The crate models one window session of such a binding: it translates
//! platform window and input events into the GUI layer's event vocabulary,
//! tracks pointer and modifier state, schedules repaints, decides what a
//! renderer backend must do each frame, and keeps the renderer's resource
//! bookkeeping. Geometry is kept exact with rational arithmetic instead of
//! the platform's floating point, so statements like "the logical screen
//! rectangle is exactly the physical size divided by the scale factor" are
//! proved, not approximated.
//!
//! The unverifiable rim — the GUI library's begin/end pass, the GL and GPU
//! painters, the platform window — lives outside; the session reaches the
//! platform clipboard and the system's address opener through the trusted
//! items in `host`.

pub mod events;
pub mod geom;
pub mod host;
pub mod input;
pub mod output;
pub mod rational;
pub mod renderer;
pub mod settings;
pub mod window;

pub use input::Key;
pub use rational::Rat;
pub use renderer::{GraphicsConfig, WgpuConfiguration};
pub use settings::Settings;
pub use window::{Queue, WindowState};
