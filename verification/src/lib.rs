//! Verified core of the Luminos screen magnifier.
pub mod capture;
pub mod compositor;
pub mod config;
pub mod error;
pub mod event;
pub mod frame_timings;
pub mod input;
pub mod notifier;
pub mod pipeline;
pub mod platform_env;
pub mod renderer;
pub mod run_loop;
pub mod schema;
pub mod shaders;
pub mod state;
pub mod surface;
pub mod text;
pub mod texture;
pub mod tray;
