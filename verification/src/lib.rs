//! A multi-rate tick engine: three simulation domains — input sampling,
//! physics integration, and render-frame preparation — advance at
//! independent fixed frequencies. Each domain publishes an immutable
//! frame snapshot that the others read, a per-domain admission gate
//! keeps ticks of one domain from ever overlapping, and a sweep of the
//! game loop schedules whatever ticks are due against the clock value
//! it is handed.

pub mod camera;
pub mod context;
pub mod context_state;
pub mod fixed;
pub mod frame_counter;
pub mod game_loop;
pub mod input_context;
pub mod input_event;
pub mod input_frame;
pub mod input_map;
pub mod inverse_kinematics;
pub mod laws;
pub mod physics_context;
pub mod physics_frame;
pub mod queue;
pub mod render_context;
pub mod render_frame;
pub mod scheduler;
