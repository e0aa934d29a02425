//! The engine of a small sphere ray tracer: the scene model, color conversion, the
//! reflection depth cap, the framebuffer and the stripe-partitioned render scheduler.

pub mod color;
pub mod framebuffer;
pub mod reflection;
pub mod render;
pub mod scene;
