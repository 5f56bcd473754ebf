//! Verified core of the JavaScript bindings of a ray-cast vehicle controller.
//!
//! The library keeps the parts of the bindings that decide something on plain
//! values: how a handle is packed into the 64 bits that cross the language
//! boundary, how the scene-query filter of a vehicle step is assembled, how an
//! axle code selects an axle, how a torque curve is paired up, and the
//! index-checked access to the wheels of a controller of `rapier3d`.

pub mod handle;
pub mod query_filter;
pub mod controller;
pub mod wheel_role;
pub mod curve;
