//! Verified core of an OpenGL 3.3 tessellation backend.
//!
//! The library owns the logic of GPU-resident geometry: computing the byte
//! layout that binds a typed vertex description to device memory, selecting
//! the right draw-call variant, and tracking ownership of device handles.
//! Every device call is represented as an explicit [`device::DeviceCommand`]
//! value, so the contracts pin down exactly which calls are issued and in
//! which order; an unverified shell performs them against the real driver.

pub mod binder;
pub mod device;
pub mod tessellation;
pub mod vertex;
