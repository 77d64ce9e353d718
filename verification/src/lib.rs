//! Battery monitoring for game controllers: enumeration records are selected
//! and classified, vendor reports are decoded into a normalized battery state,
//! and low-battery alerts are rate-limited per device.

pub mod api;
pub mod bindings;
pub mod controller;
pub mod settings;
pub mod text;
pub mod ws;
