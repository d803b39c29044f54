//! The engine behind the interfaces of `ports`.

pub mod audio;
pub mod services;
