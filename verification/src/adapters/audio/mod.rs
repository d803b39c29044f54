//! Audio capture: the devices, the conversion of raw byte runs, the
//! decisions of the capture loop, the state of a session, and what each
//! platform adds.

pub mod capture;
pub mod convert;
pub mod device;
pub mod linux;
pub mod negotiate;
pub mod session;
pub mod windows;

pub use linux::PulseAudioCapture;
pub use windows::WasapiAudioCapture;
