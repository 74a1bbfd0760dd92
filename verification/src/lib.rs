//! A lifetime-management bridge between window handles owned by a host
//! windowing subsystem and behavior objects owned by this process.
//!
//! The host hands out opaque window handles and reserves, per window, four
//! 32-bit extra-storage slots for application use.  This library associates
//! one behavior handler with each window by encoding a 128-bit reference
//! value into those slots, and dispatches host notifications (paint,
//! destroy) to the handler recovered from the stored reference.

pub mod codec;
pub mod storage;
pub mod window;
pub mod default_window;
pub mod text;
