//! Request dispatch for a daemon that controls wireless earbuds.
//!
//! Clients of the daemon send one request over a local socket and get one
//! response. This library is the part that decides: it resolves the device a
//! request is meant for, chooses what is sent to the device, changes the
//! mirrored state of a device only once the device has confirmed the change,
//! and changes the stored preferences of a device.
//!
//! It performs no input or output. Transmissions to a device and saving the
//! preferences are left to the caller, who reports their outcome back; see
//! [`dispatch`] for the steps. What holds of the dispatcher for all requests
//! is stated and proved in [`laws`].

pub mod config;
pub mod device;
pub mod directory;
pub mod dispatch;
pub mod executor;
pub mod frames;
pub mod laws;
pub mod text;
pub mod wire;
