//! A verified core for a two-button USB HID gamepad ("button box").
//!
//! The library owns the wire-format rules of the device: how two boolean
//! button states are packed into the single report byte, how that byte is
//! validated against the advertised report descriptor, and when a freshly
//! sampled report warrants a new transmission to the host.
//!
//! - [`codec`] packs and unpacks the report byte and checks its padding bits.
//! - [`report`] is the in-memory report with typed accessors and (de)serialization.
//! - [`detector`] decides, per polling cycle, whether the report changed.
//! - [`descriptor`] holds the HID report descriptor bytes and the USB identity.
//!
//! Hardware concerns (GPIO sampling, the USB transport, timing) stay outside:
//! callers hand in plain booleans and bytes and carry the serialized report to
//! their transport.

pub mod codec;
pub mod descriptor;
pub mod detector;
pub mod report;
