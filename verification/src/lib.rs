//! Verified core of a screen-capture bridge.
//!
//! The library enumerates the attached displays, resolves a requested display
//! identifier, validates a captured raw RGBA frame, and encodes it as PNG
//! bytes.  The operating-system capture primitives and the PNG bit-stream
//! encoder are outside libraries, reached through a small set of trusted
//! declarations; everything around them is verified.

pub mod display;
pub mod encode;
pub mod errors;
pub mod frame;
pub mod pipeline;

pub use display::ScreenInfo;
pub use errors::CaptureError;
pub use frame::RawFrame;
