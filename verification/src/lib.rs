//! Decode core of a remote-desktop client: the decode-context lifecycle, the
//! per-frame decode pipeline, and the packaging of each decoded picture into
//! one binary wire message addressed to a display surface.

pub mod context;
pub mod device_id;
pub mod encoder;
pub mod frame;
pub mod monitor;
pub mod session;
