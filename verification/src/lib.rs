//! Core of a companion log viewer for a running game process.
//!
//! The library covers the two central subsystems of the viewer: the
//! reconnecting framed-packet log ingestion pipeline (wire framing, packet
//! classification, mod detection, channel publishing) and the interactive
//! virtualized log view (substring/level filtering, click-drag range
//! selection, height-cached virtualization, auto-scroll and clipboard
//! export). Window chrome, theming, process control and file export are
//! left to the surrounding application.

pub mod bepinex_log;
pub mod bepinex_mod;
pub mod channel;
pub mod console;
pub mod filter;
pub mod packet_protocol;
pub mod receiver;
pub mod render;
pub mod selection;
pub mod text;

use vstd::prelude::*;

verus! {

/// Milliseconds waited between two connection attempts of the ingestion
/// thread.
pub const DELAY_IN_MS_BETWEEN_CONNECTION_TRY: u64 = 2000;

} // verus!
