//! Relay core for a real-time audio streaming protocol over UDP.
//!
//! The library holds the verified logic of the relay: the binary packet
//! codec for the fixed 28-byte header, the integer half of the automatic
//! gain control (sample decoding, peak search, in-place re-encoding), the
//! ordered registry of forwarding destinations, and the grammar of the
//! interactive control commands. The surrounding process (sockets, the
//! asynchronous loops, floating-point gain arithmetic) lives outside and
//! drives these functions.

pub mod command;
pub mod gain;
pub mod registry;
pub mod vban;

use vstd::prelude::*;

verus! {

/// Number of bytes before the sample body: 4 reserved bytes followed by
/// the 24-byte header.
pub const HEADER_SIZE: usize = 28;

} // verus!
