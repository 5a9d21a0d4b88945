use vstd::prelude::*;

use crate::keys::KeyEvent;
use crate::telemetry::SerialTelemetry;

verus! {

/// One message on the display loop's event channel. Produced by the
/// terminal-input worker and the serial-reader worker, consumed only by
/// the display loop.
#[derive(Debug, Clone)]
pub enum DisplayUpdateEvent {
    /// Heartbeat from the input worker when a poll saw an event the
    /// loop has no use for; keeps the channel known-open.
    Ping,
    /// Heartbeat from the input worker when a poll timed out with no
    /// event at all; drives the periodic repaint.
    Tick,
    /// A key press to interpret according to the current mode.
    KeyInput(KeyEvent),
    /// Bytes received from the serial device, passed through verbatim.
    SerialInput(Vec<u8>),
    /// A fresh telemetry snapshot replacing the stored one.
    SerialTelemetry(SerialTelemetry),
    /// The terminal was resized to (columns, rows).
    TerminalResize(u16, u16),
}

} // verus!
