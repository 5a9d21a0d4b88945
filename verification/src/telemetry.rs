use vstd::prelude::*;

use crate::text::bool_chars;
use crate::text::bool_str;

verus! {

/// The menu-bar rendering of a snapshot:
/// `CTS: <b> CD: <b> RI: <b> DSR: <b>`.
pub open spec fn telemetry_chars(t: SerialTelemetry) -> Seq<char> {
    seq!['C', 'T', 'S', ':', ' '] + bool_chars(t.cts) + seq![' ', 'C', 'D', ':', ' ']
        + bool_chars(t.cd) + seq![' ', 'R', 'I', ':', ' '] + bool_chars(t.ri)
        + seq![' ', 'D', 'S', 'R', ':', ' '] + bool_chars(t.dsr)
}

/// Point-in-time snapshot of the four modem control lines of the serial
/// device. A snapshot is replaced wholesale on every sample, never
/// partially mutated.
#[derive(Debug, Copy, Clone, PartialEq, Eq, Structural)]
pub struct SerialTelemetry {
    /// Clear to send
    pub cts: bool,
    /// Carrier detect
    pub cd: bool,
    /// Ring indicator
    pub ri: bool,
    /// Data set ready
    pub dsr: bool,
}

impl Default for SerialTelemetry {
    /// The default snapshot reports every line as low.
    fn default() -> (r: Self)
        ensures
            r == SerialTelemetry::all_low(),
    {
        SerialTelemetry { cts: false, cd: false, ri: false, dsr: false }
    }
}

impl SerialTelemetry {
    /// The snapshot with every line low: what a device that answers no
    /// line query at all is reported as.
    pub open spec fn all_low() -> SerialTelemetry {
        SerialTelemetry { cts: false, cd: false, ri: false, dsr: false }
    }

    /// Build a snapshot from the four independent line reads. A read
    /// that failed is handed in as `None` and defaults to `false`:
    /// sampling is total, a snapshot is produced for every combination
    /// of outcomes.
    pub fn read_serial_telemetry(
        cts: Option<bool>,
        cd: Option<bool>,
        ri: Option<bool>,
        dsr: Option<bool>,
    ) -> (r: SerialTelemetry)
        ensures
            r.cts == (cts == Some(true)),
            r.cd == (cd == Some(true)),
            r.ri == (ri == Some(true)),
            r.dsr == (dsr == Some(true)),
    {
        SerialTelemetry {
            cts: match cts {
                Some(b) => b,
                None => false,
            },
            cd: match cd {
                Some(b) => b,
                None => false,
            },
            ri: match ri {
                Some(b) => b,
                None => false,
            },
            dsr: match dsr {
                Some(b) => b,
                None => false,
            },
        }
    }

    /// Render the snapshot as the menu bar shows it.
    pub fn telemetry_string(&self) -> (r: String)
        ensures
            r@ == telemetry_chars(*self),
    {
        proof {
            reveal_strlit("CTS: ");
            reveal_strlit(" CD: ");
            reveal_strlit(" RI: ");
            reveal_strlit(" DSR: ");
        }
        let mut s = String::new();
        s.append("CTS: ");
        s.append(bool_str(self.cts));
        s.append(" CD: ");
        s.append(bool_str(self.cd));
        s.append(" RI: ");
        s.append(bool_str(self.ri));
        s.append(" DSR: ");
        s.append(bool_str(self.dsr));
        proof {
            assert(s@ =~= telemetry_chars(*self));
        }
        s
    }
}

} // verus!
