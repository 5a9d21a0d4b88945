use vstd::prelude::*;

use crate::events::DisplayUpdateEvent;
use crate::keys::KeyEvent;

verus! {

/// What one bounded read on the serial device came to, as the reader
/// worker sees it: data (possibly none), a timeout, or a failure that
/// is not a timeout.
#[derive(Debug)]
pub enum ReadOutcome {
    Data(Vec<u8>),
    TimedOut,
    Failed,
}

/// What the reader worker does next. `Publish` and `SampleOnly` are
/// the non-fatal outcomes, after which the worker samples telemetry,
/// publishes the snapshot and sleeps briefly so the writer can take
/// the device lock; `Stop` ends the worker.
#[derive(Debug)]
pub enum ReaderAction {
    /// Publish these received bytes, then sample telemetry.
    Publish(Vec<u8>),
    /// Nothing received; sample telemetry only.
    SampleOnly,
    /// Unrecoverable device failure: report and stop the worker.
    Stop,
}

/// Decide one reader-worker iteration: data is published only when at
/// least one byte arrived, a timeout is absorbed silently, and any
/// other failure stops the worker.
pub fn reader_step(outcome: ReadOutcome) -> (act: ReaderAction)
    ensures
        (match outcome {
            ReadOutcome::Data(d) => if d@.len() > 0 {
                act matches ReaderAction::Publish(p) && p@ == d@
            } else {
                act is SampleOnly
            },
            ReadOutcome::TimedOut => act is SampleOnly,
            ReadOutcome::Failed => act is Stop,
        }),
{
    match outcome {
        ReadOutcome::Data(d) => {
            if d.len() > 0 {
                ReaderAction::Publish(d)
            } else {
                ReaderAction::SampleOnly
            }
        },
        ReadOutcome::TimedOut => ReaderAction::SampleOnly,
        ReadOutcome::Failed => ReaderAction::Stop,
    }
}

/// Decide whether the writer worker puts a queued payload on the wire:
/// exactly the non-empty payloads are transmitted. An empty payload is
/// legal and is a no-op, not an error.
pub fn should_transmit(payload: &Vec<u8>) -> (r: bool)
    ensures
        r == (payload@.len() > 0),
{
    payload.len() > 0
}

/// What one poll of the terminal input source produced, as the input
/// worker sees it.
#[derive(Debug)]
pub enum PolledEvent {
    /// A key press
    Key(KeyEvent),
    /// A mouse event; the loop has no use for it
    Mouse,
    /// The terminal was resized to (columns, rows)
    Resize(u16, u16),
    /// Some other input event the loop has no use for
    OtherInput,
    /// The poll timed out with nothing ready
    NothingReady,
}

/// Classify one poll into the event the input worker forwards: every
/// poll forwards exactly one event, so the display loop repaints at
/// least once per tick interval.
pub fn classify_terminal_event(polled: PolledEvent) -> (e: DisplayUpdateEvent)
    ensures
        (match polled {
            PolledEvent::Key(k) => e == DisplayUpdateEvent::KeyInput(k),
            PolledEvent::Mouse => e is Ping,
            PolledEvent::Resize(cols, rows) => e == DisplayUpdateEvent::TerminalResize(
                cols,
                rows,
            ),
            PolledEvent::OtherInput => e is Ping,
            PolledEvent::NothingReady => e is Tick,
        }),
{
    match polled {
        PolledEvent::Key(k) => DisplayUpdateEvent::KeyInput(k),
        PolledEvent::Mouse => DisplayUpdateEvent::Ping,
        PolledEvent::Resize(cols, rows) => DisplayUpdateEvent::TerminalResize(cols, rows),
        PolledEvent::OtherInput => DisplayUpdateEvent::Ping,
        PolledEvent::NothingReady => DisplayUpdateEvent::Tick,
    }
}

} // verus!
