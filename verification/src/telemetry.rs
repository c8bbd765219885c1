//! Telemetry events kept until they are written out, and only when telemetry is on.
use vstd::prelude::*;

verus! {

/// A telemetry event: its kind, its time (seconds since the Unix epoch) and its payload as JSON.
#[derive(Debug, Clone)]
pub struct TelemetryEvent {
    pub event_type: String,
    pub timestamp: i64,
    pub payload: String,
}

/// The events waiting to be written, and whether telemetry is on.
pub struct TelemetrySink {
    enabled: bool,
    buffer: Vec<TelemetryEvent>,
}

impl TelemetrySink {
    pub closed spec fn is_enabled(&self) -> bool {
        self.enabled
    }

    /// The events waiting to be written.
    pub closed spec fn pending(&self) -> Seq<TelemetryEvent> {
        self.buffer@
    }

    /// A sink holding nothing.
    pub fn new(enabled: bool) -> (s: TelemetrySink)
        ensures
            s.is_enabled() == enabled,
            s.pending().len() == 0,
    {
        TelemetrySink { enabled, buffer: Vec::new() }
    }

    /// Keeps an event when telemetry is on; drops it otherwise.
    pub fn emit(&mut self, event: TelemetryEvent)
        ensures
            final(self).is_enabled() == old(self).is_enabled(),
            final(self).pending() == if old(self).is_enabled() { old(self).pending().push(event) } else { old(self).pending() },
    {
        if !self.enabled {
            return;
        }
        self.buffer.push(event);
    }

    /// Takes the events to write: all that wait, when telemetry is on; none otherwise.
    pub fn take_pending(&mut self) -> (r: Vec<TelemetryEvent>)
        ensures
            final(self).is_enabled() == old(self).is_enabled(),
            r@ == if old(self).is_enabled() { old(self).pending() } else { Seq::empty() },
            final(self).pending().len() == 0 || !old(self).is_enabled(),
            !old(self).is_enabled() ==> final(self).pending() == old(self).pending(),
    {
        if !self.enabled || self.buffer.len() == 0 {
            let r: Vec<TelemetryEvent> = Vec::new();
            assert(r@ =~= if old(self).is_enabled() { old(self).pending() } else { Seq::empty() });
            return r;
        }
        let mut r: Vec<TelemetryEvent> = Vec::new();
        core::mem::swap(&mut r, &mut self.buffer);
        r
    }
}

} // verus!
