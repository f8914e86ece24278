//! The record produced for every observed packet.
use vstd::prelude::*;

verus! {

/// One decoded packet observation. Events are never changed once built.
pub struct NetworkEvent {
    /// Capture time, in nanoseconds since the Unix epoch (UTC).
    pub timestamp: i64,
    pub source_ip: String,
    pub dest_ip: String,
    pub protocol: String,
    pub summary: String,
}

/// The mathematical value of a [`NetworkEvent`].
pub struct EventView {
    pub timestamp: i64,
    pub source_ip: Seq<char>,
    pub dest_ip: Seq<char>,
    pub protocol: Seq<char>,
    pub summary: Seq<char>,
}

impl View for NetworkEvent {
    type V = EventView;

    open spec fn view(&self) -> EventView {
        EventView {
            timestamp: self.timestamp,
            source_ip: self.source_ip@,
            dest_ip: self.dest_ip@,
            protocol: self.protocol@,
            summary: self.summary@,
        }
    }
}

impl EventView {
    /// A well-formed event always carries a summary.
    pub open spec fn wf(self) -> bool {
        self.summary.len() > 0
    }
}

} // verus!
