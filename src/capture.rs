//! One capture session: its phases, and what it does with each frame read.
use crate::classify::{classify, classify_spec, ProtocolTag};
use crate::interface::{resolution, resolve, CaptureError, NetworkInterface};
use crate::stats::{bump, count_of, lists, StatsTable};
use vstd::prelude::*;

verus! {

/// The phases of a capture session.
#[derive(Clone, Copy, Debug, PartialEq, Eq, Structural)]
pub enum Phase {
    /// Created, nothing looked up yet.
    Idle,
    /// The interface was found; the capture channel is being opened.
    Resolving,
    /// Frames are being read and counted.
    Capturing,
    /// Stop was observed; the channel is to be released and the table reported.
    Stopping,
    /// The final table was handed out.
    Reported,
    /// The interface was not found or the channel could not be opened.
    Failed,
}

/// What moves a session from one phase to the next.
#[derive(Clone, Copy, Debug, PartialEq, Eq, Structural)]
pub enum SessionEvent {
    InterfaceFound,
    InterfaceMissing,
    ChannelOpened,
    ChannelOpenFailed,
    StopObserved,
    ReportTaken,
}

/// Whether the capture loop goes on reading.
#[derive(Clone, Copy, Debug, PartialEq, Eq, Structural)]
pub enum LoopControl {
    Continue,
    Stop,
}

/// The phase that follows `phase` on `event`; an event that does not apply
/// to a phase leaves it as it is.
pub open spec fn phase_after(phase: Phase, event: SessionEvent) -> Phase {
    match (phase, event) {
        (Phase::Idle, SessionEvent::InterfaceFound) => Phase::Resolving,
        (Phase::Idle, SessionEvent::InterfaceMissing) => Phase::Failed,
        (Phase::Resolving, SessionEvent::ChannelOpened) => Phase::Capturing,
        (Phase::Resolving, SessionEvent::ChannelOpenFailed) => Phase::Failed,
        (Phase::Capturing, SessionEvent::StopObserved) => Phase::Stopping,
        (Phase::Stopping, SessionEvent::ReportTaken) => Phase::Reported,
        _ => phase,
    }
}

/// The phase reached from `phase` through `events`, in order.
pub open spec fn phase_after_all(phase: Phase, events: Seq<SessionEvent>) -> Phase
    decreases events.len(),
{
    if events.len() == 0 {
        phase
    } else {
        phase_after(phase_after_all(phase, events.drop_last()), events.last())
    }
}

/// The event that a lookup's outcome is.
pub open spec fn lookup_event(r: Result<NetworkInterface, CaptureError>) -> SessionEvent {
    if r is Ok {
        SessionEvent::InterfaceFound
    } else {
        SessionEvent::InterfaceMissing
    }
}

/// The table after one read frame: its tag counted, unless that count is
/// already at the largest `usize`.
pub open spec fn after_frame(m: Map<ProtocolTag, nat>, frame: Seq<u8>) -> Map<ProtocolTag, nat> {
    if count_of(m, classify_spec(frame)) < usize::MAX {
        bump(m, classify_spec(frame))
    } else {
        m
    }
}

/// The process exit status of a session that has ended: 0 once the table was
/// reported, 1 when it failed; none while it runs.
pub open spec fn exit_status_of(phase: Phase) -> Option<i32> {
    match phase {
        Phase::Reported => Some(0i32),
        Phase::Failed => Some(1i32),
        _ => None,
    }
}

/// A capture session on one named interface, with its counts.
pub struct PacketSniffer {
    /// Name of the interface to capture on.
    pub interface: String,
    /// Counts of the frames read so far, by tag.
    pub stats: StatsTable,
    /// Where the session stands.
    pub phase: Phase,
}

impl PacketSniffer {
    /// The table is well formed.
    pub open spec fn wf(&self) -> bool {
        self.stats.wf()
    }

    /// A new idle session on `interface`, with an empty table.
    pub fn new(interface: &str) -> (r: Self)
        ensures
            r.wf(),
            r.interface@ == interface@,
            r.stats@ == Map::<ProtocolTag, nat>::empty(),
            r.phase == Phase::Idle,
    {
        PacketSniffer { interface: interface.to_string(), stats: StatsTable::new(), phase: Phase::Idle }
    }

    /// Looks the session's interface up in `available`. An idle session moves
    /// on to opening the channel when it is found, and fails when it is not.
    pub fn begin(&mut self, available: &Vec<NetworkInterface>) -> (r: Result<
        NetworkInterface,
        CaptureError,
    >)
        ensures
            r == resolution(old(self).interface@, available@),
            r is Err ==> r == Err::<NetworkInterface, CaptureError>(CaptureError::InterfaceNotFound),
            final(self).phase == phase_after(old(self).phase, lookup_event(r)),
            final(self).interface == old(self).interface,
            final(self).stats == old(self).stats,
    {
        let r = resolve(self.interface.as_str(), available);
        if self.phase == Phase::Idle {
            self.phase = if r.is_ok() {
                Phase::Resolving
            } else {
                Phase::Failed
            };
        }
        r
    }

    /// Takes the outcome of opening the capture channel.
    pub fn channel_opened(&mut self, opened: bool)
        ensures
            final(self).phase == phase_after(
                old(self).phase,
                if opened {
                    SessionEvent::ChannelOpened
                } else {
                    SessionEvent::ChannelOpenFailed
                },
            ),
            final(self).interface == old(self).interface,
            final(self).stats == old(self).stats,
    {
        if self.phase == Phase::Resolving {
            self.phase = if opened {
                Phase::Capturing
            } else {
                Phase::Failed
            };
        }
    }

    /// Classifies one frame and counts its tag.
    pub fn process_packet(&mut self, frame: &[u8])
        requires
            old(self).wf(),
            count_of(old(self).stats@, classify_spec(frame@)) < usize::MAX,
        ensures
            final(self).wf(),
            final(self).stats@ == bump(old(self).stats@, classify_spec(frame@)),
            final(self).phase == old(self).phase,
            final(self).interface == old(self).interface,
    {
        let tag = classify(frame);
        self.stats.record(tag);
    }

    /// One turn of the capture loop, after a read returned: `stop_requested`
    /// is the shutdown signal as seen now, `frame` the frame read, or `None`
    /// when the read failed. Once stop is seen nothing more is counted; a
    /// failed read counts nothing and the loop goes on.
    pub fn on_pull(&mut self, stop_requested: bool, frame: Option<&[u8]>) -> (r: LoopControl)
        requires
            old(self).wf(),
        ensures
            final(self).wf(),
            final(self).interface == old(self).interface,
            old(self).phase != Phase::Capturing ==> final(self).stats == old(self).stats
                && final(self).phase == old(self).phase && r == LoopControl::Stop,
            old(self).phase == Phase::Capturing && stop_requested ==> final(self).stats
                == old(self).stats && final(self).phase == Phase::Stopping && r
                == LoopControl::Stop,
            old(self).phase == Phase::Capturing && !stop_requested && frame is None
                ==> final(self).stats == old(self).stats && final(self).phase == Phase::Capturing
                && r == LoopControl::Continue,
            old(self).phase == Phase::Capturing && !stop_requested && frame is Some
                ==> final(self).stats@ == after_frame(old(self).stats@, frame->0@)
                && final(self).phase == Phase::Capturing && r == LoopControl::Continue,
    {
        if self.phase != Phase::Capturing {
            return LoopControl::Stop;
        }
        if stop_requested {
            self.phase = Phase::Stopping;
            return LoopControl::Stop;
        }
        match frame {
            Some(bytes) => {
                let tag = classify(bytes);
                if self.stats.count(tag) < usize::MAX {
                    self.stats.record(tag);
                }
                LoopControl::Continue
            },
            None => LoopControl::Continue,
        }
    }

    /// Hands out the final table once: a stopping session reports its entries
    /// and is done; in any other phase nothing is reported.
    pub fn report(&mut self) -> (r: Option<Vec<(ProtocolTag, usize)>>)
        requires
            old(self).wf(),
        ensures
            final(self).wf(),
            final(self).stats == old(self).stats,
            final(self).interface == old(self).interface,
            final(self).phase == phase_after(old(self).phase, SessionEvent::ReportTaken),
            r is Some <==> old(self).phase == Phase::Stopping,
            r is Some ==> lists(r->0@, old(self).stats@),
    {
        if self.phase == Phase::Stopping {
            self.phase = Phase::Reported;
            Some(self.stats.snapshot())
        } else {
            None
        }
    }

    /// The exit status of an ended session.
    pub fn exit_status(&self) -> (r: Option<i32>)
        ensures
            r == exit_status_of(self.phase),
    {
        match self.phase {
            Phase::Reported => Some(0),
            Phase::Failed => Some(1),
            _ => None,
        }
    }
}

/// A failed session stays failed, whatever happens after.
pub proof fn lemma_failed_is_final(events: Seq<SessionEvent>)
    ensures
        phase_after_all(Phase::Failed, events) == Phase::Failed,
    decreases events.len(),
{
    if events.len() > 0 {
        lemma_failed_is_final(events.drop_last());
    }
}

/// Once stop is observed the session never captures again: whatever happens
/// after, it is stopping or has reported.
pub proof fn lemma_stop_is_final(events: Seq<SessionEvent>)
    ensures
        phase_after_all(Phase::Stopping, events) == Phase::Stopping || phase_after_all(
            Phase::Stopping,
            events,
        ) == Phase::Reported,
    decreases events.len(),
{
    if events.len() > 0 {
        lemma_stop_is_final(events.drop_last());
    }
}

/// Asking for a name that no listed interface has yields `InterfaceNotFound`;
/// the session then fails with exit status 1 and never reaches the phase in
/// which the channel is opened or frames are read, whatever happens after.
pub proof fn lemma_missing_interface_never_captures(
    requested: Seq<char>,
    available: Seq<NetworkInterface>,
    later: Seq<SessionEvent>,
)
    requires
        forall|i: int| 0 <= i < available.len() ==> #[trigger] available[i].name@ != requested,
    ensures
        resolution(requested, available) == Err::<NetworkInterface, CaptureError>(
            CaptureError::InterfaceNotFound,
        ),
        phase_after(Phase::Idle, lookup_event(resolution(requested, available))) == Phase::Failed,
        phase_after_all(Phase::Failed, later) == Phase::Failed,
        exit_status_of(Phase::Failed) == Some(1i32),
{
    crate::interface::lemma_resolution_fails_iff_missing(requested, available);
    lemma_failed_is_final(later);
}

} // verus!
