//! What every event leads to, as mathematics.

use vstd::prelude::*;

use super::types::{
    CommandView, ErrorView, FlushState, FrameView, OriginView, StepView, ACTION_STATUS,
    ACTION_TIMEOUT, FIRST_TIMEOUT, FLUSH_PERIOD, MAX_STREAMS,
};
use crate::config::{stream_names, StreamConfigView};
use crate::package::RecvError;
use crate::text::decimal;

verus! {

/// How far the bridge has come.
pub enum PhaseView {
    /// Not listening.
    Down,
    /// Asked to listen.
    Binding,
    /// A connection is awaited.
    Accepting,
    /// Something is to happen on the connection.
    Collecting,
    /// A point was handed to the stream of this name.
    Filling(Seq<char>),
    /// A flush is being cancelled.
    Cancelling,
    /// An action is being written to the application.
    Writing,
    /// A stream is being flushed.
    Flushing,
    /// Failed for good.
    Stopped,
}

/// The state of a bridge.
pub struct BridgeView {
    pub port: u16,
    pub flush_period: Option<u64>,
    /// Whose data new streams carry.
    pub origin: OriginView,
    /// The configured streams.
    pub configured: Seq<StreamConfigView>,
    /// The action that the application has yet to answer.
    pub current_action: Option<Seq<char>>,
    /// The streams that are open on the connection.
    pub partitions: Set<Seq<char>>,
    /// The streams for which the handle to a flush is kept, and what has become of that.
    pub flush_handles: Map<Seq<char>, FlushState>,
    pub phase: PhaseView,
}

/// The address on which a bridge listens: the port, on all interfaces.
pub open spec fn address(port: u16) -> Seq<char> {
    "0.0.0.0:"@ + decimal(port as nat)
}

impl BridgeView {
    pub open spec fn at(self, phase: PhaseView) -> BridgeView {
        BridgeView { phase, ..self }
    }

    /// Whether the stream can take data: it is open, or there is room to open it.
    pub open spec fn admits(self, stream: Seq<char>) -> bool {
        self.partitions.contains(stream) || self.partitions.len() <= MAX_STREAMS
    }

    /// Whether the handle to a flush of the stream is kept.
    pub open spec fn keeps_handle(self, stream: Seq<char>) -> bool {
        self.flush_handles.contains_key(stream)
    }

    /// Whether a flush of the stream is scheduled.
    pub open spec fn scheduled(self, stream: Seq<char>) -> bool {
        self.keeps_handle(stream) && self.flush_handles[stream] == FlushState::Scheduled
    }

    /// Seconds after which a stream that is not full is flushed.
    pub open spec fn period(self) -> u64 {
        match self.flush_period {
            Some(period) => period,
            None => FLUSH_PERIOD,
        }
    }

    /// The connection is given up.
    pub open spec fn disconnects(self, error: ErrorView) -> (BridgeView, StepView) {
        (self.at(PhaseView::Down), StepView::Disconnect(error))
    }
}

/// The bridge is to listen.
pub open spec fn start_step(s: BridgeView) -> (BridgeView, StepView) {
    (s.at(PhaseView::Binding), StepView::Bind(address(s.port)))
}

/// The bridge listens, or cannot.
pub open spec fn bind_step(s: BridgeView, failure: Option<Seq<char>>) -> (BridgeView, StepView) {
    match failure {
        None => (s.at(PhaseView::Accepting), StepView::Accept),
        Some(text) => (s.at(PhaseView::Stopped), StepView::Stop(ErrorView::Io(text))),
    }
}

/// A connection has come, or failed to.
pub open spec fn accept_step(s: BridgeView, accepted: bool) -> (BridgeView, StepView) {
    if accepted {
        collect_step(s)
    } else {
        (s, StepView::Accept)
    }
}

/// A connection is served, with the configured streams and no others. An action that was left
/// unanswered by an earlier connection still is.
pub open spec fn collect_step(s: BridgeView) -> (BridgeView, StepView) {
    (
        BridgeView {
            partitions: stream_names(s.configured),
            flush_handles: Map::empty(),
            phase: PhaseView::Collecting,
            ..s
        },
        StepView::Collect { streams: s.configured, timeout: FIRST_TIMEOUT },
    )
}

/// An action comes while there is no connection.
pub open spec fn stray_action_step(
    s: BridgeView,
    received: Result<Seq<char>, RecvError>,
) -> (BridgeView, StepView) {
    match received {
        Ok(action_id) => (s, StepView::Respond(action_id, "Bridge down"@)),
        Err(e) => (s.at(PhaseView::Stopped), StepView::Stop(ErrorView::Recv(e))),
    }
}

/// A line comes, or the connection breaks.
pub open spec fn frame_step(s: BridgeView, frame: FrameView) -> (BridgeView, StepView) {
    match frame {
        FrameView::Closed => s.disconnects(ErrorView::StreamDone),
        FrameView::Broken(text) => s.disconnects(ErrorView::Codec(text)),
        FrameView::Malformed(_) => (s, StepView::Wait),
        FrameView::Point(payload) => {
            let stream = payload.stream;
            let answer = stream == ACTION_STATUS@;
            if answer && s.current_action is None {
                // The action has timed out already.
                (s, StepView::Wait)
            } else {
                // The first answer settles the action, whatever becomes of the answer itself.
                let settled = BridgeView {
                    current_action: if answer {
                        None
                    } else {
                        s.current_action
                    },
                    ..s
                };
                if s.admits(stream) {
                    (
                        BridgeView {
                            partitions: s.partitions.insert(stream),
                            phase: PhaseView::Filling(stream),
                            ..settled
                        },
                        StepView::Fill {
                            payload,
                            open: if s.partitions.contains(stream) {
                                None
                            } else {
                                Some(s.origin)
                            },
                        },
                    )
                } else {
                    (settled, StepView::Wait)
                }
            }
        },
    }
}

/// A stream has taken a point, and was flushed for that or not; `None` is a failure to. Without a
/// handle, a stream that was not flushed gets a flush scheduled; what is scheduled already stays.
/// A stream that was flushed has its flush cancelled.
pub open spec fn fill_step(s: BridgeView, flushed: Option<bool>) -> (BridgeView, StepView) {
    let stream = s.phase->Filling_0;
    let held = s.keeps_handle(stream);
    let free = s.at(PhaseView::Collecting);
    match flushed {
        None => (free, StepView::Wait),
        Some(false) if !held => (
            BridgeView {
                flush_handles: s.flush_handles.insert(stream, FlushState::Scheduled),
                ..free
            },
            StepView::Arm(stream, s.period()),
        ),
        Some(false) if s.scheduled(stream) => (free, StepView::Wait),
        // The flush has come already: its handle is all that goes.
        Some(false) => (
            BridgeView { flush_handles: s.flush_handles.remove(stream), ..free },
            StepView::Wait,
        ),
        Some(true) if held => (
            BridgeView {
                flush_handles: s.flush_handles.remove(stream),
                phase: PhaseView::Cancelling,
                ..s
            },
            StepView::Cancel(stream),
        ),
        Some(true) => (free, StepView::Wait),
    }
}

/// A flush was cancelled, or was due already.
pub open spec fn cancel_step(s: BridgeView, failure: Option<Seq<char>>) -> (BridgeView, StepView) {
    match failure {
        None => (s.at(PhaseView::Collecting), StepView::Wait),
        Some(text) => s.disconnects(ErrorView::DelayExpired(text)),
    }
}

/// An action comes for the application: it is the one to be answered from now on, and is written
/// as a line.
pub open spec fn action_step(
    s: BridgeView,
    received: Result<CommandView, RecvError>,
) -> (BridgeView, StepView) {
    match received {
        Err(e) => s.disconnects(ErrorView::Recv(e)),
        Ok(command) => {
            let asked = BridgeView { current_action: Some(command.action_id), ..s };
            match command.serialized {
                Ok(json) => (
                    asked.at(PhaseView::Writing),
                    StepView::Forward { timeout: ACTION_TIMEOUT, line: Some(json.push(10)) },
                ),
                Err(_) => (asked, StepView::Forward { timeout: ACTION_TIMEOUT, line: None }),
            }
        },
    }
}

/// An action was written to the application, or could not be.
pub open spec fn write_step(s: BridgeView, failure: Option<Seq<char>>) -> (BridgeView, StepView) {
    match failure {
        None => (s.at(PhaseView::Collecting), StepView::Wait),
        Some(text) => s.disconnects(ErrorView::Io(text)),
    }
}

/// The application has not answered in time.
pub open spec fn timeout_step(s: BridgeView) -> (BridgeView, StepView) {
    (
        BridgeView { current_action: None, ..s },
        StepView::Respond(s.current_action->0, "Action timed out"@),
    )
}

/// A flush is due. The handle to it stays.
pub open spec fn flush_due_step(s: BridgeView, stream: Seq<char>) -> (BridgeView, StepView) {
    if s.partitions.contains(stream) {
        (
            BridgeView {
                flush_handles: if s.keeps_handle(stream) {
                    s.flush_handles.insert(stream, FlushState::Due)
                } else {
                    s.flush_handles
                },
                phase: PhaseView::Flushing,
                ..s
            },
            StepView::Flush(stream),
        )
    } else {
        (s, StepView::Wait)
    }
}

/// A stream was flushed, or could not be.
pub open spec fn flush_step(s: BridgeView, failure: Option<Seq<char>>) -> (BridgeView, StepView) {
    match failure {
        None => (s.at(PhaseView::Collecting), StepView::Wait),
        Some(text) => s.disconnects(ErrorView::Stream(text)),
    }
}

} // verus!
