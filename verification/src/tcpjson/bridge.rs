//! The bridge itself.

use std::sync::Arc;
use vstd::hash_map::StringHashMap;
use vstd::prelude::*;

use super::behaviour::law_address_names_the_port;
use super::model::{
    accept_step, action_step, bind_step, cancel_step, collect_step, fill_step, flush_due_step,
    flush_step, frame_step, start_step, stray_action_step, timeout_step, write_step, BridgeView,
    PhaseView,
};
use super::types::{
    command_view, ActionFailure, Command, Error, FlushState, Frame, Origin, OriginView, Step,
    ACTION_STATUS, ACTION_TIMEOUT, FIRST_TIMEOUT, FLUSH_PERIOD, MAX_STREAMS,
};
use crate::config::{distinct, stream_names, Config, StreamConfigView};
use crate::package::RecvError;
use crate::text::{decimal_text, is_digit, number};

verus! {

/// How far the bridge has come.
#[derive(Debug)]
enum Phase {
    Down,
    Binding,
    Accepting,
    Collecting,
    Filling(String),
    Cancelling,
    Writing,
    Flushing,
    Stopped,
}

impl Phase {
    spec fn value(self) -> PhaseView {
        match self {
            Phase::Down => PhaseView::Down,
            Phase::Binding => PhaseView::Binding,
            Phase::Accepting => PhaseView::Accepting,
            Phase::Collecting => PhaseView::Collecting,
            Phase::Filling(stream) => PhaseView::Filling(stream@),
            Phase::Cancelling => PhaseView::Cancelling,
            Phase::Writing => PhaseView::Writing,
            Phase::Flushing => PhaseView::Flushing,
            Phase::Stopped => PhaseView::Stopped,
        }
    }
}

/// The bridge to an application on the device.
pub struct Bridge {
    config: Arc<Config>,
    current_action: Option<String>,
    partitions: StringHashMap<()>,
    flush_handles: StringHashMap<FlushState>,
    phase: Phase,
}

/// The text of a failure, if it is one.
pub open spec fn failure(outcome: Result<(), String>) -> Option<Seq<char>> {
    match outcome {
        Ok(()) => None,
        Err(text) => Some(text@),
    }
}

impl View for Bridge {
    type V = BridgeView;

    closed spec fn view(&self) -> BridgeView {
        BridgeView {
            port: self.config.bridge_port,
            flush_period: self.config.flush_period,
            origin: OriginView {
                project_id: self.config.project_id@,
                device_id: self.config.device_id@,
            },
            configured: self.config.streams@,
            current_action: match self.current_action {
                Some(action_id) => Some(action_id@),
                None => None,
            },
            partitions: self.partitions@.dom(),
            flush_handles: self.flush_handles@,
            phase: self.phase.value(),
        }
    }
}

impl Bridge {
    /// A bridge for a configuration, not listening yet.
    pub fn new(config: Arc<Config>) -> (bridge: Bridge)
        ensures
            bridge@ == (BridgeView {
                port: config.bridge_port,
                flush_period: config.flush_period,
                origin: OriginView {
                    project_id: config.project_id@,
                    device_id: config.device_id@,
                },
                configured: config.streams@,
                current_action: None,
                partitions: Set::empty(),
                flush_handles: Map::empty(),
                phase: PhaseView::Down,
            }),
    {
        let bridge = Bridge {
            config,
            current_action: None,
            partitions: StringHashMap::new(),
            flush_handles: StringHashMap::new(),
            phase: Phase::Down,
        };
        assert(bridge@.partitions =~= Set::empty());
        bridge
    }

    /// Starts to listen.
    pub fn start(&mut self) -> (step: Step)
        requires
            old(self)@.phase is Down,
        ensures
            (final(self)@, step@) == start_step(old(self)@),
            step matches Step::Bind(address) && {
                &&& address@.len() > 8
                &&& forall|i: int| 8 <= i < address@.len() ==> is_digit(#[trigger] address@[i])
                &&& number(address@.skip(8)) == old(self)@.port
            },
    {
        proof {
            law_address_names_the_port(self@);
        }
        self.phase = Phase::Binding;
        let port = decimal_text(self.config.bridge_port as u64);
        Step::Bind("0.0.0.0:".to_owned().concat(port.as_str()))
    }

    /// The bridge listens, or cannot.
    pub fn on_bind(&mut self, outcome: Result<(), String>) -> (step: Step)
        requires
            old(self)@.phase is Binding,
        ensures
            (final(self)@, step@) == bind_step(old(self)@, failure(outcome)),
    {
        match outcome {
            Ok(()) => {
                self.phase = Phase::Accepting;
                Step::Accept
            },
            Err(text) => {
                self.phase = Phase::Stopped;
                Step::Stop(Error::Io(text))
            },
        }
    }

    /// A connection has come, or failed to.
    pub fn on_accept(&mut self, outcome: Result<(), String>) -> (step: Step)
        requires
            old(self)@.phase is Accepting,
        ensures
            (final(self)@, step@) == accept_step(old(self)@, outcome is Ok),
    {
        match outcome {
            Ok(()) => self.collect(),
            Err(_) => Step::Accept,
        }
    }

    /// An action comes while there is no connection, or no action ever will.
    pub fn on_stray_action(&mut self, received: Result<String, RecvError>) -> (step: Step)
        requires
            old(self)@.phase is Accepting,
        ensures
            (final(self)@, step@) == stray_action_step(
                old(self)@,
                match received {
                    Ok(action_id) => Ok(action_id@),
                    Err(e) => Err(e),
                },
            ),
    {
        match received {
            Ok(action_id) => Step::Respond(
                ActionFailure { action_id, reason: "Bridge down".to_owned() },
            ),
            Err(e) => {
                self.phase = Phase::Stopped;
                Step::Stop(Error::Recv(e))
            },
        }
    }

    /// Serves a connection, with the configured streams.
    pub fn collect(&mut self) -> (step: Step)
        requires
            old(self)@.phase is Accepting,
        ensures
            (final(self)@, step@) == collect_step(old(self)@),
            distinct(old(self)@.configured),
    {
        let streams = self.config.streams.to_vec();
        let mut partitions: StringHashMap<()> = StringHashMap::new();
        let count = streams.len();
        let ghost names = self@.configured.map_values(|stream: StreamConfigView| stream.name);
        for i in 0..count
            invariant
                count == streams@.len(),
                names.len() == count,
                forall|j: int| 0 <= j < count ==> #[trigger] streams@[j].name@ == names[j],
                partitions@.dom() == names.take(i as int).to_set(),
        {
            partitions.insert(streams[i].name.clone(), ());
            assert(names.take(i + 1) =~= names.take(i as int).push(names[i as int]));
            proof {
                names.take(i as int).lemma_push_to_set_commute(names[i as int]);
            }
        }
        assert(names.take(count as int) =~= names);
        self.partitions = partitions;
        self.flush_handles = StringHashMap::new();
        self.phase = Phase::Collecting;
        Step::Collect { streams, timeout: FIRST_TIMEOUT }
    }

    /// Gives the connection up.
    fn disconnect(&mut self, error: Error) -> (step: Step)
        ensures
            (final(self)@, step@) == old(self)@.disconnects(error@),
    {
        self.phase = Phase::Down;
        Step::Disconnect(error)
    }

    /// A line comes, or the connection breaks.
    pub fn on_frame(&mut self, frame: Frame) -> (step: Step)
        requires
            old(self)@.phase is Collecting,
        ensures
            (final(self)@, step@) == frame_step(old(self)@, frame@),
            step matches Step::Fill { payload, open } ==> frame == Frame::Point(payload),
    {
        let payload = match frame {
            Frame::Closed => return self.disconnect(Error::StreamDone),
            Frame::Broken(text) => return self.disconnect(Error::Codec(text)),
            Frame::Malformed(_) => return Step::Wait,
            Frame::Point(payload) => payload,
        };
        if payload.stream == ACTION_STATUS.to_owned() {
            if self.current_action.take().is_none() {
                return Step::Wait;
            }
        }
        let mut open: Option<Origin> = None;
        if !self.partitions.contains_key(payload.stream.as_str()) {
            if self.partitions.len() > MAX_STREAMS {
                return Step::Wait;
            }
            self.partitions.insert(payload.stream.clone(), ());
            let project_id = self.config.project_id.clone();
            open = Some(Origin { project_id, device_id: self.config.device_id.clone() });
        }
        self.phase = Phase::Filling(payload.stream.clone());
        assert(self@.partitions =~= old(self)@.partitions.insert(payload.stream@));
        Step::Fill { payload, open }
    }

    /// A stream has taken a point, and was flushed for that (`true`) or not; or it has failed to.
    pub fn on_fill(&mut self, outcome: Result<bool, String>) -> (step: Step)
        requires
            old(self)@.phase is Filling,
        ensures
            (final(self)@, step@) == fill_step(
                old(self)@,
                match outcome {
                    Ok(flushed) => Some(flushed),
                    Err(_) => None,
                },
            ),
    {
        let mut phase = Phase::Collecting;
        std::mem::swap(&mut phase, &mut self.phase);
        let (stream, flushed) = match (phase, outcome) {
            (Phase::Filling(stream), Ok(flushed)) => (stream, flushed),
            _ => return Step::Wait,
        };
        let state = match self.flush_handles.get(stream.as_str()) {
            Some(state) => *state,
            None => {
                if flushed {
                    return Step::Wait;
                }
                self.flush_handles.insert(stream.clone(), FlushState::Scheduled);
                return Step::Arm(stream, self.flush_period());
            },
        };
        if flushed {
            self.flush_handles.remove(stream.as_str());
            self.phase = Phase::Cancelling;
            return Step::Cancel(stream);
        }
        if state == FlushState::Due {
            self.flush_handles.remove(stream.as_str());
        }
        Step::Wait
    }

    /// Seconds after which a stream that is not full is flushed.
    pub fn flush_period(&self) -> (period: u64)
        ensures
            period == self@.period(),
            self@.flush_period matches Some(configured) ==> period == configured,
            self@.flush_period is None ==> period == 10,
    {
        match self.config.flush_period {
            Some(period) => period,
            None => FLUSH_PERIOD,
        }
    }

    /// A flush was cancelled, or was due already.
    pub fn on_cancel(&mut self, outcome: Result<(), String>) -> (step: Step)
        requires
            old(self)@.phase is Cancelling,
        ensures
            (final(self)@, step@) == cancel_step(old(self)@, failure(outcome)),
    {
        match outcome {
            Ok(()) => {
                self.phase = Phase::Collecting;
                Step::Wait
            },
            Err(text) => self.disconnect(Error::DelayExpired(text)),
        }
    }

    /// An action comes for the application, or none ever will.
    pub fn on_action(&mut self, received: Result<Command, RecvError>) -> (step: Step)
        requires
            old(self)@.phase is Collecting,
        ensures
            (final(self)@, step@) == action_step(old(self)@, command_view(received)),
            received matches Ok(Command { action_id, serialized: Ok(json) }) ==> {
                &&& step matches Step::Forward { timeout, line: Some(line) }
                &&& timeout == 10
                &&& line@ == json@.push(10)
            },
    {
        let command = match received {
            Ok(command) => command,
            Err(e) => return self.disconnect(Error::Recv(e)),
        };
        self.current_action = Some(command.action_id);
        match command.serialized {
            Ok(json) => {
                let mut line = json;
                line.push(10);
                self.phase = Phase::Writing;
                Step::Forward { timeout: ACTION_TIMEOUT, line: Some(line) }
            },
            Err(_) => Step::Forward { timeout: ACTION_TIMEOUT, line: None },
        }
    }

    /// An action was written to the application, or could not be.
    pub fn on_write(&mut self, outcome: Result<(), String>) -> (step: Step)
        requires
            old(self)@.phase is Writing,
        ensures
            (final(self)@, step@) == write_step(old(self)@, failure(outcome)),
    {
        match outcome {
            Ok(()) => {
                self.phase = Phase::Collecting;
                Step::Wait
            },
            Err(text) => self.disconnect(Error::Io(text)),
        }
    }

    /// Whether an action is yet to be answered, so that the timeout matters.
    pub fn awaits_timeout(&self) -> (yes: bool)
        ensures
            yes == self@.current_action is Some,
    {
        self.current_action.is_some()
    }

    /// The application has not answered in time.
    pub fn on_timeout(&mut self) -> (step: Step)
        requires
            old(self)@.phase is Collecting,
            old(self)@.current_action is Some,
        ensures
            (final(self)@, step@) == timeout_step(old(self)@),
    {
        let action_id = self.current_action.take().unwrap();
        Step::Respond(ActionFailure { action_id, reason: "Action timed out".to_owned() })
    }

    /// The flush of a stream is due.
    pub fn on_flush_due(&mut self, stream: String) -> (step: Step)
        requires
            old(self)@.phase is Collecting,
        ensures
            (final(self)@, step@) == flush_due_step(old(self)@, stream@),
    {
        if self.partitions.contains_key(stream.as_str()) {
            if self.flush_handles.contains_key(stream.as_str()) {
                self.flush_handles.insert(stream.clone(), FlushState::Due);
            }
            self.phase = Phase::Flushing;
            Step::Flush(stream)
        } else {
            Step::Wait
        }
    }

    /// A stream was flushed, or could not be.
    pub fn on_flush(&mut self, outcome: Result<(), String>) -> (step: Step)
        requires
            old(self)@.phase is Flushing,
        ensures
            (final(self)@, step@) == flush_step(old(self)@, failure(outcome)),
    {
        match outcome {
            Ok(()) => {
                self.phase = Phase::Collecting;
                Step::Wait
            },
            Err(text) => self.disconnect(Error::Stream(text)),
        }
    }
}

} // verus!
