//! The vocabulary of the bridge: frames, commands, steps and errors.

use vstd::prelude::*;

use super::payload::{Payload, PayloadView};
use crate::config::{streams_view, StreamConfig, StreamConfigView};
use crate::package::{bytes_view, RecvError};

verus! {

/// The stream on which an application answers actions.
pub const ACTION_STATUS: &'static str = "action_status";

/// With more partitions than this, no stream is created for a name that is not known.
pub const MAX_STREAMS: usize = 20;

/// Seconds that an application has to answer an action.
pub const ACTION_TIMEOUT: u64 = 10;

/// Seconds after which an action that an earlier connection left unanswered times out.
pub const FIRST_TIMEOUT: u64 = 100;

/// Seconds after which a stream that is not full is flushed, unless configured otherwise.
pub const FLUSH_PERIOD: u64 = 10;

/// Why a connection, or the bridge, came to its end.
#[derive(Debug)]
pub enum Error {
    Io(String),
    /// No action will ever come again.
    Recv(RecvError),
    /// The application has closed the connection.
    StreamDone,
    /// A line could not be taken from the connection.
    Codec(String),
    Json(String),
    Actions(String),
    /// A stream could not be flushed.
    Stream(String),
    /// A flush that was no longer wanted had been due already.
    DelayExpired(String),
}

/// The mathematical value of an [`Error`].
pub enum ErrorView {
    Io(Seq<char>),
    Recv(RecvError),
    StreamDone,
    Codec(Seq<char>),
    Json(Seq<char>),
    Actions(Seq<char>),
    Stream(Seq<char>),
    DelayExpired(Seq<char>),
}

impl View for Error {
    type V = ErrorView;

    open spec fn view(&self) -> ErrorView {
        match self {
            Error::Io(text) => ErrorView::Io(text@),
            Error::Recv(e) => ErrorView::Recv(*e),
            Error::StreamDone => ErrorView::StreamDone,
            Error::Codec(text) => ErrorView::Codec(text@),
            Error::Json(text) => ErrorView::Json(text@),
            Error::Actions(text) => ErrorView::Actions(text@),
            Error::Stream(text) => ErrorView::Stream(text@),
            Error::DelayExpired(text) => ErrorView::DelayExpired(text@),
        }
    }
}

impl ErrorView {
    pub open spec fn text(self) -> Seq<char> {
        match self {
            ErrorView::Io(text) => "Io error "@ + text,
            ErrorView::Recv(_) => "Receiver error "@ + "receiving on a closed channel"@,
            ErrorView::StreamDone => "Stream done"@,
            ErrorView::Codec(text) => "Lines codec error "@ + text,
            ErrorView::Json(text) => "Serde error "@ + text,
            ErrorView::Actions(_) => "Download OTA error"@,
            ErrorView::Stream(_) => "Couldn't fill stream"@,
            ErrorView::DelayExpired(text) => "Delay expired: "@ + text,
        }
    }
}

impl Error {
    /// The text shown for the error.
    pub fn message(&self) -> (text: String)
        ensures
            text@ == self@.text(),
    {
        match self {
            Error::Io(text) => "Io error ".to_owned().concat(text.as_str()),
            Error::Recv(_) => "Receiver error ".to_owned().concat("receiving on a closed channel"),
            Error::StreamDone => "Stream done".to_owned(),
            Error::Codec(text) => "Lines codec error ".to_owned().concat(text.as_str()),
            Error::Json(text) => "Serde error ".to_owned().concat(text.as_str()),
            Error::Actions(_) => "Download OTA error".to_owned(),
            Error::Stream(_) => "Couldn't fill stream".to_owned(),
            Error::DelayExpired(text) => "Delay expired: ".to_owned().concat(text.as_str()),
        }
    }
}

/// What the connection gave when a line was awaited.
#[derive(Debug)]
pub enum Frame {
    /// The connection is closed.
    Closed,
    /// No line could be taken from what was received.
    Broken(String),
    /// A line that is not a point of a stream, and why.
    Malformed(String),
    Point(Payload),
}

/// The mathematical value of a [`Frame`].
pub enum FrameView {
    Closed,
    Broken(Seq<char>),
    Malformed(Seq<char>),
    Point(PayloadView),
}

impl View for Frame {
    type V = FrameView;

    open spec fn view(&self) -> FrameView {
        match self {
            Frame::Closed => FrameView::Closed,
            Frame::Broken(text) => FrameView::Broken(text@),
            Frame::Malformed(text) => FrameView::Malformed(text@),
            Frame::Point(payload) => FrameView::Point(payload@),
        }
    }
}

/// An action for the application: its id, and its JSON or why it has none.
#[derive(Debug)]
pub struct Command {
    pub action_id: String,
    pub serialized: Result<Vec<u8>, String>,
}

/// The mathematical value of a [`Command`].
pub struct CommandView {
    pub action_id: Seq<char>,
    pub serialized: Result<Seq<u8>, Seq<char>>,
}

impl View for Command {
    type V = CommandView;

    open spec fn view(&self) -> CommandView {
        CommandView { action_id: self.action_id@, serialized: bytes_view(self.serialized) }
    }
}

/// The mathematical value of what was received on the channel of actions.
pub open spec fn command_view(received: Result<Command, RecvError>) -> Result<
    CommandView,
    RecvError,
> {
    match received {
        Ok(command) => Ok(command@),
        Err(e) => Err(e),
    }
}

/// The answer to an action that failed.
#[derive(Debug)]
pub struct ActionFailure {
    pub action_id: String,
    pub reason: String,
}

/// The device whose data a stream carries, and the project it belongs to.
#[derive(Debug)]
pub struct Origin {
    pub project_id: String,
    pub device_id: String,
}

/// The mathematical value of an [`Origin`].
pub struct OriginView {
    pub project_id: Seq<char>,
    pub device_id: Seq<char>,
}

impl View for Origin {
    type V = OriginView;

    open spec fn view(&self) -> OriginView {
        OriginView { project_id: self.project_id@, device_id: self.device_id@ }
    }
}

/// What has become of the flush that a handle is kept for.
#[derive(Clone, Copy, Debug, PartialEq, Eq, Structural)]
pub enum FlushState {
    /// It is yet to come.
    Scheduled,
    /// It has come. The handle can no longer cancel it.
    Due,
}

/// What the program around the bridge is to do next.
#[derive(Debug)]
pub enum Step {
    /// Listen on the address, and report how that went.
    Bind(String),
    /// Await a connection or an action.
    Accept,
    /// Open the streams, let the timeout run for so many seconds, and await what happens on the
    /// connection.
    Collect { streams: Vec<StreamConfig>, timeout: u64 },
    /// Await what happens on the connection: a line, an action, the timeout if one is awaited, or
    /// a flush that is due.
    Wait,
    /// Send the failure to the cloud, and go on awaiting.
    Respond(ActionFailure),
    /// Open the point's stream for the origin if there is one, hand the stream the point, and
    /// report whether that has flushed it.
    Fill { payload: Payload, open: Option<Origin> },
    /// Have the stream flushed after so many seconds, keep the handle to that in place of any
    /// earlier one, and go on awaiting.
    Arm(String, u64),
    /// Cancel the flush of the stream by the handle that is kept, and report how that went.
    Cancel(String),
    /// Let the timeout run for so many seconds; if there are bytes, write them to the application
    /// and report how that went, else go on awaiting.
    Forward { timeout: u64, line: Option<Vec<u8>> },
    /// Flush the stream, and report how that went.
    Flush(String),
    /// Give the connection up: start again.
    Disconnect(Error),
    /// The bridge has failed for good.
    Stop(Error),
}

/// The mathematical value of a [`Step`].
pub enum StepView {
    Bind(Seq<char>),
    Accept,
    Collect { streams: Seq<StreamConfigView>, timeout: u64 },
    Wait,
    /// Id of the action and reason of the failure.
    Respond(Seq<char>, Seq<char>),
    Fill { payload: PayloadView, open: Option<OriginView> },
    Arm(Seq<char>, u64),
    Cancel(Seq<char>),
    Forward { timeout: u64, line: Option<Seq<u8>> },
    Flush(Seq<char>),
    Disconnect(ErrorView),
    Stop(ErrorView),
}

impl View for Step {
    type V = StepView;

    open spec fn view(&self) -> StepView {
        match self {
            Step::Bind(address) => StepView::Bind(address@),
            Step::Accept => StepView::Accept,
            Step::Collect { streams, timeout } => StepView::Collect {
                streams: streams_view(streams@),
                timeout: *timeout,
            },
            Step::Wait => StepView::Wait,
            Step::Respond(failure) => StepView::Respond(failure.action_id@, failure.reason@),
            Step::Fill { payload, open } => StepView::Fill {
                payload: payload@,
                open: match open {
                    Some(origin) => Some(origin@),
                    None => None,
                },
            },
            Step::Arm(stream, period) => StepView::Arm(stream@, *period),
            Step::Cancel(stream) => StepView::Cancel(stream@),
            Step::Forward { timeout, line } => StepView::Forward {
                timeout: *timeout,
                line: match line {
                    Some(line) => Some(line@),
                    None => None,
                },
            },
            Step::Flush(stream) => StepView::Flush(stream@),
            Step::Disconnect(e) => StepView::Disconnect(e@),
            Step::Stop(e) => StepView::Stop(e@),
        }
    }
}

} // verus!
