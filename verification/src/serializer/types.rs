//! The vocabulary of the serializer: statuses, updates to metrics, actions and errors.

use vstd::prelude::*;

use crate::package::RecvError;
use crate::packet::{Message, MessageView, MqttError, MqttErrorView, Publish, PublishView};

verus! {

/// Seconds between two reports of metrics.
pub const METRICS_INTERVAL: u64 = 10;

/// Why the serializer stopped.
#[derive(Debug)]
pub enum Error {
    /// The collectors are gone.
    Collector(RecvError),
    /// Something could not be serialized.
    Serde(String),
    /// Storage could not be opened.
    Io(String),
    Client(MqttError),
    /// The network is gone and there is no storage to write to.
    MissingPersistence,
}

/// The mathematical value of an [`Error`].
pub enum ErrorView {
    Collector(RecvError),
    Serde(Seq<char>),
    Io(Seq<char>),
    Client(MqttErrorView),
    MissingPersistence,
}

impl View for Error {
    type V = ErrorView;

    open spec fn view(&self) -> ErrorView {
        match self {
            Error::Collector(e) => ErrorView::Collector(*e),
            Error::Serde(text) => ErrorView::Serde(text@),
            Error::Io(text) => ErrorView::Io(text@),
            Error::Client(e) => ErrorView::Client(e@),
            Error::MissingPersistence => ErrorView::MissingPersistence,
        }
    }
}

impl ErrorView {
    pub open spec fn text(self) -> Seq<char> {
        match self {
            ErrorView::Collector(_) => "Collector recv error "@ + "receiving on a closed channel"@,
            ErrorView::Serde(text) => "Serde error "@ + text,
            ErrorView::Io(text) => "Io error "@ + text,
            ErrorView::Client(e) => "Mqtt client error "@ + e.text(),
            ErrorView::MissingPersistence => "Storage is disabled/missing"@,
        }
    }
}

impl Error {
    /// The text shown for the error.
    pub fn message(&self) -> (text: String)
        ensures
            text@ == self@.text(),
    {
        match self {
            Error::Collector(_) => "Collector recv error ".to_owned().concat(
                "receiving on a closed channel",
            ),
            Error::Serde(text) => "Serde error ".to_owned().concat(text.as_str()),
            Error::Io(text) => "Io error ".to_owned().concat(text.as_str()),
            Error::Client(e) => "Mqtt client error ".to_owned().concat(e.message().as_str()),
            Error::MissingPersistence => "Storage is disabled/missing".to_owned(),
        }
    }
}

/// How a mode ended, which decides on the next one.
#[derive(Debug)]
pub enum Status {
    Normal,
    SlowEventloop(Publish),
    EventLoopReady,
    EventLoopCrash(Publish),
}

/// The mathematical value of a [`Status`].
pub enum StatusView {
    Normal,
    SlowEventloop(PublishView),
    EventLoopReady,
    EventLoopCrash(PublishView),
}

impl View for Status {
    type V = StatusView;

    open spec fn view(&self) -> StatusView {
        match self {
            Status::Normal => StatusView::Normal,
            Status::SlowEventloop(publish) => StatusView::SlowEventloop(publish@),
            Status::EventLoopReady => StatusView::EventLoopReady,
            Status::EventLoopCrash(publish) => StatusView::EventLoopCrash(publish@),
        }
    }
}

/// A change that is due to the metrics of the serializer or of a stream.
#[derive(Debug)]
pub enum MetricUpdate {
    AddErrors(String, usize),
    AddTotalSentSize(usize),
    AddTotalDiskSize(usize),
    SubTotalDiskSize(usize),
    IncrementLostSegments,
    ClearSerializerMetrics,
    /// Stream, number of points, and latency of a batch.
    UpdateStream(String, usize, u64),
    ClearStreamMetrics,
}

/// The mathematical value of a [`MetricUpdate`].
pub enum MetricView {
    AddErrors(Seq<char>, usize),
    AddTotalSentSize(usize),
    AddTotalDiskSize(usize),
    SubTotalDiskSize(usize),
    IncrementLostSegments,
    ClearSerializerMetrics,
    UpdateStream(Seq<char>, usize, u64),
    ClearStreamMetrics,
}

impl View for MetricUpdate {
    type V = MetricView;

    open spec fn view(&self) -> MetricView {
        match self {
            MetricUpdate::AddErrors(errors, count) => MetricView::AddErrors(errors@, *count),
            MetricUpdate::AddTotalSentSize(size) => MetricView::AddTotalSentSize(*size),
            MetricUpdate::AddTotalDiskSize(size) => MetricView::AddTotalDiskSize(*size),
            MetricUpdate::SubTotalDiskSize(size) => MetricView::SubTotalDiskSize(*size),
            MetricUpdate::IncrementLostSegments => MetricView::IncrementLostSegments,
            MetricUpdate::ClearSerializerMetrics => MetricView::ClearSerializerMetrics,
            MetricUpdate::UpdateStream(stream, count, latency) => MetricView::UpdateStream(
                stream@,
                *count,
                *latency,
            ),
            MetricUpdate::ClearStreamMetrics => MetricView::ClearStreamMetrics,
        }
    }
}

/// What the program around the serializer is to do next.
#[derive(Debug)]
pub enum Action {
    /// Await data; also the next tick or the end of a pending publish, where one is awaited.
    Wait,
    /// Offer the message to the network without waiting, and report the outcome.
    TryPublish(Message),
    /// Start publishing the message, then await data and the end of the publish.
    Publish(Message),
    /// The same, without having the topic of the message checked.
    PublishBytes(Message),
    /// Let storage move its write buffer to disk if that is full, and report what became of it.
    Flush,
    /// Let storage fill its read buffer if that is used up, and report whether nothing is left.
    Reload,
    /// Have the next packet in the read buffer decoded.
    Read,
    /// Serialize the metrics of the serializer.
    SampleSerializerMetrics,
    /// Serialize the metrics of all streams that have any.
    SampleStreamMetrics,
    /// The mode has ended: resume with this status.
    Done(Status),
    /// The serializer has failed for good.
    Stop(Error),
}

/// The mathematical value of an [`Action`].
pub enum ActionView {
    Wait,
    TryPublish(MessageView),
    Publish(MessageView),
    PublishBytes(MessageView),
    Flush,
    Reload,
    Read,
    SampleSerializerMetrics,
    SampleStreamMetrics,
    Done(StatusView),
    Stop(ErrorView),
}

impl View for Action {
    type V = ActionView;

    open spec fn view(&self) -> ActionView {
        match self {
            Action::Wait => ActionView::Wait,
            Action::TryPublish(message) => ActionView::TryPublish(message@),
            Action::Publish(message) => ActionView::Publish(message@),
            Action::PublishBytes(message) => ActionView::PublishBytes(message@),
            Action::Flush => ActionView::Flush,
            Action::Reload => ActionView::Reload,
            Action::Read => ActionView::Read,
            Action::SampleSerializerMetrics => ActionView::SampleSerializerMetrics,
            Action::SampleStreamMetrics => ActionView::SampleStreamMetrics,
            Action::Done(status) => ActionView::Done(status@),
            Action::Stop(e) => ActionView::Stop(e@),
        }
    }
}

/// The answer to an event: updates to the metrics, in order, and then an action.
#[derive(Debug)]
pub struct Reaction {
    pub metrics: Vec<MetricUpdate>,
    pub action: Action,
}

/// The mathematical value of a list of updates to the metrics.
pub open spec fn metrics_view(metrics: Seq<MetricUpdate>) -> Seq<MetricView> {
    metrics.map_values(|update: MetricUpdate| update@)
}

/// How far the conversation of the current mode has come.
#[derive(Clone, Copy, Debug, PartialEq, Eq, Structural)]
pub enum Phase {
    /// Between two modes.
    Idle,
    /// Normal mode: data or a tick is awaited.
    Normal,
    /// Normal mode: data was offered to the network.
    Forwarding { payload_size: usize },
    /// Normal mode: the metrics of the serializer are being serialized, then published.
    SamplingSerializer,
    ReportingSerializer,
    /// Normal mode: the metrics of the streams are being serialized, then published.
    SamplingStreams,
    ReportingStreams,
    /// Slow mode: data or the end of the pending publish is awaited.
    Slow,
    /// Slow mode: data was written, and storage may have to be flushed.
    SlowFlush,
    /// Catchup mode: storage is asked for what is left to send.
    Reloading { first: bool },
    /// Catchup mode: the next stored packet is to be decoded.
    Reading { first: bool },
    /// Catchup mode: data or the end of the pending publish is awaited.
    Sending,
    /// Catchup mode: data was written, and storage may have to be flushed.
    SendingFlush,
    /// Crash mode: data is awaited.
    Crash,
    /// Crash mode: data was written, and storage may have to be flushed.
    CrashFlush,
    /// Failed for good.
    Stopped,
}

} // verus!
