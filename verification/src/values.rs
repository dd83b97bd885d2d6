//! Mathematical values keep everything that they stand for.

use vstd::prelude::*;

use crate::config::{streams_view, StreamConfig};
use crate::console::texts_view;
use crate::package::{bytes_view, received_view, Package, RecvError};
use crate::packet::{
    Message, MqttError, MqttErrorView, Packet, PacketView, Publish, Request, RequestView,
};
use crate::serializer;
use crate::serializer::machine::{outcome_view, packet_view, sample_view, text_view};
use crate::serializer::{
    metrics_view, Action, ActionView, MetricUpdate, MetricView, Reaction, Serializer, Status,
    StatusView, Transition,
};
use crate::stream::{batch_view, Batch};
use crate::tcpjson;
use crate::tcpjson::types::{command_view, CommandView, FrameView, StepView};
use crate::tcpjson::{Command, Frame, Origin, Payload, Step};

verus! {

/// Packets and messages are valued by all of their fields.
pub proof fn law_packet_values(publish: Publish, message: Message)
    ensures
        publish@.topic == publish.topic@,
        publish@.payload == publish.payload@,
        publish@.qos == publish.qos,
        publish@.pkid == publish.pkid,
        publish@.dup == publish.dup,
        publish@.retain == publish.retain,
        message@.topic == message.topic@,
        message@.payload == message.payload@,
        message@.qos == message.qos,
        message@.retain == message.retain,
{
}

/// What the client or the decoder hands over is valued by what is in it.
pub proof fn law_outcome_values(
    packet: Result<Packet, String>,
    outcome: Result<(), MqttError>,
    sample: Option<Result<Vec<u8>, String>>,
    text: Option<String>,
)
    ensures
        match packet {
            Ok(Packet::Publish(publish)) => packet_view(packet) == Ok::<PacketView, Seq<char>>(
                PacketView::Publish(publish@),
            ),
            Ok(Packet::Other) => packet_view(packet) == Ok::<PacketView, Seq<char>>(
                PacketView::Other,
            ),
            Err(text) => packet_view(packet) == Err::<PacketView, Seq<char>>(text@),
        },
        match outcome {
            Ok(()) => outcome_view(outcome) is Ok,
            Err(MqttError::Send(Request::Publish(publish))) => outcome_view(outcome) == Err::<
                (),
                MqttErrorView,
            >(MqttErrorView::Send(RequestView::Publish(publish@))),
            Err(MqttError::TrySend(Request::Publish(publish))) => outcome_view(outcome) == Err::<
                (),
                MqttErrorView,
            >(MqttErrorView::TrySend(RequestView::Publish(publish@))),
            Err(MqttError::Send(Request::Other)) => outcome_view(outcome) == Err::<
                (),
                MqttErrorView,
            >(MqttErrorView::Send(RequestView::Other)),
            Err(MqttError::TrySend(Request::Other)) => outcome_view(outcome) == Err::<
                (),
                MqttErrorView,
            >(MqttErrorView::TrySend(RequestView::Other)),
        },
        match sample {
            None => sample_view(sample) is None,
            Some(Ok(bytes)) => sample_view(sample) == Some(Ok::<Seq<u8>, Seq<char>>(bytes@)),
            Some(Err(text)) => sample_view(sample) == Some(Err::<Seq<u8>, Seq<char>>(text@)),
        },
        match text {
            None => text_view(text) is None,
            Some(text) => text_view(Some(text)) == Some(text@),
        },
{
}

/// Packages are valued by all of their fields.
pub proof fn law_package_values(package: Package, received: Result<Package, RecvError>)
    ensures
        package@.stream == package.stream@,
        package@.topic == package.topic@,
        package@.len == package.len,
        package@.batch_latency == package.batch_latency,
        match package.anomalies {
            Some((errors, count)) => package@.anomalies == Some((errors@, count)),
            None => package@.anomalies is None,
        },
        package@.serialized == bytes_view(package.serialized),
        match package.serialized {
            Ok(bytes) => package@.serialized == Ok::<Seq<u8>, Seq<char>>(bytes@),
            Err(text) => package@.serialized == Err::<Seq<u8>, Seq<char>>(text@),
        },
        match received {
            Ok(package) => received_view(received) matches Ok(value) && value == package@,
            Err(e) => received_view(received) matches Err(value) && value == e,
        },
{
}

/// The answers of the serializer are valued by all that they say.
pub proof fn law_action_values(action: Action)
    ensures
        match action {
            Action::Wait => action@ is Wait,
            Action::TryPublish(message) => action@ == ActionView::TryPublish(message@),
            Action::Publish(message) => action@ == ActionView::Publish(message@),
            Action::PublishBytes(message) => action@ == ActionView::PublishBytes(message@),
            Action::Flush => action@ is Flush,
            Action::Reload => action@ is Reload,
            Action::Read => action@ is Read,
            Action::SampleSerializerMetrics => action@ is SampleSerializerMetrics,
            Action::SampleStreamMetrics => action@ is SampleStreamMetrics,
            Action::Done(Status::Normal) => action@ == ActionView::Done(StatusView::Normal),
            Action::Done(Status::SlowEventloop(publish)) => action@ == ActionView::Done(
                StatusView::SlowEventloop(publish@),
            ),
            Action::Done(Status::EventLoopReady) => action@ == ActionView::Done(
                StatusView::EventLoopReady,
            ),
            Action::Done(Status::EventLoopCrash(publish)) => action@ == ActionView::Done(
                StatusView::EventLoopCrash(publish@),
            ),
            Action::Stop(e) => action@ == ActionView::Stop(e@),
        },
{
}

/// Errors of the serializer are valued by their kind and reason.
pub proof fn law_serializer_error_values(e: serializer::Error)
    ensures
        match e {
            serializer::Error::Collector(reason) => e@ == serializer::ErrorView::Collector(reason),
            serializer::Error::Serde(text) => e@ == serializer::ErrorView::Serde(text@),
            serializer::Error::Io(text) => e@ == serializer::ErrorView::Io(text@),
            serializer::Error::Client(reason) => e@ == serializer::ErrorView::Client(reason@),
            serializer::Error::MissingPersistence => e@ is MissingPersistence,
        },
{
}

/// Updates to the metrics are valued by all that they say, each at its place.
pub proof fn law_metric_values(update: MetricUpdate, metrics: Seq<MetricUpdate>)
    ensures
        match update {
            MetricUpdate::AddErrors(errors, count) => update@ == MetricView::AddErrors(
                errors@,
                count,
            ),
            MetricUpdate::AddTotalSentSize(size) => update@ == MetricView::AddTotalSentSize(size),
            MetricUpdate::AddTotalDiskSize(size) => update@ == MetricView::AddTotalDiskSize(size),
            MetricUpdate::SubTotalDiskSize(size) => update@ == MetricView::SubTotalDiskSize(size),
            MetricUpdate::IncrementLostSegments => update@ is IncrementLostSegments,
            MetricUpdate::ClearSerializerMetrics => update@ is ClearSerializerMetrics,
            MetricUpdate::UpdateStream(stream, count, latency) => update@
                == MetricView::UpdateStream(stream@, count, latency),
            MetricUpdate::ClearStreamMetrics => update@ is ClearStreamMetrics,
        },
        metrics_view(metrics).len() == metrics.len(),
        forall|i: int|
            0 <= i < metrics.len() ==> #[trigger] metrics_view(metrics)[i] == metrics[i]@,
{
}

/// A transition is made only by going to its next state and answering with its action and all of
/// its updates to the metrics.
pub proof fn law_made_transitions(t: Transition, next: Serializer, reaction: Reaction)
    ensures
        t.made(next, reaction) <==> {
            &&& next@ == t.next
            &&& reaction.action@ == t.action
            &&& metrics_view(reaction.metrics@) == t.metrics
        },
{
}

/// What comes from the application is valued by all that is in it.
pub proof fn law_frame_values(frame: Frame, payload: Payload)
    ensures
        match frame {
            Frame::Closed => frame@ is Closed,
            Frame::Broken(text) => frame@ == FrameView::Broken(text@),
            Frame::Malformed(text) => frame@ == FrameView::Malformed(text@),
            Frame::Point(payload) => frame@ == FrameView::Point(payload@),
        },
        payload@.stream == payload.stream@,
        payload@.sequence == payload.sequence,
        payload@.timestamp == payload.timestamp,
        payload@.payload == payload.payload,
{
}

/// Actions for the application are valued by their id and their JSON.
pub proof fn law_command_values(command: Command, received: Result<Command, RecvError>)
    ensures
        command@.action_id == command.action_id@,
        match command.serialized {
            Ok(json) => command@.serialized == Ok::<Seq<u8>, Seq<char>>(json@),
            Err(text) => command@.serialized == Err::<Seq<u8>, Seq<char>>(text@),
        },
        match received {
            Ok(command) => command_view(received) == Ok::<CommandView, RecvError>(command@),
            Err(e) => command_view(received) == Err::<CommandView, RecvError>(e),
        },
{
}

/// The steps of the bridge are valued by all that they say.
pub proof fn law_step_values(step: Step, origin: Origin)
    ensures
        match step {
            Step::Bind(address) => step@ == StepView::Bind(address@),
            Step::Accept => step@ is Accept,
            Step::Collect { streams, timeout } => step@ matches StepView::Collect {
                streams: listed,
                timeout: seconds,
            } && listed == streams_view(streams@) && seconds == timeout,
            Step::Wait => step@ is Wait,
            Step::Respond(failure) => step@ == StepView::Respond(
                failure.action_id@,
                failure.reason@,
            ),
            Step::Fill { payload, open } => step@ matches StepView::Fill {
                payload: point,
                open: whose,
            } && point == payload@ && match open {
                Some(origin) => whose == Some(origin@),
                None => whose is None,
            },
            Step::Arm(stream, seconds) => step@ == StepView::Arm(stream@, seconds),
            Step::Cancel(stream) => step@ == StepView::Cancel(stream@),
            Step::Forward { timeout, line } => step@ matches StepView::Forward {
                timeout: seconds,
                line: bytes,
            } && seconds == timeout && match line {
                Some(line) => bytes == Some(line@),
                None => bytes is None,
            },
            Step::Flush(stream) => step@ == StepView::Flush(stream@),
            Step::Disconnect(e) => step@ == StepView::Disconnect(e@),
            Step::Stop(e) => step@ == StepView::Stop(e@),
        },
        origin@.project_id == origin.project_id@,
        origin@.device_id == origin.device_id@,
{
}

/// Errors of the bridge are valued by their kind and reason.
pub proof fn law_bridge_error_values(e: tcpjson::Error)
    ensures
        match e {
            tcpjson::Error::Io(text) => e@ == tcpjson::types::ErrorView::Io(text@),
            tcpjson::Error::Recv(reason) => e@ == tcpjson::types::ErrorView::Recv(reason),
            tcpjson::Error::StreamDone => e@ is StreamDone,
            tcpjson::Error::Codec(text) => e@ == tcpjson::types::ErrorView::Codec(text@),
            tcpjson::Error::Json(text) => e@ == tcpjson::types::ErrorView::Json(text@),
            tcpjson::Error::Actions(text) => e@ == tcpjson::types::ErrorView::Actions(text@),
            tcpjson::Error::Stream(text) => e@ == tcpjson::types::ErrorView::Stream(text@),
            tcpjson::Error::DelayExpired(text) => e@ == tcpjson::types::ErrorView::DelayExpired(
                text@,
            ),
        },
{
}

/// Streams and batches are valued by all of their fields, lists by all of their entries in order.
pub proof fn law_stream_values<T>(
    stream: StreamConfig,
    streams: Seq<StreamConfig>,
    batch: Batch<T>,
    texts: Seq<String>,
)
    ensures
        stream@.name == stream.name@,
        stream@.topic == stream.topic@,
        stream@.buf_size == stream.buf_size,
        streams_view(streams).len() == streams.len(),
        forall|i: int|
            0 <= i < streams.len() ==> #[trigger] streams_view(streams)[i] == streams[i]@,
        batch@.stream == batch.stream@,
        batch@.topic == batch.topic@,
        batch@.points == batch.points@,
        batch_view(Some(batch)) == Some(batch@),
        batch_view(None::<Batch<T>>) is None,
        texts_view(texts).len() == texts.len(),
        forall|i: int| 0 <= i < texts.len() ==> #[trigger] texts_view(texts)[i] == texts[i]@,
{
}

/// Every error is shown with a text of its own, followed by its reason where it has one to show.
pub proof fn law_error_texts(text: Seq<char>, e: RecvError, client: MqttErrorView)
    ensures
        serializer::ErrorView::Collector(e).text() == "Collector recv error "@
            + "receiving on a closed channel"@,
        serializer::ErrorView::Serde(text).text() == "Serde error "@ + text,
        serializer::ErrorView::Io(text).text() == "Io error "@ + text,
        serializer::ErrorView::Client(client).text() == "Mqtt client error "@ + client.text(),
        serializer::ErrorView::MissingPersistence.text() == "Storage is disabled/missing"@,
        tcpjson::types::ErrorView::Io(text).text() == "Io error "@ + text,
        tcpjson::types::ErrorView::Recv(e).text() == "Receiver error "@
            + "receiving on a closed channel"@,
        tcpjson::types::ErrorView::StreamDone.text() == "Stream done"@,
        tcpjson::types::ErrorView::Codec(text).text() == "Lines codec error "@ + text,
        tcpjson::types::ErrorView::Json(text).text() == "Serde error "@ + text,
        tcpjson::types::ErrorView::Actions(text).text() == "Download OTA error"@,
        tcpjson::types::ErrorView::Stream(text).text() == "Couldn't fill stream"@,
        tcpjson::types::ErrorView::DelayExpired(text).text() == "Delay expired: "@ + text,
{
}

} // verus!
