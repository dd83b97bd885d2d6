//! MQTT packets and requests as plain values.

use vstd::prelude::*;
use vstd::utf8::encode_utf8;

verus! {

/// The largest value that an MQTT remaining-length field can hold.
pub const MAX_REMAINING_LENGTH: usize = 268_435_455;

/// The longest topic, in bytes, whose length an MQTT packet can carry.
pub const MAX_TOPIC_LENGTH: usize = 65_535;

/// Delivery guarantee of a publish.
#[derive(Clone, Copy, Debug, PartialEq, Eq, Structural)]
pub enum QoS {
    AtMostOnce,
    AtLeastOnce,
    ExactlyOnce,
}

/// A publish packet.
#[derive(Debug)]
pub struct Publish {
    pub dup: bool,
    pub qos: QoS,
    pub retain: bool,
    pub topic: String,
    pub pkid: u16,
    pub payload: Vec<u8>,
}

/// The mathematical value of a [`Publish`].
pub struct PublishView {
    pub dup: bool,
    pub qos: QoS,
    pub retain: bool,
    pub topic: Seq<char>,
    pub pkid: u16,
    pub payload: Seq<u8>,
}

impl View for Publish {
    type V = PublishView;

    open spec fn view(&self) -> PublishView {
        PublishView {
            dup: self.dup,
            qos: self.qos,
            retain: self.retain,
            topic: self.topic@,
            pkid: self.pkid,
            payload: self.payload@,
        }
    }
}

impl PublishView {
    /// A fresh packet: not a duplicate, not retained, and not numbered yet.
    pub open spec fn fresh(topic: Seq<char>, qos: QoS, payload: Seq<u8>) -> PublishView {
        PublishView { dup: false, qos, retain: false, topic, pkid: 0, payload }
    }

    /// The same packet under the packet id that everything on disk carries.
    pub open spec fn stored(self) -> PublishView {
        PublishView { pkid: 1, ..self }
    }

    /// The value of the packet's remaining-length field: topic with its two length bytes, packet
    /// id where there is one, and payload.
    pub open spec fn remaining_length(self) -> nat {
        let identified = self.qos != QoS::AtMostOnce && self.pkid != 0;
        2 + encode_utf8(self.topic).len() + self.payload.len() + if identified { 2nat } else { 0 }
    }

    /// Whether a packet that promises delivery also carries the packet id that takes.
    pub open spec fn identified(self) -> bool {
        self.qos == QoS::AtMostOnce || self.pkid != 0
    }

    /// Whether the packet has an MQTT encoding.
    pub open spec fn encodable(self) -> bool {
        self.identified() && self.remaining_length() <= MAX_REMAINING_LENGTH
    }

    /// Whether the topic's length fits the two bytes that it has in an encoding.
    pub open spec fn topic_fits(self) -> bool {
        encode_utf8(self.topic).len() <= MAX_TOPIC_LENGTH
    }

    /// The packet as its encoding keeps it: without delivery guarantee it has no packet id.
    pub open spec fn kept(self) -> PublishView {
        PublishView {
            pkid: if self.qos == QoS::AtMostOnce {
                0
            } else {
                self.pkid
            },
            ..self
        }
    }
}

impl Publish {
    pub fn new(topic: String, qos: QoS, payload: Vec<u8>) -> (publish: Publish)
        ensures
            publish@ == PublishView::fresh(topic@, qos, payload@),
            publish == (Publish { dup: false, qos, retain: false, topic, pkid: 0, payload }),
    {
        Publish { dup: false, qos, retain: false, topic, pkid: 0, payload }
    }
}

/// A packet read from a byte stream, as far as the uplink tells packets apart.
#[derive(Debug)]
pub enum Packet {
    Publish(Publish),
    /// Any packet that is not a publish.
    Other,
}

/// The mathematical value of a [`Packet`].
pub enum PacketView {
    Publish(PublishView),
    Other,
}

impl View for Packet {
    type V = PacketView;

    open spec fn view(&self) -> PacketView {
        match self {
            Packet::Publish(publish) => PacketView::Publish(publish@),
            Packet::Other => PacketView::Other,
        }
    }
}

/// A request that the MQTT client could not take, as far as the uplink tells requests apart.
#[derive(Debug)]
pub enum Request {
    Publish(Publish),
    /// Any request that is not a publish.
    Other,
}

/// The mathematical value of a [`Request`].
pub enum RequestView {
    Publish(PublishView),
    Other,
}

impl View for Request {
    type V = RequestView;

    open spec fn view(&self) -> RequestView {
        match self {
            Request::Publish(publish) => RequestView::Publish(publish@),
            Request::Other => RequestView::Other,
        }
    }
}

/// How the MQTT client refuses a request: while waiting for room, or at once.
#[derive(Debug)]
pub enum ClientError {
    Request(Request),
    TryRequest(Request),
}

/// A request that did not reach the network.
#[derive(Debug)]
pub enum MqttError {
    Send(Request),
    TrySend(Request),
}

/// The mathematical value of an [`MqttError`].
pub enum MqttErrorView {
    Send(RequestView),
    TrySend(RequestView),
}

impl View for MqttError {
    type V = MqttErrorView;

    open spec fn view(&self) -> MqttErrorView {
        match self {
            MqttError::Send(request) => MqttErrorView::Send(request@),
            MqttError::TrySend(request) => MqttErrorView::TrySend(request@),
        }
    }
}

impl From<ClientError> for MqttError {
    fn from(e: ClientError) -> (error: MqttError) {
        match e {
            ClientError::Request(r) => MqttError::Send(r),
            ClientError::TryRequest(r) => MqttError::TrySend(r),
        }
    }
}

impl vstd::std_specs::convert::FromSpecImpl<ClientError> for MqttError {
    open spec fn obeys_from_spec() -> bool {
        true
    }

    open spec fn from_spec(e: ClientError) -> MqttError {
        match e {
            ClientError::Request(r) => MqttError::Send(r),
            ClientError::TryRequest(r) => MqttError::TrySend(r),
        }
    }
}

impl MqttErrorView {
    pub open spec fn text(self) -> Seq<char> {
        match self {
            MqttErrorView::Send(_) => "SendError(..)"@,
            MqttErrorView::TrySend(_) => "TrySendError(..)"@,
        }
    }
}

impl MqttError {
    /// The text shown for the error.
    pub fn message(&self) -> (text: String)
        ensures
            text@ == self@.text(),
    {
        match self {
            MqttError::Send(_) => "SendError(..)".to_owned(),
            MqttError::TrySend(_) => "TrySendError(..)".to_owned(),
        }
    }
}

/// What is handed to the MQTT client for publishing.
#[derive(Debug)]
pub struct Message {
    pub topic: String,
    pub qos: QoS,
    pub retain: bool,
    pub payload: Vec<u8>,
}

/// The mathematical value of a [`Message`].
pub struct MessageView {
    pub topic: Seq<char>,
    pub qos: QoS,
    pub retain: bool,
    pub payload: Seq<u8>,
}

impl View for Message {
    type V = MessageView;

    open spec fn view(&self) -> MessageView {
        MessageView {
            topic: self.topic@,
            qos: self.qos,
            retain: self.retain,
            payload: self.payload@,
        }
    }
}

impl MessageView {
    /// The only kind of message the uplink publishes: delivered at least once, never retained.
    pub open spec fn outgoing(topic: Seq<char>, payload: Seq<u8>) -> MessageView {
        MessageView { topic, qos: QoS::AtLeastOnce, retain: false, payload }
    }
}

impl Message {
    pub fn outgoing(topic: String, payload: Vec<u8>) -> (message: Message)
        ensures
            message@ == MessageView::outgoing(topic@, payload@),
            message == (Message { topic, qos: QoS::AtLeastOnce, retain: false, payload }),
    {
        Message { topic, qos: QoS::AtLeastOnce, retain: false, payload }
    }
}

/// A fresh packet has the topic, QoS and payload it is given, and nothing else is set.
pub proof fn law_fresh_packets(topic: Seq<char>, qos: QoS, payload: Seq<u8>)
    ensures
        ({
            let publish = PublishView::fresh(topic, qos, payload);
            &&& publish.topic == topic
            &&& publish.qos == qos
            &&& publish.payload == payload
            &&& publish.pkid == 0
            &&& !publish.dup
            &&& !publish.retain
        }),
{
}

/// Storing a packet and reading it back leaves all of it as it was but for the packet id, which is
/// 1, or 0 where delivery is not promised.
pub proof fn law_stored_packets(publish: PublishView)
    ensures
        publish.stored().kept().topic == publish.topic,
        publish.stored().kept().payload == publish.payload,
        publish.stored().kept().qos == publish.qos,
        publish.stored().kept().dup == publish.dup,
        publish.stored().kept().retain == publish.retain,
        publish.stored().pkid == 1,
        publish.stored().kept().pkid == if publish.qos == QoS::AtMostOnce {
            0int
        } else {
            1
        },
        publish.stored().kept().stored() == publish.stored(),
{
}

/// A message that goes out carries the topic and payload it is given, is to be delivered at least
/// once, and is not retained.
pub proof fn law_outgoing_messages(topic: Seq<char>, payload: Seq<u8>)
    ensures
        MessageView::outgoing(topic, payload).topic == topic,
        MessageView::outgoing(topic, payload).payload == payload,
        MessageView::outgoing(topic, payload).qos == QoS::AtLeastOnce,
        !MessageView::outgoing(topic, payload).retain,
{
}

/// A request that the client refuses is handed on whole, as one that was waited for or was not.
pub proof fn law_refused_requests_are_handed_on(request: Request)
    ensures
        <MqttError as vstd::std_specs::convert::FromSpec<ClientError>>::from_spec(
            ClientError::Request(request),
        ) == MqttError::Send(request),
        <MqttError as vstd::std_specs::convert::FromSpec<ClientError>>::from_spec(
            ClientError::TryRequest(request),
        ) == MqttError::TrySend(request),
{
}

/// The texts of the errors tell whether the request was waited for.
pub proof fn law_error_texts(request: RequestView)
    ensures
        MqttErrorView::Send(request).text() == "SendError(..)"@,
        MqttErrorView::TrySend(request).text() == "TrySendError(..)"@,
{
}

} // verus!
