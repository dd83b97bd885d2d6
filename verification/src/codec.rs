//! The byte encoding of MQTT packets, which the `rumqttc` crate provides.

use bytes::BytesMut;
use vstd::prelude::*;
use vstd::utf8::encode_utf8;

use crate::packet::{Packet, PacketView, Publish, PublishView, QoS, MAX_REMAINING_LENGTH};

verus! {

/// The growable byte buffer of the `bytes` crate.
#[verifier::external_type_specification]
#[verifier::external_body]
pub struct ExBytesMut(bytes::BytesMut);

/// The unread bytes that a buffer holds, oldest first.
pub uninterp spec fn buffered(buffer: BytesMut) -> Seq<u8>;

/// The first byte of a publish packet: the packet type in the upper half, below it the flags.
pub open spec fn first_byte(publish: PublishView) -> u8 {
    let dup: int = if publish.dup { 8 } else { 0 };
    let qos: int = match publish.qos {
        QoS::AtMostOnce => 0,
        QoS::AtLeastOnce => 2,
        QoS::ExactlyOnce => 4,
    };
    let retain: int = if publish.retain { 1 } else { 0 };
    (48 + dup + qos + retain) as u8
}

/// A length, seven bits to a byte, the lowest first; the upper bit says that more follow.
pub open spec fn length_bytes(length: nat) -> Seq<u8>
    decreases length,
{
    if length < 128 {
        seq![length as u8]
    } else {
        seq![(length % 128 + 128) as u8] + length_bytes(length / 128)
    }
}

/// The lower two bytes of a number, the higher one first.
pub open spec fn two_bytes(number: nat) -> Seq<u8> {
    seq![(number / 256 % 256) as u8, (number % 256) as u8]
}

/// The bytes that stand for a packet: the first byte, the remaining length, the topic after its
/// length, the packet id where the QoS asks for one, and the payload. Of a packet that has no
/// encoding, they are the part before the one that cannot be written.
pub open spec fn publish_bytes(publish: PublishView) -> Seq<u8> {
    let topic = encode_utf8(publish.topic);
    let start = seq![first_byte(publish)];
    let head = start + length_bytes(publish.remaining_length()) + two_bytes(topic.len()) + topic;
    if publish.remaining_length() > MAX_REMAINING_LENGTH {
        start
    } else if !publish.identified() {
        head
    } else if publish.qos == QoS::AtMostOnce {
        head + publish.payload
    } else {
        head + two_bytes(publish.pkid as nat) + publish.payload
    }
}

/// What `rumqttc::read` makes of a byte stream under a size limit: the packet, or the text of the
/// error, and the bytes that are left in the stream.
pub uninterp spec fn parsed_packet(bytes: Seq<u8>, max_size: usize) -> (
    Result<PacketView, Seq<char>>,
    Seq<u8>,
);

/// Whether reading gives back exactly `publish` from any stream that starts with `encoded`, and
/// leaves what follows, as long as the size limit admits the packet.
pub open spec fn reads_back(publish: PublishView, encoded: Seq<u8>) -> bool {
    forall|tail: Seq<u8>, max_size: usize|
        publish.remaining_length() <= max_size ==> #[trigger] parsed_packet(
            encoded + tail,
            max_size,
        ) == (Ok::<PacketView, Seq<char>>(PacketView::Publish(publish)), tail)
}

/// Why a packet has no encoding. The size is looked at first.
pub open spec fn refusal(publish: PublishView) -> Seq<char> {
    if publish.remaining_length() > MAX_REMAINING_LENGTH {
        "payload is too long"@
    } else {
        "Packet id Zero"@
    }
}

/// Appends the encoding of `publish` with `rumqttc::Publish::write`.
///
/// Taken from that function: it only ever appends, and what it appends is the MQTT encoding of the
/// packet, with the topic's length reduced to two bytes; it succeeds exactly on packets that carry
/// a packet id where their QoS asks for one and whose remaining length MQTT can express, and then
/// reports the number of bytes appended; on any other packet it fails with one of two errors,
/// after the part of the packet has been appended that comes before the fault.
/// From `rumqttc::read`: what was appended on success reads back as the same packet, but for a
/// packet id that has no place in the encoding, whatever follows it, provided that the topic's
/// length fits in two bytes and that the size limit is not below the remaining length.
/// The sum of lengths that the function forms stays within `usize`, since topic and payload are
/// both held in memory.
#[verifier::external_body]
pub(crate) fn write_publish(publish: &Publish, buffer: &mut BytesMut) -> (result: Result<
    usize,
    String,
>)
    ensures
        buffered(*final(buffer)) == buffered(*old(buffer)) + publish_bytes(publish@),
        result is Ok <==> publish@.encodable(),
        result matches Ok(count) ==> count == publish_bytes(publish@).len(),
        result matches Err(text) ==> text@ == refusal(publish@),
        result is Ok && publish@.topic_fits() ==> reads_back(
            publish@.kept(),
            publish_bytes(publish@),
        ),
{
    let qos = match publish.qos {
        QoS::AtMostOnce => rumqttc::QoS::AtMostOnce,
        QoS::AtLeastOnce => rumqttc::QoS::AtLeastOnce,
        QoS::ExactlyOnce => rumqttc::QoS::ExactlyOnce,
    };
    let (dup, retain, pkid) = (publish.dup, publish.retain, publish.pkid);
    let (topic, payload) = (publish.topic.clone(), publish.payload.clone().into());
    let packet = rumqttc::Publish { dup, qos, retain, topic, pkid, payload };
    match packet.write(buffer) {
        Ok(count) => Ok(count),
        Err(e) => Err(e.to_string()),
    }
}

/// Takes the next packet out of `buffer` with `rumqttc::read`.
///
/// Taken from that function: the packet or error it returns and the bytes it leaves depend on the
/// bytes in the buffer and the size limit alone. It panics on no input.
#[verifier::external_body]
pub(crate) fn read_packet(buffer: &mut BytesMut, max_size: usize) -> (result: Result<
    Packet,
    String,
>)
    ensures
        match result {
            Ok(packet) => parsed_packet(buffered(*old(buffer)), max_size) == (
                Ok::<PacketView, Seq<char>>(packet@),
                buffered(*final(buffer)),
            ),
            Err(text) => parsed_packet(buffered(*old(buffer)), max_size) == (
                Err::<PacketView, Seq<char>>(text@),
                buffered(*final(buffer)),
            ),
        },
{
    let p = match rumqttc::read(buffer, max_size) {
        Ok(rumqttc::Packet::Publish(p)) => p,
        Ok(_) => return Ok(Packet::Other),
        Err(e) => return Err(e.to_string()),
    };
    let qos = match p.qos {
        rumqttc::QoS::AtMostOnce => QoS::AtMostOnce,
        rumqttc::QoS::AtLeastOnce => QoS::AtLeastOnce,
        rumqttc::QoS::ExactlyOnce => QoS::ExactlyOnce,
    };
    let (dup, retain, topic, pkid) = (p.dup, p.retain, p.topic, p.pkid);
    let payload = p.payload.to_vec();
    Ok(Packet::Publish(Publish { dup, qos, retain, topic, pkid, payload }))
}

/// The length that bytes stand for, seven bits to a byte, the lowest first.
pub open spec fn length_value(bytes: Seq<u8>) -> int
    decreases bytes.len(),
{
    if bytes.len() == 0 {
        0
    } else {
        bytes[0] % 128 + 128 * length_value(bytes.drop_first())
    }
}

/// A length reads back from its bytes, of which the last one, and no other, says that none follow.
pub proof fn law_length_reads_back(length: nat)
    ensures
        ({
            let bytes = length_bytes(length);
            &&& bytes.len() > 0
            &&& length_value(bytes) == length
            &&& bytes.last() < 128
            &&& forall|i: int| 0 <= i < bytes.len() - 1 ==> #[trigger] bytes[i] >= 128
        }),
    decreases length,
{
    let bytes = length_bytes(length);
    if length < 128 {
        assert(bytes.drop_first() =~= seq![]);
        assert(length_value(bytes.drop_first()) == 0);
    } else {
        let rest = length_bytes(length / 128);
        law_length_reads_back(length / 128);
        assert(bytes.drop_first() =~= rest);
        assert forall|i: int| 0 <= i < bytes.len() - 1 implies #[trigger] bytes[i] >= 128 by {
            if i > 0 {
                assert(bytes[i] == rest[i - 1]);
            }
        }
        assert(bytes.last() == rest.last());
    }
}

/// The encoding of a packet holds all of it: flags in the first byte, then the length of all that
/// follows, the topic after its length, the packet id unless delivery is not promised, and the
/// payload to the end.
pub proof fn law_encoding_holds_the_packet(publish: PublishView)
    requires
        publish.encodable(),
    ensures
        ({
            let bytes = publish_bytes(publish);
            let topic = encode_utf8(publish.topic);
            let id: int = if publish.qos == QoS::AtMostOnce { 0 } else { 2 };
            let rest = 2 + topic.len() + id + publish.payload.len();
            let start = bytes.len() - rest;
            &&& bytes[0] / 16 == 3
            &&& bytes[0] / 8 % 2 == if publish.dup { 1int } else { 0 }
            &&& bytes[0] / 2 % 4 == match publish.qos {
                QoS::AtMostOnce => 0int,
                QoS::AtLeastOnce => 1,
                QoS::ExactlyOnce => 2,
            }
            &&& bytes[0] % 2 == if publish.retain { 1int } else { 0 }
            &&& start > 1
            &&& length_value(bytes.subrange(1, start)) == rest
            &&& bytes[start - 1] < 128
            &&& 256 * bytes[start] + bytes[start + 1] == topic.len() % 65536
            &&& bytes.subrange(start + 2, start + 2 + topic.len()) == topic
            &&& id == 2 ==> 256 * bytes[start + 2 + topic.len()] + bytes[start + 3 + topic.len()]
                == publish.pkid
            &&& bytes.skip(bytes.len() - publish.payload.len()) == publish.payload
        }),
{
    let bytes = publish_bytes(publish);
    let topic = encode_utf8(publish.topic);
    let length = length_bytes(publish.remaining_length());
    law_length_reads_back(publish.remaining_length());
    let start = 1 + length.len() as int;
    assert(bytes.subrange(1, start) =~= length);
    assert(bytes[start - 1] == length.last());
    assert(bytes.subrange(start + 2, start + 2 + topic.len()) =~= topic);
    assert(bytes.skip(bytes.len() - publish.payload.len()) =~= publish.payload);
}

/// A packet that is longer than a length field can say, or that lacks the id that its delivery
/// takes, has no encoding, and every other packet has one.
pub proof fn law_encodable_packets(publish: PublishView)
    ensures
        ({
            let id: int = if publish.qos == QoS::AtMostOnce || publish.pkid == 0 { 0 } else { 2 };
            let length = 2 + encode_utf8(publish.topic).len() + id + publish.payload.len();
            &&& publish.encodable() <==> length <= 268_435_455 && (publish.qos == QoS::AtMostOnce
                || publish.pkid != 0)
            &&& length > 268_435_455 ==> refusal(publish) == "payload is too long"@
            &&& length <= 268_435_455 ==> refusal(publish) == "Packet id Zero"@
            &&& publish.topic_fits() <==> encode_utf8(publish.topic).len() <= 65535
        }),
{
}

} // verus!
