//! The data of a stream.

use serde_json::Value;
use vstd::prelude::*;

verus! {

/// A JSON document of the `serde_json` crate, which is carried along unseen.
#[verifier::external_type_specification]
#[verifier::external_body]
pub struct ExValue(serde_json::Value);

/// Something that was measured, with its place in the stream.
pub trait Point {
    fn sequence(&self) -> u32;

    fn timestamp(&self) -> u64;
}

/// A point as an application sends it.
#[derive(Debug)]
pub struct Payload {
    pub stream: String,
    pub sequence: u32,
    pub timestamp: u64,
    pub payload: Value,
}

/// The mathematical value of a [`Payload`].
pub struct PayloadView {
    pub stream: Seq<char>,
    pub sequence: u32,
    pub timestamp: u64,
    pub payload: Value,
}

impl View for Payload {
    type V = PayloadView;

    open spec fn view(&self) -> PayloadView {
        PayloadView {
            stream: self.stream@,
            sequence: self.sequence,
            timestamp: self.timestamp,
            payload: self.payload,
        }
    }
}

impl Point for Payload {
    fn sequence(&self) -> (sequence: u32)
        ensures
            sequence == self@.sequence,
    {
        self.sequence
    }

    fn timestamp(&self) -> (timestamp: u64)
        ensures
            timestamp == self@.timestamp,
    {
        self.timestamp
    }
}

} // verus!
