//! What collectors hand over for publishing.

use vstd::prelude::*;

verus! {

/// The channel that something was awaited on has been closed by all its senders.
#[derive(Clone, Copy, Debug, PartialEq, Eq, Structural)]
pub struct RecvError;

/// A batch of points of one stream.
#[derive(Debug)]
pub struct Package {
    pub stream: String,
    pub topic: String,
    /// Number of points in the batch.
    pub len: usize,
    pub batch_latency: u64,
    /// Description and number of the anomalies that were noticed while collecting.
    pub anomalies: Option<(String, usize)>,
    /// The serialized points, or why they cannot be serialized.
    pub serialized: Result<Vec<u8>, String>,
}

/// The mathematical value of a [`Package`].
pub struct PackageView {
    pub stream: Seq<char>,
    pub topic: Seq<char>,
    pub len: usize,
    pub batch_latency: u64,
    pub anomalies: Option<(Seq<char>, usize)>,
    pub serialized: Result<Seq<u8>, Seq<char>>,
}

impl View for Package {
    type V = PackageView;

    open spec fn view(&self) -> PackageView {
        PackageView {
            stream: self.stream@,
            topic: self.topic@,
            len: self.len,
            batch_latency: self.batch_latency,
            anomalies: match self.anomalies {
                Some((errors, count)) => Some((errors@, count)),
                None => None,
            },
            serialized: bytes_view(self.serialized),
        }
    }
}

/// The mathematical value of the outcome of a serialization.
pub open spec fn bytes_view(outcome: Result<Vec<u8>, String>) -> Result<Seq<u8>, Seq<char>> {
    match outcome {
        Ok(bytes) => Ok(bytes@),
        Err(text) => Err(text@),
    }
}

/// The mathematical value of what was received on a collector's channel.
pub open spec fn received_view(received: Result<Package, RecvError>) -> Result<
    PackageView,
    RecvError,
> {
    match received {
        Ok(package) => Ok(package@),
        Err(e) => Err(e),
    }
}

} // verus!
