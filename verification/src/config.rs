//! The configuration that the uplink's decisions depend on.

use vstd::prelude::*;

verus! {

/// Where and how much data is kept on disk while it cannot be sent.
#[derive(Debug)]
pub struct Persistence {
    pub path: String,
    pub max_file_size: usize,
    pub max_file_count: usize,
}

/// A stream that is known from the start.
#[derive(Debug)]
pub struct StreamConfig {
    pub name: String,
    pub topic: String,
    pub buf_size: usize,
}

/// The mathematical value of a [`StreamConfig`].
pub struct StreamConfigView {
    pub name: Seq<char>,
    pub topic: Seq<char>,
    pub buf_size: usize,
}

impl View for StreamConfig {
    type V = StreamConfigView;

    open spec fn view(&self) -> StreamConfigView {
        StreamConfigView { name: self.name@, topic: self.topic@, buf_size: self.buf_size }
    }
}

/// The mathematical value of a list of streams.
pub open spec fn streams_view(streams: Seq<StreamConfig>) -> Seq<StreamConfigView> {
    streams.map_values(|stream: StreamConfig| stream@)
}

/// Whether no two streams share a name.
pub open spec fn distinct(streams: Seq<StreamConfigView>) -> bool {
    forall|i: int, j: int|
        0 <= i < j < streams.len() ==> #[trigger] streams[i].name != #[trigger] streams[j].name
}

/// The names of streams.
pub open spec fn stream_names(streams: Seq<StreamConfigView>) -> Set<Seq<char>> {
    streams.map_values(|stream: StreamConfigView| stream.name).to_set()
}

/// The first stream of a name; where names are distinct, the stream of that name.
pub open spec fn lookup(streams: Seq<StreamConfigView>, name: Seq<char>) -> Option<StreamConfigView>
    decreases streams.len(),
{
    if streams.len() == 0 {
        None
    } else if streams[0].name == name {
        Some(streams[0])
    } else {
        lookup(streams.drop_first(), name)
    }
}

/// A stream is found by its name exactly where there is one of that name.
pub proof fn lemma_lookup(streams: Seq<StreamConfigView>, name: Seq<char>)
    ensures
        lookup(streams, name) is None <==> forall|i: int|
            0 <= i < streams.len() ==> #[trigger] streams[i].name != name,
        lookup(streams, name) matches Some(stream) ==> stream.name == name && streams.contains(
            stream,
        ),
        distinct(streams) ==> forall|i: int|
            0 <= i < streams.len() && #[trigger] streams[i].name == name ==> lookup(streams, name)
                == Some(streams[i]),
    decreases streams.len(),
{
    if streams.len() > 0 {
        let rest = streams.drop_first();
        lemma_lookup(rest, name);
        assert forall|i: int| 1 <= i < streams.len() implies streams[i] == #[trigger] rest[i - 1] by {}
        if streams[0].name == name {
            assert(streams.contains(streams[0]));
        } else if lookup(rest, name) is Some {
            let i = choose|i: int| 0 <= i < rest.len() && rest[i] == lookup(rest, name)->0;
            assert(streams[i + 1] == rest[i]);
            assert(streams[i + 1].name == name);
        } else {
            assert forall|i: int| 0 <= i < streams.len() implies #[trigger] streams[i].name
                != name by {
                if i > 0 {
                    assert(rest[i - 1].name != name);
                }
            }
        }
        if distinct(streams) {
            assert forall|i: int, j: int| 0 <= i < j < rest.len() implies #[trigger] rest[i].name
                != #[trigger] rest[j].name by {
                assert(streams[i + 1].name != streams[j + 1].name);
            }
            assert forall|i: int|
                0 <= i < streams.len() && #[trigger] streams[i].name == name implies lookup(
                streams,
                name,
            ) == Some(streams[i]) by {
                if i > 0 {
                    assert(rest[i - 1].name == name);
                    assert(streams[0].name != streams[i].name);
                }
            }
        }
    }
}

/// Streams by their names, each name once.
#[derive(Debug)]
pub struct Streams {
    list: Vec<StreamConfig>,
}

impl View for Streams {
    type V = Seq<StreamConfigView>;

    closed spec fn view(&self) -> Seq<StreamConfigView> {
        streams_view(self.list@)
    }
}

impl Streams {
    /// No two streams share a name.
    #[verifier::type_invariant]
    spec fn names_are_distinct(self) -> bool {
        distinct(streams_view(self.list@))
    }

    pub fn new() -> (streams: Streams)
        ensures
            streams@ == Seq::<StreamConfigView>::empty(),
    {
        let streams = Streams { list: Vec::new() };
        assert(streams@ =~= seq![]);
        streams
    }

    /// The position of the stream of a name.
    fn position(&self, name: &String) -> (position: Option<usize>)
        ensures
            match position {
                Some(i) => {
                    &&& i < self.list@.len()
                    &&& self.list@[i as int].name@ == name@
                    &&& forall|j: int| 0 <= j < i ==> #[trigger] self.list@[j].name@ != name@
                },
                None => forall|j: int|
                    0 <= j < self.list@.len() ==> #[trigger] self.list@[j].name@ != name@,
            },
    {
        let count = self.list.len();
        for i in 0..count
            invariant
                count == self.list@.len(),
                forall|j: int| 0 <= j < i ==> #[trigger] self.list@[j].name@ != name@,
        {
            if self.list[i].name == *name {
                return Some(i);
            }
        }
        None
    }

    /// Adds a stream, in place of the one of the same name if there is one.
    pub fn insert(&mut self, stream: StreamConfig)
        ensures
            forall|name: Seq<char>| #[trigger]
                lookup(final(self)@, name) == if name == stream.name@ {
                    Some(stream@)
                } else {
                    lookup(old(self)@, name)
                },
            final(self)@.len() == old(self)@.len() + if lookup(
                old(self)@,
                stream.name@,
            ) is None {
                1int
            } else {
                0
            },
    {
        proof {
            use_type_invariant(&*self);
        }
        let position = self.position(&stream.name);
        let mut list: Vec<StreamConfig> = Vec::new();
        std::mem::swap(&mut list, &mut self.list);
        let ghost before = streams_view(list@);
        let ghost added = stream@;
        match position {
            Some(i) => list.set(i, stream),
            None => list.push(stream),
        }
        let ghost after = streams_view(list@);
        proof {
            lemma_lookup(before, added.name);
            let at = match position {
                Some(i) => i as int,
                None => before.len() as int,
            };
            assert(after[at] == added);
            assert(forall|i: int|
                0 <= i < before.len() && i != at ==> #[trigger] after[i] == before[i]);
            match position {
                Some(i) => {
                    assert(before[i as int].name == added.name);
                },
                None => {
                    assert(forall|j: int|
                        0 <= j < before.len() ==> #[trigger] before[j].name != added.name);
                },
            }
            assert(distinct(after));
            assert forall|name: Seq<char>| #[trigger] lookup(after, name) == if name
                == added.name {
                Some(added)
            } else {
                lookup(before, name)
            } by {
                lemma_lookup(before, name);
                lemma_lookup(after, name);
                if name == added.name {
                    assert(after[at].name == name);
                } else if lookup(before, name) is Some {
                    let i = choose|i: int|
                        0 <= i < before.len() && before[i] == lookup(before, name)->0;
                    assert(after[i].name == name);
                } else {
                    assert forall|i: int| 0 <= i < after.len() implies #[trigger] after[i].name
                        != name by {
                        if i != at {
                            assert(before[i].name != name);
                        }
                    }
                }
            }
        }
        self.list = list;
    }

    /// The stream of a name.
    pub fn get(&self, name: &String) -> (stream: Option<&StreamConfig>)
        ensures
            match stream {
                Some(stream) => lookup(self@, name@) == Some(stream@),
                None => lookup(self@, name@) is None,
            },
    {
        proof {
            use_type_invariant(self);
            lemma_lookup(self@, name@);
        }
        match self.position(name) {
            Some(i) => {
                assert(self@[i as int].name == name@);
                Some(&self.list[i])
            },
            None => {
                assert(forall|j: int| 0 <= j < self@.len() ==> #[trigger] self@[j].name != name@);
                None
            },
        }
    }

    /// All streams.
    pub fn to_vec(&self) -> (streams: Vec<StreamConfig>)
        ensures
            streams_view(streams@) == self@,
            distinct(self@),
    {
        proof {
            use_type_invariant(self);
        }
        let mut streams: Vec<StreamConfig> = Vec::new();
        let count = self.list.len();
        for i in 0..count
            invariant
                count == self.list@.len(),
                streams@.len() == i,
                forall|j: int| 0 <= j < i ==> #[trigger] streams@[j]@ == self.list@[j]@,
        {
            let stream = &self.list[i];
            streams.push(
                StreamConfig {
                    name: stream.name.clone(),
                    topic: stream.topic.clone(),
                    buf_size: stream.buf_size,
                },
            );
        }
        assert(streams_view(streams@) =~= self@);
        streams
    }
}

/// Collection of system statistics.
#[derive(Debug)]
pub struct Stats {
    pub enabled: bool,
    pub process_names: Vec<String>,
}

#[derive(Debug)]
pub struct Config {
    pub project_id: String,
    pub device_id: String,
    pub broker: String,
    pub port: u16,
    pub bridge_port: u16,
    /// Whether credentials for a secure connection are configured.
    pub authentication: bool,
    pub max_packet_size: usize,
    pub max_inflight: u16,
    pub keep_alive: u64,
    /// Seconds after which a stream that is not full is flushed.
    pub flush_period: Option<u64>,
    pub streams: Streams,
    pub persistence: Option<Persistence>,
    /// Where downloaded files go.
    pub download_path: Option<String>,
    pub stats: Stats,
}

/// The names of streams are the names that some stream has.
pub proof fn law_stream_names(streams: Seq<StreamConfigView>, name: Seq<char>)
    ensures
        stream_names(streams).contains(name) <==> exists|i: int|
            0 <= i < streams.len() && #[trigger] streams[i].name == name,
{
    let names = streams.map_values(|stream: StreamConfigView| stream.name);
    if stream_names(streams).contains(name) {
        let i = choose|i: int| 0 <= i < names.len() && names[i] == name;
        assert(streams[i].name == name);
    }
    if exists|i: int| 0 <= i < streams.len() && #[trigger] streams[i].name == name {
        let i = choose|i: int| 0 <= i < streams.len() && #[trigger] streams[i].name == name;
        assert(names[i] == name);
    }
}

/// Names are distinct where no two positions share one.
pub proof fn law_distinct(streams: Seq<StreamConfigView>, i: int, j: int)
    requires
        distinct(streams),
        0 <= i < streams.len(),
        0 <= j < streams.len(),
    ensures
        streams[i].name == streams[j].name ==> i == j,
{
}

} // verus!
