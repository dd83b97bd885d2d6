//! Streams, which make batches of points.

use vstd::prelude::*;

verus! {

/// Points of a stream that are sent together.
#[derive(Debug)]
pub struct Batch<T> {
    pub stream: String,
    pub topic: String,
    pub points: Vec<T>,
}

/// The mathematical value of a [`Batch`].
pub struct BatchView<T> {
    pub stream: Seq<char>,
    pub topic: Seq<char>,
    pub points: Seq<T>,
}

impl<T> View for Batch<T> {
    type V = BatchView<T>;

    open spec fn view(&self) -> BatchView<T> {
        BatchView { stream: self.stream@, topic: self.topic@, points: self.points@ }
    }
}

/// The mathematical value of a batch, if there is one.
pub open spec fn batch_view<T>(batch: Option<Batch<T>>) -> Option<BatchView<T>> {
    match batch {
        Some(batch) => Some(batch@),
        None => None,
    }
}

/// A stream, with the points that are not sent yet.
#[derive(Debug)]
pub struct Stream<T> {
    name: String,
    topic: String,
    max_buffer_size: usize,
    buffer: Vec<T>,
}

/// The mathematical value of a [`Stream`].
pub struct StreamView<T> {
    pub name: Seq<char>,
    pub topic: Seq<char>,
    pub max_buffer_size: usize,
    /// The points that are not sent yet, oldest first.
    pub held: Seq<T>,
}

impl<T> View for Stream<T> {
    type V = StreamView<T>;

    closed spec fn view(&self) -> StreamView<T> {
        StreamView {
            name: self.name@,
            topic: self.topic@,
            max_buffer_size: self.max_buffer_size,
            held: self.buffer@,
        }
    }
}

impl<T> StreamView<T> {
    pub open spec fn holding(self, points: Seq<T>) -> StreamView<T> {
        StreamView { held: points, ..self }
    }

    /// What the stream sends of the points.
    pub open spec fn batch(self, points: Seq<T>) -> BatchView<T> {
        BatchView { stream: self.name, topic: self.topic, points }
    }

    /// A point is added. A batch is made as soon as it is full.
    pub open spec fn filled(self, point: T) -> (StreamView<T>, Option<BatchView<T>>) {
        let points = self.held.push(point);
        if points.len() < self.max_buffer_size {
            (self.holding(points), None)
        } else {
            (self.holding(seq![]), Some(self.batch(points)))
        }
    }

    /// What there is makes a batch, full or not.
    pub open spec fn flushed(self) -> (StreamView<T>, Option<BatchView<T>>) {
        if self.held.len() == 0 {
            (self, None)
        } else {
            (self.holding(seq![]), Some(self.batch(self.held)))
        }
    }
}

impl<T> Stream<T> {
    /// A stream that has no points yet.
    pub fn new(name: String, topic: String, max_buffer_size: usize) -> (stream: Stream<T>)
        ensures
            stream@ == (StreamView {
                name: name@,
                topic: topic@,
                max_buffer_size,
                held: Seq::<T>::empty(),
            }),
    {
        Stream { name, topic, max_buffer_size, buffer: Vec::new() }
    }

    /// Adds a point, and returns the batch if that makes it full.
    pub fn fill(&mut self, point: T) -> (batch: Option<Batch<T>>)
        ensures
            (final(self)@, batch_view(batch)) == old(self)@.filled(point),
    {
        self.buffer.push(point);
        if self.buffer.len() < self.max_buffer_size {
            None
        } else {
            self.flush()
        }
    }

    /// Returns a batch of what there is, if there is anything.
    pub fn flush(&mut self) -> (batch: Option<Batch<T>>)
        ensures
            (final(self)@, batch_view(batch)) == old(self)@.flushed(),
    {
        if self.buffer.len() == 0 {
            return None;
        }
        let mut points: Vec<T> = Vec::new();
        std::mem::swap(&mut points, &mut self.buffer);
        assert(self.buffer@ =~= seq![]);
        Some(Batch { stream: self.name.clone(), topic: self.topic.clone(), points })
    }
}

/// Something that is asked of a stream.
pub enum Demand<T> {
    Fill(T),
    Flush,
}

/// What one demand leads to.
pub open spec fn served<T>(stream: StreamView<T>, demand: Demand<T>) -> (
    StreamView<T>,
    Option<BatchView<T>>,
) {
    match demand {
        Demand::Fill(point) => stream.filled(point),
        Demand::Flush => stream.flushed(),
    }
}

/// The stream after the demands.
pub open spec fn after<T>(stream: StreamView<T>, demands: Seq<Demand<T>>) -> StreamView<T>
    decreases demands.len(),
{
    if demands.len() == 0 {
        stream
    } else {
        served(after(stream, demands.drop_last()), demands.last()).0
    }
}

/// The batches that the demands make, oldest first.
pub open spec fn sent<T>(stream: StreamView<T>, demands: Seq<Demand<T>>) -> Seq<BatchView<T>>
    decreases demands.len(),
{
    if demands.len() == 0 {
        seq![]
    } else {
        let earlier = sent(stream, demands.drop_last());
        match served(after(stream, demands.drop_last()), demands.last()).1 {
            Some(batch) => earlier.push(batch),
            None => earlier,
        }
    }
}

/// The points that the demands add, oldest first.
pub open spec fn added<T>(demands: Seq<Demand<T>>) -> Seq<T>
    decreases demands.len(),
{
    if demands.len() == 0 {
        seq![]
    } else {
        match demands.last() {
            Demand::Fill(point) => added(demands.drop_last()).push(point),
            Demand::Flush => added(demands.drop_last()),
        }
    }
}

/// The points of batches, oldest first.
pub open spec fn points<T>(batches: Seq<BatchView<T>>) -> Seq<T>
    decreases batches.len(),
{
    if batches.len() == 0 {
        seq![]
    } else {
        points(batches.drop_last()) + batches.last().points
    }
}

/// A stream neither loses, repeats nor reorders points: those of its batches, and then those it
/// still holds, are those that were added. What it holds is less than a full batch, no batch is
/// empty, and every batch carries the stream's name and topic.
pub proof fn law_points_are_sent_in_order<T>(stream: StreamView<T>, demands: Seq<Demand<T>>)
    requires
        stream.held.len() == 0,
    ensures
        points(sent(stream, demands)) + after(stream, demands).held == added(demands),
        ({
            let end = after(stream, demands);
            &&& end == stream.holding(end.held)
            &&& end.held.len() == 0 || end.held.len() < stream.max_buffer_size
        }),
        forall|i: int|
            #![trigger sent(stream, demands)[i]]
            0 <= i < sent(stream, demands).len() ==> {
                let batch = sent(stream, demands)[i];
                &&& batch.stream == stream.name
                &&& batch.topic == stream.topic
                &&& batch.points.len() > 0
            },
    decreases demands.len(),
{
    if demands.len() == 0 {
        assert(stream.held =~= seq![]);
        assert(points(sent(stream, demands)) =~= seq![]);
    } else {
        let earlier = demands.drop_last();
        law_points_are_sent_in_order(stream, earlier);
        let (end, batch) = served(after(stream, earlier), demands.last());
        let batches = sent(stream, earlier);
        if batch is Some {
            assert(batches.push(batch->0).drop_last() =~= batches);
        }
        assert(points(sent(stream, demands)) + end.held =~= added(demands));
    }
}

/// A batch is sent with exactly the point that makes it full, and holds all points up to it; until
/// then every point is held. A flush sends whatever is held, and nothing where nothing is.
pub proof fn law_batches_are_sent_when_full<T>(stream: StreamView<T>, point: T)
    ensures
        ({
            let (next, batch) = stream.filled(point);
            let full = stream.held.len() + 1 >= stream.max_buffer_size;
            &&& batch is Some <==> full
            &&& full ==> {
                &&& batch->0.points == stream.held.push(point)
                &&& batch->0.stream == stream.name
                &&& batch->0.topic == stream.topic
                &&& next.held.len() == 0
            }
            &&& !full ==> next.held == stream.held.push(point)
        }),
        ({
            let (next, batch) = stream.flushed();
            &&& batch is Some <==> stream.held.len() > 0
            &&& batch is Some ==> {
                &&& batch->0.points == stream.held
                &&& batch->0.stream == stream.name
                &&& batch->0.topic == stream.topic
            }
            &&& next.held.len() == 0
        }),
        forall|demand: Demand<T>|
            {
                let next = #[trigger] served(stream, demand).0;
                &&& next.name == stream.name
                &&& next.topic == stream.topic
                &&& next.max_buffer_size == stream.max_buffer_size
            },
{
}

/// As long as no flush is asked for, every batch is full: it holds as many points as fit, and one
/// where none do.
pub proof fn law_unflushed_batches_are_full<T>(stream: StreamView<T>, demands: Seq<Demand<T>>, i: int)
    requires
        stream.held.len() == 0,
        forall|k: int| 0 <= k < demands.len() ==> #[trigger] demands[k] is Fill,
        0 <= i < sent(stream, demands).len(),
    ensures
        sent(stream, demands)[i].points.len() == if stream.max_buffer_size == 0 {
            1int
        } else {
            stream.max_buffer_size as int
        },
    decreases demands.len(),
{
    if demands.len() > 0 {
        let earlier = demands.drop_last();
        assert forall|k: int| 0 <= k < earlier.len() implies #[trigger] earlier[k] is Fill by {
            assert(demands[k] is Fill);
        }
        assert(demands[demands.len() - 1] is Fill);
        law_points_are_sent_in_order(stream, earlier);
        if i < sent(stream, earlier).len() {
            law_unflushed_batches_are_full(stream, earlier, i);
        }
    }
}

} // verus!
