use vstd::prelude::*;

use crate::error::{wrapped_message, Error, ErrorKind};

verus! {

/// What the generation stream and the output channel report to the sink.
pub enum StreamEvent {
    /// A batch of chunks arrived, in the order the service produced them.
    Batch(Vec<String>),
    /// The service closed the stream.
    End,
    /// Reading the next batch failed; the description of the failure.
    ReadFailed(String),
    /// Writing to the output failed; the description of the failure.
    WriteFailed(String),
    /// Flushing the output failed; the description of the failure.
    FlushFailed(String),
}

/// What the driver of the sink must do next.
pub enum SinkAction {
    /// Write the text to the output channel, flush it, then fetch the next batch.
    WriteAndFlush(String),
    /// The stream ended normally; the summary is complete.
    Finish,
    /// The run failed; stop consuming and report the error.
    Abort(Error),
    /// The sink has already finished or failed; nothing more is done.
    Stopped,
}

/// Where the sink stands.
#[derive(Clone, Copy, Debug, PartialEq, Eq, Structural)]
pub enum SinkPhase {
    Streaming,
    Finished,
    Failed,
}

/// An event seen as values.
pub enum EventModel {
    Batch(Seq<Seq<char>>),
    End,
    ReadFailed(Seq<char>),
    WriteFailed(Seq<char>),
    FlushFailed(Seq<char>),
}

/// The sink seen as values: its phase and all text it has sent out so far.
pub struct SinkModel {
    pub phase: SinkPhase,
    pub emitted: Seq<char>,
}

impl View for StreamEvent {
    type V = EventModel;

    open spec fn view(&self) -> EventModel {
        match self {
            StreamEvent::Batch(chunks) => EventModel::Batch(chunks@.map_values(|c: String| c@)),
            StreamEvent::End => EventModel::End,
            StreamEvent::ReadFailed(m) => EventModel::ReadFailed(m@),
            StreamEvent::WriteFailed(m) => EventModel::WriteFailed(m@),
            StreamEvent::FlushFailed(m) => EventModel::FlushFailed(m@),
        }
    }
}

/// The chunks of one batch, concatenated in order.
pub open spec fn chunks_text(chunks: Seq<Seq<char>>) -> Seq<char>
    decreases chunks.len(),
{
    if chunks.len() == 0 {
        Seq::empty()
    } else {
        chunks_text(chunks.drop_last()) + chunks.last()
    }
}

/// The text of a sequence of batches, batch after batch.
pub open spec fn batches_text(batches: Seq<Seq<Seq<char>>>) -> Seq<char>
    decreases batches.len(),
{
    if batches.len() == 0 {
        Seq::empty()
    } else {
        batches_text(batches.drop_last()) + chunks_text(batches.last())
    }
}

/// The events of a stream that delivers `batches` and nothing else.
pub open spec fn batch_events(batches: Seq<Seq<Seq<char>>>) -> Seq<EventModel> {
    batches.map_values(|b: Seq<Seq<char>>| EventModel::Batch(b))
}

/// A sink before the first event.
pub open spec fn initial_sink() -> SinkModel {
    SinkModel { phase: SinkPhase::Streaming, emitted: Seq::empty() }
}

/// The sink after one event. Once finished or failed it no longer changes.
pub open spec fn next_sink(s: SinkModel, e: EventModel) -> SinkModel {
    if s.phase != SinkPhase::Streaming {
        s
    } else {
        match e {
            EventModel::Batch(chunks) => SinkModel {
                phase: SinkPhase::Streaming,
                emitted: s.emitted + chunks_text(chunks),
            },
            EventModel::End => SinkModel { phase: SinkPhase::Finished, emitted: s.emitted },
            EventModel::ReadFailed(_) => SinkModel { phase: SinkPhase::Failed, emitted: s.emitted },
            EventModel::WriteFailed(_) => SinkModel { phase: SinkPhase::Failed, emitted: s.emitted },
            EventModel::FlushFailed(_) => SinkModel { phase: SinkPhase::Failed, emitted: s.emitted },
        }
    }
}

/// The sink after a sequence of events, taken in order.
pub open spec fn run_sink(s: SinkModel, events: Seq<EventModel>) -> SinkModel
    decreases events.len(),
{
    if events.len() == 0 {
        s
    } else {
        next_sink(run_sink(s, events.drop_last()), events.last())
    }
}

/// Running a sink over two runs of events is running it over the first,
/// then over the second.
pub proof fn lemma_run_sink_append(s: SinkModel, a: Seq<EventModel>, b: Seq<EventModel>)
    ensures
        run_sink(s, a + b) == run_sink(run_sink(s, a), b),
    decreases b.len(),
{
    if b.len() == 0 {
        assert(a + b =~= a);
    } else {
        assert((a + b).drop_last() =~= a + b.drop_last());
        assert((a + b).last() == b.last());
        lemma_run_sink_append(s, a, b.drop_last());
    }
}

/// A sink that has finished or failed stays as it is, whatever comes next.
pub proof fn lemma_stopped_sink_stays(s: SinkModel, events: Seq<EventModel>)
    requires
        s.phase != SinkPhase::Streaming,
    ensures
        run_sink(s, events) == s,
    decreases events.len(),
{
    if events.len() > 0 {
        lemma_stopped_sink_stays(s, events.drop_last());
    }
}

/// Order is kept: a stream of batches sends out exactly the batches' text,
/// batch after batch and chunk after chunk, and the sink is still streaming.
pub proof fn lemma_batches_emitted_in_order(batches: Seq<Seq<Seq<char>>>)
    ensures
        run_sink(initial_sink(), batch_events(batches))
            == (SinkModel { phase: SinkPhase::Streaming, emitted: batches_text(batches) }),
    decreases batches.len(),
{
    if batches.len() > 0 {
        assert(batch_events(batches).drop_last() =~= batch_events(batches.drop_last()));
        lemma_batches_emitted_in_order(batches.drop_last());
    }
}

/// A read failure after some batches leaves exactly the text of those
/// batches sent out, fails the sink, and nothing after it is written.
pub proof fn lemma_read_failure_keeps_prefix(
    batches: Seq<Seq<Seq<char>>>,
    message: Seq<char>,
    rest: Seq<EventModel>,
)
    ensures
        run_sink(initial_sink(), batch_events(batches).push(EventModel::ReadFailed(message)) + rest)
            == (SinkModel { phase: SinkPhase::Failed, emitted: batches_text(batches) }),
{
    let before = batch_events(batches).push(EventModel::ReadFailed(message));
    lemma_run_sink_append(initial_sink(), before, rest);
    assert(before.drop_last() =~= batch_events(batches));
    lemma_batches_emitted_in_order(batches);
    lemma_stopped_sink_stays(run_sink(initial_sink(), before), rest);
}

/// The action owed for `e` by a sink in phase `phase`.
pub open spec fn action_fits(phase: SinkPhase, e: EventModel, a: SinkAction) -> bool {
    if phase != SinkPhase::Streaming {
        a is Stopped
    } else {
        match e {
            EventModel::Batch(chunks) => a matches SinkAction::WriteAndFlush(t) && t@ == chunks_text(chunks),
            EventModel::End => a is Finish,
            EventModel::ReadFailed(m) => a matches SinkAction::Abort(err) && err.kind == ErrorKind::Generation
                && err.message@ == wrapped_message("Failed to get response"@, m),
            EventModel::WriteFailed(m) => a matches SinkAction::Abort(err) && err.kind == ErrorKind::Io
                && err.message@ == wrapped_message("Failed to write to stdout"@, m),
            EventModel::FlushFailed(m) => a matches SinkAction::Abort(err) && err.kind == ErrorKind::Io
                && err.message@ == wrapped_message("Failed to flush stdout"@, m),
        }
    }
}

/// Concatenates the chunks of one batch, in order.
pub fn batch_text(chunks: &Vec<String>) -> (r: String)
    ensures
        r@ == chunks_text(chunks@.map_values(|c: String| c@)),
{
    let ghost texts = chunks@.map_values(|c: String| c@);
    let mut out = String::new();
    let mut i: usize = 0;
    while i < chunks.len()
        invariant
            i <= chunks@.len(),
            texts == chunks@.map_values(|c: String| c@),
            out@ == chunks_text(texts.subrange(0, i as int)),
        decreases chunks@.len() - i,
    {
        assert(texts.subrange(0, i as int + 1).drop_last() =~= texts.subrange(0, i as int));
        out.append(chunks[i].as_str());
        i = i + 1;
    }
    assert(texts.subrange(0, chunks@.len() as int) =~= texts);
    out
}

/// Consumes a generation stream batch by batch: each batch is written out
/// whole and flushed before the next is fetched, nothing is reordered, and
/// the first failure ends consumption with what was already flushed left as
/// it is.
pub struct StreamSink {
    phase: SinkPhase,
    emitted: Ghost<Seq<char>>,
}

impl View for StreamSink {
    type V = SinkModel;

    closed spec fn view(&self) -> SinkModel {
        SinkModel { phase: self.phase, emitted: self.emitted@ }
    }
}

impl StreamSink {
    /// A sink that has seen no event.
    pub fn new() -> (r: Self)
        ensures
            r@ == initial_sink(),
    {
        StreamSink { phase: SinkPhase::Streaming, emitted: Ghost(Seq::empty()) }
    }

    /// Where the sink stands.
    pub fn phase(&self) -> (r: SinkPhase)
        ensures
            r == self@.phase,
    {
        self.phase
    }

    /// Takes one event and says what to do about it.
    pub fn step(&mut self, event: StreamEvent) -> (r: SinkAction)
        ensures
            final(self)@ == next_sink(old(self)@, event@),
            action_fits(old(self)@.phase, event@, r),
    {
        if self.phase != SinkPhase::Streaming {
            return SinkAction::Stopped;
        }
        match event {
            StreamEvent::Batch(chunks) => {
                let text = batch_text(&chunks);
                self.emitted = Ghost(self.emitted@ + text@);
                SinkAction::WriteAndFlush(text)
            },
            StreamEvent::End => {
                self.phase = SinkPhase::Finished;
                SinkAction::Finish
            },
            StreamEvent::ReadFailed(m) => {
                self.phase = SinkPhase::Failed;
                SinkAction::Abort(Error::wrap(ErrorKind::Generation, "Failed to get response", m.as_str()))
            },
            StreamEvent::WriteFailed(m) => {
                self.phase = SinkPhase::Failed;
                SinkAction::Abort(Error::wrap(ErrorKind::Io, "Failed to write to stdout", m.as_str()))
            },
            StreamEvent::FlushFailed(m) => {
                self.phase = SinkPhase::Failed;
                SinkAction::Abort(Error::wrap(ErrorKind::Io, "Failed to flush stdout", m.as_str()))
            },
        }
    }
}

} // verus!
