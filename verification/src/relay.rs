//! The relay's state machine.  [`ScannedStream`] is pull-driven: the caller
//! observes one event on its upstream source (a chunk, an upstream error, or
//! exhaustion), hands it to [`ScannedStream::step`], and performs the
//! connection I/O that the returned [`Action`] asks for.

use crate::error::Error;
use crate::verdict::{classification, text_contains, Verdict};
use crate::wire::{encode_chunk, framed, preamble, preamble_bytes, terminator, terminator_bytes};
use vstd::prelude::*;
use vstd::utf8::{decode_utf8, valid_utf8};

verus! {

/// The relay's state between pulls.  `started` is set once the first data
/// chunk has been relayed and guards the preamble; `finished` is set once
/// upstream exhaustion has been observed and guards the terminal dialogue.
pub struct ScannedStream {
    /// False until the first chunk is relayed; the preamble is written
    /// exactly when a chunk arrives while this is false.
    pub started: bool,
    /// False until upstream exhaustion has been observed; the terminator
    /// write and response read happen exactly when exhaustion is observed
    /// while this is false.
    pub finished: bool,
}

/// One observation on the upstream source.
pub enum Event {
    /// Upstream yielded a data chunk.
    Chunk(Vec<u8>),
    /// Upstream yielded an error; carries its description.
    Failed(String),
    /// Upstream signalled that no more items will come.
    Exhausted,
}

/// What the caller must do after a step.
pub enum Action {
    /// Write `wire` to the daemon connection, then yield `chunk` — the
    /// original upstream chunk, unmodified — to the consumer.
    Forward { wire: Vec<u8>, chunk: Vec<u8> },
    /// Yield this error to the consumer; the daemon dialogue is left as it
    /// stands.
    Fail(Error),
    /// Write `wire` (the terminator) to the daemon connection, read the
    /// daemon's whole response, classify it, and yield a verdict error or
    /// end the sequence.
    Finish { wire: Vec<u8> },
    /// Signal end of the sequence; the dialogue already completed.
    Done,
}

/// The bytes a chunk step writes to the connection: the chunk's wire frames,
/// preceded by the preamble when the dialogue has not started yet.
pub open spec fn chunk_wire(started: bool, data: Seq<u8>) -> Seq<u8> {
    if started {
        framed(data)
    } else {
        preamble() + framed(data)
    }
}

/// The state after a chunk step.
pub open spec fn after_chunk(s: ScannedStream) -> ScannedStream {
    ScannedStream { started: true, finished: s.finished }
}

/// The state after an exhaustion step.
pub open spec fn after_end(s: ScannedStream) -> ScannedStream {
    ScannedStream { started: s.started, finished: true }
}

/// The bytes an exhaustion step writes: the terminator, unless the dialogue
/// already completed.
pub open spec fn end_wire(s: ScannedStream) -> Seq<u8> {
    if s.finished {
        Seq::empty()
    } else {
        terminator()
    }
}

/// True when an exhaustion step performs the terminal dialogue (terminator
/// write and response read).
pub open spec fn end_dialogue(s: ScannedStream) -> bool {
    !s.finished
}

impl ScannedStream {
    /// Creates a relay whose dialogue has not started; nothing is written
    /// until the first chunk arrives.
    pub fn new() -> (s: Self)
        ensures
            !s.started,
            !s.finished,
    {
        ScannedStream { started: false, finished: false }
    }

    /// Advances the relay by one pull.
    ///
    /// A chunk is framed for the wire (behind the preamble on the first
    /// chunk) and handed back unmodified for the consumer; an upstream error
    /// is wrapped and surfaced without touching the dialogue; the first
    /// exhaustion asks for the terminal dialogue, every later one for plain
    /// end of sequence.
    pub fn step(&mut self, event: Event) -> (action: Action)
        ensures
            match event {
                Event::Chunk(c) => {
                    &&& *final(self) == after_chunk(*old(self))
                    &&& action matches Action::Forward { wire, chunk } && chunk == c && wire@
                        == chunk_wire(old(self).started, c@)
                },
                Event::Failed(m) => {
                    &&& *final(self) == *old(self)
                    &&& action matches Action::Fail(e) && e == Error::Stream(m)
                },
                Event::Exhausted => {
                    &&& *final(self) == after_end(*old(self))
                    &&& if end_dialogue(*old(self)) {
                        action matches Action::Finish { wire } && wire@ == end_wire(*old(self))
                    } else {
                        action is Done
                    }
                },
            },
    {
        match event {
            Event::Chunk(c) => {
                let mut wire: Vec<u8> = if self.started {
                    Vec::new()
                } else {
                    preamble_bytes()
                };
                self.started = true;
                let mut frames = encode_chunk(&c);
                wire.append(&mut frames);
                proof {
                    if old(self).started {
                        assert(wire@ =~= chunk_wire(old(self).started, c@));
                    }
                }
                Action::Forward { wire, chunk: c }
            },
            Event::Failed(m) => Action::Fail(Error::Stream(m)),
            Event::Exhausted => {
                if self.finished {
                    Action::Done
                } else {
                    self.finished = true;
                    Action::Finish { wire: terminator_bytes() }
                }
            },
        }
    }
}

/// One item a consumer can observe when pulling the relay.
pub enum Item {
    /// A data chunk, as upstream produced it.
    Data(Seq<u8>),
    /// The infection verdict, carrying the decoded response text.
    Verdict(Seq<char>),
    /// The daemon's response was not valid UTF-8 text.
    Undecodable,
    /// An upstream error, carrying its description.
    UpstreamError(Seq<char>),
}

/// The bytes written to the connection over a run of chunk steps starting
/// from a relay whose `started` flag is as given: the wire of each chunk in
/// order, with the preamble in front of the first when not yet started.
pub open spec fn relay_wire(started: bool, chunks: Seq<Seq<u8>>) -> Seq<u8>
    decreases chunks.len(),
{
    if chunks.len() == 0 {
        Seq::empty()
    } else {
        chunk_wire(started, chunks.first()) + relay_wire(true, chunks.drop_first())
    }
}

/// The chunks the relay yields over a run of chunk steps: each step's
/// `Forward` action yields exactly the chunk the event carried.
pub open spec fn relay_yields(chunks: Seq<Seq<u8>>) -> Seq<Seq<u8>>
    decreases chunks.len(),
{
    if chunks.len() == 0 {
        Seq::empty()
    } else {
        seq![chunks.first()] + relay_yields(chunks.drop_first())
    }
}

/// The concatenation of the wire frames of each chunk, in order.
pub open spec fn framed_all(chunks: Seq<Seq<u8>>) -> Seq<u8>
    decreases chunks.len(),
{
    if chunks.len() == 0 {
        Seq::empty()
    } else {
        framed(chunks.first()) + framed_all(chunks.drop_first())
    }
}

/// Everything a full dialogue writes to the connection: the wire of every
/// chunk step from a fresh relay, then the terminator that the single
/// exhaustion step writes.
pub open spec fn dialogue_wire(chunks: Seq<Seq<u8>>) -> Seq<u8> {
    relay_wire(false, chunks) + terminator()
}

/// The whole item sequence a consumer sees when upstream yields `chunks` and
/// then exhaustion, and the daemon answers the dialogue with `response`: the
/// yielded chunks, then the terminal item (if any) that classifying the
/// response produces.
pub open spec fn run_items(chunks: Seq<Seq<u8>>, response: Seq<u8>) -> Seq<Item> {
    relay_yields(chunks).map_values(|c: Seq<u8>| Item::Data(c)) + match classification(response) {
        Verdict::Clean => Seq::<Item>::empty(),
        Verdict::Undecodable => seq![Item::Undecodable],
        Verdict::Infected(m) => seq![Item::Verdict(m)],
    }
}

/// The item sequence a consumer sees when upstream yields `chunks` and then
/// an error with the given description: the yielded chunks, then the wrapped
/// error; no dialogue step runs.
pub open spec fn run_items_failed(chunks: Seq<Seq<u8>>, message: Seq<char>) -> Seq<Item> {
    relay_yields(chunks).map_values(|c: Seq<u8>| Item::Data(c)) + seq![
        Item::UpstreamError(message),
    ]
}

/// The relay yields every chunk unchanged, chunk for chunk and in order,
/// whatever the daemon later answers.
pub proof fn lemma_relay_yields_identity(chunks: Seq<Seq<u8>>)
    ensures
        relay_yields(chunks) == chunks,
    decreases chunks.len(),
{
    if chunks.len() == 0 {
        assert(relay_yields(chunks) =~= chunks);
    } else {
        lemma_relay_yields_identity(chunks.drop_first());
        assert(relay_yields(chunks) =~= chunks);
    }
}

/// Passthrough identity: for any finite chunk sequence and a clean daemon
/// response, pulling the relay to completion yields exactly the chunks,
/// unchanged, then end — never a verdict item.
pub proof fn lemma_passthrough_identity(chunks: Seq<Seq<u8>>, response: Seq<u8>)
    requires
        classification(response) is Clean,
    ensures
        run_items(chunks, response) == chunks.map_values(|c: Seq<u8>| Item::Data(c)),
{
    lemma_relay_yields_identity(chunks);
    assert(run_items(chunks, response) =~= chunks.map_values(|c: Seq<u8>| Item::Data(c)));
}

/// Infection surfacing: with the same chunks but a decodable response that
/// contains `"FOUND"`, pulling yields the chunks followed by exactly one
/// verdict item carrying the full response text, then end.
pub proof fn lemma_infection_surfacing(chunks: Seq<Seq<u8>>, response: Seq<u8>)
    requires
        valid_utf8(response),
        text_contains(decode_utf8(response), "FOUND"@),
    ensures
        classification(response) == Verdict::Infected(decode_utf8(response)),
        run_items(chunks, response) == chunks.map_values(|c: Seq<u8>| Item::Data(c)) + seq![
            Item::Verdict(decode_utf8(response)),
        ],
{
    lemma_relay_yields_identity(chunks);
    assert(run_items(chunks, response) =~= chunks.map_values(|c: Seq<u8>| Item::Data(c)) + seq![
        Item::Verdict(decode_utf8(response)),
    ]);
}

/// The wire of a run whose relay has already started is the bare frames.
proof fn lemma_relay_wire_started(chunks: Seq<Seq<u8>>)
    ensures
        relay_wire(true, chunks) == framed_all(chunks),
    decreases chunks.len(),
{
    if chunks.len() == 0 {
        assert(relay_wire(true, chunks) =~= framed_all(chunks));
    } else {
        lemma_relay_wire_started(chunks.drop_first());
        assert(relay_wire(true, chunks) =~= framed_all(chunks));
    }
}

/// Wire framing correctness: over a full dialogue with at least one chunk,
/// the connection receives exactly the preamble, then for each sub-chunk a
/// big-endian length followed by that sub-chunk, in original order, then the
/// zero terminator.
pub proof fn lemma_wire_framing(chunks: Seq<Seq<u8>>)
    requires
        chunks.len() > 0,
    ensures
        dialogue_wire(chunks) == preamble() + framed_all(chunks) + terminator(),
{
    lemma_relay_wire_started(chunks.drop_first());
    assert(dialogue_wire(chunks) =~= preamble() + framed_all(chunks) + terminator());
}

/// An empty upstream never starts the dialogue: its whole wire is the bare
/// terminator, with no preamble in front.
pub proof fn lemma_empty_upstream_wire()
    ensures
        dialogue_wire(Seq::empty()) == terminator(),
{
    assert(dialogue_wire(Seq::empty()) =~= terminator());
}

/// Single dialogue guarantee: a chunk step leaves the relay started, and a
/// started relay's chunk wire carries no preamble; an exhaustion step leaves
/// the relay finished, and a finished relay's exhaustion step writes nothing
/// and performs no dialogue, however often exhaustion is observed again.
pub proof fn lemma_single_dialogue(s: ScannedStream, data: Seq<u8>)
    ensures
        after_chunk(s).started,
        chunk_wire(after_chunk(s).started, data) == framed(data),
        after_end(s).finished,
        !end_dialogue(after_end(s)),
        end_wire(after_end(s)) == Seq::<u8>::empty(),
{
}

/// Upstream-error short-circuit: if upstream yields `chunks` and then an
/// error, the relay yields those chunks and then the wrapped error, and the
/// connection receives only the preamble and the chunk frames — the
/// terminator is never written.
pub proof fn lemma_upstream_error_short_circuit(chunks: Seq<Seq<u8>>, message: Seq<char>)
    ensures
        run_items_failed(chunks, message) == chunks.map_values(|c: Seq<u8>| Item::Data(c)) + seq![
            Item::UpstreamError(message),
        ],
        chunks.len() > 0 ==> relay_wire(false, chunks) == preamble() + framed_all(chunks),
{
    lemma_relay_yields_identity(chunks);
    if chunks.len() > 0 {
        lemma_relay_wire_started(chunks.drop_first());
        assert(relay_wire(false, chunks) =~= preamble() + framed_all(chunks));
    }
}

} // verus!
