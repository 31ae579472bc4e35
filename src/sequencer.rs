//! The outbound side of a call: one configuration message, then the audio in
//! chunks of a fixed size, read lazily from a byte source.
use vstd::prelude::*;
use vstd::arithmetic::div_mod::{lemma_div_plus_one, lemma_mod_add_multiples_vanish};

use crate::message::{AssistConfig, OutboundMessage};

verus! {

/// What an outbound message is, with its audio as a sequence of bytes.
pub enum OutboundView {
    Configuration(AssistConfig),
    AudioChunk(Seq<u8>),
}

impl OutboundMessage {
    pub open spec fn view(&self) -> OutboundView {
        match self {
            OutboundMessage::Configuration(c) => OutboundView::Configuration(*c),
            OutboundMessage::AudioChunk(b) => OutboundView::AudioChunk(b@),
        }
    }
}

/// The chunks that successive reads of at most `chunk_size` bytes take from
/// `source`: reading stops at the first read that returns fewer than
/// `chunk_size` bytes, and an empty read yields no chunk.
pub open spec fn audio_chunks(source: Seq<u8>, chunk_size: nat) -> Seq<Seq<u8>>
    decreases source.len(),
{
    if chunk_size == 0 || source.len() == 0 {
        Seq::empty()
    } else if source.len() < chunk_size {
        seq![source]
    } else {
        seq![source.take(chunk_size as int)] + audio_chunks(source.skip(chunk_size as int), chunk_size)
    }
}

/// The audio messages that carry the chunks of `source`.
pub open spec fn audio_messages(source: Seq<u8>, chunk_size: nat) -> Seq<OutboundView> {
    audio_chunks(source, chunk_size).map_values(|b: Seq<u8>| OutboundView::AudioChunk(b))
}

/// The whole outbound sequence of a call: the configuration, then the audio.
pub open spec fn request_sequence(config: AssistConfig, source: Seq<u8>, chunk_size: nat) -> Seq<
    OutboundView,
> {
    seq![OutboundView::Configuration(config)] + audio_messages(source, chunk_size)
}

/// The views of a run of outbound messages.
pub open spec fn views_of(msgs: Seq<OutboundMessage>) -> Seq<OutboundView> {
    msgs.map_values(|m: OutboundMessage| m.view())
}

/// Chunking a source of `L` bytes by `C > 0` gives `ceil(L / C)` chunks; each
/// but the last holds exactly `C` bytes, the last `L mod C` bytes (or `C` where
/// `C` divides `L`), and the chunks joined in order give the source back.
pub proof fn lemma_audio_chunks_shape(source: Seq<u8>, chunk_size: nat)
    requires
        chunk_size > 0,
    ensures
        ({
            let chunks = audio_chunks(source, chunk_size);
            let l = source.len() as int;
            let c = chunk_size as int;
            &&& chunks.len() == (l + c - 1) / c
            &&& forall|i: int| 0 <= i < chunks.len() - 1 ==> #[trigger] chunks[i].len() == c
            &&& l > 0 ==> chunks.last().len() == if l % c == 0 { c } else { l % c }
            &&& chunks.flatten() == source
        }),
    decreases source.len(),
{
    let chunks = audio_chunks(source, chunk_size);
    let l = source.len() as int;
    let c = chunk_size as int;
    if l == 0 {
        assert((c - 1) / c == 0) by (nonlinear_arith)
            requires
                c > 0,
        ;
        assert(chunks.flatten() =~= source);
    } else if l < c {
        assert((l + c - 1) / c == 1) by (nonlinear_arith)
            requires
                0 < l < c,
        ;
        assert(l % c == l) by (nonlinear_arith)
            requires
                0 < l < c,
        ;
        assert(chunks.drop_first() =~= Seq::<Seq<u8>>::empty());
        assert(chunks.drop_first().flatten() == Seq::<u8>::empty());
        assert(chunks.flatten() =~= source);
    } else {
        let rest_source = source.skip(c);
        let rest = audio_chunks(rest_source, chunk_size);
        lemma_audio_chunks_shape(rest_source, chunk_size);
        let r = l - c;
        assert(rest_source.len() == r);
        lemma_div_plus_one(r + c - 1, c);
        assert(c + (r + c - 1) == l + c - 1);
        lemma_mod_add_multiples_vanish(r, c);
        assert(c + r == l);
        assert(chunks.drop_first() =~= rest);
        if r == 0 {
            assert(l % c == 0) by (nonlinear_arith)
                requires
                    l == c,
                    c > 0,
            ;
            assert(rest.len() == 0);
            assert((c - 1) / c == 0) by (nonlinear_arith)
                requires
                    c > 0,
            ;
        }
        assert forall|i: int| 0 <= i < chunks.len() - 1 implies #[trigger] chunks[i].len() == c by {
            if i > 0 {
                assert(chunks[i] == rest[i - 1]);
            }
        }
        assert(source =~= source.take(c) + rest_source);
        assert(chunks.flatten() =~= source);
    }
}

/// The lazy producer of a call's outbound messages. It is made together with
/// the configuration message; after that each read from the audio source is
/// handed to `accept_read`, until the producer reports that it is finished.
pub struct RequestSequencer {
    chunk_size: usize,
    finished: bool,
}

impl RequestSequencer {
    pub closed spec fn spec_chunk_size(&self) -> nat {
        self.chunk_size as nat
    }

    pub closed spec fn spec_finished(&self) -> bool {
        self.finished
    }

    /// Starts a call's outbound sequence: returns the producer and the
    /// configuration message, which always goes first.
    pub fn begin(config: AssistConfig, chunk_size: usize) -> (r: (RequestSequencer, OutboundMessage))
        requires
            chunk_size > 0,
        ensures
            r.0.spec_chunk_size() == chunk_size,
            !r.0.spec_finished(),
            r.1.view() == OutboundView::Configuration(config),
    {
        (RequestSequencer { chunk_size, finished: false }, OutboundMessage::Configuration(config))
    }

    /// The most bytes that the next read of the audio source may return.
    pub fn read_limit(&self) -> (r: usize)
        ensures
            r == self.spec_chunk_size(),
    {
        self.chunk_size
    }

    /// Whether the outbound sequence has ended.
    pub fn is_finished(&self) -> (r: bool)
        ensures
            r == self.spec_finished(),
    {
        self.finished
    }

    /// Takes the bytes of one read of the audio source. A non-empty read becomes
    /// one audio message holding exactly those bytes; a read shorter than the
    /// chunk size (an empty one included) ends the sequence.
    pub fn accept_read(&mut self, bytes: Vec<u8>) -> (r: Option<OutboundMessage>)
        requires
            !old(self).spec_finished(),
            bytes@.len() <= old(self).spec_chunk_size(),
        ensures
            final(self).spec_chunk_size() == old(self).spec_chunk_size(),
            final(self).spec_finished() == (bytes@.len() < old(self).spec_chunk_size()),
            bytes@.len() == 0 ==> r.is_none(),
            bytes@.len() > 0 ==> r.is_some() && r->Some_0.view() == OutboundView::AudioChunk(
                bytes@,
            ),
    {
        if bytes.len() < self.chunk_size {
            self.finished = true;
        }
        if bytes.len() == 0 {
            None
        } else {
            Some(OutboundMessage::AudioChunk(bytes))
        }
    }
}

/// Copies `source[start..end]`.
pub(crate) fn copy_range(source: &[u8], start: usize, end: usize) -> (r: Vec<u8>)
    requires
        start <= end <= source@.len(),
    ensures
        r@ == source@.subrange(start as int, end as int),
{
    let mut r: Vec<u8> = Vec::with_capacity(end - start);
    let mut i: usize = start;
    while i < end
        invariant
            start <= i <= end <= source@.len(),
            r@ == source@.subrange(start as int, i as int),
        decreases end - i,
    {
        r.push(source[i]);
        i = i + 1;
    }
    r
}

/// Reads at most `limit` bytes of `source` from `pos` on.
fn read_at(source: &[u8], pos: usize, limit: usize) -> (r: Vec<u8>)
    requires
        pos <= source@.len(),
    ensures
        r@ == source@.skip(pos as int).take(
            if source@.len() - pos < limit { source@.len() - pos } else { limit as int },
        ),
        r@.len() <= source@.len() - pos,
        r@.len() <= limit,
        r@.len() == limit || r@.len() == source@.len() - pos,
{
    let end: usize = if source.len() - pos < limit { source.len() } else { pos + limit };
    let r = copy_range(source, pos, end);
    assert(r@ =~= source@.skip(pos as int).take(end - pos));
    r
}

/// Builds the whole outbound sequence of a call over an audio source held in
/// memory, by running a `RequestSequencer` over it.
pub fn build_requests(config: AssistConfig, source: &[u8], chunk_size: usize) -> (r: Vec<
    OutboundMessage,
>)
    requires
        chunk_size > 0,
    ensures
        views_of(r@) == request_sequence(config, source@, chunk_size as nat),
{
    let ghost expected = request_sequence(config, source@, chunk_size as nat);
    let (mut sequencer, first) = RequestSequencer::begin(config, chunk_size);
    let mut msgs: Vec<OutboundMessage> = Vec::new();
    msgs.push(first);
    let mut pos: usize = 0;
    assert(views_of(msgs@) =~= seq![OutboundView::Configuration(config)]);
    assert(source@.skip(0) =~= source@);
    while !sequencer.is_finished()
        invariant
            pos <= source@.len(),
            sequencer.spec_chunk_size() == chunk_size,
            chunk_size > 0,
            expected == request_sequence(config, source@, chunk_size as nat),
            !sequencer.spec_finished() ==> views_of(msgs@) + audio_messages(
                source@.skip(pos as int),
                chunk_size as nat,
            ) == expected,
            sequencer.spec_finished() ==> views_of(msgs@) == expected,
        decreases source@.len() - pos + if sequencer.spec_finished() { 0int } else { 1int },
    {
        let ghost before = views_of(msgs@);
        let ghost rest = source@.skip(pos as int);
        let bytes = read_at(source, pos, sequencer.read_limit());
        let n: usize = bytes.len();
        let total: usize = source.len();
        assert(pos + n <= total);
        let produced = sequencer.accept_read(bytes);
        proof {
            if rest.len() == 0 {
                assert(audio_messages(rest, chunk_size as nat) =~= Seq::<OutboundView>::empty());
                assert(before + audio_messages(rest, chunk_size as nat) =~= before);
            } else if rest.len() < chunk_size {
                assert(audio_messages(rest, chunk_size as nat) =~= seq![OutboundView::AudioChunk(rest)]);
                assert(bytes@ =~= rest);
            } else {
                assert(rest.skip(chunk_size as int) =~= source@.skip(pos + chunk_size));
                assert(audio_messages(rest, chunk_size as nat) =~= seq![
                    OutboundView::AudioChunk(rest.take(chunk_size as int)),
                ] + audio_messages(source@.skip(pos + chunk_size), chunk_size as nat));
            }
        }
        match produced {
            Some(m) => {
                msgs.push(m);
                assert(views_of(msgs@) =~= before.push(m.view()));
            },
            None => {},
        }
        pos = pos + n;
        proof {
            if rest.len() >= chunk_size {
                assert(views_of(msgs@) + audio_messages(source@.skip(pos as int), chunk_size as nat)
                    =~= expected);
            } else {
                assert(views_of(msgs@) =~= expected);
            }
        }
    }
    msgs
}

/// Two runs of the outbound sequence over the same source, from its start,
/// with the same configuration and chunk size, give identical messages.
pub proof fn lemma_build_requests_deterministic(
    config: AssistConfig,
    source: Seq<u8>,
    chunk_size: nat,
    first: Seq<OutboundMessage>,
    second: Seq<OutboundMessage>,
)
    requires
        views_of(first) == request_sequence(config, source, chunk_size),
        views_of(second) == request_sequence(config, source, chunk_size),
    ensures
        views_of(first) == views_of(second),
{
}

} // verus!
