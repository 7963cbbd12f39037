//! Speech-to-text sessions: how the client cuts audio into messages, reads the
//! server's messages, and assembles the transcription of a one-shot request.

use vstd::prelude::*;
use crate::TextWithTimestamps;
use crate::codec::{base64_decoded, base64_encoded, base64_len_fits, encode_base64};
use crate::error::GradiumError;
use crate::protocol::stt::{Audio, Ready, Request, Response, Setup};

verus! {

broadcast use vstd::seq_lib::group_seq_properties;

/// How a session reads the server's first message: it is ready on `Ready`;
/// an `Error`, a closed connection (`None`) or any other message ends it.
pub open spec fn first_message_outcome(msg: Option<Response>) -> Result<Ready, GradiumError> {
    match msg {
        None => Err(GradiumError::ConnectionClosed),
        Some(Response::Ready(ready)) => Ok(ready),
        Some(Response::Error { code, message }) => Err(GradiumError::SttServerError { code, message }),
        Some(other) => Err(GradiumError::UnexpectedSttMessage(other)),
    }
}

/// How a session reads a later message: `EndOfStream` ends the stream
/// (`Ok(None)`), an `Error` fails it, any other message is handed on.
pub open spec fn stream_message_outcome(msg: Response) -> Result<Option<Response>, GradiumError> {
    match msg {
        Response::EndOfStream => Ok(None),
        Response::Error { code, message } => Err(GradiumError::SttServerError { code, message }),
        other => Ok(Some(other)),
    }
}

/// Reads the server's first message of a session.
pub fn ready_from_first_message(msg: Option<Response>) -> (r: Result<Ready, GradiumError>)
    ensures
        r == first_message_outcome(msg),
        msg is None <==> r matches Err(GradiumError::ConnectionClosed),
        msg matches Some(Response::Ready(ready)) ==> r == Ok::<Ready, GradiumError>(ready),
        r is Ok <==> msg matches Some(Response::Ready(_)),
{
    match msg {
        None => Err(GradiumError::ConnectionClosed),
        Some(Response::Ready(ready)) => Ok(ready),
        Some(Response::Error { code, message }) => Err(GradiumError::SttServerError { code, message }),
        Some(other) => Err(GradiumError::UnexpectedSttMessage(other)),
    }
}

/// Reads a later message of a session.
pub fn stream_message(msg: Response) -> (r: Result<Option<Response>, GradiumError>)
    ensures
        r == stream_message_outcome(msg),
        r == Ok::<Option<Response>, GradiumError>(None) <==> msg is EndOfStream,
        r is Err <==> msg is Error,
        !(msg is EndOfStream) && !(msg is Error) ==> r == Ok::<Option<Response>, GradiumError>(Some(msg)),
{
    match msg {
        Response::EndOfStream => Ok(None),
        Response::Error { code, message } => Err(GradiumError::SttServerError { code, message }),
        other => Ok(Some(other)),
    }
}

/// Reading a later message of a stream ends it (`Ok(None)`) exactly on
/// `EndOfStream`, fails exactly on `Error`, and hands every other message on
/// unchanged.
pub proof fn law_stream_ends_only_at_end_of_stream(msg: Response)
    ensures
        stream_message_outcome(msg) == Ok::<Option<Response>, GradiumError>(None) <==> msg is EndOfStream,
        stream_message_outcome(msg) is Err <==> msg is Error,
        msg matches Response::Error { code, message } ==> stream_message_outcome(msg)
            == Err::<Option<Response>, GradiumError>(GradiumError::SttServerError { code, message }),
        !(msg is EndOfStream) && !(msg is Error) ==> stream_message_outcome(msg)
            == Ok::<Option<Response>, GradiumError>(Some(msg)),
{
}

/// A session is ready exactly when the first message is `Ready`, and it is
/// the server's `Ready`, every field as sent; a closed connection and an
/// `Error` each give their own error.
pub proof fn law_first_message_ready_as_sent(msg: Option<Response>)
    ensures
        first_message_outcome(msg) is Ok <==> msg matches Some(Response::Ready(_)),
        msg matches Some(Response::Ready(ready)) ==> first_message_outcome(msg) == Ok::<Ready, GradiumError>(
            ready,
        ),
        msg is None <==> first_message_outcome(msg) matches Err(GradiumError::ConnectionClosed),
        msg matches Some(Response::Error { code, message }) ==> first_message_outcome(msg) == Err::<Ready, GradiumError>(
            GradiumError::SttServerError { code, message },
        ),
{
}

/// The number of bytes of audio sent in one message by a one-shot request.
pub const AUDIO_CHUNK_BYTES: usize = 1920;

/// `chunks` cut a byte sequence into pieces of `size` bytes, the last of which
/// may be shorter: no piece is empty or longer than `size`, and all but the
/// last have exactly `size` bytes.
pub open spec fn is_chunking(chunks: Seq<Seq<u8>>, size: nat) -> bool {
    forall|i: int|
        0 <= i < chunks.len() ==> {
            &&& 0 < (#[trigger] chunks[i]).len() <= size
            &&& i < chunks.len() - 1 ==> chunks[i].len() == size
        }
}

/// The pieces of `size` bytes into which `s` is cut, front to back.
pub open spec fn chunks_of(s: Seq<u8>, size: nat) -> Seq<Seq<u8>>
    recommends
        size > 0,
    decreases s.len(),
{
    if s.len() == 0 || size == 0 {
        seq![]
    } else if s.len() <= size {
        seq![s]
    } else {
        seq![s.take(size as int)] + chunks_of(s.skip(size as int), size)
    }
}

/// Cutting audio into pieces loses and reorders nothing: the pieces,
/// concatenated, are the audio.
pub proof fn law_chunks_cover_audio(s: Seq<u8>, size: nat)
    requires
        size > 0,
    ensures
        chunks_of(s, size).flatten() == s,
    decreases s.len(),
{
    if s.len() == 0 {
    } else if s.len() <= size {
        seq![s].lemma_flatten_one_element();
    } else {
        law_chunks_cover_audio(s.skip(size as int), size);
        let rest = chunks_of(s.skip(size as int), size);
        assert((seq![s.take(size as int)] + rest).drop_first() =~= rest);
        assert(s.take(size as int) + s.skip(size as int) =~= s);
    }
}

/// Every piece but the last has exactly `size` bytes, and no piece is empty
/// or longer.
pub proof fn law_chunk_sizes(s: Seq<u8>, size: nat)
    requires
        size > 0,
    ensures
        is_chunking(chunks_of(s, size), size),
    decreases s.len(),
{
    if s.len() > size {
        law_chunk_sizes(s.skip(size as int), size);
        let rest = chunks_of(s.skip(size as int), size);
        let all = seq![s.take(size as int)] + rest;
        assert forall|i: int| 0 <= i < all.len() implies {
            &&& 0 < (#[trigger] all[i]).len() <= size
            &&& i < all.len() - 1 ==> all[i].len() == size
        } by {
            if i > 0 {
                assert(all[i] == rest[i - 1]);
            }
        }
    }
}

/// A cutting into pieces of `size` bytes is determined by what it cuts.
proof fn lemma_chunking_is_unique(chunks: Seq<Seq<u8>>, size: nat)
    requires
        size > 0,
        is_chunking(chunks, size),
    ensures
        chunks == chunks_of(chunks.flatten(), size),
    decreases chunks.len(),
{
    if chunks.len() == 0 {
    } else if chunks.len() == 1 {
        chunks.lemma_flatten_one_element();
        assert(chunks =~= seq![chunks[0]]);
    } else {
        let first = chunks[0];
        let rest = chunks.drop_first();
        assert(is_chunking(rest, size)) by {
            assert forall|i: int| 0 <= i < rest.len() implies {
                &&& 0 < (#[trigger] rest[i]).len() <= size
                &&& i < rest.len() - 1 ==> rest[i].len() == size
            } by {
                assert(rest[i] == chunks[i + 1]);
            }
        }
        lemma_chunking_is_unique(rest, size);
        assert(first.len() == size) by {
            assert(0 < chunks.len() - 1);
        }
        assert(rest[0].len() > 0);
        assert(rest.flatten().len() > 0) by {
            assert(rest.flatten() == rest.first() + rest.drop_first().flatten());
        }
        let s = chunks.flatten();
        assert(s == first + rest.flatten());
        assert(s.take(size as int) =~= first);
        assert(s.skip(size as int) =~= rest.flatten());
        assert(chunks =~= seq![first] + rest);
    }
}

/// Cuts audio into the pieces that a one-shot request sends, in order.
pub fn audio_chunks(audio: &[u8]) -> (r: Vec<Vec<u8>>)
    ensures
        r@.map_values(|c: Vec<u8>| c@) == chunks_of(audio@, AUDIO_CHUNK_BYTES as nat),
{
    let n: usize = audio.len();
    let mut out: Vec<Vec<u8>> = Vec::new();
    let mut start: usize = 0;
    while start < n
        invariant
            n == audio@.len(),
            start <= n,
            out@.map_values(|c: Vec<u8>| c@).flatten() == audio@.take(start as int),
            is_chunking(out@.map_values(|c: Vec<u8>| c@), AUDIO_CHUNK_BYTES as nat),
            out@.len() > 0 && out@.last()@.len() < AUDIO_CHUNK_BYTES ==> start == n,
        decreases n - start,
    {
        let end: usize = if n - start > AUDIO_CHUNK_BYTES { start + AUDIO_CHUNK_BYTES } else { n };
        let mut chunk: Vec<u8> = Vec::new();
        let mut j: usize = start;
        while j < end
            invariant
                n == audio@.len(),
                start <= j <= end <= n,
                chunk@ == audio@.subrange(start as int, j as int),
            decreases end - j,
        {
            chunk.push(audio[j]);
            assert(audio@.subrange(start as int, j + 1) =~= audio@.subrange(start as int, j as int).push(audio@[j as int]));
            j = j + 1;
        }
        let ghost before = out@.map_values(|c: Vec<u8>| c@);
        out.push(chunk);
        proof {
            let after = out@.map_values(|c: Vec<u8>| c@);
            assert(after =~= before.push(audio@.subrange(start as int, end as int)));
            before.lemma_flatten_push(audio@.subrange(start as int, end as int));
            assert(audio@.take(start as int) + audio@.subrange(start as int, end as int) =~= audio@.take(end as int));
            assert forall|i: int| 0 <= i < after.len() implies {
                &&& 0 < (#[trigger] after[i]).len() <= AUDIO_CHUNK_BYTES as nat
                &&& i < after.len() - 1 ==> after[i].len() == AUDIO_CHUNK_BYTES as nat
            } by {
                if i < before.len() {
                    assert(after[i] == before[i]);
                }
            }
        }
        start = end;
    }
    assert(audio@.take(n as int) =~= audio@);
    proof {
        lemma_chunking_is_unique(out@.map_values(|c: Vec<u8>| c@), AUDIO_CHUNK_BYTES as nat);
    }
    out
}

/// The request that sends a piece of audio, base64 encoded.
pub fn audio_request(audio: &[u8]) -> (r: Request)
    requires
        base64_len_fits(audio@.len()),
    ensures
        r matches Request::Audio(a) && a.audio@ == base64_encoded(audio@) && base64_decoded(a.audio@)
            == Some(audio@),
{
    audio_base64_request(encode_base64(audio))
}

/// The request that sends audio that is already base64 encoded.
pub fn audio_base64_request(audio_b64: String) -> (r: Request)
    ensures
        r == Request::Audio(Audio { audio: audio_b64 }),
{
    Request::Audio(Audio { audio: audio_b64 })
}

/// The segment that a text message opens: it stops where it starts until an
/// `EndText` says otherwise.
pub open spec fn opened_segment(t: crate::protocol::stt::Text) -> TextWithTimestamps {
    TextWithTimestamps { text: t.text, start_s_bits: t.start_s_bits, stop_s_bits: t.start_s_bits }
}

/// Collecting one more message: text opens a segment, `EndText` sets the stop
/// time of the latest segment (if any), other messages change nothing.
pub open spec fn stt_step(segs: Seq<TextWithTimestamps>, msg: Response) -> Seq<TextWithTimestamps> {
    match msg {
        Response::Text(t) => segs.push(opened_segment(t)),
        Response::EndText(e) => if segs.len() > 0 {
            segs.update(
                segs.len() - 1,
                TextWithTimestamps { stop_s_bits: e.stop_s_bits, ..segs.last() },
            )
        } else {
            segs
        },
        _ => segs,
    }
}

/// Collecting a sequence of messages in order.
pub open spec fn stt_collect(msgs: Seq<Response>) -> Seq<TextWithTimestamps>
    decreases msgs.len(),
{
    if msgs.len() == 0 {
        seq![]
    } else {
        stt_step(stt_collect(msgs.drop_last()), msgs.last())
    }
}

/// The number of text messages in a sequence of messages.
pub open spec fn text_count(msgs: Seq<Response>) -> nat
    decreases msgs.len(),
{
    if msgs.len() == 0 {
        0
    } else {
        text_count(msgs.drop_last()) + if msgs.last() is Text { 1nat } else { 0nat }
    }
}

/// A transcription has one segment per text message the server sent.
pub proof fn law_one_segment_per_text(msgs: Seq<Response>)
    ensures
        stt_collect(msgs).len() == text_count(msgs),
    decreases msgs.len(),
{
    if msgs.len() > 0 {
        law_one_segment_per_text(msgs.drop_last());
    }
}

/// An `EndText` changes no text and no start time; it sets the stop time of
/// the latest segment only.
pub proof fn law_end_text_sets_only_last_stop(
    segs: Seq<TextWithTimestamps>,
    e: crate::protocol::stt::EndText,
)
    ensures
        stt_step(segs, Response::EndText(e)).len() == segs.len(),
        forall|i: int|
            0 <= i < segs.len() ==> {
                let s = #[trigger] stt_step(segs, Response::EndText(e))[i];
                &&& s.text == segs[i].text
                &&& s.start_s_bits == segs[i].start_s_bits
                &&& s.stop_s_bits == if i == segs.len() - 1 { e.stop_s_bits } else { segs[i].stop_s_bits }
            },
{
}

/// Whether a message is transcribed text.
pub open spec fn is_text_msg(m: Response) -> bool {
    m is Text
}

/// Whether a sequence of messages holds some transcribed text.
pub open spec fn has_text(msgs: Seq<Response>) -> bool {
    exists|j: int| 0 <= j < msgs.len() && is_text_msg(#[trigger] msgs[j])
}

/// The stop time of a segment, given the messages that follow its text: the
/// stop time of the last `EndText` before the next text, or `current` (its
/// start time) where there is none.
pub open spec fn segment_stop(rest: Seq<Response>, current: u64) -> u64
    decreases rest.len(),
{
    if rest.len() == 0 {
        current
    } else {
        match rest[0] {
            Response::Text(_) => current,
            Response::EndText(e) => segment_stop(rest.drop_first(), e.stop_s_bits),
            _ => segment_stop(rest.drop_first(), current),
        }
    }
}

proof fn lemma_text_count_concat(a: Seq<Response>, b: Seq<Response>)
    ensures
        text_count(a + b) == text_count(a) + text_count(b),
    decreases b.len(),
{
    if b.len() > 0 {
        lemma_text_count_concat(a, b.drop_last());
        assert((a + b).drop_last() =~= a + b.drop_last());
        assert((a + b).last() == b.last());
    } else {
        assert(a + b =~= a);
    }
}

proof fn lemma_no_text_count(s: Seq<Response>)
    ensures
        text_count(s) == 0 <==> !has_text(s),
    decreases s.len(),
{
    if s.len() > 0 {
        let init = s.drop_last();
        lemma_no_text_count(init);
        if has_text(init) {
            let j = choose|j: int| 0 <= j < init.len() && is_text_msg(#[trigger] init[j]);
            assert(is_text_msg(s[j]));
        }
        if is_text_msg(s.last()) {
            assert(is_text_msg(s[s.len() - 1]));
        }
        if has_text(s) && !has_text(init) {
            let j = choose|j: int| 0 <= j < s.len() && is_text_msg(#[trigger] s[j]);
            if j < init.len() {
                assert(is_text_msg(init[j]));
            }
        }
    }
}

proof fn lemma_segment_stop_push(s: Seq<Response>, m: Response, c: u64)
    ensures
        segment_stop(s.push(m), c) == if has_text(s) {
            segment_stop(s, c)
        } else {
            match m {
                Response::EndText(e) => e.stop_s_bits,
                _ => segment_stop(s, c),
            }
        },
    decreases s.len(),
{
    let sp = s.push(m);
    if s.len() == 0 {
        assert(sp.drop_first() =~= Seq::<Response>::empty());
        assert(sp[0] == m);
        assert(!has_text(s));
        match m {
            Response::EndText(e) => {
                assert(segment_stop(sp.drop_first(), e.stop_s_bits) == e.stop_s_bits);
            },
            Response::Text(_) => {},
            _ => {
                assert(segment_stop(sp.drop_first(), c) == c);
            },
        }
    } else {
        assert(sp[0] == s[0]);
        assert(sp.drop_first() =~= s.drop_first().push(m));
        let next = match s[0] {
            Response::EndText(e) => e.stop_s_bits,
            _ => c,
        };
        lemma_segment_stop_push(s.drop_first(), m, next);
        assert(segment_stop(s, c) == if is_text_msg(s[0]) { c } else { segment_stop(s.drop_first(), next) });
        assert(segment_stop(sp, c) == if is_text_msg(s[0]) { c } else { segment_stop(sp.drop_first(), next) });
        if is_text_msg(s[0]) {
            assert(has_text(s));
        } else {
            if has_text(s) {
                let j = choose|j: int| 0 <= j < s.len() && is_text_msg(#[trigger] s[j]);
                assert(j > 0);
                assert(is_text_msg(s.drop_first()[j - 1]));
            }
            if has_text(s.drop_first()) {
                let j = choose|j: int| 0 <= j < s.drop_first().len() && is_text_msg(#[trigger] s.drop_first()[j]);
                assert(is_text_msg(s[j + 1]));
            }
        }
    }
}

/// A transcription holds one segment per text message, in order: the
/// segment of the text message at position `i` comes after the segments of
/// the texts before it, carries its text and start time, and stops at the
/// stop time of the last `EndText` before the next text message (at its
/// start time where there is none).
pub proof fn law_segment_of_each_text(msgs: Seq<Response>, i: int)
    requires
        0 <= i < msgs.len(),
        msgs[i] is Text,
    ensures
        text_count(msgs.take(i)) < stt_collect(msgs).len(),
        stt_collect(msgs)[text_count(msgs.take(i)) as int] == (TextWithTimestamps {
            text: msgs[i]->Text_0.text,
            start_s_bits: msgs[i]->Text_0.start_s_bits,
            stop_s_bits: segment_stop(msgs.skip(i + 1), msgs[i]->Text_0.start_s_bits),
        }),
    decreases msgs.len(),
{
    let n = msgs.len() as int;
    let init = msgs.drop_last();
    let m = msgs.last();
    let prev = stt_collect(init);
    law_one_segment_per_text(init);
    let t = msgs[i]->Text_0;
    let k = text_count(msgs.take(i));
    if i == n - 1 {
        assert(msgs.take(i) =~= init);
        assert(msgs.skip(i + 1) =~= Seq::<Response>::empty());
    } else {
        law_segment_of_each_text(init, i);
        assert(init.take(i) =~= msgs.take(i));
        assert(init[i] == msgs[i]);
        let x = init.skip(i + 1);
        assert(msgs.skip(i + 1) =~= x.push(m));
        lemma_segment_stop_push(x, m, t.start_s_bits);
        assert(init =~= init.take(i) + seq![init[i]] + x);
        lemma_text_count_concat(init.take(i) + seq![init[i]], x);
        lemma_text_count_concat(init.take(i), seq![init[i]]);
        assert(seq![init[i]].drop_last() =~= Seq::<Response>::empty());
        assert(text_count(seq![init[i]]) == 1);
        lemma_no_text_count(x);
    }
}

/// Accumulates the timed texts of a one-shot transcription.
pub struct SttCollector {
    segments: Vec<TextWithTimestamps>,
}

impl View for SttCollector {
    type V = Seq<TextWithTimestamps>;

    closed spec fn view(&self) -> Seq<TextWithTimestamps> {
        self.segments@
    }
}

/// The result of a one-shot transcription.
#[derive(Debug, Clone)]
pub struct SttResult {
    request_id: String,
    sample_rate: u32,
    text_with_timestamps: Vec<TextWithTimestamps>,
}

/// The abstract value of an [`SttResult`].
pub struct SttResultView {
    pub request_id: Seq<char>,
    pub sample_rate: u32,
    pub text_with_timestamps: Seq<TextWithTimestamps>,
}

impl View for SttResult {
    type V = SttResultView;

    closed spec fn view(&self) -> SttResultView {
        SttResultView {
            request_id: self.request_id@,
            sample_rate: self.sample_rate,
            text_with_timestamps: self.text_with_timestamps@,
        }
    }
}

impl SttCollector {
    /// A collector that has collected nothing.
    pub fn new() -> (c: SttCollector)
        ensures
            c@ == Seq::<TextWithTimestamps>::empty(),
    {
        SttCollector { segments: Vec::new() }
    }

    /// Collects one message of the session.
    pub fn absorb(&mut self, msg: Response)
        ensures
            final(self)@ == stt_step(old(self)@, msg),
    {
        match msg {
            Response::Text(t) => {
                self.segments.push(
                    TextWithTimestamps {
                        text: t.text,
                        start_s_bits: t.start_s_bits,
                        stop_s_bits: t.start_s_bits,
                    },
                );
            },
            Response::EndText(e) => {
                let ghost before = self.segments@;
                match self.segments.pop() {
                    Some(last) => {
                        self.segments.push(
                            TextWithTimestamps { stop_s_bits: e.stop_s_bits, ..last },
                        );
                        assert(self.segments@ =~= stt_step(before, Response::EndText(e)));
                    },
                    None => {},
                }
            },
            _ => {},
        }
    }

    /// The transcription: the collected segments, with the session's request
    /// ID and sample rate.
    pub fn finish(self, ready: &Ready) -> (r: SttResult)
        ensures
            r@.text_with_timestamps == self@,
            r@.request_id == ready.request_id@,
            r@.sample_rate == ready.sample_rate,
    {
        SttResult {
            request_id: ready.request_id.clone(),
            sample_rate: ready.sample_rate,
            text_with_timestamps: self.segments,
        }
    }
}

impl SttResult {
    /// The request ID of the session.
    pub fn request_id(&self) -> (r: &str)
        ensures
            r@ == self@.request_id,
    {
        self.request_id.as_str()
    }

    /// The audio sample rate in Hz.
    pub fn sample_rate(&self) -> (r: u32)
        ensures
            r == self@.sample_rate,
    {
        self.sample_rate
    }

    /// The transcribed segments with their timing.
    pub fn text_with_timestamps(&self) -> (r: &[TextWithTimestamps])
        ensures
            r@ == self@.text_with_timestamps,
    {
        self.text_with_timestamps.as_slice()
    }
}

/// The requests that send audio in a one-shot request: one per piece of
/// [`AUDIO_CHUNK_BYTES`] bytes, in order, then the end of the stream.
pub fn one_shot_audio_requests(audio: &[u8]) -> (r: Vec<Request>)
    ensures
        r@.len() == chunks_of(audio@, AUDIO_CHUNK_BYTES as nat).len() + 1,
        forall|i: int|
            0 <= i < r@.len() - 1 ==> (#[trigger] r@[i] matches Request::Audio(a) && a.audio@
                == base64_encoded(chunks_of(audio@, AUDIO_CHUNK_BYTES as nat)[i]) && base64_decoded(
                a.audio@,
            ) == Some(chunks_of(audio@, AUDIO_CHUNK_BYTES as nat)[i])),
        r@.last() is EndOfStream,
{
    let chunks = audio_chunks(audio);
    let ghost pieces = chunks_of(audio@, AUDIO_CHUNK_BYTES as nat);
    proof {
        law_chunk_sizes(audio@, AUDIO_CHUNK_BYTES as nat);
    }
    let mut reqs: Vec<Request> = Vec::new();
    let mut i: usize = 0;
    while i < chunks.len()
        invariant
            i <= chunks@.len(),
            pieces == chunks_of(audio@, AUDIO_CHUNK_BYTES as nat),
            chunks@.map_values(|c: Vec<u8>| c@) == pieces,
            is_chunking(pieces, AUDIO_CHUNK_BYTES as nat),
            reqs@.len() == i,
            forall|k: int|
                0 <= k < i ==> (#[trigger] reqs@[k] matches Request::Audio(a) && a.audio@
                    == base64_encoded(pieces[k]) && base64_decoded(a.audio@) == Some(pieces[k])),
        decreases chunks@.len() - i,
    {
        assert(chunks@[i as int]@ == pieces[i as int]);
        assert(0 < pieces[i as int].len() <= AUDIO_CHUNK_BYTES as nat);
        let req = audio_request(chunks[i].as_slice());
        reqs.push(req);
        i = i + 1;
    }
    reqs.push(Request::EndOfStream);
    reqs
}

/// The transcription that a one-shot request returns from what it collected.
pub open spec fn result_of(segs: Seq<TextWithTimestamps>, ready: Ready) -> SttResultView {
    SttResultView {
        request_id: ready.request_id@,
        sample_rate: ready.sample_rate,
        text_with_timestamps: segs,
    }
}

/// A transcription carries the session's request ID and sample rate and
/// the collected segments.
pub proof fn law_result_carries_session(segs: Seq<TextWithTimestamps>, ready: Ready)
    ensures
        result_of(segs, ready).request_id == ready.request_id@,
        result_of(segs, ready).sample_rate == ready.sample_rate,
        result_of(segs, ready).text_with_timestamps == segs,
{
}

/// The phase of a one-shot STT request.
enum SttPhase {
    AwaitingReady { audio: Vec<u8> },
    Collecting { ready: Ready, collector: SttCollector, received: Ghost<Seq<Response>> },
    Done,
}

/// The course of a one-shot STT request: send the setup, wait for the
/// server to be ready, send the audio in pieces and the end of the stream,
/// then collect the transcription until the stream ends.
pub struct SttOneShot {
    phase: SttPhase,
}

/// The abstract value of an [`SttOneShot`].
pub enum SttOneShotView {
    /// The setup was sent; this audio waits for the server to be ready.
    AwaitingReady(Seq<u8>),
    /// The audio was sent to the ready server; these messages were collected.
    Collecting(Ready, Seq<Response>),
    /// The request is over.
    Done,
}

impl View for SttOneShot {
    type V = SttOneShotView;

    closed spec fn view(&self) -> SttOneShotView {
        match self.phase {
            SttPhase::AwaitingReady { audio } => SttOneShotView::AwaitingReady(audio@),
            SttPhase::Collecting { ready, received, .. } => SttOneShotView::Collecting(ready, received@),
            SttPhase::Done => SttOneShotView::Done,
        }
    }
}

/// What the caller does after handing a message to an [`SttOneShot`].
pub enum SttOneShotStep {
    /// Send these requests in order, then hand over the next message.
    Continue(Vec<Request>),
    /// The request succeeded.
    Finished(SttResult),
    /// The request failed.
    Failed(GradiumError),
}

impl SttOneShot {
    /// While collecting, the collector holds what the messages received so
    /// far give.
    #[verifier::type_invariant]
    spec fn collector_matches(self) -> bool {
        match self.phase {
            SttPhase::Collecting { collector, received, .. } => stt_collect(received@) == collector@,
            _ => true,
        }
    }

    /// Starts a one-shot transcription of `audio`: the first request to send
    /// is the setup.
    pub fn start(audio: Vec<u8>, setup: Setup) -> (r: (SttOneShot, Request))
        ensures
            r.0@ == SttOneShotView::AwaitingReady(audio@),
            r.1 == Request::Setup(setup),
    {
        (SttOneShot { phase: SttPhase::AwaitingReady { audio } }, Request::Setup(setup))
    }

    /// Whether the request is over.
    pub fn is_done(&self) -> (r: bool)
        ensures
            r == (self@ is Done),
    {
        match self.phase {
            SttPhase::Done => true,
            _ => false,
        }
    }

    /// Hands over the next message from the server (`None` where the
    /// connection closed). Once ready, the audio and the end of the stream are
    /// sent; every later message but `EndOfStream` and `Error` is collected,
    /// and a closed connection or `EndOfStream` ends the request with the
    /// transcription of the collected messages.
    pub fn on_message(self, msg: Option<Response>) -> (r: (SttOneShot, SttOneShotStep))
        requires
            !(self@ is Done),
        ensures
            self@ matches SttOneShotView::AwaitingReady(audio) ==> match first_message_outcome(msg) {
                Ok(ready) => {
                    &&& r.0@ == SttOneShotView::Collecting(ready, seq![])
                    &&& r.1 matches SttOneShotStep::Continue(reqs)
                        && reqs@.len() == chunks_of(audio, AUDIO_CHUNK_BYTES as nat).len() + 1
                        && (forall|i: int|
                            0 <= i < reqs@.len() - 1 ==> (#[trigger] reqs@[i] matches Request::Audio(a)
                                && a.audio@ == base64_encoded(chunks_of(audio, AUDIO_CHUNK_BYTES as nat)[i])
                                && base64_decoded(a.audio@) == Some(chunks_of(audio, AUDIO_CHUNK_BYTES as nat)[i])))
                        && reqs@.last() is EndOfStream
                },
                Err(e) => r.0@ is Done && r.1 == SttOneShotStep::Failed(e),
            },
            self@ matches SttOneShotView::Collecting(ready, rec) ==> match msg {
                None => r.0@ is Done && (r.1 matches SttOneShotStep::Finished(res) && res@ == result_of(
                    stt_collect(rec),
                    ready,
                )),
                Some(m) => match stream_message_outcome(m) {
                    Ok(None) => r.0@ is Done && (r.1 matches SttOneShotStep::Finished(res) && res@
                        == result_of(stt_collect(rec), ready)),
                    Err(e) => r.0@ is Done && r.1 == SttOneShotStep::Failed(e),
                    Ok(Some(x)) => {
                        &&& r.0@ == SttOneShotView::Collecting(ready, rec.push(x))
                        &&& r.1 matches SttOneShotStep::Continue(reqs) && reqs@.len() == 0
                    },
                },
            },
    {
        proof {
            use_type_invariant(&self);
        }
        match self.phase {
            SttPhase::AwaitingReady { audio } => match ready_from_first_message(msg) {
                Ok(ready) => {
                    let reqs = one_shot_audio_requests(audio.as_slice());
                    let collector = SttCollector::new();
                    assert(stt_collect(Seq::<Response>::empty()) == collector@);
                    (
                        SttOneShot {
                            phase: SttPhase::Collecting { ready, collector, received: Ghost(Seq::empty()) },
                        },
                        SttOneShotStep::Continue(reqs),
                    )
                },
                Err(e) => (SttOneShot { phase: SttPhase::Done }, SttOneShotStep::Failed(e)),
            },
            SttPhase::Collecting { ready, collector, received } => {
                let m = match msg {
                    None => {
                        let res = collector.finish(&ready);
                        return (SttOneShot { phase: SttPhase::Done }, SttOneShotStep::Finished(res));
                    },
                    Some(m) => m,
                };
                match stream_message(m) {
                    Ok(None) => {
                        let res = collector.finish(&ready);
                        (SttOneShot { phase: SttPhase::Done }, SttOneShotStep::Finished(res))
                    },
                    Err(e) => (SttOneShot { phase: SttPhase::Done }, SttOneShotStep::Failed(e)),
                    Ok(Some(x)) => {
                        let ghost rec = received@;
                        assert(rec.push(x).drop_last() =~= rec);
                        let mut collector = collector;
                        collector.absorb(x);
                        (
                            SttOneShot {
                                phase: SttPhase::Collecting { ready, collector, received: Ghost(rec.push(x)) },
                            },
                            SttOneShotStep::Continue(Vec::new()),
                        )
                    },
                }
            },
            SttPhase::Done => (SttOneShot { phase: SttPhase::Done }, SttOneShotStep::Continue(Vec::new())),
        }
    }
}

} // verus!
