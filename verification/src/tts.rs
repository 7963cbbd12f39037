//! Text-to-speech sessions: how the client reads the server's messages and
//! assembles the result of a one-shot request.

use vstd::prelude::*;
use crate::TextWithTimestamps;
use crate::codec::base64_decoded;
use crate::error::GradiumError;
use crate::protocol::tts::{Ready, Request, Response, Setup, Text};
use crate::text::owned;

verus! {

broadcast use vstd::seq_lib::group_seq_properties;

/// How a session reads the server's first message: it is ready on `Ready`;
/// an `Error`, a closed connection (`None`) or any other message ends it.
pub open spec fn first_message_outcome(msg: Option<Response>) -> Result<Ready, GradiumError> {
    match msg {
        None => Err(GradiumError::ConnectionClosed),
        Some(Response::Ready(ready)) => Ok(ready),
        Some(Response::Error { code, message, .. }) => Err(GradiumError::TtsServerError { code, message }),
        Some(other) => Err(GradiumError::UnexpectedTtsMessage(other)),
    }
}

/// How a single-request session reads a later message: `EndOfStream` ends the
/// stream (`Ok(None)`), an `Error` fails it, any other message is handed on.
pub open spec fn stream_message_outcome(msg: Response) -> Result<Option<Response>, GradiumError> {
    match msg {
        Response::EndOfStream { .. } => Ok(None),
        Response::Error { code, message, .. } => Err(GradiumError::TtsServerError { code, message }),
        other => Ok(Some(other)),
    }
}

/// Reads the server's first message of a session.
pub fn ready_from_first_message(msg: Option<Response>) -> (r: Result<Ready, GradiumError>)
    ensures
        r == first_message_outcome(msg),
        msg is None <==> r matches Err(GradiumError::ConnectionClosed),
        msg matches Some(Response::Ready(ready)) ==> r == Ok::<Ready, GradiumError>(ready),
        r is Ok <==> msg matches Some(Response::Ready(_)),
{
    match msg {
        None => Err(GradiumError::ConnectionClosed),
        Some(Response::Ready(ready)) => Ok(ready),
        Some(Response::Error { code, message, .. }) => Err(GradiumError::TtsServerError { code, message }),
        Some(other) => Err(GradiumError::UnexpectedTtsMessage(other)),
    }
}

/// Reads a later message of a single-request session.
pub fn stream_message(msg: Response) -> (r: Result<Option<Response>, GradiumError>)
    ensures
        r == stream_message_outcome(msg),
        r == Ok::<Option<Response>, GradiumError>(None) <==> msg is EndOfStream,
        r is Err <==> msg is Error,
        !(msg is EndOfStream) && !(msg is Error) ==> r == Ok::<Option<Response>, GradiumError>(Some(msg)),
{
    match msg {
        Response::EndOfStream { .. } => Ok(None),
        Response::Error { code, message, .. } => Err(GradiumError::TtsServerError { code, message }),
        other => Ok(Some(other)),
    }
}

/// Reading a later message of a stream ends it (`Ok(None)`) exactly on
/// `EndOfStream`, fails exactly on `Error`, and hands every other message on
/// unchanged.
pub proof fn law_stream_ends_only_at_end_of_stream(msg: Response)
    ensures
        stream_message_outcome(msg) == Ok::<Option<Response>, GradiumError>(None) <==> msg is EndOfStream,
        stream_message_outcome(msg) is Err <==> msg is Error,
        msg matches Response::Error { code, message, .. } ==> stream_message_outcome(msg)
            == Err::<Option<Response>, GradiumError>(GradiumError::TtsServerError { code, message }),
        !(msg is EndOfStream) && !(msg is Error) ==> stream_message_outcome(msg)
            == Ok::<Option<Response>, GradiumError>(Some(msg)),
{
}

/// A session is ready exactly when the first message is `Ready`, and it is
/// the server's `Ready`, every field as sent; a closed connection and an
/// `Error` each give their own error.
pub proof fn law_first_message_ready_as_sent(msg: Option<Response>)
    ensures
        first_message_outcome(msg) is Ok <==> msg matches Some(Response::Ready(_)),
        msg matches Some(Response::Ready(ready)) ==> first_message_outcome(msg) == Ok::<Ready, GradiumError>(
            ready,
        ),
        msg is None <==> first_message_outcome(msg) matches Err(GradiumError::ConnectionClosed),
        msg matches Some(Response::Error { code, message, .. }) ==> first_message_outcome(msg) == Err::<Ready, GradiumError>(
            GradiumError::TtsServerError { code, message },
        ),
{
}

/// The request that sends text to synthesize, tagged with a client request
/// ID where one is given.
pub fn text_request(text: &str, client_req_id: Option<&str>) -> (r: Request)
    ensures
        r matches Request::Text(t) && t.text@ == text@ && match client_req_id {
            Some(id) => t.client_req_id matches Some(s) && s@ == id@,
            None => t.client_req_id is None,
        },
{
    let id = match client_req_id {
        Some(id) => Some(owned(id)),
        None => None,
    };
    Request::Text(Text { text: owned(text), client_req_id: id })
}

/// The request that ends the input stream, tagged with a client request ID
/// where one is given.
pub fn end_of_stream_request(client_req_id: Option<&str>) -> (r: Request)
    ensures
        r matches Request::EndOfStream { client_req_id: c } && match client_req_id {
            Some(id) => c matches Some(s) && s@ == id@,
            None => c is None,
        },
{
    let id = match client_req_id {
        Some(id) => Some(owned(id)),
        None => None,
    };
    Request::EndOfStream { client_req_id: id }
}

/// The setup request of one request multiplexed over a shared connection. It
/// is refused unless the setup names a client request ID and asks the server
/// to keep the connection open after EndOfStream.
pub fn multiplex_setup_request(setup: Setup) -> (r: Result<Request, GradiumError>)
    ensures
        setup.client_req_id is None ==> r matches Err(GradiumError::MissingClientReqId),
        setup.client_req_id is Some && setup.close_ws_on_eos != Some(false)
            ==> r matches Err(GradiumError::CloseWsOnEosNotFalse),
        setup.client_req_id is Some && setup.close_ws_on_eos == Some(false)
            ==> r == Ok::<Request, GradiumError>(Request::Setup(setup)),
{
    if setup.client_req_id.is_none() {
        return Err(GradiumError::MissingClientReqId);
    }
    let keeps_open = match setup.close_ws_on_eos {
        Some(close) => !close,
        None => false,
    };
    if !keeps_open {
        return Err(GradiumError::CloseWsOnEosNotFalse);
    }
    Ok(Request::Setup(setup))
}

/// What a one-shot request has collected: the decoded audio chunks and the
/// timed texts, each in arrival order.
pub struct TtsCollected {
    pub chunks: Seq<Seq<u8>>,
    pub texts: Seq<TextWithTimestamps>,
}

/// Nothing collected yet.
pub open spec fn tts_nothing() -> TtsCollected {
    TtsCollected { chunks: seq![], texts: seq![] }
}

/// The timed text that a text message contributes.
pub open spec fn timed_text(t: crate::protocol::tts::TextResponse) -> TextWithTimestamps {
    TextWithTimestamps { text: t.text, start_s_bits: t.start_s_bits, stop_s_bits: t.stop_s_bits }
}

/// Collecting one more message: audio adds its decoded bytes (and fails where
/// they are not base64), text adds its timed text, other messages add nothing.
pub open spec fn tts_step(acc: TtsCollected, msg: Response) -> Option<TtsCollected> {
    match msg {
        Response::Audio(a) => match base64_decoded(a.audio@) {
            Some(bytes) => Some(TtsCollected { chunks: acc.chunks.push(bytes), ..acc }),
            None => None,
        },
        Response::Text(t) => Some(TtsCollected { texts: acc.texts.push(timed_text(t)), ..acc }),
        _ => Some(acc),
    }
}

/// Collecting a sequence of messages in order.
pub open spec fn tts_collect(msgs: Seq<Response>) -> Option<TtsCollected>
    decreases msgs.len(),
{
    if msgs.len() == 0 {
        Some(tts_nothing())
    } else {
        match tts_collect(msgs.drop_last()) {
            Some(acc) => tts_step(acc, msgs.last()),
            None => None,
        }
    }
}

/// The decoded audio of the audio messages of a sequence, concatenated in order.
pub open spec fn audio_bytes(msgs: Seq<Response>) -> Seq<u8>
    decreases msgs.len(),
{
    if msgs.len() == 0 {
        seq![]
    } else {
        audio_bytes(msgs.drop_last()) + match msgs.last() {
            Response::Audio(a) => match base64_decoded(a.audio@) {
                Some(bytes) => bytes,
                None => seq![],
            },
            _ => seq![],
        }
    }
}

/// The timed texts of the text messages of a sequence, in order.
pub open spec fn timed_texts(msgs: Seq<Response>) -> Seq<TextWithTimestamps>
    decreases msgs.len(),
{
    if msgs.len() == 0 {
        seq![]
    } else {
        match msgs.last() {
            Response::Text(t) => timed_texts(msgs.drop_last()).push(timed_text(t)),
            _ => timed_texts(msgs.drop_last()),
        }
    }
}

/// Whether a message is audio that is not valid base64.
pub open spec fn is_invalid_audio(msg: Response) -> bool {
    match msg {
        Response::Audio(a) => base64_decoded(a.audio@) is None,
        _ => false,
    }
}

/// Whether some audio message of a sequence is not valid base64.
pub open spec fn has_invalid_audio(msgs: Seq<Response>) -> bool {
    exists|i: int| 0 <= i < msgs.len() && is_invalid_audio(#[trigger] msgs[i])
}

/// A one-shot request keeps all the audio and all the timed texts the server
/// sent, each in the order it arrived; other messages add nothing.
pub proof fn law_collects_in_arrival_order(msgs: Seq<Response>)
    ensures
        tts_collect(msgs) matches Some(acc) ==> {
            &&& acc.chunks.flatten() == audio_bytes(msgs)
            &&& acc.texts == timed_texts(msgs)
        },
    decreases msgs.len(),
{
    if msgs.len() > 0 {
        law_collects_in_arrival_order(msgs.drop_last());
        if let Some(prev) = tts_collect(msgs.drop_last()) {
            if let Response::Audio(a) = msgs.last() {
                if let Some(bytes) = base64_decoded(a.audio@) {
                    prev.chunks.lemma_flatten_push(bytes);
                }
            } else {
                assert(audio_bytes(msgs) =~= audio_bytes(msgs.drop_last()));
            }
        }
    }
}

/// A one-shot request fails exactly where some audio the server sent is not
/// valid base64.
pub proof fn law_fails_exactly_on_invalid_audio(msgs: Seq<Response>)
    ensures
        tts_collect(msgs) is None <==> has_invalid_audio(msgs),
    decreases msgs.len(),
{
    if msgs.len() > 0 {
        let init = msgs.drop_last();
        law_fails_exactly_on_invalid_audio(init);
        if has_invalid_audio(init) {
            let i = choose|i: int| 0 <= i < init.len() && is_invalid_audio(#[trigger] init[i]);
            assert(msgs[i] == init[i]);
        }
        if has_invalid_audio(msgs) && !has_invalid_audio(init) {
            let i = choose|i: int| 0 <= i < msgs.len() && is_invalid_audio(#[trigger] msgs[i]);
            if i < init.len() {
                assert(init[i] == msgs[i]);
            }
        }
        if is_invalid_audio(msgs.last()) {
            assert(is_invalid_audio(msgs[msgs.len() - 1]));
        }
    }
}

/// The number of text messages in a sequence of messages.
pub open spec fn tts_text_count(msgs: Seq<Response>) -> nat
    decreases msgs.len(),
{
    if msgs.len() == 0 {
        0
    } else {
        tts_text_count(msgs.drop_last()) + if msgs.last() is Text { 1nat } else { 0nat }
    }
}

/// The timed texts hold one entry per text message, in order: the text
/// message at position `i` gives the entry after those of the texts before
/// it, with its text, start time and stop time as the server sent them.
pub proof fn law_entry_of_each_text(msgs: Seq<Response>, i: int)
    requires
        0 <= i < msgs.len(),
        msgs[i] is Text,
    ensures
        timed_texts(msgs).len() == tts_text_count(msgs),
        tts_text_count(msgs.take(i)) < timed_texts(msgs).len(),
        timed_texts(msgs)[tts_text_count(msgs.take(i)) as int] == (TextWithTimestamps {
            text: msgs[i]->Text_0.text,
            start_s_bits: msgs[i]->Text_0.start_s_bits,
            stop_s_bits: msgs[i]->Text_0.stop_s_bits,
        }),
    decreases msgs.len(),
{
    lemma_timed_texts_len(msgs);
    let init = msgs.drop_last();
    lemma_timed_texts_len(init);
    if i == msgs.len() - 1 {
        assert(msgs.take(i) =~= init);
    } else {
        law_entry_of_each_text(init, i);
        assert(init.take(i) =~= msgs.take(i));
        assert(init[i] == msgs[i]);
    }
}

proof fn lemma_timed_texts_len(msgs: Seq<Response>)
    ensures
        timed_texts(msgs).len() == tts_text_count(msgs),
    decreases msgs.len(),
{
    if msgs.len() > 0 {
        lemma_timed_texts_len(msgs.drop_last());
    }
}

/// The result of a one-shot request carries the session's request ID and
/// sample rate, the collected audio concatenated in order, and the collected
/// timed texts.
pub proof fn law_result_carries_session(acc: TtsCollected, ready: Ready)
    ensures
        result_of(acc, ready).request_id == ready.request_id@,
        result_of(acc, ready).sample_rate == ready.sample_rate,
        result_of(acc, ready).raw_data == acc.chunks.flatten(),
        result_of(acc, ready).text_with_timestamps == acc.texts,
{
}

/// Accumulates the audio and the timed texts of a one-shot request.
pub struct TtsCollector {
    chunks: Vec<Vec<u8>>,
    texts: Vec<TextWithTimestamps>,
}

impl View for TtsCollector {
    type V = TtsCollected;

    closed spec fn view(&self) -> TtsCollected {
        TtsCollected { chunks: self.chunks@.map_values(|c: Vec<u8>| c@), texts: self.texts@ }
    }
}

/// Concatenates byte chunks in order.
pub fn concat_chunks(chunks: &Vec<Vec<u8>>) -> (r: Vec<u8>)
    ensures
        r@ == chunks@.map_values(|c: Vec<u8>| c@).flatten(),
{
    let ghost views = chunks@.map_values(|c: Vec<u8>| c@);
    let mut r: Vec<u8> = Vec::new();
    let mut i: usize = 0;
    while i < chunks.len()
        invariant
            i <= chunks@.len(),
            views == chunks@.map_values(|c: Vec<u8>| c@),
            r@ == views.take(i as int).flatten(),
        decreases chunks@.len() - i,
    {
        let chunk = &chunks[i];
        let mut j: usize = 0;
        while j < chunk.len()
            invariant
                i < chunks@.len(),
                *chunk == chunks@[i as int],
                j <= chunk@.len(),
                views == chunks@.map_values(|c: Vec<u8>| c@),
                r@ == views.take(i as int).flatten() + chunk@.take(j as int),
            decreases chunk@.len() - j,
        {
            r.push(chunk[j]);
            assert(chunk@.take(j as int + 1) =~= chunk@.take(j as int).push(chunk@[j as int]));
            j = j + 1;
        }
        proof {
            assert(chunk@.take(j as int) =~= chunk@);
            assert(views.take(i as int + 1) =~= views.take(i as int).push(views[i as int]));
            views.take(i as int).lemma_flatten_push(views[i as int]);
        }
        i = i + 1;
    }
    assert(views.take(i as int) =~= views);
    r
}

/// The result of a one-shot TTS request.
#[derive(Debug, Clone)]
pub struct TtsResult {
    raw_data: Vec<u8>,
    request_id: String,
    sample_rate: u32,
    text_with_timestamps: Vec<TextWithTimestamps>,
}

/// The abstract value of a [`TtsResult`].
pub struct TtsResultView {
    pub raw_data: Seq<u8>,
    pub request_id: Seq<char>,
    pub sample_rate: u32,
    pub text_with_timestamps: Seq<TextWithTimestamps>,
}

impl View for TtsResult {
    type V = TtsResultView;

    closed spec fn view(&self) -> TtsResultView {
        TtsResultView {
            raw_data: self.raw_data@,
            request_id: self.request_id@,
            sample_rate: self.sample_rate,
            text_with_timestamps: self.text_with_timestamps@,
        }
    }
}

impl TtsCollector {
    /// A collector that has collected nothing.
    pub fn new() -> (c: TtsCollector)
        ensures
            c@ == tts_nothing(),
    {
        let c = TtsCollector { chunks: Vec::new(), texts: Vec::new() };
        assert(c@.chunks =~= Seq::<Seq<u8>>::empty());
        c
    }

    /// Collects a decoded chunk of audio after those collected before.
    pub fn push_audio(&mut self, bytes: Vec<u8>)
        ensures
            final(self)@ == (TtsCollected { chunks: old(self)@.chunks.push(bytes@), ..old(self)@ }),
    {
        let ghost before = self.chunks@;
        self.chunks.push(bytes);
        assert(self.chunks@.map_values(|c: Vec<u8>| c@) =~= before.map_values(|c: Vec<u8>| c@).push(
            bytes@,
        ));
    }

    /// Collects one message of the session. Fails, collecting nothing, where
    /// the message is audio that is not valid base64.
    pub fn absorb(&mut self, msg: Response) -> (r: Result<(), GradiumError>)
        ensures
            tts_step(old(self)@, msg) matches Some(next) ==> (r is Ok && final(self)@ == next),
            tts_step(old(self)@, msg) is None ==> (r matches Err(GradiumError::InvalidAudio(_))
                && final(self)@ == old(self)@),
    {
        match msg {
            Response::Audio(audio) => match audio.raw_audio() {
                Ok(bytes) => {
                    self.push_audio(bytes);
                    Ok(())
                },
                Err(e) => Err(e),
            },
            Response::Text(t) => {
                self.texts.push(
                    TextWithTimestamps {
                        text: t.text,
                        start_s_bits: t.start_s_bits,
                        stop_s_bits: t.stop_s_bits,
                    },
                );
                Ok(())
            },
            _ => Ok(()),
        }
    }

    /// The result of the request: the audio chunks concatenated in arrival
    /// order, the timed texts, and the session's request ID and sample rate.
    pub fn finish(self, ready: &Ready) -> (r: TtsResult)
        ensures
            r@.raw_data == self@.chunks.flatten(),
            r@.text_with_timestamps == self@.texts,
            r@.request_id == ready.request_id@,
            r@.sample_rate == ready.sample_rate,
    {
        let raw_data = concat_chunks(&self.chunks);
        TtsResult {
            raw_data,
            request_id: ready.request_id.clone(),
            sample_rate: ready.sample_rate,
            text_with_timestamps: self.texts,
        }
    }
}

impl TtsResult {
    /// The raw audio data, in the output format of the setup.
    pub fn raw_data(&self) -> (r: &[u8])
        ensures
            r@ == self@.raw_data,
    {
        self.raw_data.as_slice()
    }

    /// The request ID of the session.
    pub fn request_id(&self) -> (r: &str)
        ensures
            r@ == self@.request_id,
    {
        self.request_id.as_str()
    }

    /// The audio sample rate in Hz.
    pub fn sample_rate(&self) -> (r: u32)
        ensures
            r == self@.sample_rate,
    {
        self.sample_rate
    }

    /// The text segments with their timing.
    pub fn text_with_timestamps(&self) -> (r: &[TextWithTimestamps])
        ensures
            r@ == self@.text_with_timestamps,
    {
        self.text_with_timestamps.as_slice()
    }
}

/// The result that a one-shot request returns from what it collected.
pub open spec fn result_of(acc: TtsCollected, ready: Ready) -> TtsResultView {
    TtsResultView {
        raw_data: acc.chunks.flatten(),
        request_id: ready.request_id@,
        sample_rate: ready.sample_rate,
        text_with_timestamps: acc.texts,
    }
}

/// The phase of a one-shot TTS request.
enum TtsPhase {
    AwaitingReady { text: String },
    Collecting { ready: Ready, collector: TtsCollector, received: Ghost<Seq<Response>> },
    Done,
}

/// The course of a one-shot TTS request: send the setup, wait for the
/// server to be ready, send the text and the end of the input, then collect
/// audio and text until the stream ends.
pub struct TtsOneShot {
    phase: TtsPhase,
}

/// The abstract value of a [`TtsOneShot`].
pub enum TtsOneShotView {
    /// The setup was sent; this text waits for the server to be ready.
    AwaitingReady(Seq<char>),
    /// The text was sent to the ready server; these messages were collected.
    Collecting(Ready, Seq<Response>),
    /// The request is over.
    Done,
}

impl View for TtsOneShot {
    type V = TtsOneShotView;

    closed spec fn view(&self) -> TtsOneShotView {
        match self.phase {
            TtsPhase::AwaitingReady { text } => TtsOneShotView::AwaitingReady(text@),
            TtsPhase::Collecting { ready, received, .. } => TtsOneShotView::Collecting(ready, received@),
            TtsPhase::Done => TtsOneShotView::Done,
        }
    }
}

/// What the caller does after handing a message to a [`TtsOneShot`].
pub enum TtsOneShotStep {
    /// Send these requests in order, then hand over the next message.
    Continue(Vec<Request>),
    /// The request succeeded.
    Finished(TtsResult),
    /// The request failed.
    Failed(GradiumError),
}

impl TtsOneShot {
    /// While collecting, the collector holds what the messages received so
    /// far give.
    #[verifier::type_invariant]
    spec fn collector_matches(self) -> bool {
        match self.phase {
            TtsPhase::Collecting { collector, received, .. } => tts_collect(received@) == Some(collector@),
            _ => true,
        }
    }

    /// Starts a one-shot request for `text`: the first request to send is the
    /// setup.
    pub fn start(text: &str, setup: Setup) -> (r: (TtsOneShot, Request))
        ensures
            r.0@ == TtsOneShotView::AwaitingReady(text@),
            r.1 == Request::Setup(setup),
    {
        (TtsOneShot { phase: TtsPhase::AwaitingReady { text: owned(text) } }, Request::Setup(setup))
    }

    /// Whether the request is over.
    pub fn is_done(&self) -> (r: bool)
        ensures
            r == (self@ is Done),
    {
        match self.phase {
            TtsPhase::Done => true,
            _ => false,
        }
    }

    /// Hands over the next message from the server (`None` where the
    /// connection closed). Once ready, the text and the end of the input are
    /// sent; every later message but `EndOfStream` and `Error` is collected,
    /// and a closed connection or `EndOfStream` ends the request with what
    /// the collected messages give.
    pub fn on_message(self, msg: Option<Response>) -> (r: (TtsOneShot, TtsOneShotStep))
        requires
            !(self@ is Done),
        ensures
            self@ matches TtsOneShotView::Collecting(_, rec) ==> tts_collect(rec) is Some,
            self@ matches TtsOneShotView::AwaitingReady(text) ==> match first_message_outcome(msg) {
                Ok(ready) => {
                    &&& r.0@ == TtsOneShotView::Collecting(ready, seq![])
                    &&& r.1 matches TtsOneShotStep::Continue(reqs) && reqs@.len() == 2
                        && (reqs@[0] matches Request::Text(t) && t.text@ == text && t.client_req_id is None)
                        && (reqs@[1] matches Request::EndOfStream { client_req_id: None })
                },
                Err(e) => r.0@ is Done && r.1 == TtsOneShotStep::Failed(e),
            },
            self@ matches TtsOneShotView::Collecting(ready, rec) ==> match msg {
                None => r.0@ is Done && (r.1 matches TtsOneShotStep::Finished(res) && tts_collect(rec)
                    matches Some(acc) && res@ == result_of(acc, ready)),
                Some(m) => match stream_message_outcome(m) {
                    Ok(None) => r.0@ is Done && (r.1 matches TtsOneShotStep::Finished(res) && tts_collect(
                        rec,
                    ) matches Some(acc) && res@ == result_of(acc, ready)),
                    Err(e) => r.0@ is Done && r.1 == TtsOneShotStep::Failed(e),
                    Ok(Some(x)) => if tts_collect(rec.push(x)) is Some {
                        &&& r.0@ == TtsOneShotView::Collecting(ready, rec.push(x))
                        &&& r.1 matches TtsOneShotStep::Continue(reqs) && reqs@.len() == 0
                    } else {
                        r.0@ is Done && (r.1 matches TtsOneShotStep::Failed(GradiumError::InvalidAudio(_)))
                    },
                },
            },
    {
        proof {
            use_type_invariant(&self);
        }
        match self.phase {
            TtsPhase::AwaitingReady { text } => match ready_from_first_message(msg) {
                Ok(ready) => {
                    let mut reqs: Vec<Request> = Vec::new();
                    reqs.push(text_request(text.as_str(), None));
                    reqs.push(end_of_stream_request(None));
                    let collector = TtsCollector::new();
                    assert(tts_collect(Seq::<Response>::empty()) == Some(collector@));
                    (
                        TtsOneShot {
                            phase: TtsPhase::Collecting { ready, collector, received: Ghost(Seq::empty()) },
                        },
                        TtsOneShotStep::Continue(reqs),
                    )
                },
                Err(e) => (TtsOneShot { phase: TtsPhase::Done }, TtsOneShotStep::Failed(e)),
            },
            TtsPhase::Collecting { ready, collector, received } => {
                let m = match msg {
                    None => {
                        let res = collector.finish(&ready);
                        return (TtsOneShot { phase: TtsPhase::Done }, TtsOneShotStep::Finished(res));
                    },
                    Some(m) => m,
                };
                match stream_message(m) {
                    Ok(None) => {
                        let res = collector.finish(&ready);
                        (TtsOneShot { phase: TtsPhase::Done }, TtsOneShotStep::Finished(res))
                    },
                    Err(e) => (TtsOneShot { phase: TtsPhase::Done }, TtsOneShotStep::Failed(e)),
                    Ok(Some(x)) => {
                        let ghost rec = received@;
                        assert(rec.push(x).drop_last() =~= rec);
                        let mut collector = collector;
                        match collector.absorb(x) {
                            Ok(()) => (
                                TtsOneShot {
                                    phase: TtsPhase::Collecting {
                                        ready,
                                        collector,
                                        received: Ghost(rec.push(x)),
                                    },
                                },
                                TtsOneShotStep::Continue(Vec::new()),
                            ),
                            Err(e) => (TtsOneShot { phase: TtsPhase::Done }, TtsOneShotStep::Failed(e)),
                        }
                    },
                }
            },
            TtsPhase::Done => (TtsOneShot { phase: TtsPhase::Done }, TtsOneShotStep::Continue(Vec::new())),
        }
    }
}

} // verus!
