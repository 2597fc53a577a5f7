//! The duplex streaming channel: the upgrade request that opens it, the
//! classification of what arrives on it, the liveness monitor, and the
//! lifecycle that ties the two directions together.
//!
//! Nothing here touches a socket. The transport hands every inbound frame to
//! `read`, writes the frames that `next_frame` gives out, and reports the
//! outcome of the upgrade with `opened` or `refused`.

use crate::error::ChannelError;
use crate::http::{plain_header, secret_header, HttpHeader, HttpHeaderView};
use crate::json::{json_parse, json_text, string_opt_view, Json, JsonValue};
use crate::lnd::models::{
    view_opt, JsonRecord, LndError, LndErrorDetailView, LndErrorView, LndResponse, LndResponseView,
};
use crate::text::{header_text, is_header_text};
use std::collections::VecDeque;
use vstd::prelude::*;
use vstd::string::*;

verus! {

/// What one inbound frame turned out to be.
#[derive(Debug)]
pub enum FrameKind<R> {
    /// A success envelope, with its payload.
    Response(R),
    /// An error envelope.
    Error(LndError),
    /// A protocol-level ping.
    Keepalive,
    /// Anything that fits neither envelope.
    Unrecognized,
}

/// Model of `FrameKind`.
pub enum FrameKindView<V> {
    Response(V),
    Error(LndErrorView),
    Keepalive,
    Unrecognized,
}

impl<R: View> View for FrameKind<R> {
    type V = FrameKindView<R::V>;

    open spec fn view(&self) -> FrameKindView<R::V> {
        match self {
            FrameKind::Response(r) => FrameKindView::Response(r@),
            FrameKind::Error(e) => FrameKindView::Error(e@),
            FrameKind::Keepalive => FrameKindView::Keepalive,
            FrameKind::Unrecognized => FrameKindView::Unrecognized,
        }
    }
}

/// The kind of a JSON document on a channel whose payloads are `R`: the
/// success envelope is tried first, the error envelope second.
pub open spec fn classify_doc<R: JsonRecord>(doc: JsonValue) -> FrameKindView<R::V> {
    match LndResponse::<R>::decode(doc) {
        Some(response) => FrameKindView::Response(response.result),
        None => match LndError::decode(doc) {
            Some(error) => FrameKindView::Error(error),
            None => FrameKindView::Unrecognized,
        },
    }
}

/// The kind of a text frame: that of the document it holds, and
/// `Unrecognized` where it holds none.
pub open spec fn classify_text<R: JsonRecord>(text: Seq<char>) -> FrameKindView<R::V> {
    match json_parse(text) {
        Some(doc) => classify_doc::<R>(doc),
        None => FrameKindView::Unrecognized,
    }
}

/// Classifies a JSON document.
pub fn classify_json<R: JsonRecord>(doc: &Json) -> (kind: FrameKind<R>)
    ensures
        kind@ == classify_doc::<R>(doc@),
{
    match LndResponse::<R>::from_json(doc) {
        Some(response) => FrameKind::Response(response.result),
        None => match LndError::from_json(doc) {
            Some(error) => FrameKind::Error(error),
            None => FrameKind::Unrecognized,
        },
    }
}

/// Classifies a text frame.
pub fn classify<R: JsonRecord>(text: &str) -> (kind: FrameKind<R>)
    ensures
        kind@ == classify_text::<R>(text@),
{
    match Json::parse(text) {
        Some(doc) => classify_json(&doc),
        None => FrameKind::Unrecognized,
    }
}

/// A payload wrapped in a success envelope is classified as that payload.
pub proof fn lemma_classify_response<R: JsonRecord>(payload: R::V)
    ensures
        classify_doc::<R>(LndResponse::<R>::encode(LndResponseView { result: payload }))
            == FrameKindView::<R::V>::Response(payload),
{
    LndResponse::<R>::lemma_decode_encode(LndResponseView { result: payload });
}

/// A code and a message wrapped in an error envelope are classified as that
/// error, whatever the payload type of the channel.
pub proof fn lemma_classify_error<R: JsonRecord>(code: i32, message: Seq<char>)
    ensures
        classify_doc::<R>(
            LndError::encode(LndErrorView { error: LndErrorDetailView { code, message } }),
        ) == FrameKindView::<R::V>::Error(
            LndErrorView { error: LndErrorDetailView { code, message } },
        ),
{
    let envelope = LndErrorView { error: LndErrorDetailView { code, message } };
    let doc = LndError::encode(envelope);
    LndError::lemma_decode_encode(envelope);
    reveal_strlit("error");
    reveal_strlit("result");
    assert(doc->Object_0[0].0 == "error"@);
    assert("error"@ != "result"@);
    crate::json::lemma_lookup_misses(doc->Object_0, "result"@, 0);
}

/// A text that reads as the success envelope of a payload is classified as
/// that payload.
pub proof fn lemma_classify_response_text<R: JsonRecord>(text: Seq<char>, payload: R::V)
    requires
        json_parse(text) == Some(LndResponse::<R>::encode(LndResponseView { result: payload })),
    ensures
        classify_text::<R>(text) == FrameKindView::<R::V>::Response(payload),
{
    lemma_classify_response::<R>(payload);
}

/// A text that reads as the error envelope of a code and a message is
/// classified as that error.
pub proof fn lemma_classify_error_text<R: JsonRecord>(
    text: Seq<char>,
    code: i32,
    message: Seq<char>,
)
    requires
        json_parse(text) == Some(
            LndError::encode(LndErrorView { error: LndErrorDetailView { code, message } }),
        ),
    ensures
        classify_text::<R>(text) == FrameKindView::<R::V>::Error(
            LndErrorView { error: LndErrorDetailView { code, message } },
        ),
{
    lemma_classify_error::<R>(code, message);
}

/// A document that fits neither envelope is unrecognized.
pub proof fn lemma_classify_neither<R: JsonRecord>(doc: JsonValue)
    requires
        LndResponse::<R>::decode(doc) is None,
        LndError::decode(doc) is None,
    ensures
        classify_doc::<R>(doc) == FrameKindView::<R::V>::Unrecognized,
{
}

/// A text that is no JSON document is unrecognized.
pub proof fn lemma_classify_no_document<R: JsonRecord>(text: Seq<char>)
    requires
        json_parse(text) is None,
    ensures
        classify_text::<R>(text) == FrameKindView::<R::V>::Unrecognized,
{
}

/// What the transport hands over for one inbound frame.
#[derive(Debug)]
pub enum Inbound {
    /// A text frame.
    Text(String),
    /// A protocol-level ping.
    Ping,
    /// A close frame.
    Close,
    /// The transport reported an error.
    Failure,
    /// Any other frame: a pong, a binary frame.
    Other,
}

/// Model of `Inbound`.
pub enum InboundView {
    Text(Seq<char>),
    Ping,
    Close,
    Failure,
    Other,
}

impl View for Inbound {
    type V = InboundView;

    open spec fn view(&self) -> InboundView {
        match self {
            Inbound::Text(text) => InboundView::Text(text@),
            Inbound::Ping => InboundView::Ping,
            Inbound::Close => InboundView::Close,
            Inbound::Failure => InboundView::Failure,
            Inbound::Other => InboundView::Other,
        }
    }
}

/// What a caller receives from a channel.
#[derive(Debug)]
pub enum LndWebsocketMessage<R> {
    Response(R),
    Error(LndError),
    Ping,
}

/// Model of `LndWebsocketMessage`.
pub enum LndWebsocketMessageView<V> {
    Response(V),
    Error(LndErrorView),
    Ping,
}

impl<R: View> View for LndWebsocketMessage<R> {
    type V = LndWebsocketMessageView<R::V>;

    open spec fn view(&self) -> LndWebsocketMessageView<R::V> {
        match self {
            LndWebsocketMessage::Response(r) => LndWebsocketMessageView::Response(r@),
            LndWebsocketMessage::Error(e) => LndWebsocketMessageView::Error(e@),
            LndWebsocketMessage::Ping => LndWebsocketMessageView::Ping,
        }
    }
}

/// Where a channel is in its life. `Closed` is final.
#[derive(Debug, Clone, Copy, PartialEq, Eq, Hash, Structural)]
pub enum ChannelState {
    Connecting,
    Open,
    Closed,
}

/// What an inbound frame means to the lifecycle of a channel.
pub enum Signal {
    /// A success envelope.
    Data,
    /// An error envelope.
    Fault,
    /// A ping.
    Keepalive,
    /// A frame that is dropped.
    Noise,
    /// A close frame.
    Close,
    /// A transport error.
    Failure,
}

/// The kind of an inbound frame on a channel whose payloads are `R`. A close
/// frame and a transport error have none: they end the channel.
pub open spec fn frame_kind<R: JsonRecord>(frame: InboundView) -> Option<FrameKindView<R::V>> {
    match frame {
        InboundView::Text(text) => Some(classify_text::<R>(text)),
        InboundView::Ping => Some(FrameKindView::Keepalive),
        InboundView::Other => Some(FrameKindView::Unrecognized),
        InboundView::Close => None,
        InboundView::Failure => None,
    }
}

/// The signal that a frame gives on a channel whose payloads are `R`.
pub open spec fn signal_of<R: JsonRecord>(frame: InboundView) -> Signal {
    match frame_kind::<R>(frame) {
        Some(FrameKindView::Response(_)) => Signal::Data,
        Some(FrameKindView::Error(_)) => Signal::Fault,
        Some(FrameKindView::Keepalive) => Signal::Keepalive,
        Some(FrameKindView::Unrecognized) => Signal::Noise,
        None => if frame is Close {
            Signal::Close
        } else {
            Signal::Failure
        },
    }
}

/// Classifies an inbound frame. A text frame goes by what it holds, a ping
/// is a keepalive, and any other data frame is unrecognized; a close frame
/// and a transport error have no kind.
pub fn classify_frame<R: JsonRecord>(frame: &Inbound) -> (kind: Option<FrameKind<R>>)
    ensures
        view_opt(kind) == frame_kind::<R>(frame@),
{
    match frame {
        Inbound::Text(text) => Some(classify::<R>(text.as_str())),
        Inbound::Ping => Some(FrameKind::Keepalive),
        Inbound::Other => Some(FrameKind::Unrecognized),
        Inbound::Close => None,
        Inbound::Failure => None,
    }
}

/// The result of handing one inbound frame to a reader.
#[derive(Debug)]
pub enum ReadStep<R> {
    /// An event for the caller.
    Deliver(LndWebsocketMessage<R>),
    /// The frame was dropped; the caller keeps waiting.
    Skip,
    /// No event: the channel is over, for the reason given.
    End(ChannelError),
}

/// Model of `ReadStep`.
pub enum ReadStepView<V> {
    Deliver(LndWebsocketMessageView<V>),
    Skip,
    End(ChannelError),
}

impl<R: View> View for ReadStep<R> {
    type V = ReadStepView<R::V>;

    open spec fn view(&self) -> ReadStepView<R::V> {
        match self {
            ReadStep::Deliver(m) => ReadStepView::Deliver(m@),
            ReadStep::Skip => ReadStepView::Skip,
            ReadStep::End(e) => ReadStepView::End(*e),
        }
    }
}

/// Model of the inbound half: the lifecycle state, the liveness monitor and
/// the reason for which the half was closed.
pub struct ReaderView {
    pub state: ChannelState,
    /// Keepalives since the last success or error envelope.
    pub keepalives: nat,
    /// How many keepalives in a row are tolerated.
    pub threshold: nat,
    pub cause: Option<ChannelError>,
}

impl ReaderView {
    /// The half, closed for `cause`; a half that is closed keeps the cause
    /// it has.
    pub open spec fn closed(self, cause: ChannelError) -> ReaderView {
        if self.state == ChannelState::Closed {
            self
        } else {
            ReaderView { state: ChannelState::Closed, cause: Some(cause), ..self }
        }
    }

    /// The half once the connection is up: a waiting half is open, with a
    /// fresh count; any other half is what it was.
    pub open spec fn opened(self) -> ReaderView {
        if self.state == ChannelState::Connecting {
            ReaderView { state: ChannelState::Open, keepalives: 0, ..self }
        } else {
            self
        }
    }

    /// The half after one signal. Signals change an open half only.
    pub open spec fn step(self, signal: Signal) -> ReaderView {
        if self.state != ChannelState::Open {
            self
        } else {
            match signal {
                Signal::Data => ReaderView { keepalives: 0, ..self },
                Signal::Fault => ReaderView {
                    keepalives: 0,
                    ..self.closed(ChannelError::ApplicationError)
                },
                Signal::Keepalive => if self.keepalives >= self.threshold {
                    self.closed(ChannelError::LivenessTimeout)
                } else {
                    ReaderView { keepalives: self.keepalives + 1, ..self }
                },
                Signal::Noise => self,
                Signal::Close => self.closed(ChannelError::PeerClosed),
                Signal::Failure => self.closed(ChannelError::TransportError),
            }
        }
    }

    /// The half after a run of signals, first to last.
    pub open spec fn run(self, signals: Seq<Signal>) -> ReaderView
        decreases signals.len(),
    {
        if signals.len() == 0 {
            self
        } else {
            self.step(signals[0]).run(signals.drop_first())
        }
    }

    /// A half is closed exactly when it has a cause, and an open half has
    /// not exceeded its threshold.
    pub open spec fn wf(self) -> bool {
        &&& self.state == ChannelState::Closed <==> self.cause is Some
        &&& self.state == ChannelState::Open ==> self.keepalives <= self.threshold
    }
}

/// What a reader in the state `before` answers to `frame`.
pub open spec fn read_outcome<R: JsonRecord>(
    before: ReaderView,
    frame: InboundView,
) -> ReadStepView<R::V> {
    if before.state != ChannelState::Open {
        ReadStepView::End(ChannelError::ConnectionClosed)
    } else {
        match frame_kind::<R>(frame) {
            Some(FrameKindView::Response(payload)) => ReadStepView::Deliver(
                LndWebsocketMessageView::Response(payload),
            ),
            Some(FrameKindView::Error(error)) => ReadStepView::Deliver(
                LndWebsocketMessageView::Error(error),
            ),
            Some(FrameKindView::Keepalive) => if before.keepalives >= before.threshold {
                ReadStepView::End(ChannelError::LivenessTimeout)
            } else {
                ReadStepView::Deliver(LndWebsocketMessageView::Ping)
            },
            Some(FrameKindView::Unrecognized) => ReadStepView::Skip,
            None => if frame is Close {
                ReadStepView::End(ChannelError::PeerClosed)
            } else {
                ReadStepView::End(ChannelError::TransportError)
            },
        }
    }
}

/// The inbound half of a channel.
#[derive(Debug)]
pub struct LndWebsocketReader {
    state: ChannelState,
    keepalives: u64,
    threshold: u64,
    cause: Option<ChannelError>,
}

impl View for LndWebsocketReader {
    type V = ReaderView;

    closed spec fn view(&self) -> ReaderView {
        ReaderView {
            state: self.state,
            keepalives: self.keepalives as nat,
            threshold: self.threshold as nat,
            cause: self.cause,
        }
    }
}

impl LndWebsocketReader {
    /// A half that waits for its connection and tolerates `threshold`
    /// keepalives in a row.
    pub fn new(threshold: u64) -> (reader: Self)
        ensures
            reader@ == (ReaderView {
                state: ChannelState::Connecting,
                keepalives: 0,
                threshold: threshold as nat,
                cause: None,
            }),
    {
        LndWebsocketReader {
            state: ChannelState::Connecting,
            keepalives: 0,
            threshold,
            cause: None,
        }
    }

    pub fn state(&self) -> (state: ChannelState)
        ensures
            state == self@.state,
    {
        self.state
    }

    /// Keepalives since the last success or error envelope.
    pub fn keepalives(&self) -> (count: u64)
        ensures
            count == self@.keepalives,
    {
        self.keepalives
    }

    pub fn threshold(&self) -> (threshold: u64)
        ensures
            threshold == self@.threshold,
    {
        self.threshold
    }

    /// Why the half was closed, once it is.
    pub fn cause(&self) -> (cause: Option<ChannelError>)
        ensures
            cause == self@.cause,
    {
        self.cause
    }

    /// The connection is up: a waiting half becomes open. Any other half
    /// stays as it is.
    pub fn opened(&mut self)
        ensures
            final(self)@ == old(self)@.opened(),
    {
        if self.state == ChannelState::Connecting {
            self.state = ChannelState::Open;
            self.keepalives = 0;
        }
    }

    /// Closes the half for `cause`. A closed half stays as it is, with the
    /// cause it has.
    pub fn close(&mut self, cause: ChannelError)
        ensures
            final(self)@ == old(self)@.closed(cause),
    {
        if self.state != ChannelState::Closed {
            self.state = ChannelState::Closed;
            self.cause = Some(cause);
        }
    }

    /// Takes one inbound frame. An open half classifies it, keeps the
    /// liveness count and closes itself where the frame calls for it; any
    /// other half answers `End(ConnectionClosed)` and stays as it is.
    pub fn read<R: JsonRecord>(&mut self, frame: Inbound) -> (step: ReadStep<R>)
        ensures
            final(self)@ == old(self)@.step(signal_of::<R>(frame@)),
            step@ == read_outcome::<R>(old(self)@, frame@),
    {
        if self.state != ChannelState::Open {
            return ReadStep::End(ChannelError::ConnectionClosed);
        }
        match classify_frame::<R>(&frame) {
            Some(FrameKind::Response(payload)) => {
                self.keepalives = 0;
                ReadStep::Deliver(LndWebsocketMessage::Response(payload))
            },
            Some(FrameKind::Error(error)) => {
                self.keepalives = 0;
                self.close(ChannelError::ApplicationError);
                ReadStep::Deliver(LndWebsocketMessage::Error(error))
            },
            Some(FrameKind::Keepalive) => {
                if self.keepalives >= self.threshold {
                    self.close(ChannelError::LivenessTimeout);
                    ReadStep::End(ChannelError::LivenessTimeout)
                } else {
                    self.keepalives = self.keepalives + 1;
                    ReadStep::Deliver(LndWebsocketMessage::Ping)
                }
            },
            Some(FrameKind::Unrecognized) => ReadStep::Skip,
            None => {
                let cause = match frame {
                    Inbound::Close => ChannelError::PeerClosed,
                    _ => ChannelError::TransportError,
                };
                self.close(cause);
                ReadStep::End(cause)
            },
        }
    }
}

/// `count` keepalives.
pub open spec fn keepalive_run(count: nat) -> Seq<Signal> {
    Seq::new(count, |i: int| Signal::Keepalive)
}

/// Every step keeps a well-formed half well-formed.
pub proof fn lemma_step_keeps_wf(reader: ReaderView, signal: Signal)
    requires
        reader.wf(),
    ensures
        reader.step(signal).wf(),
{
}

/// A closed half stays closed, with the cause it has, whatever arrives.
pub proof fn lemma_closed_is_final(reader: ReaderView, signals: Seq<Signal>)
    requires
        reader.state == ChannelState::Closed,
    ensures
        reader.run(signals) == reader,
    decreases signals.len(),
{
    if signals.len() > 0 {
        lemma_closed_is_final(reader, signals.drop_first());
    }
}

/// A frame that is dropped leaves the half as it is.
pub proof fn lemma_noise_changes_nothing(reader: ReaderView)
    ensures
        reader.step(Signal::Noise) == reader,
{
}

/// A success envelope resets the liveness count of an open half and leaves
/// it open.
pub proof fn lemma_data_resets_count(reader: ReaderView)
    requires
        reader.state == ChannelState::Open,
    ensures
        reader.step(Signal::Data).state == ChannelState::Open,
        reader.step(Signal::Data).keepalives == 0,
{
}

/// An open half that has counted `keepalives` of them stays open, counting
/// on, through as many more as its threshold leaves room for.
pub proof fn lemma_keepalives_tolerated(reader: ReaderView, count: nat)
    requires
        reader.state == ChannelState::Open,
        reader.keepalives + count <= reader.threshold,
    ensures
        reader.run(keepalive_run(count)) == (ReaderView {
            keepalives: reader.keepalives + count,
            ..reader
        }),
    decreases count,
{
    if count > 0 {
        let rest = keepalive_run((count - 1) as nat);
        assert(keepalive_run(count).drop_first() =~= rest);
        lemma_keepalives_tolerated(reader.step(Signal::Keepalive), (count - 1) as nat);
    }
}

/// With a threshold of `N` and a fresh count, `N + 1` keepalives in a row
/// close the half with `LivenessTimeout`; more generally, an open half
/// closes with the keepalive that takes its count past the threshold.
pub proof fn lemma_liveness_timeout(reader: ReaderView)
    requires
        reader.state == ChannelState::Open,
        reader.keepalives <= reader.threshold,
    ensures
        ({
            let after = reader.run(
                keepalive_run((reader.threshold - reader.keepalives + 1) as nat),
            );
            &&& after.state == ChannelState::Closed
            &&& after.cause == Some(ChannelError::LivenessTimeout)
        }),
{
    let room = (reader.threshold - reader.keepalives) as nat;
    lemma_keepalives_tolerated(reader, room);
    lemma_run_then_step(reader, keepalive_run(room), Signal::Keepalive);
    assert(keepalive_run(room).push(Signal::Keepalive) =~= keepalive_run(room + 1));
}

/// Whether a run holds nothing but keepalives and dropped frames.
pub open spec fn is_idle(signals: Seq<Signal>) -> bool {
    forall|i: int|
        0 <= i < signals.len() ==> (#[trigger] signals[i]) is Keepalive || signals[i] is Noise
}

/// The number of keepalives in a run.
pub open spec fn keepalives_in(signals: Seq<Signal>) -> nat
    decreases signals.len(),
{
    if signals.len() == 0 {
        0
    } else if signals[0] is Keepalive {
        1 + keepalives_in(signals.drop_first())
    } else {
        keepalives_in(signals.drop_first())
    }
}

/// Through a run without a success or error envelope, an open half counts
/// every keepalive, wherever dropped frames stand between them: it stays
/// open while the count is within the threshold, and is closed with
/// `LivenessTimeout` once the count has passed it.
pub proof fn lemma_idle_run(reader: ReaderView, signals: Seq<Signal>)
    requires
        reader.state == ChannelState::Open,
        reader.keepalives <= reader.threshold,
        is_idle(signals),
    ensures
        reader.keepalives + keepalives_in(signals) <= reader.threshold ==> reader.run(signals)
            == (ReaderView { keepalives: reader.keepalives + keepalives_in(signals), ..reader }),
        reader.keepalives + keepalives_in(signals) > reader.threshold ==> reader.run(
            signals,
        ).state == ChannelState::Closed && reader.run(signals).cause == Some(
            ChannelError::LivenessTimeout,
        ),
    decreases signals.len(),
{
    if signals.len() > 0 {
        let rest = signals.drop_first();
        let next = reader.step(signals[0]);
        assert(is_idle(rest)) by {
            assert forall|i: int| 0 <= i < rest.len() implies (#[trigger] rest[i]) is Keepalive
                || rest[i] is Noise by {
                assert(rest[i] == signals[i + 1]);
            }
        }
        if next.state == ChannelState::Closed {
            lemma_closed_is_final(next, rest);
        } else {
            lemma_idle_run(next, rest);
        }
    }
}

/// Running a sequence and then one more signal is running the longer
/// sequence.
pub proof fn lemma_run_then_step(reader: ReaderView, signals: Seq<Signal>, last: Signal)
    ensures
        reader.run(signals.push(last)) == reader.run(signals).step(last),
    decreases signals.len(),
{
    if signals.len() == 0 {
        assert(signals.push(last).drop_first() =~= Seq::<Signal>::empty());
        assert(reader.step(last).run(Seq::<Signal>::empty()) == reader.step(last));
    } else {
        assert(signals.push(last).drop_first() =~= signals.drop_first().push(last));
        lemma_run_then_step(reader.step(signals[0]), signals.drop_first(), last);
    }
}

/// The texts of a queue of frames.
pub open spec fn frame_texts(frames: Seq<String>) -> Seq<Seq<char>> {
    Seq::new(frames.len(), |i: int| frames[i]@)
}

/// Model of the outbound half: the lifecycle state and the frames that were
/// accepted and are not written yet, oldest first.
pub struct WriterView {
    pub state: ChannelState,
    pub pending: Seq<Seq<char>>,
}

impl WriterView {
    /// The half once the connection is up: a waiting half is open; any
    /// other half is what it was.
    pub open spec fn opened(self) -> WriterView {
        if self.state == ChannelState::Connecting {
            WriterView { state: ChannelState::Open, ..self }
        } else {
            self
        }
    }

    /// The half, closed: what was not written is given up.
    pub open spec fn closed(self) -> WriterView {
        WriterView { state: ChannelState::Closed, pending: Seq::empty() }
    }

    /// The half after a request whose text form is `text`, or that has none.
    /// Only an open half takes a frame, and it puts it last.
    pub open spec fn accept(self, text: Option<Seq<char>>) -> WriterView {
        match text {
            Some(t) => if self.state == ChannelState::Open {
                WriterView { pending: self.pending.push(t), ..self }
            } else {
                self
            },
            None => self,
        }
    }

    /// The answer to a request whose text form is `text`, or that has none.
    /// A half that is not open answers `ConnectionClosed` whatever the
    /// request.
    pub open spec fn answer(self, text: Option<Seq<char>>) -> Result<(), ChannelError> {
        if self.state != ChannelState::Open {
            Err(ChannelError::ConnectionClosed)
        } else if text is None {
            Err(ChannelError::SerializationError)
        } else {
            Ok(())
        }
    }

    /// The frame that is written next, if there is one.
    pub open spec fn front(self) -> Option<Seq<char>> {
        if self.state == ChannelState::Open && self.pending.len() > 0 {
            Some(self.pending[0])
        } else {
            None
        }
    }

    /// The half after the next frame was taken for writing.
    pub open spec fn advance(self) -> WriterView {
        if self.state == ChannelState::Open && self.pending.len() > 0 {
            WriterView { pending: self.pending.drop_first(), ..self }
        } else {
            self
        }
    }

    /// Only an open half holds frames.
    pub open spec fn wf(self) -> bool {
        self.state != ChannelState::Open ==> self.pending.len() == 0
    }
}

/// The outbound half of a channel.
#[derive(Debug)]
pub struct LndWebsocketWriter {
    state: ChannelState,
    pending: VecDeque<String>,
}

impl View for LndWebsocketWriter {
    type V = WriterView;

    closed spec fn view(&self) -> WriterView {
        WriterView { state: self.state, pending: frame_texts(self.pending@) }
    }
}

impl LndWebsocketWriter {
    /// A half that waits for its connection.
    pub fn new() -> (writer: Self)
        ensures
            writer@ == (WriterView { state: ChannelState::Connecting, pending: Seq::empty() }),
    {
        let writer = LndWebsocketWriter {
            state: ChannelState::Connecting,
            pending: VecDeque::new(),
        };
        assert(writer@.pending =~= Seq::empty());
        writer
    }

    pub fn state(&self) -> (state: ChannelState)
        ensures
            state == self@.state,
    {
        self.state
    }

    /// How many frames wait to be written.
    pub fn pending(&self) -> (count: usize)
        ensures
            count == self@.pending.len(),
    {
        self.pending.len()
    }

    /// The connection is up: a waiting half becomes open. Any other half
    /// stays as it is.
    pub fn opened(&mut self)
        ensures
            final(self)@ == old(self)@.opened(),
    {
        if self.state == ChannelState::Connecting {
            self.state = ChannelState::Open;
        }
    }

    /// Closes the half and gives up what was not written.
    pub fn close(&mut self)
        ensures
            final(self)@ == old(self)@.closed(),
    {
        self.state = ChannelState::Closed;
        self.pending.clear();
        assert(self@.pending =~= Seq::empty());
    }

    /// Takes the text form of a request, or the fact that it has none, and
    /// queues it as one frame.
    pub fn send_text(&mut self, text: Option<String>) -> (answer: Result<(), ChannelError>)
        ensures
            final(self)@ == old(self)@.accept(string_opt_view(text)),
            answer == old(self)@.answer(string_opt_view(text)),
    {
        if self.state != ChannelState::Open {
            return Err(ChannelError::ConnectionClosed);
        }
        match text {
            Some(frame) => {
                self.pending.push_back(frame);
                assert(self@.pending =~= old(self)@.pending.push(frame@));
                Ok(())
            },
            None => Err(ChannelError::SerializationError),
        }
    }

    /// Queues one request as one text frame, after every frame queued
    /// before. A half that is not open answers `ConnectionClosed` and
    /// nothing is queued; a request that cannot be written as text is
    /// answered with `SerializationError`.
    pub fn send<S: JsonRecord>(&mut self, message: S) -> (answer: Result<(), ChannelError>)
        ensures
            final(self)@ == old(self)@.accept(json_text(S::encode(message@))),
            answer == old(self)@.answer(json_text(S::encode(message@))),
    {
        if self.state != ChannelState::Open {
            return Err(ChannelError::ConnectionClosed);
        }
        let text = message.to_json().to_text();
        self.send_text(text)
    }

    /// Hands out the oldest frame that is not written yet. The transport
    /// writes it before it asks for the next.
    pub fn next_frame(&mut self) -> (frame: Option<String>)
        ensures
            string_opt_view(frame) == old(self)@.front(),
            final(self)@ == old(self)@.advance(),
    {
        if self.state != ChannelState::Open {
            return None;
        }
        let frame = self.pending.pop_front();
        proof {
            if frame is Some {
                assert(self@.pending =~= old(self)@.pending.drop_first());
            }
        }
        frame
    }
}

/// Two requests accepted one after the other leave in that order, behind
/// whatever was waiting: the first is written strictly before the second.
pub proof fn lemma_send_order(writer: WriterView, first: Seq<char>, second: Seq<char>)
    requires
        writer.state == ChannelState::Open,
    ensures
        writer.accept(Some(first)).accept(Some(second)).pending == writer.pending.push(first).push(
            second,
        ),
        writer.accept(Some(first)).accept(Some(second)).pending[writer.pending.len() as int]
            == first,
        writer.accept(Some(first)).accept(Some(second)).pending[writer.pending.len() as int + 1]
            == second,
{
}

/// On an empty open half, two requests are handed out in the order in which
/// they were accepted.
pub proof fn lemma_send_then_drain(writer: WriterView, first: Seq<char>, second: Seq<char>)
    requires
        writer.state == ChannelState::Open,
        writer.pending.len() == 0,
    ensures
        writer.accept(Some(first)).accept(Some(second)).front() == Some(first),
        writer.accept(Some(first)).accept(Some(second)).advance().front() == Some(second),
        writer.accept(Some(first)).accept(Some(second)).advance().advance().front() is None,
{
}

/// A half that is not open refuses every request with `ConnectionClosed`
/// and has nothing to write, before and after.
pub proof fn lemma_send_after_close(writer: WriterView, text: Option<Seq<char>>)
    requires
        writer.wf(),
        writer.state != ChannelState::Open,
    ensures
        writer.answer(text) == Err::<(), ChannelError>(ChannelError::ConnectionClosed),
        writer.accept(text) == writer,
        writer.front() is None,
        writer.accept(text).front() is None,
{
}

/// The request that upgrades a connection to a stream, and the trust policy
/// under which the connection is made.
#[derive(Debug, Clone, PartialEq, Eq)]
pub struct HandshakeRequest {
    pub method: String,
    pub path: String,
    /// The minor version of HTTP/1.
    pub version: u8,
    pub headers: Vec<HttpHeader>,
    /// Whether a certificate that does not validate is accepted.
    pub accept_invalid_certs: bool,
}

/// Model of `HandshakeRequest`.
pub struct HandshakeRequestView {
    pub method: Seq<char>,
    pub path: Seq<char>,
    pub version: u8,
    pub headers: Seq<HttpHeaderView>,
    pub accept_invalid_certs: bool,
}

impl View for HandshakeRequest {
    type V = HandshakeRequestView;

    open spec fn view(&self) -> HandshakeRequestView {
        HandshakeRequestView {
            method: self.method@,
            path: self.path@,
            version: self.version,
            headers: Seq::new(self.headers.len() as nat, |i: int| self.headers[i]@),
            accept_invalid_certs: self.accept_invalid_certs,
        }
    }
}

/// The upgrade request for the stream at `path` on `host`, authenticated
/// with the hex-encoded `credential` and carrying the handshake key `key`.
pub open spec fn handshake_request(
    host: Seq<char>,
    credential: Seq<char>,
    path: Seq<char>,
    key: Seq<char>,
    accept_invalid_certs: bool,
) -> HandshakeRequestView {
    HandshakeRequestView {
        method: "GET"@,
        path,
        version: 1,
        headers: seq![
            secret_header("Grpc-Metadata-macaroon"@, credential),
            plain_header("Sec-WebSocket-Key"@, key),
            plain_header("Host"@, host),
            plain_header("Connection"@, "Upgrade"@),
            plain_header("Upgrade"@, "websocket"@),
            plain_header("Sec-WebSocket-Version"@, "13"@),
        ],
        accept_invalid_certs,
    }
}

/// Whether the three values that a caller supplies can all stand in a
/// header.
pub open spec fn handshake_ok(host: Seq<char>, credential: Seq<char>, key: Seq<char>) -> bool {
    header_text(host) && header_text(credential) && header_text(key)
}

/// Builds the upgrade request. Fails with `HandshakeError` exactly where the
/// host, the credential or the key holds a character that cannot stand in a
/// header.
pub fn handshake(
    host: &str,
    credential: &str,
    path: &str,
    key: &str,
    accept_invalid_certs: bool,
) -> (request: Result<HandshakeRequest, ChannelError>)
    ensures
        match request {
            Ok(r) => handshake_ok(host@, credential@, key@) && r@ == handshake_request(
                host@,
                credential@,
                path@,
                key@,
                accept_invalid_certs,
            ),
            Err(e) => !handshake_ok(host@, credential@, key@) && e == ChannelError::HandshakeError,
        },
{
    if !is_header_text(host) || !is_header_text(credential) || !is_header_text(key) {
        return Err(ChannelError::HandshakeError);
    }
    let mut headers: Vec<HttpHeader> = Vec::new();
    headers.push(HttpHeader::secret("Grpc-Metadata-macaroon", credential));
    headers.push(HttpHeader::plain("Sec-WebSocket-Key", key));
    headers.push(HttpHeader::plain("Host", host));
    headers.push(HttpHeader::plain("Connection", "Upgrade"));
    headers.push(HttpHeader::plain("Upgrade", "websocket"));
    headers.push(HttpHeader::plain("Sec-WebSocket-Version", "13"));
    let request = HandshakeRequest {
        method: String::from_str("GET"),
        path: String::from_str(path),
        version: 1,
        headers,
        accept_invalid_certs,
    };
    assert(request@.headers =~= handshake_request(
        host@,
        credential@,
        path@,
        key@,
        accept_invalid_certs,
    ).headers);
    Ok(request)
}

/// The handshake key that is sent where the caller supplies none.
pub open spec fn sample_key() -> Seq<char> {
    "dGhlIHNhbXBsZSBub25jZQ2342qdfsdgfsdfg"@
}

/// Model of a channel: its two halves.
pub struct ChannelView {
    pub receiver: ReaderView,
    pub sender: WriterView,
}

impl ChannelView {
    /// The two halves share one lifecycle state and are well-formed.
    pub open spec fn wf(self) -> bool {
        &&& self.receiver.state == self.sender.state
        &&& self.receiver.wf()
        &&& self.sender.wf()
    }

    pub open spec fn state(self) -> ChannelState {
        self.receiver.state
    }

    /// The channel after one inbound signal: the reader takes the step, and
    /// where that closes it, the writer closes with it.
    pub open spec fn step(self, signal: Signal) -> ChannelView {
        let receiver = self.receiver.step(signal);
        ChannelView {
            receiver,
            sender: if receiver.state == ChannelState::Closed {
                self.sender.closed()
            } else {
                self.sender
            },
        }
    }

    /// The channel once the upgrade succeeded.
    pub open spec fn opened(self) -> ChannelView {
        ChannelView { receiver: self.receiver.opened(), sender: self.sender.opened() }
    }

    /// The channel once the upgrade was turned down: a waiting channel is
    /// closed with `ConnectionRefused`; any other channel is what it was.
    pub open spec fn refused(self) -> ChannelView {
        if self.state() == ChannelState::Connecting {
            self.closed(ChannelError::ConnectionRefused)
        } else {
            self
        }
    }

    /// The channel, closed for `cause` unless it is closed already.
    pub open spec fn closed(self, cause: ChannelError) -> ChannelView {
        ChannelView { receiver: self.receiver.closed(cause), sender: self.sender.closed() }
    }
}

/// A duplex channel over one connection: an inbound half that classifies
/// what arrives and watches for a stalled peer, and an outbound half that
/// queues requests in order.
#[derive(Debug)]
pub struct LndWebsocket {
    receiver: LndWebsocketReader,
    sender: LndWebsocketWriter,
}

impl View for LndWebsocket {
    type V = ChannelView;

    closed spec fn view(&self) -> ChannelView {
        ChannelView { receiver: self.receiver@, sender: self.sender@ }
    }
}

impl LndWebsocket {
    /// A channel that waits for its connection and tolerates `threshold`
    /// keepalives in a row.
    pub fn new(threshold: u64) -> (channel: Self)
        ensures
            channel@.wf(),
            channel@.state() == ChannelState::Connecting,
            channel@.receiver == (ReaderView {
                state: ChannelState::Connecting,
                keepalives: 0,
                threshold: threshold as nat,
                cause: None,
            }),
            channel@.sender == (WriterView {
                state: ChannelState::Connecting,
                pending: Seq::empty(),
            }),
    {
        LndWebsocket {
            receiver: LndWebsocketReader::new(threshold),
            sender: LndWebsocketWriter::new(),
        }
    }

    /// The inbound half.
    pub fn receiver(&self) -> (half: &LndWebsocketReader)
        ensures
            half@ == self@.receiver,
    {
        &self.receiver
    }

    /// The outbound half.
    pub fn sender(&self) -> (half: &LndWebsocketWriter)
        ensures
            half@ == self@.sender,
    {
        &self.sender
    }

    pub fn state(&self) -> (state: ChannelState)
        ensures
            state == self@.state(),
    {
        self.receiver.state()
    }

    /// Why the channel was closed, once it is.
    pub fn cause(&self) -> (cause: Option<ChannelError>)
        ensures
            cause == self@.receiver.cause,
    {
        self.receiver.cause()
    }

    /// Builds the upgrade request for the stream `request` on the host
    /// `url`, authenticated with the hex-encoded `macaroon`. The request
    /// carries the sample handshake key and accepts a certificate that does
    /// not validate; `handshake` takes both as arguments. The channel itself
    /// is not changed: the transport reports the outcome with `opened` or
    /// `refused`.
    pub fn connect(&self, url: String, macaroon: String, request: String) -> (upgrade: Result<
        HandshakeRequest,
        ChannelError,
    >)
        ensures
            match upgrade {
                Ok(r) => handshake_ok(url@, macaroon@, sample_key()) && r@ == handshake_request(
                    url@,
                    macaroon@,
                    request@,
                    sample_key(),
                    true,
                ),
                Err(e) => !handshake_ok(url@, macaroon@, sample_key()) && e
                    == ChannelError::HandshakeError,
            },
    {
        handshake(
            url.as_str(),
            macaroon.as_str(),
            request.as_str(),
            "dGhlIHNhbXBsZSBub25jZQ2342qdfsdgfsdfg",
            true,
        )
    }

    /// The upgrade succeeded: a waiting channel becomes open.
    pub fn opened(&mut self)
        requires
            old(self)@.wf(),
        ensures
            final(self)@.wf(),
            final(self)@ == old(self)@.opened(),
    {
        self.receiver.opened();
        self.sender.opened();
    }

    /// The peer turned the upgrade down: a waiting channel closes with
    /// `ConnectionRefused`.
    pub fn refused(&mut self)
        requires
            old(self)@.wf(),
        ensures
            final(self)@.wf(),
            final(self)@ == old(self)@.refused(),
    {
        if self.receiver.state() == ChannelState::Connecting {
            self.receiver.close(ChannelError::ConnectionRefused);
            self.sender.close();
        }
    }

    /// Closes the channel from this side. Closing a closed channel changes
    /// nothing.
    pub fn close(&mut self)
        requires
            old(self)@.wf(),
        ensures
            final(self)@.wf(),
            final(self)@ == old(self)@.closed(ChannelError::ConnectionClosed),
    {
        self.receiver.close(ChannelError::ConnectionClosed);
        self.sender.close();
    }

    /// Takes one inbound frame and answers with the event for the caller, if
    /// there is one. A frame that closes the inbound half closes the
    /// outbound half with it.
    pub fn read<R: JsonRecord>(&mut self, frame: Inbound) -> (step: ReadStep<R>)
        requires
            old(self)@.wf(),
        ensures
            final(self)@.wf(),
            final(self)@ == old(self)@.step(signal_of::<R>(frame@)),
            step@ == read_outcome::<R>(old(self)@.receiver, frame@),
    {
        let step = self.receiver.read::<R>(frame);
        if self.sender.state() != ChannelState::Closed && self.receiver.state()
            == ChannelState::Closed {
            self.sender.close();
        }
        assert(old(self)@.state() == ChannelState::Closed ==> old(self)@.sender.pending
            =~= Seq::empty());
        step
    }

    /// Queues one request as one text frame. A channel that is not open
    /// answers `ConnectionClosed` and changes nothing.
    pub fn send<S: JsonRecord>(&mut self, message: S) -> (answer: Result<(), ChannelError>)
        requires
            old(self)@.wf(),
        ensures
            final(self)@.wf(),
            final(self)@.receiver == old(self)@.receiver,
            final(self)@.sender == old(self)@.sender.accept(json_text(S::encode(message@))),
            answer == old(self)@.sender.answer(json_text(S::encode(message@))),
            old(self)@.state() != ChannelState::Open ==> final(self)@ == old(self)@ && answer
                == Err::<(), ChannelError>(ChannelError::ConnectionClosed),
    {
        self.sender.send(message)
    }

    /// Hands out the oldest frame that is not written yet.
    pub fn next_frame(&mut self) -> (frame: Option<String>)
        requires
            old(self)@.wf(),
        ensures
            final(self)@.wf(),
            final(self)@.receiver == old(self)@.receiver,
            string_opt_view(frame) == old(self)@.sender.front(),
            final(self)@.sender == old(self)@.sender.advance(),
    {
        self.sender.next_frame()
    }
}

/// Every inbound signal keeps a well-formed channel well-formed, and a
/// dropped frame leaves it as it is.
pub proof fn lemma_channel_step(channel: ChannelView, signal: Signal)
    requires
        channel.wf(),
    ensures
        channel.step(signal).wf(),
        signal is Noise ==> channel.step(signal) == channel,
        channel.state() == ChannelState::Closed ==> channel.step(signal) == channel,
{
    if channel.state() == ChannelState::Closed {
        assert(channel.sender.pending =~= Seq::empty());
    }
}

impl ChannelView {
    /// The channel after a run of signals, first to last.
    pub open spec fn run(self, signals: Seq<Signal>) -> ChannelView
        decreases signals.len(),
    {
        if signals.len() == 0 {
            self
        } else {
            self.step(signals[0]).run(signals.drop_first())
        }
    }
}

/// The inbound half of a channel goes through a run of signals as it would
/// on its own.
pub proof fn lemma_channel_run_receiver(channel: ChannelView, signals: Seq<Signal>)
    ensures
        channel.run(signals).receiver == channel.receiver.run(signals),
    decreases signals.len(),
{
    if signals.len() > 0 {
        lemma_channel_run_receiver(channel.step(signals[0]), signals.drop_first());
    }
}

/// A text frame that fits neither envelope is dropped: an open channel
/// answers `Skip`, and the channel is after the frame what it was before.
pub proof fn lemma_unrecognized_is_dropped<R: JsonRecord>(channel: ChannelView, text: Seq<char>)
    requires
        channel.wf(),
        classify_text::<R>(text) is Unrecognized,
    ensures
        channel.step(signal_of::<R>(InboundView::Text(text))) == channel,
        channel.state() == ChannelState::Open ==> read_outcome::<R>(
            channel.receiver,
            InboundView::Text(text),
        ) == ReadStepView::<R::V>::Skip,
{
    lemma_channel_step(channel, Signal::Noise);
}

/// With a threshold of `N`, an open channel whose count is fresh stays open
/// through `N` keepalives in a row and is closed with `LivenessTimeout`
/// after one more.
pub proof fn lemma_channel_liveness_timeout(channel: ChannelView)
    requires
        channel.wf(),
        channel.state() == ChannelState::Open,
        channel.receiver.keepalives == 0,
    ensures
        channel.run(keepalive_run(channel.receiver.threshold)).state() == ChannelState::Open,
        channel.run(keepalive_run(channel.receiver.threshold + 1)).state()
            == ChannelState::Closed,
        channel.run(keepalive_run(channel.receiver.threshold + 1)).receiver.cause == Some(
            ChannelError::LivenessTimeout,
        ),
        channel.run(keepalive_run(channel.receiver.threshold + 1)).sender.state
            == ChannelState::Closed,
{
    let n = channel.receiver.threshold;
    lemma_channel_run_receiver(channel, keepalive_run(n));
    lemma_channel_run_receiver(channel, keepalive_run(n + 1));
    lemma_keepalives_tolerated(channel.receiver, n);
    lemma_liveness_timeout(channel.receiver);
    lemma_channel_run_keeps_wf(channel, keepalive_run(n + 1));
}

/// A run of signals keeps a well-formed channel well-formed.
pub proof fn lemma_channel_run_keeps_wf(channel: ChannelView, signals: Seq<Signal>)
    requires
        channel.wf(),
    ensures
        channel.run(signals).wf(),
    decreases signals.len(),
{
    if signals.len() > 0 {
        lemma_channel_step(channel, signals[0]);
        lemma_channel_run_keeps_wf(channel.step(signals[0]), signals.drop_first());
    }
}

/// `Closed` is final: a closed channel is left as it is by the outcome of
/// the upgrade, by closing it again and by whatever arrives, and it answers
/// every frame with `End(ConnectionClosed)`.
pub proof fn lemma_closed_channel_stays_closed<R: JsonRecord>(
    channel: ChannelView,
    cause: ChannelError,
    signals: Seq<Signal>,
    frame: InboundView,
)
    requires
        channel.wf(),
        channel.state() == ChannelState::Closed,
    ensures
        channel.opened() == channel,
        channel.refused() == channel,
        channel.closed(cause) == channel,
        channel.run(signals) == channel,
        read_outcome::<R>(channel.receiver, frame) == ReadStepView::<R::V>::End(
            ChannelError::ConnectionClosed,
        ),
    decreases signals.len(),
{
    assert(channel.sender.pending =~= Seq::empty());
    if signals.len() > 0 {
        lemma_closed_channel_stays_closed::<R>(channel, cause, signals.drop_first(), frame);
    }
}

/// A closed channel refuses every request with `ConnectionClosed`, takes
/// nothing into its queue and has nothing to write.
pub proof fn lemma_channel_send_after_close(channel: ChannelView, text: Option<Seq<char>>)
    requires
        channel.wf(),
        channel.state() == ChannelState::Closed,
    ensures
        channel.sender.answer(text) == Err::<(), ChannelError>(ChannelError::ConnectionClosed),
        channel.sender.accept(text) == channel.sender,
        channel.sender.front() is None,
{
}

} // verus!
