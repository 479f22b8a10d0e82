//! The online engine: what it sends, what it reads, and when.
//!
//! The engine is a machine. It says what it wants done (`action`), the caller does it and hands
//! back what came of it (`advance`), until the machine rests and the errand has its outcome.

use vstd::prelude::*;

use crate::config::OnlineAsrConfig;
use crate::engine::online_protocol::{
    meaning_model, parse_online_asr_response, response_text_meaning, OnlineUtterance,
    UtteranceModel,
};
use crate::error::{HybridAsrError, HybridAsrResult};
use crate::text::{contains_text, decode_text, has_piece, same_text, utf8_fault};

verus! {

/// How many messages are read in one go.
pub const READS_PER_BURST: u8 = 8;

/// How many times the engine listens for the last sentence.
pub const FINAL_BURSTS: u8 = 20;

pub const SOCKET_READ_TIMEOUT_MILLIS: u64 = 20;

pub const SOCKET_WRITE_TIMEOUT_MILLIS: u64 = 3_000;

/// The audio format with 16-bit samples. Any other sends samples as they are.
pub const PCM_S16LE: &'static str = "pcm_s16le";

/// The status of the frame that begins a stream.
pub const FIRST_FRAME: i32 = 0;

/// The status of a frame in the middle of a stream.
pub const MIDDLE_FRAME: i32 = 1;

/// The status of the frame that ends a stream.
pub const LAST_FRAME: i32 = 2;

/// One audio sample in both forms in which it may be sent: scaled to 16 bits, and as the bits of
/// the single-precision number that it is.
#[derive(Clone, Copy, Debug)]
pub struct PcmSample {
    pub scaled: i16,
    pub bits: u32,
}

/// What the engine is about.
#[derive(Clone, Copy, Debug, PartialEq, Eq, Structural)]
pub enum Errand {
    Start,
    Accept,
    Poll,
    Finish,
    Reset,
}

/// What the engine waits for.
#[derive(Clone, Copy, Debug, PartialEq, Eq, Structural)]
pub enum Stage {
    Resting,
    Token,
    Handshake,
    Timeouts,
    Sending,
    Reading,
    Ponging,
    Closing,
}

/// A frame of audio on its way out.
#[derive(Debug)]
pub struct OutgoingFrame {
    pub bytes: Vec<u8>,
    pub status: i32,
}

/// A frame of audio on its way out, as data.
#[verifier::ext_equal]
pub struct FrameModel {
    pub bytes: Seq<u8>,
    pub status: i32,
}

impl View for OutgoingFrame {
    type V = FrameModel;

    open spec fn view(&self) -> FrameModel {
        FrameModel { bytes: self.bytes@, status: self.status }
    }
}

/// How a handshake failed.
#[derive(Debug)]
pub enum HandshakeFault {
    /// The server answered with this HTTP status.
    Http(u16),
    /// The answer was no proper HTTP, with this message.
    HttpFormat(String),
    /// Something else went wrong.
    Other,
}

/// A handshake that failed.
#[derive(Debug)]
pub struct HandshakeFailure {
    pub fault: HandshakeFault,
    pub error: HybridAsrError,
}

/// What a read from the socket gave.
#[derive(Debug)]
pub enum Incoming {
    Text(String),
    Binary(Vec<u8>),
    Ping(Vec<u8>),
    /// A pong or a raw frame.
    Other,
    /// The server closes the connection.
    Close,
    /// Nothing has come.
    Quiet,
    /// The connection is no more.
    Gone,
    Failed(HybridAsrError),
}

/// A handshake request: where to, and with which headers.
#[derive(Debug)]
pub struct HandshakeRequest {
    pub url: String,
    pub app_access_token: String,
    pub k_code: String,
    pub visit_k_code: String,
}

/// What the engine wants done.
#[derive(Debug)]
pub enum OnlineAction {
    FetchToken { refresh: bool },
    Connect(HandshakeRequest),
    SetTimeouts { read_millis: u64, write_millis: u64 },
    Send(OutgoingFrame),
    Read,
    SendPong(Vec<u8>),
    Close,
    Rest,
}

/// What came of it.
#[derive(Debug)]
pub enum OnlineReply {
    Token(HybridAsrResult<String>),
    Connected(Result<(), HandshakeFailure>),
    TimeoutsSet(HybridAsrResult<()>),
    Sent(HybridAsrResult<()>),
    Read(Incoming),
    PongSent(HybridAsrResult<()>),
    Closed,
}

/// Whether a handshake failed for want of a valid token.
pub open spec fn unauthorized(fault: HandshakeFault) -> bool {
    match fault {
        HandshakeFault::Http(status) => status == 401,
        HandshakeFault::HttpFormat(message) => has_piece(message@, "401"@),
        HandshakeFault::Other => false,
    }
}

/// Whether a handshake failed for want of a valid token.
pub fn is_unauthorized_handshake_error(fault: &HandshakeFault) -> (answer: bool)
    ensures
        answer == unauthorized(*fault),
{
    match fault {
        HandshakeFault::Http(status) => *status == 401,
        HandshakeFault::HttpFormat(message) => contains_text(message.as_str(), "401"),
        HandshakeFault::Other => false,
    }
}

/// A 16-bit number as an unsigned one, in two's complement.
pub open spec fn unsigned_16(value: i16) -> int {
    if value < 0 {
        value + 65536
    } else {
        value as int
    }
}

/// The bytes of one sample, least significant first.
pub open spec fn sample_bytes(format: Seq<char>, sample: PcmSample) -> Seq<u8> {
    if format == PCM_S16LE@ {
        let value = unsigned_16(sample.scaled);
        seq![(value % 256) as u8, (value / 256) as u8]
    } else {
        let value = sample.bits as int;
        seq![
            (value % 256) as u8,
            (value / 256 % 256) as u8,
            (value / 65536 % 256) as u8,
            (value / 16777216) as u8,
        ]
    }
}

/// The bytes of a run of samples.
pub open spec fn audio_bytes(format: Seq<char>, samples: Seq<PcmSample>) -> Seq<u8>
    decreases samples.len(),
{
    if samples.len() == 0 {
        Seq::empty()
    } else {
        audio_bytes(format, samples.drop_last()) + sample_bytes(format, samples.last())
    }
}

/// The state of the engine, as data.
///
/// `outgoing` is the frame that goes out as soon as there is a connection, `results` what the
/// errand has gathered, and `failure` the message with which it ended, if it failed.
#[verifier::ext_equal]
pub struct OnlineModel {
    pub options: OnlineAsrConfig,
    pub connected: bool,
    pub pending: Seq<u8>,
    pub first_frame_sent: bool,
    pub progressive: Option<Seq<char>>,
    pub errand: Errand,
    pub stage: Stage,
    pub reconnecting: bool,
    pub draining: bool,
    pub drains_left: int,
    pub refreshing: bool,
    pub token: Seq<char>,
    pub outgoing: Option<FrameModel>,
    pub reads_left: int,
    pub heard_final: bool,
    pub payload: Seq<u8>,
    pub results: Seq<UtteranceModel>,
    pub failure: Option<Seq<char>>,
}

impl OnlineModel {
    /// An engine that nothing has been asked of.
    pub open spec fn fresh(options: OnlineAsrConfig) -> OnlineModel {
        OnlineModel {
            options,
            connected: false,
            pending: Seq::empty(),
            first_frame_sent: false,
            progressive: None,
            errand: Errand::Start,
            stage: Stage::Resting,
            reconnecting: false,
            draining: false,
            drains_left: 0,
            refreshing: false,
            token: Seq::empty(),
            outgoing: None,
            reads_left: 0,
            heard_final: false,
            payload: Seq::empty(),
            results: Seq::empty(),
            failure: None,
        }
    }

    /// The errand has succeeded with what was gathered.
    pub open spec fn succeeded(self) -> OnlineModel {
        OnlineModel { stage: Stage::Resting, outgoing: None, failure: None, ..self }
    }

    /// Something failed. A reset goes on to its new connection all the same, unless it is the
    /// connection that failed; any other errand ends with the error and without results.
    pub open spec fn failed(self, message: Seq<char>) -> OnlineModel {
        if self.errand == Errand::Reset && !self.reconnecting {
            self.reconnect()
        } else {
            OnlineModel {
                stage: Stage::Resting,
                outgoing: None,
                results: Seq::empty(),
                failure: Some(message),
                ..self
            }
        }
    }

    /// A new errand.
    pub open spec fn begun(self, errand: Errand) -> OnlineModel {
        OnlineModel {
            errand,
            reconnecting: false,
            draining: false,
            outgoing: None,
            results: Seq::empty(),
            failure: None,
            ..self
        }
    }

    /// The second half of a reset: nothing of the old stream is left, and a connection is wanted.
    pub open spec fn reconnect(self) -> OnlineModel {
        (OnlineModel {
            pending: Seq::empty(),
            first_frame_sent: false,
            progressive: None,
            reconnecting: true,
            outgoing: None,
            results: Seq::empty(),
            ..self
        }).with_connection()
    }

    /// Goes on over a connection, and makes one first where there is none.
    pub open spec fn with_connection(self) -> OnlineModel {
        if self.connected {
            self.on_connection()
        } else {
            OnlineModel { stage: Stage::Token, refreshing: false, ..self }
        }
    }

    /// There is a connection: the frame that waits goes out, or the errand is done.
    pub open spec fn on_connection(self) -> OnlineModel {
        if self.outgoing is Some {
            OnlineModel { stage: Stage::Sending, ..self }
        } else {
            self.succeeded()
        }
    }

    /// A connection has come up: a stream begins.
    pub open spec fn connection_made(self) -> OnlineModel {
        (OnlineModel {
            connected: true,
            first_frame_sent: false,
            progressive: None,
            ..self
        }).on_connection()
    }

    /// Sends the next full frame. The last bytes are always held back, however few: the frame that
    /// ends a stream must not be empty.
    pub open spec fn next_frame(self) -> OnlineModel {
        let size = self.options.frame_bytes as int;
        if self.pending.len() > size {
            let frame = FrameModel {
                bytes: self.pending.take(size),
                status: if self.first_frame_sent {
                    MIDDLE_FRAME
                } else {
                    FIRST_FRAME
                },
            };
            (OnlineModel {
                outgoing: Some(frame),
                pending: self.pending.skip(size),
                first_frame_sent: true,
                ..self
            }).with_connection()
        } else {
            self.succeeded()
        }
    }

    /// Begins to read what has come.
    pub open spec fn begin_burst(self) -> OnlineModel {
        let quiet = OnlineModel { heard_final: false, ..self };
        if self.connected {
            OnlineModel { stage: Stage::Reading, reads_left: READS_PER_BURST as int, ..quiet }
        } else {
            quiet.end_burst()
        }
    }

    /// What has come has been read.
    pub open spec fn end_burst(self) -> OnlineModel {
        match self.errand {
            Errand::Accept => self.next_frame(),
            Errand::Start | Errand::Poll => self.succeeded(),
            Errand::Finish | Errand::Reset => if !self.draining {
                self.begin_drain()
            } else if self.heard_final {
                self.close()
            } else {
                self.drain()
            },
        }
    }

    /// Listens for the last sentence, if anything was sent.
    pub open spec fn begin_drain(self) -> OnlineModel {
        if self.first_frame_sent {
            (OnlineModel { draining: true, drains_left: FINAL_BURSTS as int, ..self }).drain()
        } else {
            self.close()
        }
    }

    /// Listens once more, as long as there is somebody to listen to.
    pub open spec fn drain(self) -> OnlineModel {
        if self.connected && self.drains_left > 0 {
            OnlineModel {
                drains_left: self.drains_left - 1,
                stage: Stage::Reading,
                reads_left: READS_PER_BURST as int,
                heard_final: false,
                ..self
            }
        } else {
            self.close()
        }
    }

    /// Closes the connection, if there is one.
    pub open spec fn close(self) -> OnlineModel {
        if self.connected {
            OnlineModel { stage: Stage::Closing, ..self }
        } else {
            self.closed()
        }
    }

    /// The stream is over.
    pub open spec fn closed(self) -> OnlineModel {
        let over = OnlineModel {
            connected: false,
            first_frame_sent: false,
            progressive: None,
            ..self
        };
        if self.errand == Errand::Reset {
            over.reconnect()
        } else {
            over.succeeded()
        }
    }

    /// Reads on, up to the limit of one burst.
    pub open spec fn read_on(self) -> OnlineModel {
        if self.reads_left > 1 {
            OnlineModel { stage: Stage::Reading, reads_left: self.reads_left - 1, ..self }
        } else {
            self.end_burst()
        }
    }

    /// A message said something. Only a whole sentence is a result; what is still being spoken is
    /// remembered.
    pub open spec fn heard(self, meaning: Result<Option<UtteranceModel>, Seq<char>>) -> OnlineModel {
        match meaning {
            Err(message) => self.failed(message),
            Ok(None) => self.read_on(),
            Ok(Some(utterance)) => if utterance.is_final {
                (OnlineModel {
                    progressive: None,
                    results: self.results.push(utterance),
                    heard_final: true,
                    ..self
                }).read_on()
            } else {
                (OnlineModel { progressive: Some(utterance.text), ..self }).read_on()
            },
        }
    }

    /// The connection turned out to be gone.
    pub open spec fn hung_up(self) -> OnlineModel {
        (OnlineModel { connected: false, ..self }).end_burst()
    }

    /// The engine after what a read gave.
    pub open spec fn read(self, incoming: Incoming) -> OnlineModel {
        match incoming {
            Incoming::Text(text) => self.heard(response_text_meaning(text@)),
            Incoming::Binary(bytes) => if vstd::utf8::valid_utf8(bytes@) {
                self.heard(response_text_meaning(vstd::utf8::decode_utf8(bytes@)))
            } else {
                self.failed(utf8_fault(bytes@))
            },
            Incoming::Ping(payload) => OnlineModel {
                stage: Stage::Ponging,
                payload: payload@,
                ..self
            },
            Incoming::Other => self.read_on(),
            Incoming::Close => self.hung_up(),
            Incoming::Quiet => self.end_burst(),
            Incoming::Gone => self.hung_up(),
            Incoming::Failed(error) => self.failed(error@),
        }
    }

    /// The engine after a reply. One that answers to something else changes nothing.
    pub open spec fn next(self, reply: OnlineReply) -> OnlineModel {
        match (self.stage, reply) {
            (Stage::Token, OnlineReply::Token(Ok(token))) => OnlineModel {
                stage: Stage::Handshake,
                token: token@,
                ..self
            },
            (Stage::Token, OnlineReply::Token(Err(error))) => self.failed(error@),
            (Stage::Handshake, OnlineReply::Connected(Ok(_))) => OnlineModel {
                stage: Stage::Timeouts,
                ..self
            },
            (Stage::Handshake, OnlineReply::Connected(Err(failure))) => if !self.refreshing
                && unauthorized(failure.fault) {
                OnlineModel { stage: Stage::Token, refreshing: true, ..self }
            } else {
                self.failed(failure.error@)
            },
            (Stage::Timeouts, OnlineReply::TimeoutsSet(Ok(_))) => self.connection_made(),
            (Stage::Timeouts, OnlineReply::TimeoutsSet(Err(error))) => self.failed(error@),
            (Stage::Sending, OnlineReply::Sent(Ok(_))) => (OnlineModel {
                outgoing: None,
                ..self
            }).begin_burst(),
            (Stage::Sending, OnlineReply::Sent(Err(error))) => self.failed(error@),
            (Stage::Reading, OnlineReply::Read(incoming)) => self.read(incoming),
            (Stage::Ponging, OnlineReply::PongSent(Ok(_))) => self.read_on(),
            (Stage::Ponging, OnlineReply::PongSent(Err(error))) => self.failed(error@),
            (Stage::Closing, OnlineReply::Closed) => self.closed(),
            _ => self,
        }
    }

    /// Begins to end the stream: what is left goes out as its last frame.
    pub open spec fn finish_socket(self) -> OnlineModel {
        if self.pending.len() > 0 {
            (OnlineModel {
                outgoing: Some(FrameModel { bytes: self.pending, status: LAST_FRAME }),
                pending: Seq::empty(),
                first_frame_sent: true,
                ..self
            }).with_connection()
        } else {
            self.begin_drain()
        }
    }

    pub open spec fn started(self) -> OnlineModel {
        self.begun(Errand::Start).with_connection()
    }

    pub open spec fn accepting(self, samples: Seq<PcmSample>) -> OnlineModel {
        if samples.len() == 0 {
            self.begun(Errand::Poll).begin_burst()
        } else {
            (OnlineModel {
                pending: self.pending + audio_bytes(self.options.audio_format@, samples),
                ..self
            }).begun(Errand::Accept).next_frame()
        }
    }

    pub open spec fn finishing(self) -> OnlineModel {
        let begun = self.begun(Errand::Finish);
        if !self.connected && self.pending.len() == 0 {
            begun.succeeded()
        } else {
            begun.finish_socket()
        }
    }

    pub open spec fn resetting(self) -> OnlineModel {
        let begun = self.begun(Errand::Reset);
        if self.connected {
            begun.finish_socket()
        } else {
            begun.reconnect()
        }
    }

    /// The engine after the outcome of its errand was taken.
    pub open spec fn taken(self) -> OnlineModel {
        OnlineModel { results: Seq::empty(), failure: None, ..self }
    }

    /// Whether `action` is what the engine wants done.
    pub open spec fn wants(self, action: OnlineAction) -> bool {
        match self.stage {
            Stage::Token => action == (OnlineAction::FetchToken { refresh: self.refreshing }),
            Stage::Handshake => action matches OnlineAction::Connect(request) && {
                &&& request.url@ == self.options.online_url@
                &&& request.app_access_token@ == self.token
                &&& request.k_code@ == self.options.k_code@
                &&& request.visit_k_code@ == self.options.visit_k_code@
            },
            Stage::Timeouts => action == (OnlineAction::SetTimeouts {
                read_millis: SOCKET_READ_TIMEOUT_MILLIS,
                write_millis: SOCKET_WRITE_TIMEOUT_MILLIS,
            }),
            Stage::Sending => match self.outgoing {
                Some(frame) => action matches OnlineAction::Send(sent) && sent@ == frame,
                None => action == OnlineAction::Rest,
            },
            Stage::Reading => action == OnlineAction::Read,
            Stage::Ponging => action matches OnlineAction::SendPong(payload) && payload@
                == self.payload,
            Stage::Closing => action == OnlineAction::Close,
            Stage::Resting => action == OnlineAction::Rest,
        }
    }

    /// Whether `outcome` is how the errand ended.
    pub open spec fn ended_in(self, outcome: HybridAsrResult<Vec<OnlineUtterance>>) -> bool {
        match self.failure {
            Some(message) => outcome matches Err(error) && error@ == message,
            None => outcome matches Ok(results) && utterance_models(results@) == self.results,
        }
    }
}

/// Utterances as data.
pub open spec fn utterance_models(utterances: Seq<OnlineUtterance>) -> Seq<UtteranceModel> {
    utterances.map_values(|utterance: OnlineUtterance| utterance@)
}

/// The online engine.
pub struct OnlineAsrBackend {
    options: OnlineAsrConfig,
    connected: bool,
    pending_bytes: Vec<u8>,
    first_frame_sent: bool,
    last_progressive_text: Option<String>,
    errand: Errand,
    stage: Stage,
    reconnecting: bool,
    draining: bool,
    drains_left: u8,
    refreshing: bool,
    token: String,
    outgoing: Option<OutgoingFrame>,
    reads_left: u8,
    heard_final: bool,
    payload: Vec<u8>,
    results: Vec<OnlineUtterance>,
    failure: Option<HybridAsrError>,
}

impl View for OnlineAsrBackend {
    type V = OnlineModel;

    closed spec fn view(&self) -> OnlineModel {
        OnlineModel {
            options: self.options,
            connected: self.connected,
            pending: self.pending_bytes@,
            first_frame_sent: self.first_frame_sent,
            progressive: match self.last_progressive_text {
                Some(text) => Some(text@),
                None => None,
            },
            errand: self.errand,
            stage: self.stage,
            reconnecting: self.reconnecting,
            draining: self.draining,
            drains_left: self.drains_left as int,
            refreshing: self.refreshing,
            token: self.token@,
            outgoing: match self.outgoing {
                Some(frame) => Some(frame@),
                None => None,
            },
            reads_left: self.reads_left as int,
            heard_final: self.heard_final,
            payload: self.payload@,
            results: utterance_models(self.results@),
            failure: match self.failure {
                Some(error) => Some(error@),
                None => None,
            },
        }
    }
}

fn copy_bytes(bytes: &Vec<u8>) -> (copy: Vec<u8>)
    ensures
        copy@ == bytes@,
{
    let mut copy: Vec<u8> = Vec::new();
    copy.extend_from_slice(bytes.as_slice());
    proof {
        assert(copy@ =~= bytes@);
    }
    copy
}

fn append_sample(bytes: &mut Vec<u8>, scaled: bool, sample: PcmSample)
    ensures
        forall|format: Seq<char>|
            scaled == (format == PCM_S16LE@) ==> final(bytes)@ == old(bytes)@
                + #[trigger] sample_bytes(format, sample),
{
    if scaled {
        let value: u32 = if sample.scaled < 0 {
            (sample.scaled as i32 + 65536) as u32
        } else {
            sample.scaled as u32
        };
        let low: u8 = (value % 256) as u8;
        let high: u8 = (value / 256) as u8;
        bytes.push(low);
        bytes.push(high);
        proof {
            assert(bytes@ =~= old(bytes)@ + seq![low, high]);
        }
    } else {
        let value: u32 = sample.bits;
        let first: u8 = (value % 256) as u8;
        let second: u8 = (value / 256 % 256) as u8;
        let third: u8 = (value / 65536 % 256) as u8;
        let fourth: u8 = (value / 16777216) as u8;
        bytes.push(first);
        bytes.push(second);
        bytes.push(third);
        bytes.push(fourth);
        proof {
            assert(bytes@ =~= old(bytes)@ + seq![first, second, third, fourth]);
        }
    }
}

fn append_audio(bytes: &mut Vec<u8>, format: &str, samples: &[PcmSample])
    ensures
        final(bytes)@ == old(bytes)@ + audio_bytes(format@, samples@),
{
    let scaled: bool = same_text(format, PCM_S16LE);
    proof {
        assert(samples@.take(0) =~= Seq::<PcmSample>::empty());
        assert(bytes@ =~= old(bytes)@ + audio_bytes(format@, samples@.take(0)));
    }
    for at in 0..samples.len()
        invariant
            scaled == (format@ == PCM_S16LE@),
            bytes@ == old(bytes)@ + audio_bytes(format@, samples@.take(at as int)),
    {
        let ghost before = bytes@;
        append_sample(bytes, scaled, samples[at]);
        proof {
            let sample = samples@[at as int];
            assert(bytes@ == before + sample_bytes(format@, sample));
            assert(samples@.take(at + 1).drop_last() =~= samples@.take(at as int));
            assert(samples@.take(at + 1).last() == sample);
            assert(bytes@ =~= old(bytes)@ + audio_bytes(format@, samples@.take(at + 1)));
        }
    }
    proof {
        assert(samples@.take(samples@.len() as int) =~= samples@);
    }
}

impl OnlineAsrBackend {
    /// An engine for `options`, not connected yet.
    pub fn new(options: OnlineAsrConfig) -> (engine: Self)
        ensures
            engine@ == OnlineModel::fresh(options),
    {
        OnlineAsrBackend {
            options,
            connected: false,
            pending_bytes: Vec::new(),
            first_frame_sent: false,
            last_progressive_text: None,
            errand: Errand::Start,
            stage: Stage::Resting,
            reconnecting: false,
            draining: false,
            drains_left: 0,
            refreshing: false,
            token: String::new(),
            outgoing: None,
            reads_left: 0,
            heard_final: false,
            payload: Vec::new(),
            results: Vec::new(),
            failure: None,
        }
    }

    /// The configuration of the engine.
    pub fn options(&self) -> (options: &OnlineAsrConfig)
        ensures
            *options == self@.options,
    {
        &self.options
    }

    fn succeed(&mut self)
        ensures
            final(self)@ == old(self)@.succeeded(),
    {
        self.stage = Stage::Resting;
        self.outgoing = None;
        self.failure = None;
    }

    fn fail(&mut self, error: HybridAsrError)
        ensures
            final(self)@ == old(self)@.failed(error@),
    {
        if self.errand == Errand::Reset && !self.reconnecting {
            self.reconnect();
        } else {
            self.stage = Stage::Resting;
            self.outgoing = None;
            self.results = Vec::new();
            self.failure = Some(error);
        }
    }

    fn begin(&mut self, errand: Errand)
        ensures
            final(self)@ == old(self)@.begun(errand),
    {
        self.errand = errand;
        self.reconnecting = false;
        self.draining = false;
        self.outgoing = None;
        self.results = Vec::new();
        self.failure = None;
    }

    fn reconnect(&mut self)
        ensures
            final(self)@ == old(self)@.reconnect(),
    {
        self.pending_bytes = Vec::new();
        self.first_frame_sent = false;
        self.last_progressive_text = None;
        self.reconnecting = true;
        self.outgoing = None;
        self.results = Vec::new();
        proof {
            assert(self@ =~= (OnlineModel {
                pending: Seq::empty(),
                first_frame_sent: false,
                progressive: None,
                reconnecting: true,
                outgoing: None,
                results: Seq::empty(),
                ..old(self)@
            }));
        }
        self.connect_if_needed();
    }

    fn connect_if_needed(&mut self)
        ensures
            final(self)@ == old(self)@.with_connection(),
    {
        if self.connected {
            self.go_on_connected();
        } else {
            self.stage = Stage::Token;
            self.refreshing = false;
        }
    }

    fn go_on_connected(&mut self)
        ensures
            final(self)@ == old(self)@.on_connection(),
    {
        if self.outgoing.is_some() {
            self.stage = Stage::Sending;
        } else {
            self.succeed();
        }
    }

    fn connection_made(&mut self)
        ensures
            final(self)@ == old(self)@.connection_made(),
    {
        self.connected = true;
        self.first_frame_sent = false;
        self.last_progressive_text = None;
        self.go_on_connected();
    }

    fn send_ready_frames(&mut self)
        ensures
            final(self)@ == old(self)@.next_frame(),
    {
        if self.pending_bytes.len() > self.options.frame_bytes {
            let status: i32 = if self.first_frame_sent {
                MIDDLE_FRAME
            } else {
                FIRST_FRAME
            };
            let mut rest: Vec<u8> = self.pending_bytes.split_off(self.options.frame_bytes);
            std::mem::swap(&mut rest, &mut self.pending_bytes);
            self.outgoing = Some(OutgoingFrame { bytes: rest, status });
            self.first_frame_sent = true;
            proof {
                let size = self.options.frame_bytes as int;
                assert(self@ =~= (OnlineModel {
                    outgoing: Some(FrameModel { bytes: old(self)@.pending.take(size), status }),
                    pending: old(self)@.pending.skip(size),
                    first_frame_sent: true,
                    ..old(self)@
                }));
            }
            self.connect_if_needed();
        } else {
            self.succeed();
        }
    }

    fn begin_burst(&mut self)
        ensures
            final(self)@ == old(self)@.begin_burst(),
    {
        self.heard_final = false;
        if self.connected {
            self.stage = Stage::Reading;
            self.reads_left = READS_PER_BURST;
        } else {
            self.end_burst();
        }
    }

    fn end_burst(&mut self)
        ensures
            final(self)@ == old(self)@.end_burst(),
    {
        match self.errand {
            Errand::Accept => self.send_ready_frames(),
            Errand::Start => self.succeed(),
            Errand::Poll => self.succeed(),
            Errand::Finish => self.end_finishing_burst(),
            Errand::Reset => self.end_finishing_burst(),
        }
    }

    fn end_finishing_burst(&mut self)
        requires
            old(self)@.errand == Errand::Finish || old(self)@.errand == Errand::Reset,
        ensures
            final(self)@ == old(self)@.end_burst(),
    {
        if !self.draining {
            self.begin_drain();
        } else if self.heard_final {
            self.close();
        } else {
            self.drain();
        }
    }

    fn begin_drain(&mut self)
        ensures
            final(self)@ == old(self)@.begin_drain(),
    {
        if self.first_frame_sent {
            self.draining = true;
            self.drains_left = FINAL_BURSTS;
            self.drain();
        } else {
            self.close();
        }
    }

    fn drain(&mut self)
        ensures
            final(self)@ == old(self)@.drain(),
    {
        if self.connected && self.drains_left > 0 {
            self.drains_left = self.drains_left - 1;
            self.stage = Stage::Reading;
            self.reads_left = READS_PER_BURST;
            self.heard_final = false;
        } else {
            self.close();
        }
    }

    fn close(&mut self)
        ensures
            final(self)@ == old(self)@.close(),
    {
        if self.connected {
            self.stage = Stage::Closing;
        } else {
            self.closed();
        }
    }

    fn closed(&mut self)
        ensures
            final(self)@ == old(self)@.closed(),
    {
        self.connected = false;
        self.first_frame_sent = false;
        self.last_progressive_text = None;
        if self.errand == Errand::Reset {
            self.reconnect();
        } else {
            self.succeed();
        }
    }

    fn read_on(&mut self)
        ensures
            final(self)@ == old(self)@.read_on(),
    {
        if self.reads_left > 1 {
            self.stage = Stage::Reading;
            self.reads_left = self.reads_left - 1;
        } else {
            self.end_burst();
        }
    }

    /// Whether an utterance is a result. One that is still being spoken is remembered instead.
    fn should_emit(&mut self, utterance: &OnlineUtterance) -> (emit: bool)
        ensures
            emit == utterance.is_final,
            final(self)@ == (OnlineModel {
                progressive: if emit {
                    None
                } else {
                    Some(utterance.text@)
                },
                ..old(self)@
            }),
    {
        if utterance.is_final {
            self.last_progressive_text = None;
            true
        } else {
            self.last_progressive_text = Some(utterance.text.clone());
            false
        }
    }

    fn hear(&mut self, decoded: Result<Option<OnlineUtterance>, String>)
        ensures
            final(self)@ == old(self)@.heard(meaning_model(decoded)),
    {
        match decoded {
            Err(message) => self.fail(HybridAsrError::new(message)),
            Ok(None) => self.read_on(),
            Ok(Some(utterance)) => {
                if self.should_emit(&utterance) {
                    self.results.push(utterance);
                    self.heard_final = true;
                    proof {
                        assert(self@.results =~= old(self)@.results.push(utterance@));
                    }
                }
                self.read_on();
            },
        }
    }

    fn hang_up(&mut self)
        ensures
            final(self)@ == old(self)@.hung_up(),
    {
        self.connected = false;
        self.end_burst();
    }

    fn read(&mut self, incoming: Incoming)
        ensures
            final(self)@ == old(self)@.read(incoming),
    {
        match incoming {
            Incoming::Text(text) => self.hear(parse_online_asr_response(text.as_str())),
            Incoming::Binary(bytes) => match decode_text(bytes) {
                Ok(text) => self.hear(parse_online_asr_response(text.as_str())),
                Err(message) => self.fail(HybridAsrError::new(message)),
            },
            Incoming::Ping(payload) => {
                self.stage = Stage::Ponging;
                self.payload = payload;
            },
            Incoming::Other => self.read_on(),
            Incoming::Close => self.hang_up(),
            Incoming::Quiet => self.end_burst(),
            Incoming::Gone => self.hang_up(),
            Incoming::Failed(error) => self.fail(error),
        }
    }

    /// Takes the reply to what the engine wanted done.
    #[verifier::rlimit(30)]
    pub fn advance(&mut self, reply: OnlineReply)
        ensures
            final(self)@ == old(self)@.next(reply),
    {
        match (self.stage, reply) {
            (Stage::Token, OnlineReply::Token(Ok(token))) => {
                self.stage = Stage::Handshake;
                self.token = token;
            },
            (Stage::Token, OnlineReply::Token(Err(error))) => self.fail(error),
            (Stage::Handshake, OnlineReply::Connected(Ok(_))) => {
                self.stage = Stage::Timeouts;
            },
            (Stage::Handshake, OnlineReply::Connected(Err(failure))) => {
                if !self.refreshing && is_unauthorized_handshake_error(&failure.fault) {
                    self.stage = Stage::Token;
                    self.refreshing = true;
                } else {
                    self.fail(failure.error);
                }
            },
            (Stage::Timeouts, OnlineReply::TimeoutsSet(Ok(_))) => self.connection_made(),
            (Stage::Timeouts, OnlineReply::TimeoutsSet(Err(error))) => self.fail(error),
            (Stage::Sending, OnlineReply::Sent(Ok(_))) => {
                self.outgoing = None;
                self.begin_burst();
            },
            (Stage::Sending, OnlineReply::Sent(Err(error))) => self.fail(error),
            (Stage::Reading, OnlineReply::Read(incoming)) => self.read(incoming),
            (Stage::Ponging, OnlineReply::PongSent(Ok(_))) => self.read_on(),
            (Stage::Ponging, OnlineReply::PongSent(Err(error))) => self.fail(error),
            (Stage::Closing, OnlineReply::Closed) => self.closed(),
            _ => {},
        }
    }

    /// What the engine wants done next.
    pub fn action(&self) -> (action: OnlineAction)
        ensures
            self@.wants(action),
    {
        match self.stage {
            Stage::Token => OnlineAction::FetchToken { refresh: self.refreshing },
            Stage::Handshake => OnlineAction::Connect(
                HandshakeRequest {
                    url: self.options.online_url.clone(),
                    app_access_token: self.token.clone(),
                    k_code: self.options.k_code.clone(),
                    visit_k_code: self.options.visit_k_code.clone(),
                },
            ),
            Stage::Timeouts => OnlineAction::SetTimeouts {
                read_millis: SOCKET_READ_TIMEOUT_MILLIS,
                write_millis: SOCKET_WRITE_TIMEOUT_MILLIS,
            },
            Stage::Sending => match &self.outgoing {
                Some(frame) => OnlineAction::Send(
                    OutgoingFrame { bytes: copy_bytes(&frame.bytes), status: frame.status },
                ),
                None => OnlineAction::Rest,
            },
            Stage::Reading => OnlineAction::Read,
            Stage::Ponging => OnlineAction::SendPong(copy_bytes(&self.payload)),
            Stage::Closing => OnlineAction::Close,
            Stage::Resting => OnlineAction::Rest,
        }
    }

    /// Begins to connect.
    pub fn start(&mut self)
        ensures
            final(self)@ == old(self)@.started(),
    {
        self.begin(Errand::Start);
        self.connect_if_needed();
    }

    fn append_samples_as_bytes(&mut self, samples: &[PcmSample])
        ensures
            final(self)@ == (OnlineModel {
                pending: old(self)@.pending + audio_bytes(
                    old(self)@.options.audio_format@,
                    samples@,
                ),
                ..old(self)@
            }),
    {
        append_audio(&mut self.pending_bytes, self.options.audio_format.as_str(), samples);
    }

    /// Takes audio and begins to send the frames that are full. Without audio it only begins to
    /// read what has come.
    pub fn accept_samples(&mut self, samples: &[PcmSample])
        ensures
            final(self)@ == old(self)@.accepting(samples@),
    {
        if samples.len() == 0 {
            self.begin(Errand::Poll);
            self.begin_burst();
        } else {
            self.append_samples_as_bytes(samples);
            self.begin(Errand::Accept);
            self.send_ready_frames();
        }
    }

    fn finish_socket(&mut self)
        ensures
            final(self)@ == old(self)@.finish_socket(),
    {
        if self.pending_bytes.len() > 0 {
            let mut bytes: Vec<u8> = Vec::new();
            std::mem::swap(&mut bytes, &mut self.pending_bytes);
            self.outgoing = Some(OutgoingFrame { bytes, status: LAST_FRAME });
            self.first_frame_sent = true;
            proof {
                assert(self@ =~= (OnlineModel {
                    outgoing: Some(
                        FrameModel { bytes: old(self)@.pending, status: LAST_FRAME },
                    ),
                    pending: Seq::empty(),
                    first_frame_sent: true,
                    ..old(self)@
                }));
            }
            self.connect_if_needed();
        } else {
            self.begin_drain();
        }
    }

    /// Begins to end the stream.
    pub fn finish(&mut self)
        ensures
            final(self)@ == old(self)@.finishing(),
    {
        self.begin(Errand::Finish);
        if !self.connected && self.pending_bytes.len() == 0 {
            self.succeed();
        } else {
            self.finish_socket();
        }
    }

    /// Begins to drop the stream and to connect anew.
    pub fn reset(&mut self)
        ensures
            final(self)@ == old(self)@.resetting(),
    {
        self.begin(Errand::Reset);
        if self.connected {
            self.finish_socket();
        } else {
            self.reconnect();
        }
    }

    /// Begins to make ready for the next turn.
    pub fn prepare_next_turn(&mut self)
        ensures
            final(self)@ == old(self)@.resetting(),
    {
        self.reset();
    }

    /// Takes the outcome of the errand that has ended.
    pub fn take_outcome(&mut self) -> (outcome: HybridAsrResult<Vec<OnlineUtterance>>)
        ensures
            old(self)@.ended_in(outcome),
            outcome is Ok <==> old(self)@.failure is None,
            outcome matches Ok(results) ==> results@.len() == old(self)@.results.len() && forall|
                i: int,
            |
                0 <= i < results@.len() ==> (#[trigger] results@[i])@ == old(self)@.results[i],
            outcome matches Err(error) ==> old(self)@.failure == Some(error@),
            final(self)@ == old(self)@.taken(),
    {
        let mut results: Vec<OnlineUtterance> = Vec::new();
        std::mem::swap(&mut results, &mut self.results);
        let failure: Option<HybridAsrError> = self.failure.take();
        proof {
            assert(self@.results =~= Seq::<UtteranceModel>::empty());
            assert(utterance_models(results@) == old(self)@.results);
            assert forall|i: int| 0 <= i < results@.len() implies (#[trigger] results@[i])@
                == old(self)@.results[i] by {
                assert(utterance_models(results@)[i] == results@[i]@);
            }
        }
        match failure {
            Some(error) => Err(error),
            None => Ok(results),
        }
    }
}

} // verus!
