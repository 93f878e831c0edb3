//! The streaming engine: a state machine over one WebSocket connection.
//!
//! The engine owns no socket here; it owns the decisions.  Every inbound
//! observation — a frame, a read failure, an exhausted stream — is mapped by
//! [`handle_event`] to the single action the loop owner must perform, and the
//! session's phase moves through connect, loop and disconnect under exact
//! contracts.  A whole scripted run of the loop is available as
//! [`run_script`], which replays a sequence of observations exactly as the
//! live loop would consume them.

use vstd::prelude::*;
use vstd::slice::slice_to_vec;

use crate::config::Config;
use crate::errors::Error;

verus! {

/// The path segment under which the exchange serves its streams.
pub const WS_ENDPOINT: &'static str = "ws";

/// One message-level frame of the duplex connection.
pub enum Frame {
    /// A textual payload: an exchange event, or — empty — the graceful
    /// end-of-stream signal.
    Text(Vec<u8>),
    /// A binary payload; the engine ignores it.
    Binary(Vec<u8>),
    /// A continuation of a fragmented message; the engine ignores it.
    Continuation(Vec<u8>),
    /// A keep-alive probe that must be answered.
    Ping(Vec<u8>),
    /// A keep-alive answer; the engine ignores it.
    Pong(Vec<u8>),
    /// The peer closed the connection, possibly with a reason.
    Close(Option<String>),
}

/// What one turn of the event loop observed on the connection.
pub enum LoopEvent {
    /// A frame arrived.
    Received(Frame),
    /// Reading the connection failed.
    ReadFailure(String),
    /// The stream ended without a close frame.
    Exhausted,
}

/// The single action the loop owner must perform for one observation.
pub enum LoopAction {
    /// Nothing to do; take the next observation.
    Continue,
    /// Decode this payload and forward the event to the consumer.
    Forward(Vec<u8>),
    /// Answer the keep-alive probe with this payload.
    Pong(Vec<u8>),
    /// Leave the loop successfully: the stream ended gracefully.
    ExitOk,
    /// Leave the loop with this error.
    ExitErr(Error),
}

/// The message carried by the error for a stream that ended with no frame
/// available.
pub open spec fn exhausted_message() -> Seq<char> {
    "stream unexpectedly exhausted"@
}

/// The message carried by the error for a payload the event type rejected.
pub open spec fn decode_failure_message() -> Seq<char> {
    "event payload did not decode"@
}

/// The close reason as error text: the peer's words, or nothing.
pub open spec fn close_reason_text(reason: Option<String>) -> Seq<char> {
    match reason {
        Some(r) => r@,
        None => Seq::<char>::empty(),
    }
}

/// Decide what one observation demands.
///
/// An empty text frame is the graceful end of the stream; any other text
/// frame is forwarded for decoding; a ping demands a matching pong; pong,
/// binary and continuation frames are ignored; a close frame, a read failure
/// and an exhausted stream each end the loop with their own error kind.
pub fn handle_event(event: LoopEvent) -> (a: LoopAction)
    ensures
        (match event {
            LoopEvent::Received(Frame::Text(p)) => {
                if p@.len() == 0 {
                    a == LoopAction::ExitOk
                } else {
                    a matches LoopAction::Forward(q) && q@ == p@
                }
            },
            LoopEvent::Received(Frame::Ping(p)) => a matches LoopAction::Pong(q) && q@ == p@,
            LoopEvent::Received(Frame::Pong(_)) => a == LoopAction::Continue,
            LoopEvent::Received(Frame::Binary(_)) => a == LoopAction::Continue,
            LoopEvent::Received(Frame::Continuation(_)) => a == LoopAction::Continue,
            LoopEvent::Received(Frame::Close(reason)) => a matches LoopAction::ExitErr(e)
                && e matches Error::ProtocolViolation(m) && m@ == close_reason_text(reason),
            LoopEvent::ReadFailure(msg) => a matches LoopAction::ExitErr(e) && e matches Error::TransportFailure(
                m,
            ) && m@ == msg@,
            LoopEvent::Exhausted => a matches LoopAction::ExitErr(e) && e matches Error::ProtocolViolation(
                m,
            ) && m@ == exhausted_message(),
        }),
{
    match event {
        LoopEvent::Received(frame) => match frame {
            Frame::Text(p) => {
                if p.len() == 0 {
                    LoopAction::ExitOk
                } else {
                    LoopAction::Forward(p)
                }
            },
            Frame::Ping(p) => LoopAction::Pong(p),
            Frame::Pong(_) => LoopAction::Continue,
            Frame::Binary(_) => LoopAction::Continue,
            Frame::Continuation(_) => LoopAction::Continue,
            Frame::Close(reason) => {
                let text = match reason {
                    Some(r) => r,
                    None => String::new(),
                };
                LoopAction::ExitErr(Error::ProtocolViolation(text))
            },
        },
        LoopEvent::ReadFailure(msg) => LoopAction::ExitErr(Error::TransportFailure(msg)),
        LoopEvent::Exhausted => LoopAction::ExitErr(
            Error::ProtocolViolation(String::from_str("stream unexpectedly exhausted")),
        ),
    }
}

/// A consumer-chosen event type, decodable from a text frame's payload.
///
/// The two spec functions pin the decoding down: `decode` succeeds on exactly
/// the decodable payloads and returns exactly the decoded value, so every
/// instantiation of the engine agrees with its own decoding relation.
pub trait StreamEvent: Sized {
    /// Which payloads this event type accepts.
    spec fn decodable(payload: Seq<u8>) -> bool;

    /// The event a decodable payload denotes.
    spec fn decoded(payload: Seq<u8>) -> Self;

    /// Decode one text payload.
    fn decode(payload: &[u8]) -> (r: Option<Self>)
        ensures
            r is Some <==> Self::decodable(payload@),
            r matches Some(e) ==> e == Self::decoded(payload@),
    ;
}

/// Whether a byte spells a decimal digit.
pub open spec fn is_digit_byte(b: u8) -> bool {
    48 <= b <= 57
}

/// The number a sequence of decimal digit bytes spells.
pub open spec fn dec_value(p: Seq<u8>) -> nat
    decreases p.len(),
{
    if p.len() == 0 {
        0
    } else {
        (dec_value(p.drop_last()) * 10 + (p.last() - 48)) as nat
    }
}

/// Ten to a power.
pub open spec fn pow10(k: nat) -> nat
    decreases k,
{
    if k == 0 {
        1nat
    } else {
        10 * pow10((k - 1) as nat)
    }
}

proof fn lemma_pow10_mono(a: nat, b: nat)
    requires
        a <= b,
    ensures
        pow10(a) <= pow10(b),
    decreases b,
{
    if a < b {
        lemma_pow10_mono(a, (b - 1) as nat);
    }
}

proof fn lemma_dec_value_bound(p: Seq<u8>)
    requires
        forall|i: int| 0 <= i < p.len() ==> is_digit_byte(p[i]),
    ensures
        dec_value(p) < pow10(p.len()),
    decreases p.len(),
{
    if p.len() > 0 {
        lemma_dec_value_bound(p.drop_last());
    }
}

/// A minimal streamed event: the text payload read as an unsigned decimal
/// number.  It stands in for richer exchange payloads wherever a concrete
/// event type is wanted.
#[derive(Clone, Copy, Debug, PartialEq, Eq, Structural)]
pub struct DecimalEvent {
    pub value: u64,
}

impl StreamEvent for DecimalEvent {
    /// At most nineteen digits, so the value always fits.
    open spec fn decodable(payload: Seq<u8>) -> bool {
        &&& 1 <= payload.len() <= 19
        &&& forall|i: int| 0 <= i < payload.len() ==> is_digit_byte(payload[i])
    }

    open spec fn decoded(payload: Seq<u8>) -> Self {
        DecimalEvent { value: dec_value(payload) as u64 }
    }

    fn decode(payload: &[u8]) -> (r: Option<Self>)
        ensures
            r is Some <==> Self::decodable(payload@),
            r matches Some(e) ==> e == Self::decoded(payload@),
    {
        let n = payload.len();
        if n == 0 || n > 19 {
            return None;
        }
        let mut acc: u64 = 0;
        let mut i: usize = 0;
        while i < n
            invariant
                0 <= i <= n,
                n == payload@.len(),
                1 <= n <= 19,
                forall|j: int| 0 <= j < i ==> is_digit_byte(payload@[j]),
                acc == dec_value(payload@.take(i as int)),
                acc < pow10(i as nat),
            decreases n - i,
        {
            let b = payload[i];
            if b < 48 || b > 57 {
                return None;
            }
            let d = (b - 48) as u64;
            proof {
                lemma_pow10_mono((i + 1) as nat, 19);
                reveal_with_fuel(pow10, 20);
                assert(pow10(19) == 10000000000000000000);
                assert(acc * 10 + d < pow10((i + 1) as nat));
                assert(payload@.take(i + 1).drop_last() =~= payload@.take(i as int));
            }
            acc = acc * 10 + d;
            i = i + 1;
        }
        proof {
            assert(payload@.take(n as int) =~= payload@);
            lemma_dec_value_bound(payload@);
            lemma_pow10_mono(payload@.len(), 19);
            reveal_with_fuel(pow10, 20);
        }
        Some(DecimalEvent { value: acc })
    }
}

/// Where a streaming session stands.
#[derive(PartialEq, Eq, Structural, Clone, Copy, Debug)]
pub enum Phase {
    /// No connection yet, or a failed handshake.
    Idle,
    /// The handshake completed; no loop is running.
    Connected,
    /// The event loop is consuming frames.
    Running,
    /// The loop exited; the connection may still be open.
    Stopped,
    /// The connection was explicitly closed.
    Disconnected,
}

/// One streaming session: its phase and its endpoint configuration.  At most
/// one live connection belongs to a session, and only between a successful
/// connect and the disconnect — exactly the phases other than `Idle` and
/// `Disconnected`.
pub struct StreamingSession {
    pub phase: Phase,
    pub conf: Config,
}

impl StreamingSession {
    /// A fresh session under the given configuration, not yet connected.
    pub fn new_with_options(conf: Config) -> (s: StreamingSession)
        ensures
            s.phase == Phase::Idle,
            s.conf == conf,
    {
        StreamingSession { phase: Phase::Idle, conf }
    }

    /// A fresh session under the production configuration.
    pub fn new() -> (s: StreamingSession)
        ensures
            s.phase == Phase::Idle,
            s.conf.rest_api_endpoint@ == "https://api.binance.com"@,
            s.conf.ws_endpoint@ == "wss://stream.binance.com:9443"@,
            s.conf.recv_window == 5000u64,
    {
        StreamingSession::new_with_options(Config::default())
    }

    /// The URL the connect handshake dials for a stream endpoint.
    pub fn ws_url(&self, endpoint: &str) -> (url: String)
        ensures
            url@ == self.conf.ws_endpoint@ + "/"@ + "ws"@ + "/"@ + endpoint@,
    {
        let mut url = self.conf.ws_endpoint.clone();
        url.append("/");
        url.append(WS_ENDPOINT);
        url.append("/");
        url.append(endpoint);
        url
    }

    /// Record the outcome of the connect handshake: a success makes the
    /// session connected, a failure leaves it idle.
    pub fn on_connect(&mut self, handshake_ok: bool)
        requires
            old(self).phase == Phase::Idle,
        ensures
            final(self).phase == (if handshake_ok {
                Phase::Connected
            } else {
                Phase::Idle
            }),
            final(self).conf == old(self).conf,
    {
        if handshake_ok {
            self.phase = Phase::Connected;
        }
    }

    /// Whether a subscribe control frame may be sent now: only on an open
    /// connection with no loop running.
    pub fn can_subscribe(&self) -> (ok: bool)
        ensures
            ok == (self.phase == Phase::Connected),
    {
        self.phase == Phase::Connected
    }

    /// Enter the event loop.
    pub fn begin_loop(&mut self)
        requires
            old(self).phase == Phase::Connected,
        ensures
            final(self).phase == Phase::Running,
            final(self).conf == old(self).conf,
    {
        self.phase = Phase::Running;
    }

    /// Leave the event loop; the connection may still be open.
    pub fn end_loop(&mut self)
        requires
            old(self).phase == Phase::Running,
        ensures
            final(self).phase == Phase::Stopped,
            final(self).conf == old(self).conf,
    {
        self.phase = Phase::Stopped;
    }

    /// Record the explicit close of the connection.  Fails, and changes
    /// nothing, when there is no connection to close.
    pub fn on_disconnect(&mut self) -> (r: Result<(), Error>)
        ensures
            (old(self).phase == Phase::Connected || old(self).phase == Phase::Running || old(
                self,
            ).phase == Phase::Stopped) ==> (r is Ok && final(self).phase == Phase::Disconnected),
            (old(self).phase == Phase::Idle || old(self).phase == Phase::Disconnected) ==> (
            r matches Err(e) && e matches Error::ProtocolViolation(_) && *final(self) == *old(
                self,
            )),
            final(self).conf == old(self).conf,
    {
        match self.phase {
            Phase::Connected | Phase::Running | Phase::Stopped => {
                self.phase = Phase::Disconnected;
                Ok(())
            },
            _ => Err(
                Error::ProtocolViolation(String::from_str("not able to close the connection")),
            ),
        }
    }
}

/// One scripted turn of the event loop: the stop condition as the loop would
/// read it, then the observation the connection would yield.
pub struct ScriptStep {
    /// The shared running flag at the top of the turn; the loop leaves
    /// cleanly, before touching the connection, when it is down.
    pub running: bool,
    /// What the connection yields once the flag was found up.
    pub event: LoopEvent,
}

/// How a scripted run left the loop.
pub enum LoopExit {
    /// The stop condition was cleared.
    CleanStop,
    /// An empty text frame ended the stream gracefully.
    GracefulEnd,
    /// A fatal condition ended the loop with this error.
    Fault(Error),
    /// The script ran out with the loop still running.
    StillRunning,
}

/// Everything a scripted run produced, in order.
pub struct ScriptRun<E> {
    /// The decoded events, exactly in frame-arrival order.
    pub delivered: Vec<E>,
    /// The payloads answered to pings, in arrival order.
    pub pongs: Vec<Vec<u8>>,
    /// How the loop left.
    pub exit: LoopExit,
}

/// The exit class of a script, mirroring [`LoopExit`] without payloads.
pub enum ExitKind {
    CleanStop,
    GracefulEnd,
    FaultDecode,
    FaultClose,
    FaultRead,
    FaultExhausted,
    StillRunning,
}

/// The events a script delivers before the loop first leaves.
pub open spec fn step_deliveries<E: StreamEvent>(steps: Seq<ScriptStep>) -> Seq<E>
    decreases steps.len(),
{
    if steps.len() == 0 {
        Seq::empty()
    } else if !steps[0].running {
        Seq::empty()
    } else {
        match steps[0].event {
            LoopEvent::Received(Frame::Text(p)) => {
                if p@.len() == 0 {
                    Seq::empty()
                } else if E::decodable(p@) {
                    seq![E::decoded(p@)] + step_deliveries::<E>(steps.drop_first())
                } else {
                    Seq::empty()
                }
            },
            LoopEvent::Received(Frame::Ping(_)) => step_deliveries::<E>(steps.drop_first()),
            LoopEvent::Received(Frame::Pong(_)) => step_deliveries::<E>(steps.drop_first()),
            LoopEvent::Received(Frame::Binary(_)) => step_deliveries::<E>(steps.drop_first()),
            LoopEvent::Received(Frame::Continuation(_)) => step_deliveries::<E>(
                steps.drop_first(),
            ),
            _ => Seq::empty(),
        }
    }
}

/// The pong payloads a script answers before the loop first leaves.
pub open spec fn step_pongs<E: StreamEvent>(steps: Seq<ScriptStep>) -> Seq<Seq<u8>>
    decreases steps.len(),
{
    if steps.len() == 0 {
        Seq::empty()
    } else if !steps[0].running {
        Seq::empty()
    } else {
        match steps[0].event {
            LoopEvent::Received(Frame::Text(p)) => {
                if p@.len() == 0 {
                    Seq::empty()
                } else if E::decodable(p@) {
                    step_pongs::<E>(steps.drop_first())
                } else {
                    Seq::empty()
                }
            },
            LoopEvent::Received(Frame::Ping(p)) => seq![p@] + step_pongs::<E>(steps.drop_first()),
            LoopEvent::Received(Frame::Pong(_)) => step_pongs::<E>(steps.drop_first()),
            LoopEvent::Received(Frame::Binary(_)) => step_pongs::<E>(steps.drop_first()),
            LoopEvent::Received(Frame::Continuation(_)) => step_pongs::<E>(steps.drop_first()),
            _ => Seq::empty(),
        }
    }
}

/// How a script leaves the loop.
pub open spec fn step_exit<E: StreamEvent>(steps: Seq<ScriptStep>) -> ExitKind
    decreases steps.len(),
{
    if steps.len() == 0 {
        ExitKind::StillRunning
    } else if !steps[0].running {
        ExitKind::CleanStop
    } else {
        match steps[0].event {
            LoopEvent::Received(Frame::Text(p)) => {
                if p@.len() == 0 {
                    ExitKind::GracefulEnd
                } else if E::decodable(p@) {
                    step_exit::<E>(steps.drop_first())
                } else {
                    ExitKind::FaultDecode
                }
            },
            LoopEvent::Received(Frame::Ping(_)) => step_exit::<E>(steps.drop_first()),
            LoopEvent::Received(Frame::Pong(_)) => step_exit::<E>(steps.drop_first()),
            LoopEvent::Received(Frame::Binary(_)) => step_exit::<E>(steps.drop_first()),
            LoopEvent::Received(Frame::Continuation(_)) => step_exit::<E>(steps.drop_first()),
            LoopEvent::Received(Frame::Close(_)) => ExitKind::FaultClose,
            LoopEvent::ReadFailure(_) => ExitKind::FaultRead,
            LoopEvent::Exhausted => ExitKind::FaultExhausted,
        }
    }
}

/// The message carried by a faulting script's error.
pub open spec fn fault_message<E: StreamEvent>(steps: Seq<ScriptStep>) -> Seq<char>
    decreases steps.len(),
{
    if steps.len() == 0 {
        Seq::empty()
    } else if !steps[0].running {
        Seq::empty()
    } else {
        match steps[0].event {
            LoopEvent::Received(Frame::Text(p)) => {
                if p@.len() == 0 {
                    Seq::empty()
                } else if E::decodable(p@) {
                    fault_message::<E>(steps.drop_first())
                } else {
                    decode_failure_message()
                }
            },
            LoopEvent::Received(Frame::Ping(_)) => fault_message::<E>(steps.drop_first()),
            LoopEvent::Received(Frame::Pong(_)) => fault_message::<E>(steps.drop_first()),
            LoopEvent::Received(Frame::Binary(_)) => fault_message::<E>(steps.drop_first()),
            LoopEvent::Received(Frame::Continuation(_)) => fault_message::<E>(steps.drop_first()),
            LoopEvent::Received(Frame::Close(reason)) => close_reason_text(reason),
            LoopEvent::ReadFailure(m) => m@,
            LoopEvent::Exhausted => exhausted_message(),
        }
    }
}

/// Everything the contract of a loop run promises: events delivered in
/// arrival order, pings answered in arrival order, and the exit determined
/// by the first terminal observation, its error carrying the right message.
pub open spec fn run_matches_script<E: StreamEvent>(steps: Seq<ScriptStep>, r: ScriptRun<E>) -> bool {
    &&& r.delivered@ == step_deliveries::<E>(steps)
    &&& r.pongs@.map_values(|p: Vec<u8>| p@) == step_pongs::<E>(steps)
    &&& (step_exit::<E>(steps) == ExitKind::CleanStop ==> r.exit == LoopExit::CleanStop)
    &&& (step_exit::<E>(steps) == ExitKind::GracefulEnd ==> r.exit == LoopExit::GracefulEnd)
    &&& (step_exit::<E>(steps) == ExitKind::StillRunning ==> r.exit == LoopExit::StillRunning)
    &&& (step_exit::<E>(steps) == ExitKind::FaultDecode ==> (r.exit matches LoopExit::Fault(e)
        && e matches Error::DecodeFailure(m) && m@ == fault_message::<E>(steps)))
    &&& (step_exit::<E>(steps) == ExitKind::FaultClose ==> (r.exit matches LoopExit::Fault(e)
        && e matches Error::ProtocolViolation(m) && m@ == fault_message::<E>(steps)))
    &&& (step_exit::<E>(steps) == ExitKind::FaultRead ==> (r.exit matches LoopExit::Fault(e)
        && e matches Error::TransportFailure(m) && m@ == fault_message::<E>(steps)))
    &&& (step_exit::<E>(steps) == ExitKind::FaultExhausted ==> (r.exit matches LoopExit::Fault(e)
        && e matches Error::ProtocolViolation(m) && m@ == fault_message::<E>(steps)))
}

/// Replay the event loop over a scripted sequence of observations.
///
/// The run consumes the script exactly as the live loop consumes the
/// connection: each turn reads the stop condition first and leaves cleanly
/// when it is down; otherwise the observation is handled as
/// [`handle_event`] directs, decodable text payloads are decoded and
/// delivered in arrival order, pings are answered in arrival order, and the
/// first fatal observation ends the run with its error.
pub fn run_script<E: StreamEvent>(steps: &Vec<ScriptStep>) -> (r: ScriptRun<E>)
    ensures
        run_matches_script::<E>(steps@, r),
{
    let mut delivered: Vec<E> = Vec::new();
    let mut pongs: Vec<Vec<u8>> = Vec::new();
    let mut i: usize = 0;
    proof {
        assert(steps@.skip(0) =~= steps@);
        assert(delivered@ + step_deliveries::<E>(steps@) =~= step_deliveries::<E>(steps@));
        assert(pongs@.map_values(|p: Vec<u8>| p@) + step_pongs::<E>(steps@) =~= step_pongs::<E>(
            steps@,
        ));
    }
    while i < steps.len()
        invariant
            0 <= i <= steps@.len(),
            step_deliveries::<E>(steps@) == delivered@ + step_deliveries::<E>(
                steps@.skip(i as int),
            ),
            step_pongs::<E>(steps@) == pongs@.map_values(|p: Vec<u8>| p@) + step_pongs::<E>(
                steps@.skip(i as int),
            ),
            step_exit::<E>(steps@) == step_exit::<E>(steps@.skip(i as int)),
            fault_message::<E>(steps@) == fault_message::<E>(steps@.skip(i as int)),
        decreases steps@.len() - i,
    {
        let ghost rest = steps@.skip(i as int);
        proof {
            assert(rest[0] == steps@[i as int]);
            assert(rest.drop_first() =~= steps@.skip(i as int + 1));
        }
        let step = &steps[i];
        if !step.running {
            proof {
                assert(delivered@ + step_deliveries::<E>(rest) =~= delivered@);
                assert(pongs@.map_values(|p: Vec<u8>| p@) + step_pongs::<E>(rest)
                    =~= pongs@.map_values(|p: Vec<u8>| p@));
            }
            return ScriptRun { delivered, pongs, exit: LoopExit::CleanStop };
        }
        match &step.event {
            LoopEvent::Received(Frame::Text(p)) => {
                if p.len() == 0 {
                    proof {
                        assert(delivered@ + step_deliveries::<E>(rest) =~= delivered@);
                        assert(pongs@.map_values(|q: Vec<u8>| q@) + step_pongs::<E>(rest)
                            =~= pongs@.map_values(|q: Vec<u8>| q@));
                    }
                    return ScriptRun { delivered, pongs, exit: LoopExit::GracefulEnd };
                }
                match E::decode(p.as_slice()) {
                    Some(ev) => {
                        let ghost old_delivered = delivered@;
                        delivered.push(ev);
                        proof {
                            assert(old_delivered + (seq![E::decoded(p@)] + step_deliveries::<E>(
                                rest.drop_first(),
                            )) =~= delivered@ + step_deliveries::<E>(rest.drop_first()));
                        }
                    },
                    None => {
                        proof {
                            assert(delivered@ + step_deliveries::<E>(rest) =~= delivered@);
                            assert(pongs@.map_values(|q: Vec<u8>| q@) + step_pongs::<E>(rest)
                                =~= pongs@.map_values(|q: Vec<u8>| q@));
                        }
                        return ScriptRun {
                            delivered,
                            pongs,
                            exit: LoopExit::Fault(
                                Error::DecodeFailure(
                                    String::from_str("event payload did not decode"),
                                ),
                            ),
                        };
                    },
                }
            },
            LoopEvent::Received(Frame::Ping(p)) => {
                let ghost old_pongs = pongs@;
                pongs.push(slice_to_vec(p.as_slice()));
                proof {
                    assert(pongs@.map_values(|q: Vec<u8>| q@) =~= old_pongs.map_values(
                        |q: Vec<u8>| q@,
                    ).push(p@));
                    assert(old_pongs.map_values(|q: Vec<u8>| q@) + (seq![p@] + step_pongs::<E>(
                        rest.drop_first(),
                    )) =~= pongs@.map_values(|q: Vec<u8>| q@) + step_pongs::<E>(
                        rest.drop_first(),
                    ));
                }
            },
            LoopEvent::Received(Frame::Pong(_)) => {},
            LoopEvent::Received(Frame::Binary(_)) => {},
            LoopEvent::Received(Frame::Continuation(_)) => {},
            LoopEvent::Received(Frame::Close(reason)) => {
                let text = match reason {
                    Some(r) => r.clone(),
                    None => String::new(),
                };
                proof {
                    assert(delivered@ + step_deliveries::<E>(rest) =~= delivered@);
                    assert(pongs@.map_values(|q: Vec<u8>| q@) + step_pongs::<E>(rest)
                        =~= pongs@.map_values(|q: Vec<u8>| q@));
                }
                return ScriptRun {
                    delivered,
                    pongs,
                    exit: LoopExit::Fault(Error::ProtocolViolation(text)),
                };
            },
            LoopEvent::ReadFailure(m) => {
                proof {
                    assert(delivered@ + step_deliveries::<E>(rest) =~= delivered@);
                    assert(pongs@.map_values(|q: Vec<u8>| q@) + step_pongs::<E>(rest)
                        =~= pongs@.map_values(|q: Vec<u8>| q@));
                }
                return ScriptRun {
                    delivered,
                    pongs,
                    exit: LoopExit::Fault(Error::TransportFailure(m.clone())),
                };
            },
            LoopEvent::Exhausted => {
                proof {
                    assert(delivered@ + step_deliveries::<E>(rest) =~= delivered@);
                    assert(pongs@.map_values(|q: Vec<u8>| q@) + step_pongs::<E>(rest)
                        =~= pongs@.map_values(|q: Vec<u8>| q@));
                }
                return ScriptRun {
                    delivered,
                    pongs,
                    exit: LoopExit::Fault(
                        Error::ProtocolViolation(
                            String::from_str("stream unexpectedly exhausted"),
                        ),
                    ),
                };
            },
        }
        i = i + 1;
    }
    proof {
        assert(steps@.skip(steps@.len() as int) =~= Seq::<ScriptStep>::empty());
        assert(delivered@ + step_deliveries::<E>(steps@.skip(steps@.len() as int))
            =~= delivered@);
        assert(pongs@.map_values(|q: Vec<u8>| q@) + step_pongs::<E>(
            steps@.skip(steps@.len() as int),
        ) =~= pongs@.map_values(|q: Vec<u8>| q@));
    }
    ScriptRun { delivered, pongs, exit: LoopExit::StillRunning }
}

impl StreamingSession {
    /// Run the event loop over a scripted sequence of observations.
    ///
    /// The session enters the running phase for the run and is stopped by
    /// whatever terminal observation ends it; only a script that runs out
    /// leaves the loop — and the session — still running.
    pub fn run_event_loop<E: StreamEvent>(&mut self, steps: &Vec<ScriptStep>) -> (r: ScriptRun<E>)
        requires
            old(self).phase == Phase::Connected,
        ensures
            run_matches_script::<E>(steps@, r),
            final(self).conf == old(self).conf,
            final(self).phase == (if step_exit::<E>(steps@) == ExitKind::StillRunning {
                Phase::Running
            } else {
                Phase::Stopped
            }),
    {
        self.begin_loop();
        let r = run_script::<E>(steps);
        let still_running = matches!(r.exit, LoopExit::StillRunning);
        proof {
            match step_exit::<E>(steps@) {
                ExitKind::CleanStop => {},
                ExitKind::GracefulEnd => {},
                ExitKind::FaultDecode => {},
                ExitKind::FaultClose => {},
                ExitKind::FaultRead => {},
                ExitKind::FaultExhausted => {},
                ExitKind::StillRunning => {},
            }
        }
        if !still_running {
            self.end_loop();
        }
        r
    }
}

/// Law: cooperative cancellation is prompt — the stop condition is read
/// before the next receive, so once it is down at some turn, the run equals
/// the run of the script cut right after that turn: no later frame is
/// decoded, delivered or answered.
pub proof fn lemma_stop_condition_halts<E: StreamEvent>(steps: Seq<ScriptStep>, i: int)
    requires
        0 <= i < steps.len(),
        !steps[i].running,
    ensures
        step_deliveries::<E>(steps) == step_deliveries::<E>(steps.take(i + 1)),
        step_pongs::<E>(steps) == step_pongs::<E>(steps.take(i + 1)),
        step_exit::<E>(steps) == step_exit::<E>(steps.take(i + 1)),
    decreases i,
{
    let cut = steps.take(i + 1);
    assert(cut[0] == steps[0]);
    if i == 0 {
        if steps[0].running {
            assert(false);
        }
    } else if !steps[0].running {
    } else {
        assert(cut.drop_first() =~= steps.drop_first().take(i));
        match steps[0].event {
            LoopEvent::Received(Frame::Text(p)) => {
                if p@.len() > 0 && E::decodable(p@) {
                    lemma_stop_condition_halts::<E>(steps.drop_first(), i - 1);
                }
            },
            LoopEvent::Received(Frame::Ping(_)) => {
                lemma_stop_condition_halts::<E>(steps.drop_first(), i - 1);
            },
            LoopEvent::Received(Frame::Pong(_)) => {
                lemma_stop_condition_halts::<E>(steps.drop_first(), i - 1);
            },
            LoopEvent::Received(Frame::Binary(_)) => {
                lemma_stop_condition_halts::<E>(steps.drop_first(), i - 1);
            },
            LoopEvent::Received(Frame::Continuation(_)) => {
                lemma_stop_condition_halts::<E>(steps.drop_first(), i - 1);
            },
            _ => {},
        }
    }
}

} // verus!
