//! The per-connection protocol engine: the handshake state machine and the
//! RDY/in-flight flow control.
//!
//! A [`Connection`] owns no socket. The surrounding reactor reads bytes,
//! decodes them into [`Frame`] values, and drives the engine through the
//! operations here; the engine answers by queueing [`Cmd`] values on its
//! outbound queue and by returning the message records to hand to workers.
//! Every state transition the engine may take is written down as a spec
//! function, and each operation's contract pins its behaviour to it.

use vstd::prelude::*;

use crate::config::Config;
use crate::config::NsqdConfig;
use crate::config::decoded_negotiation;
use crate::config::is_default_config;
use crate::config::negotiation_decodes;
use crate::msgs::Cmd;
use crate::msgs::Fatal;
use crate::msgs::Frame;
use crate::msgs::Msg;

verus! {

/// Heartbeat watchdog window in milliseconds: when no heartbeat has been
/// observed for longer than this while the connection is started, the
/// daemon is treated as gone even though the socket reported no error.
pub const WATCHDOG_WINDOW_MS: u64 = 45000;

/// Handshake/runtime phase of one connection.
///
/// The phases progress strictly forward, except for the
/// `Started`/`Backoff`/`Resume` throttling cycle; `Stopped` is terminal.
#[derive(Clone, Copy, Debug, PartialEq, Eq, Structural)]
pub enum ConnState {
    /// Capability negotiation: the magic marker and the Identify command
    /// are sent and the daemon's capability payload is awaited.
    Identify,
    /// TLS upgrade on the same socket, entered only when the daemon
    /// advertises TLS; it must complete before any further command is sent.
    Tls,
    /// Authentication with the configured secret, entered only when the
    /// daemon requires it and a secret is configured.
    Auth,
    /// Subscription to the topic/channel pair.
    Subscribe,
    /// The initial delivery credit is about to be granted.
    Rdy,
    /// Steady state: messages are served and heartbeats answered.
    Started,
    /// Intake throttled: credit zero while in-flight work drains.
    Backoff,
    /// Probing recovery with credit one after a backoff.
    Resume,
    /// Terminal: the connection is torn down and the reactor must exit.
    Stopped,
}

/// Address of a daemon to connect to.
#[derive(Clone, Debug, PartialEq)]
pub struct TcpConnect(pub String);

/// The smaller of two credits.
pub open spec fn min_u32(a: u32, b: u32) -> u32 {
    if a <= b {
        a
    } else {
        b
    }
}

/// States that are only reachable after the daemon's capability payload was
/// received, so the negotiated configuration is at hand in them.
pub open spec fn needs_negotiated(s: ConnState) -> bool {
    ||| s == ConnState::Tls
    ||| s == ConnState::Auth
    ||| s == ConnState::Subscribe
    ||| s == ConnState::Rdy
    ||| s == ConnState::Started
    ||| s == ConnState::Backoff
    ||| s == ConnState::Resume
}

/// Every Ready command in the queue grants at most `max` credit.
pub open spec fn ready_bounded(cmds: Seq<Cmd>, max: u32) -> bool {
    forall|i: int| 0 <= i < cmds.len() ==> (#[trigger] cmds[i] matches Cmd::Ready(n) ==> n <= max)
}

/// No Ready command is queued at all (the case before negotiation).
pub open spec fn no_ready(cmds: Seq<Cmd>) -> bool {
    forall|i: int| 0 <= i < cmds.len() ==> !(#[trigger] cmds[i] is Ready)
}

/// Where the handshake goes on receiving the daemon's capability payload:
/// first to the TLS upgrade when advertised, else to authentication when
/// required (fatal without a secret), else straight to the subscription.
pub open spec fn negotiation_next(cfg: NsqdConfig, has_secret: bool) -> Result<ConnState, Fatal> {
    if cfg.tls_v1 {
        Result::Ok(ConnState::Tls)
    } else if cfg.auth_required {
        if has_secret {
            Result::Ok(ConnState::Auth)
        } else {
            Result::Err(Fatal::AuthRequired)
        }
    } else {
        Result::Ok(ConnState::Subscribe)
    }
}

/// Where the handshake goes once the TLS upgrade is acknowledged: the same
/// authentication decision, taken on the stored capability payload.
pub open spec fn post_tls_next(cfg: NsqdConfig, has_secret: bool) -> Result<ConnState, Fatal> {
    if cfg.auth_required {
        if has_secret {
            Result::Ok(ConnState::Auth)
        } else {
            Result::Err(Fatal::AuthRequired)
        }
    } else {
        Result::Ok(ConnState::Subscribe)
    }
}

/// Where a plain acknowledgement moves the handshake from states whose
/// outcome does not depend on the payload: authentication is acknowledged
/// into the subscription, the subscription into the credit grant.
pub open spec fn response_next(s: ConnState) -> ConnState {
    match s {
        ConnState::Auth => ConnState::Subscribe,
        ConnState::Subscribe => ConnState::Rdy,
        _ => s,
    }
}

/// Where one writable-ready cycle moves the handshake: granting the initial
/// credit is the step that starts the connection; every other phase keeps
/// its state while writing.
pub open spec fn writable_next(s: ConnState) -> ConnState {
    if s == ConnState::Rdy {
        ConnState::Started
    } else {
        s
    }
}

/// One live (or stopping) session with one daemon.
///
/// The reactor that owns the socket drives this engine single-threadedly:
/// frames go in through [`Connection::on_frame`], write opportunities
/// through [`Connection::on_writable`], and the commands to put on the wire
/// come back out of the outbound queue through
/// [`Connection::take_outbound`].
pub struct Connection {
    /// Address of the daemon this session belongs to.
    pub addr: String,
    /// Topic subscribed to.
    pub topic: String,
    /// Channel subscribed to.
    pub channel: String,
    /// Local configuration, sent inside the Identify command.
    pub config: Config,
    /// Authentication secret, when one is configured.
    pub secret: Option<String>,
    /// Current handshake/runtime phase.
    pub state: ConnState,
    /// Delivery credit: the value last sent to the daemon (or, before the
    /// initial grant, the value that will be requested).
    pub rdy: u32,
    /// Messages delivered to workers and not yet acknowledged.
    pub in_flight: u32,
    /// Whether a command expecting a reply was sent and its reply is still
    /// outstanding.
    pub need_response: bool,
    /// Whether a heartbeat frame arrived and its Nop reply is still owed.
    pub heartbeat: bool,
    /// The daemon's capability payload, once negotiation succeeded.
    pub negotiated: Option<NsqdConfig>,
    /// Commands queued for the next write to the socket.
    pub outbound: Vec<Cmd>,
    /// When the last heartbeat was observed, in reactor-clock milliseconds.
    pub last_heartbeat_ms: u64,
    /// The watchdog window applied to `last_heartbeat_ms`.
    pub watchdog_window_ms: u64,
}

impl Connection {
    /// Well-formedness, established by the constructors and preserved by
    /// every operation: authentication is only entered with a secret at
    /// hand, the capability payload is at hand in every state past
    /// negotiation, and the granted credit — stored as well as queued —
    /// never exceeds the advertised maximum.
    pub open spec fn wf(self) -> bool {
        &&& (self.state == ConnState::Auth ==> self.secret is Some)
        &&& (self.state == ConnState::Identify ==> self.negotiated is None)
        &&& (needs_negotiated(self.state) ==> self.negotiated is Some)
        &&& (match self.negotiated {
            Some(cfg) => {
                &&& ready_bounded(self.outbound@, cfg.max_rdy_count)
                &&& ((self.state == ConnState::Started || self.state == ConnState::Backoff
                    || self.state == ConnState::Resume) ==> self.rdy <= cfg.max_rdy_count)
            },
            None => no_ready(self.outbound@),
        })
    }
}

/// The state change of consuming the daemon's capability payload `cfg` in
/// the `Identify` phase: move to the state `negotiation_next` names, or
/// stop on the fatal outcome; either way the payload is stored and the
/// outstanding-reply flag cleared.
pub open spec fn negotiation_post(pre: Connection, post: Connection, cfg: NsqdConfig) -> bool {
    match negotiation_next(cfg, pre.secret is Some) {
        Result::Ok(s2) => (post == Connection {
            state: s2,
            negotiated: Some(cfg),
            need_response: false,
            ..pre
        }),
        Result::Err(_) => (post == Connection {
            state: ConnState::Stopped,
            negotiated: Some(cfg),
            need_response: false,
            ..pre
        }),
    }
}

/// The state change of one writable-ready cycle, by phase: the pre-started
/// phases send the command the phase calls for — but never while the reply
/// to an earlier command is still outstanding, so at most one request
/// awaits its response at any time — the started phase answers an owed
/// heartbeat with exactly one Nop, and every other phase writes nothing.
pub open spec fn writable_step(pre: Connection, post: Connection) -> bool {
    match pre.state {
        ConnState::Identify => {
            if pre.need_response {
                post == pre
            } else {
                &&& (post == Connection { need_response: true, outbound: post.outbound, ..pre })
                &&& post.outbound@ == pre.outbound@.push(Cmd::Identify(pre.config))
            }
        },
        ConnState::Auth => {
            if pre.need_response {
                post == pre
            } else {
                &&& (post == Connection { need_response: true, outbound: post.outbound, ..pre })
                &&& post.outbound@ == pre.outbound@.push(Cmd::Auth(pre.secret.unwrap()))
            }
        },
        ConnState::Subscribe => {
            if pre.need_response {
                post == pre
            } else {
                &&& (post == Connection { need_response: true, outbound: post.outbound, ..pre })
                &&& post.outbound@ == pre.outbound@.push(Cmd::Subscribe(pre.topic, pre.channel))
            }
        },
        ConnState::Rdy => {
            let granted = min_u32(pre.rdy, pre.negotiated.unwrap().max_rdy_count);
            &&& (post == Connection {
                state: ConnState::Started,
                rdy: granted,
                need_response: false,
                outbound: post.outbound,
                ..pre
            })
            &&& post.outbound@ == pre.outbound@.push(Cmd::Ready(granted))
        },
        ConnState::Started => {
            if pre.heartbeat {
                &&& (post == Connection { heartbeat: false, outbound: post.outbound, ..pre })
                &&& post.outbound@ == pre.outbound@.push(Cmd::Nop)
            } else {
                post == pre
            }
        },
        _ => post == pre,
    }
}

/// Holds when `r` is success carrying no messages.
pub open spec fn ok_empty(r: Result<Vec<Msg>, Fatal>) -> bool {
    r matches Result::Ok(v) && v@.len() == 0
}

/// The state change and result of consuming one inbound frame.
///
/// A heartbeat is recorded (flag and watchdog clock) and owes a Nop; an
/// error report changes nothing; delivered messages raise the in-flight
/// count by their number and are handed back for the worker queue; a plain
/// response advances the handshake as the phase dictates. The `Identify`
/// response is decided by its text: a text that decodes (see
/// `negotiation_decodes`) is consumed as the payload it carries, and any
/// other text is a fatal stop with no transition.
pub open spec fn frame_step(
    pre: Connection,
    post: Connection,
    frame: Frame,
    now_ms: u64,
    r: Result<Vec<Msg>, Fatal>,
) -> bool {
    match frame {
        Frame::Heartbeat => {
            &&& (post == Connection { heartbeat: true, last_heartbeat_ms: now_ms, ..pre })
            &&& ok_empty(r)
        },
        Frame::Error(_) => {
            &&& post == pre
            &&& ok_empty(r)
        },
        Frame::Messages(msgs) => {
            &&& (post == Connection { in_flight: (pre.in_flight + msgs@.len()) as u32, ..pre })
            &&& r == Result::<Vec<Msg>, Fatal>::Ok(msgs)
        },
        Frame::Response(text) => match pre.state {
            ConnState::Identify => {
                if negotiation_decodes(text@) {
                    exists|cfg: NsqdConfig|
                        {
                            &&& #[trigger] negotiation_post(pre, post, cfg)
                            &&& decoded_negotiation(text@, cfg)
                            &&& (match negotiation_next(cfg, pre.secret is Some) {
                                Result::Ok(_) => ok_empty(r),
                                Result::Err(e) => r == Result::<Vec<Msg>, Fatal>::Err(e),
                            })
                        }
                } else {
                    &&& r == Result::<Vec<Msg>, Fatal>::Err(Fatal::MalformedResponse)
                    &&& (post == Connection {
                        state: ConnState::Stopped,
                        need_response: false,
                        ..pre
                    })
                }
            },
            ConnState::Tls => match post_tls_next(pre.negotiated.unwrap(), pre.secret is Some) {
                Result::Ok(s2) => {
                    &&& ok_empty(r)
                    &&& (post == Connection { state: s2, need_response: false, ..pre })
                },
                Result::Err(e) => {
                    &&& r == Result::<Vec<Msg>, Fatal>::Err(e)
                    &&& (post == Connection {
                        state: ConnState::Stopped,
                        need_response: false,
                        ..pre
                    })
                },
            },
            ConnState::Auth | ConnState::Subscribe => {
                &&& ok_empty(r)
                &&& (post == Connection {
                    state: response_next(pre.state),
                    need_response: false,
                    ..pre
                })
            },
            _ => {
                &&& post == pre
                &&& ok_empty(r)
            },
        },
    }
}

impl Connection {
    /// A fresh engine for one daemon address, in the `Identify` phase with
    /// nothing queued, nothing in flight and nothing negotiated. Without a
    /// configuration the defaults are used; without an initial credit, one.
    pub fn new(
        topic: String,
        channel: String,
        addr: String,
        config: Option<Config>,
        secret: Option<String>,
        rdy: Option<u32>,
    ) -> (c: Connection)
        ensures
            c.wf(),
            c.topic == topic,
            c.channel == channel,
            c.addr == addr,
            c.secret == secret,
            (config matches Some(cf) ==> c.config == cf),
            (config is None ==> is_default_config(c.config)),
            c.rdy == (match rdy {
                Some(n) => n,
                None => 1u32,
            }),
            c.state == ConnState::Identify,
            c.in_flight == 0,
            c.need_response == false,
            c.heartbeat == false,
            c.negotiated is None,
            c.outbound@.len() == 0,
            c.last_heartbeat_ms == 0,
            c.watchdog_window_ms == WATCHDOG_WINDOW_MS,
    {
        let cfg = match config {
            Some(cf) => cf,
            None => Config::new(),
        };
        let initial_rdy = match rdy {
            Some(n) => n,
            None => 1,
        };
        Connection {
            addr,
            topic,
            channel,
            config: cfg,
            secret,
            state: ConnState::Identify,
            rdy: initial_rdy,
            in_flight: 0,
            need_response: false,
            heartbeat: false,
            negotiated: None,
            outbound: Vec::new(),
            last_heartbeat_ms: 0,
            watchdog_window_ms: WATCHDOG_WINDOW_MS,
        }
    }

    /// Queue the protocol magic/version marker; the first bytes every
    /// session puts on the wire.
    pub fn magic(&mut self)
        requires
            old(self).wf(),
        ensures
            final(self).wf(),
            (*final(self) == Connection { outbound: final(self).outbound, ..*old(self) }),
            final(self).outbound@ == old(self).outbound@.push(Cmd::Magic),
    {
        self.outbound.push(Cmd::Magic);
    }

    /// Consume the daemon's decoded capability payload while identifying:
    /// store it and move to the phase `negotiation_next` names, or stop
    /// fatally when authentication is required and no secret is configured.
    pub fn apply_negotiation(&mut self, cfg: NsqdConfig) -> (r: Result<(), Fatal>)
        requires
            old(self).wf(),
            old(self).state == ConnState::Identify,
        ensures
            final(self).wf(),
            negotiation_post(*old(self), *final(self), cfg),
            r == (match negotiation_next(cfg, old(self).secret is Some) {
                Result::<ConnState, Fatal>::Ok(_) => Result::<(), Fatal>::Ok(()),
                Result::<ConnState, Fatal>::Err(e) => Result::<(), Fatal>::Err(e),
            }),
    {
        self.need_response = false;
        if cfg.tls_v1 {
            self.state = ConnState::Tls;
            self.negotiated = Some(cfg);
            Ok(())
        } else if cfg.auth_required {
            if self.secret.is_some() {
                self.state = ConnState::Auth;
                self.negotiated = Some(cfg);
                Ok(())
            } else {
                self.state = ConnState::Stopped;
                self.negotiated = Some(cfg);
                Err(Fatal::AuthRequired)
            }
        } else {
            self.state = ConnState::Subscribe;
            self.negotiated = Some(cfg);
            Ok(())
        }
    }

    /// Consume one inbound frame, with the reactor clock in milliseconds
    /// for the heartbeat bookkeeping. Returns the delivered messages to put
    /// on the worker queue, or the fatal outcome that ends the session.
    pub fn on_frame(&mut self, frame: Frame, now_ms: u64) -> (r: Result<Vec<Msg>, Fatal>)
        requires
            old(self).wf(),
            (frame matches Frame::Messages(m) ==> old(self).in_flight + m@.len() <= u32::MAX),
        ensures
            final(self).wf(),
            frame_step(*old(self), *final(self), frame, now_ms, r),
    {
        match frame {
            Frame::Heartbeat => {
                self.heartbeat = true;
                self.last_heartbeat_ms = now_ms;
                Ok(Vec::new())
            },
            Frame::Error(_text) => Ok(Vec::new()),
            Frame::Messages(msgs) => {
                let n = msgs.len();
                self.in_flight = self.in_flight + (n as u32);
                Ok(msgs)
            },
            Frame::Response(text) => {
                match self.state {
                    ConnState::Identify => {
                        match NsqdConfig::parse(text.as_str()) {
                            Some(cfg) => {
                                match self.apply_negotiation(cfg) {
                                    Ok(()) => Ok(Vec::new()),
                                    Err(e) => Err(e),
                                }
                            },
                            None => {
                                self.state = ConnState::Stopped;
                                self.need_response = false;
                                Err(Fatal::MalformedResponse)
                            },
                        }
                    },
                    ConnState::Tls => {
                        self.need_response = false;
                        if self.negotiated.as_ref().unwrap().auth_required {
                            if self.secret.is_some() {
                                self.state = ConnState::Auth;
                                Ok(Vec::new())
                            } else {
                                self.state = ConnState::Stopped;
                                Err(Fatal::AuthRequired)
                            }
                        } else {
                            self.state = ConnState::Subscribe;
                            Ok(Vec::new())
                        }
                    },
                    ConnState::Auth => {
                        self.state = ConnState::Subscribe;
                        self.need_response = false;
                        Ok(Vec::new())
                    },
                    ConnState::Subscribe => {
                        self.state = ConnState::Rdy;
                        self.need_response = false;
                        Ok(Vec::new())
                    },
                    _ => Ok(Vec::new()),
                }
            },
        }
    }

    /// Act on one writable-ready cycle: send the command the current phase
    /// calls for, as `writable_step` spells out.
    pub fn on_writable(&mut self)
        requires
            old(self).wf(),
        ensures
            final(self).wf(),
            writable_step(*old(self), *final(self)),
            final(self).state == writable_next(old(self).state),
    {
        match self.state {
            ConnState::Identify => {
                if !self.need_response {
                    let cfg = self.config.clone();
                    self.outbound.push(Cmd::Identify(cfg));
                    self.need_response = true;
                }
            },
            ConnState::Auth => {
                if !self.need_response {
                    let s = self.secret.as_ref().unwrap().clone();
                    self.outbound.push(Cmd::Auth(s));
                    self.need_response = true;
                }
            },
            ConnState::Subscribe => {
                if !self.need_response {
                    let t = self.topic.clone();
                    let ch = self.channel.clone();
                    self.outbound.push(Cmd::Subscribe(t, ch));
                    self.need_response = true;
                }
            },
            ConnState::Rdy => {
                let max = self.negotiated.as_ref().unwrap().max_rdy_count;
                let granted = if self.rdy <= max {
                    self.rdy
                } else {
                    max
                };
                self.outbound.push(Cmd::Ready(granted));
                self.rdy = granted;
                self.state = ConnState::Started;
                self.need_response = false;
            },
            ConnState::Started => {
                if self.heartbeat {
                    self.outbound.push(Cmd::Nop);
                    self.heartbeat = false;
                }
            },
            _ => {},
        }
    }

    /// Send a new credit grant while serving (or probing after a backoff):
    /// the grant is clamped to the advertised maximum, the stored credit
    /// mirrors what was sent, and a probe that grants again is what returns
    /// the connection to `Started`.
    pub fn ready(&mut self, count: u32)
        requires
            old(self).wf(),
            old(self).state == ConnState::Started || old(self).state == ConnState::Resume,
        ensures
            final(self).wf(),
            ({
                let granted = min_u32(count, old(self).negotiated.unwrap().max_rdy_count);
                &&& (*final(self) == Connection {
                    state: ConnState::Started,
                    rdy: granted,
                    outbound: final(self).outbound,
                    ..*old(self)
                })
                &&& final(self).outbound@ == old(self).outbound@.push(Cmd::Ready(granted))
            }),
    {
        let max = self.negotiated.as_ref().unwrap().max_rdy_count;
        let granted = if count <= max {
            count
        } else {
            max
        };
        self.outbound.push(Cmd::Ready(granted));
        self.rdy = granted;
        self.state = ConnState::Started;
    }

    /// Throttle intake: grant zero credit so deliveries stop while the
    /// in-flight work drains. Never taken before the connection started.
    pub fn backoff(&mut self)
        requires
            old(self).wf(),
            old(self).state == ConnState::Started || old(self).state == ConnState::Resume,
        ensures
            final(self).wf(),
            (*final(self) == Connection {
                state: ConnState::Backoff,
                rdy: 0u32,
                outbound: final(self).outbound,
                ..*old(self)
            }),
            final(self).outbound@ == old(self).outbound@.push(Cmd::Ready(0u32)),
    {
        self.outbound.push(Cmd::Ready(0));
        self.rdy = 0;
        self.state = ConnState::Backoff;
    }

    /// Probe recovery after the backoff schedule elapsed: grant one credit
    /// (less when the daemon advertises less) and await normal processing.
    pub fn resume(&mut self)
        requires
            old(self).wf(),
            old(self).state == ConnState::Backoff,
        ensures
            final(self).wf(),
            ({
                let granted = min_u32(1u32, old(self).negotiated.unwrap().max_rdy_count);
                &&& (*final(self) == Connection {
                    state: ConnState::Resume,
                    rdy: granted,
                    outbound: final(self).outbound,
                    ..*old(self)
                })
                &&& final(self).outbound@ == old(self).outbound@.push(Cmd::Ready(granted))
            }),
    {
        let max = self.negotiated.as_ref().unwrap().max_rdy_count;
        let granted = if 1 <= max {
            1
        } else {
            max
        };
        self.outbound.push(Cmd::Ready(granted));
        self.rdy = granted;
        self.state = ConnState::Resume;
    }

    /// Acknowledge one delivered message: queue the Finish command carrying
    /// its id and release its in-flight slot. An acknowledgement only ever
    /// follows a delivery, so there is a slot to release.
    pub fn finish(&mut self, id: String)
        requires
            old(self).wf(),
            old(self).in_flight >= 1,
        ensures
            final(self).wf(),
            (*final(self) == Connection {
                in_flight: (old(self).in_flight - 1) as u32,
                outbound: final(self).outbound,
                ..*old(self)
            }),
            final(self).outbound@ == old(self).outbound@.push(Cmd::Finish(id)),
    {
        self.outbound.push(Cmd::Finish(id));
        self.in_flight = self.in_flight - 1;
    }

    /// Tear the session down on the owner's Close command: announce the
    /// close to the daemon, enter the terminal state, and hand back exactly
    /// one sentinel (empty) payload for the worker queue, so that a blocked
    /// worker observes the termination instead of waiting forever.
    pub fn close(&mut self) -> (sentinel: Vec<u8>)
        requires
            old(self).wf(),
        ensures
            final(self).wf(),
            (*final(self) == Connection {
                state: ConnState::Stopped,
                outbound: final(self).outbound,
                ..*old(self)
            }),
            final(self).outbound@ == old(self).outbound@.push(Cmd::Close),
            sentinel@.len() == 0,
    {
        self.outbound.push(Cmd::Close);
        self.state = ConnState::Stopped;
        crate::msgs::sentinel_payload()
    }

    /// The heartbeat watchdog: exactly when the connection is started and
    /// no heartbeat has been observed for longer than the window, a
    /// sentinel (empty) payload is handed back so the reactor can
    /// synthesize a disconnect even though the socket reported no error.
    pub fn watchdog_sentinel(&self, now_ms: u64) -> (r: Option<Vec<u8>>)
        ensures
            (r is Some) == (self.state == ConnState::Started && now_ms - self.last_heartbeat_ms
                > self.watchdog_window_ms),
            (r matches Some(p) ==> p@.len() == 0),
    {
        if self.state == ConnState::Started && now_ms >= self.last_heartbeat_ms && now_ms
            - self.last_heartbeat_ms > self.watchdog_window_ms {
            Some(crate::msgs::sentinel_payload())
        } else {
            None
        }
    }

    /// Hand the queued commands to the writer, leaving the queue empty.
    pub fn take_outbound(&mut self) -> (cmds: Vec<Cmd>)
        requires
            old(self).wf(),
        ensures
            final(self).wf(),
            cmds@ == old(self).outbound@,
            (*final(self) == Connection { outbound: final(self).outbound, ..*old(self) }),
            final(self).outbound@.len() == 0,
    {
        let mut cmds: Vec<Cmd> = Vec::new();
        core::mem::swap(&mut cmds, &mut self.outbound);
        cmds
    }

    /// Whether a supervised restart must stop instead: only a session that
    /// was explicitly stopped refuses to be restarted.
    pub fn restart_stops(&self) -> (r: bool)
        ensures
            r == (self.state == ConnState::Stopped),
    {
        self.state == ConnState::Stopped
    }
}

/// One flow-control event: a message delivered to a worker, or a message
/// acknowledged by one. Used to state the in-flight accounting law.
pub enum FlowOp {
    Deliver,
    Finish,
}

/// The in-flight count after an interleaving of flow-control events: each
/// delivery raises it by one, each acknowledgement releases one slot — the
/// accounting `Connection::on_frame` and `Connection::finish` perform.
pub open spec fn flight_after(start: int, ops: Seq<FlowOp>) -> int
    decreases ops.len(),
{
    if ops.len() == 0 {
        start
    } else {
        match ops.last() {
            FlowOp::Deliver => flight_after(start, ops.drop_last()) + 1,
            FlowOp::Finish => flight_after(start, ops.drop_last()) - 1,
        }
    }
}

/// How many times `op` occurs in `ops`.
pub open spec fn count_op(ops: Seq<FlowOp>, op: FlowOp) -> int
    decreases ops.len(),
{
    if ops.len() == 0 {
        0int
    } else {
        count_op(ops.drop_last(), op) + if ops.last() == op {
            1int
        } else {
            0int
        }
    }
}

/// Law: after any interleaving of deliveries and acknowledgements — in
/// particular after delivering `k` messages and finishing `j` of them — the
/// in-flight count stands exactly `k - j` above where it began.
pub proof fn lemma_in_flight_net(start: int, ops: Seq<FlowOp>)
    ensures
        flight_after(start, ops) == start + count_op(ops, FlowOp::Deliver) - count_op(
            ops,
            FlowOp::Finish,
        ),
    decreases ops.len(),
{
    if ops.len() > 0 {
        lemma_in_flight_net(start, ops.drop_last());
    }
}

/// Law: a valid negotiation payload that advertises neither TLS nor
/// authentication drives the handshake `Identify` to `Subscribe` to `Rdy`
/// to `Started`, and the `Auth` phase is not on that path.
pub proof fn lemma_handshake_without_auth(cfg: NsqdConfig, has_secret: bool)
    requires
        !cfg.auth_required,
        !cfg.tls_v1,
    ensures
        negotiation_next(cfg, has_secret) == Result::<ConnState, Fatal>::Ok(ConnState::Subscribe),
        response_next(ConnState::Subscribe) == ConnState::Rdy,
        writable_next(ConnState::Rdy) == ConnState::Started,
        negotiation_next(cfg, has_secret) != Result::<ConnState, Fatal>::Ok(ConnState::Auth),
{
}

/// Law: with authentication required, no TLS and a secret configured, the
/// handshake visits `Auth` exactly once, between `Identify` and
/// `Subscribe`: negotiation is the only step that enters it, one
/// acknowledgement leaves it for `Subscribe`, and no acknowledgement or
/// write cycle ever moves another phase into it.
pub proof fn lemma_auth_visited_once(cfg: NsqdConfig)
    requires
        cfg.auth_required,
        !cfg.tls_v1,
    ensures
        negotiation_next(cfg, true) == Result::<ConnState, Fatal>::Ok(ConnState::Auth),
        response_next(ConnState::Auth) == ConnState::Subscribe,
        response_next(ConnState::Subscribe) == ConnState::Rdy,
        writable_next(ConnState::Rdy) == ConnState::Started,
        forall|s: ConnState| #[trigger] response_next(s) != ConnState::Auth,
        forall|s: ConnState|
            #[trigger] writable_next(s) == s || (s == ConnState::Rdy && writable_next(s)
                == ConnState::Started),
{
}

/// Law: the granted credit is unsigned, so it is never negative, and once
/// the connection has started (or is throttling or probing) neither the
/// stored credit nor any queued Ready command exceeds the daemon's
/// advertised maximum.
pub proof fn lemma_rdy_bounded(c: Connection)
    requires
        c.wf(),
        c.state == ConnState::Started || c.state == ConnState::Backoff || c.state
            == ConnState::Resume,
    ensures
        c.rdy <= c.negotiated.unwrap().max_rdy_count,
        ready_bounded(c.outbound@, c.negotiated.unwrap().max_rdy_count),
{
}

impl Default for Connection {
    /// An engine with empty names and the default configuration, in the
    /// `Identify` phase with one credit to request.
    fn default() -> (c: Connection)
        ensures
            c.wf(),
            c.topic@ == Seq::<char>::empty(),
            c.channel@ == Seq::<char>::empty(),
            c.addr@ == Seq::<char>::empty(),
            c.secret is None,
            is_default_config(c.config),
            c.rdy == 1u32,
            c.state == ConnState::Identify,
            c.in_flight == 0,
            c.need_response == false,
            c.heartbeat == false,
            c.negotiated is None,
            c.outbound@.len() == 0,
            c.last_heartbeat_ms == 0,
            c.watchdog_window_ms == WATCHDOG_WINDOW_MS,
    {
        Connection::new(String::new(), String::new(), String::new(), None, None, None)
    }
}

} // verus!
