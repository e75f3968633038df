//! The per-connection session protocol: one state value per real-time
//! connection, a heartbeat sub-protocol that closes silent connections, and
//! a small command language over inbound text frames.
//!
//! The I/O layer owns the socket and the timer: it hands every inbound
//! frame and every timer tick to this state machine and performs the
//! actions handed back.

use vstd::prelude::*;

use crate::channel::{
    channel_id_spec, channel_new_ok, channel_new_spec, get_channel_id, Channel,
};
use crate::errors::ApiError;
use crate::strutil::str_eq;

verus! {

/// How often heartbeat pings are sent, in milliseconds.
pub const HEARTBEAT_INTERVAL_MS: u64 = 5000;

/// How long a silent connection is tolerated before it is closed, in
/// milliseconds.
pub const CLIENT_TIMEOUT_MS: u64 = 10000;

/// The lifecycle of one connection.
#[derive(Clone, Copy, Debug, PartialEq, Eq, Structural)]
pub enum SessionPhase {
    /// Opened, no heartbeat seen yet.
    Connected,
    /// Heartbeats flowing.
    Active,
    /// Terminal: closed by the peer, a protocol error, or the heartbeat
    /// timeout.
    Closed,
}

/// One element of a parsed command frame: commands are JSON arrays whose
/// elements are strings or the literal null.
#[derive(Debug, Clone, PartialEq)]
pub enum CommandArg {
    Str(String),
    Null,
}

/// One inbound event on the connection. A text frame carries the raw text
/// (echoed back verbatim) alongside its parsed elements; a frame that does
/// not parse as an array carries no elements.
#[derive(Debug, PartialEq)]
pub enum Frame {
    Ping(Vec<u8>),
    Pong(Vec<u8>),
    Text { raw: String, args: Vec<CommandArg> },
    Binary(Vec<u8>),
    Close,
    ProtocolError,
}

/// One outbound effect the I/O layer must perform.
#[derive(Debug, PartialEq)]
pub enum Action {
    /// Answer a peer ping.
    Pong(Vec<u8>),
    /// Send a heartbeat ping.
    Ping,
    /// Send an acknowledgment text frame.
    SendText(String),
    /// Echo an inbound text frame verbatim.
    EchoText(String),
    /// Echo an inbound binary frame verbatim.
    EchoBinary(Vec<u8>),
    /// Move the bound stream's away counter through the storage
    /// collaborator.
    AdjustAfk { stream_id: u64, increment: bool },
    /// Resolve the bound stream through the storage collaborator.
    LookupStream(u64),
    /// Resolve a stream binding for an opaque external user id through the
    /// storage collaborator.
    LookupUserStream(String),
    /// Close the connection.
    Stop,
}

/// State of one real-time connection.
#[derive(Debug, Clone, PartialEq)]
pub struct WSService {
    /// Opaque session id, generated at connect time.
    pub id: String,
    /// When the last ping or pong from the peer was seen, in milliseconds.
    pub hb: u64,
    /// The bound stream identity, if any.
    pub stream_id: Option<u64>,
    /// The session's away flag.
    pub afk: bool,
    /// The peer's address, for audit and ban correlation.
    pub ip: String,
    /// Where in its lifecycle the connection stands.
    pub phase: SessionPhase,
}

/// Whether a connection has been silent past the timeout window at `now`.
pub open spec fn timed_out(hb: u64, now_ms: u64) -> bool {
    now_ms - hb > CLIENT_TIMEOUT_MS
}

/// A three-element `setStream` command with string channel and service that
/// pass channel validation.
pub open spec fn set_stream_binds(args: Seq<CommandArg>) -> bool {
    &&& args.len() == 3
    &&& args[1] matches CommandArg::Str(c)
    &&& args[2] matches CommandArg::Str(s)
    &&& channel_new_ok(c@, s@, Seq::<char>::empty())
}

/// The identity such a command binds: the identity of the channel built by
/// the same normalization path as the by-name lookup, with an empty path.
pub open spec fn bound_identity(args: Seq<CommandArg>) -> u64 {
    let c = args[1]->Str_0;
    let s = args[2]->Str_0;
    let (ch, sv, p) = channel_new_spec(c@, s@, Seq::<char>::empty());
    channel_id_spec(ch, sv, p)
}

impl WSService {
    /// A fresh connection state: just connected, heartbeat clock at `now`,
    /// no stream bound, not away.
    pub fn new(id: String, now_ms: u64, ip_addr: &str) -> (r: WSService)
        ensures
            r.id@ == id@,
            r.hb == now_ms,
            r.stream_id is None,
            !r.afk,
            r.ip@ == ip_addr@,
            r.phase == SessionPhase::Connected,
    {
        WSService {
            id,
            hb: now_ms,
            stream_id: None,
            afk: false,
            ip: String::from_str(ip_addr),
            phase: SessionPhase::Connected,
        }
    }

    /// One heartbeat tick. When the peer has been silent past the timeout
    /// window the connection is closed and no further ping is sent;
    /// otherwise a ping goes out and the state is untouched.
    pub fn hb(&mut self, now_ms: u64) -> (acts: Vec<Action>)
        ensures
            timed_out(old(self).hb, now_ms) ==> ({
                &&& final(self).phase == SessionPhase::Closed
                &&& acts@ == seq![Action::Stop]
            }),
            !timed_out(old(self).hb, now_ms) ==> ({
                &&& *final(self) == *old(self)
                &&& acts@ == seq![Action::Ping]
            }),
            final(self).id == old(self).id,
            final(self).hb == old(self).hb,
            final(self).stream_id == old(self).stream_id,
            final(self).afk == old(self).afk,
            final(self).ip == old(self).ip,
    {
        let mut acts: Vec<Action> = Vec::new();
        if now_ms > self.hb && now_ms - self.hb > CLIENT_TIMEOUT_MS {
            self.phase = SessionPhase::Closed;
            acts.push(Action::Stop);
            proof {
                assert(acts@ =~= seq![Action::Stop]);
            }
            return acts;
        }
        acts.push(Action::Ping);
        proof {
            assert(acts@ =~= seq![Action::Ping]);
        }
        acts
    }

    /// Applies a `setStream` command. Three elements bind the session to
    /// the identity computed from `(channel, service)` by the same
    /// normalization path as the by-name lookup; a failed validation leaves
    /// the binding unchanged. Two elements with a string ask the storage
    /// collaborator to resolve an opaque external user id; two elements
    /// with a null acknowledge without changing the binding.
    pub fn set_stream(&mut self, input: &Vec<CommandArg>) -> (acts: Vec<Action>)
        ensures
            set_stream_binds(input@) ==> final(self).stream_id == Some(bound_identity(input@)),
            !set_stream_binds(input@) ==> final(self).stream_id == old(self).stream_id,
            final(self).id == old(self).id,
            final(self).hb == old(self).hb,
            final(self).afk == old(self).afk,
            final(self).ip == old(self).ip,
            final(self).phase == old(self).phase,
            ({
                &&& input@.len() == 2
                &&& input@[1] matches CommandArg::Str(u)
                &&& acts@ == seq![Action::LookupUserStream(u)]
            }) || !(input@.len() == 2 && input@[1] is Str),
            !(input@.len() == 2 && input@[1] is Str) ==> acts@.len() == 0,
    {
        let mut acts: Vec<Action> = Vec::new();
        if input.len() == 3 {
            let channel = match &input[1] {
                CommandArg::Str(c) => c.clone(),
                CommandArg::Null => {
                    return acts;
                },
            };
            let service = match &input[2] {
                CommandArg::Str(s) => s.clone(),
                CommandArg::Null => {
                    return acts;
                },
            };
            self.set_stream_to_channel(channel.as_str(), service.as_str());
        } else if input.len() == 2 {
            match &input[1] {
                CommandArg::Str(u) => {
                    acts.push(Action::LookupUserStream(u.clone()));
                    proof {
                        assert(acts@ =~= seq![Action::LookupUserStream(input@[1]->Str_0)]);
                    }
                },
                CommandArg::Null => {},
            }
        }
        acts
    }

    /// Binds the session to the identity of `(channel, service)` with an
    /// empty path, leaving the binding unchanged when validation fails.
    pub fn set_stream_to_channel(&mut self, channel: &str, service: &str)
        ensures
            channel_new_ok(channel@, service@, Seq::<char>::empty()) ==> ({
                let (ch, sv, p) = channel_new_spec(channel@, service@, Seq::<char>::empty());
                final(self).stream_id == Some(channel_id_spec(ch, sv, p))
            }),
            !channel_new_ok(channel@, service@, Seq::<char>::empty()) ==> final(self).stream_id
                == old(self).stream_id,
            final(self).id == old(self).id,
            final(self).hb == old(self).hb,
            final(self).afk == old(self).afk,
            final(self).ip == old(self).ip,
            final(self).phase == old(self).phase,
    {
        match Channel::new(
            String::from_str(channel),
            String::from_str(service),
            String::new(),
        ) {
            Ok(chn) => {
                self.stream_id = Some(get_channel_id(&chn));
            },
            Err(_) => {},
        }
    }

    /// Applies a `setAfk` command: a two-element frame whose payload is the
    /// literal `"true"` or `"false"`. The flag is stored, the bound
    /// stream's away counter is moved through the storage collaborator, and
    /// an acknowledgment frame is echoed. Any other shape is an invalid
    /// command.
    pub fn set_afk(&mut self, input: &Vec<CommandArg>) -> (r: Result<Vec<Action>, ApiError>)
        ensures
            r is Ok <==> ({
                &&& input@.len() == 2
                &&& input@[1] matches CommandArg::Str(s)
                &&& s@ == "true"@ || s@ == "false"@
            }),
            r matches Ok(acts) ==> ({
                let flag = input@[1]->Str_0@ == "true"@;
                &&& final(self).afk == flag
                &&& (old(self).stream_id matches Some(sid) ==> {
                    &&& acts@.len() == 2
                    &&& acts@[0] == (Action::AdjustAfk { stream_id: sid, increment: flag })
                    &&& acts@[1] matches Action::SendText(t) && t@ == ack_text(flag)
                })
                &&& (old(self).stream_id is None ==> {
                    &&& acts@.len() == 1
                    &&& acts@[0] matches Action::SendText(t) && t@ == ack_text(flag)
                })
            }),
            r is Err ==> final(self).afk == old(self).afk,
            r matches Err(e) ==> e matches ApiError::ChannelValidation(m) && m@
                == "invalid command"@,
            final(self).id == old(self).id,
            final(self).hb == old(self).hb,
            final(self).stream_id == old(self).stream_id,
            final(self).ip == old(self).ip,
            final(self).phase == old(self).phase,
    {
        if input.len() == 2 {
            let flag = match &input[1] {
                CommandArg::Str(s) => {
                    if str_eq(s.as_str(), "true") {
                        true
                    } else if str_eq(s.as_str(), "false") {
                        false
                    } else {
                        return Err(
                            ApiError::ChannelValidation(String::from_str("invalid command")),
                        );
                    }
                },
                CommandArg::Null => {
                    return Err(ApiError::ChannelValidation(String::from_str("invalid command")));
                },
            };
            proof {
                reveal_strlit("true");
                reveal_strlit("false");
            }
            self.afk = flag;
            let mut acts: Vec<Action> = Vec::new();
            match self.stream_id {
                Some(sid) => {
                    acts.push(Action::AdjustAfk { stream_id: sid, increment: flag });
                    acts.push(Action::SendText(afk_ack(flag)));
                },
                None => {
                    acts.push(Action::SendText(afk_ack(flag)));
                },
            }
            Ok(acts)
        } else {
            Err(ApiError::ChannelValidation(String::from_str("invalid command")))
        }
    }

    /// The bound stream identity for a read-only `getStream` query, or a
    /// not-found error when no stream is bound.
    pub fn get_ws_stream(&self) -> (r: Result<u64, ApiError>)
        ensures
            r is Ok <==> self.stream_id is Some,
            r matches Ok(sid) ==> Some(sid) == self.stream_id,
            r matches Err(e) ==> e matches ApiError::NotFound(m) && m@ == "Invalid stream id"@,
    {
        match self.stream_id {
            Some(sid) => Ok(sid),
            None => Err(ApiError::NotFound(String::from_str("Invalid stream id"))),
        }
    }

    /// Handles one inbound frame at time `now_ms`.
    ///
    /// Only ping and pong frames refresh the heartbeat clock; a text frame
    /// never does, however recent. Text frames dispatch the command
    /// language and are echoed verbatim, except when the first element is
    /// an empty string, which is ignored outright. Binary frames are echoed
    /// verbatim. A close frame or a protocol error closes the connection;
    /// the I/O layer owns the socket and delivers no frame after that.
    pub fn handle(&mut self, msg: Frame, now_ms: u64) -> (acts: Vec<Action>)
        ensures
            msg matches Frame::Ping(m) ==> ({
                &&& final(self).hb == now_ms
                &&& final(self).phase == SessionPhase::Active
                &&& acts@ == seq![Action::Pong(m)]
                &&& final(self).stream_id == old(self).stream_id
                &&& final(self).afk == old(self).afk
            }),
            msg matches Frame::Pong(m) ==> ({
                &&& final(self).hb == now_ms
                &&& final(self).phase == SessionPhase::Active
                &&& acts@.len() == 0
                &&& final(self).stream_id == old(self).stream_id
                &&& final(self).afk == old(self).afk
            }),
            msg matches Frame::Text { raw, args } ==> ({
                &&& final(self).hb == old(self).hb
                &&& final(self).phase == old(self).phase
                &&& (first_arg_empty(args@) ==> acts@.len() == 0 && *final(self) == *old(self))
                &&& (!first_arg_empty(args@) ==> acts@.len() >= 1 && acts@.last()
                    == Action::EchoText(raw))
                &&& (is_command(args@, "setStream"@) && set_stream_binds(args@)
                    ==> final(self).stream_id == Some(bound_identity(args@)))
                &&& (!(is_command(args@, "setStream"@))
                    ==> final(self).stream_id == old(self).stream_id)
                &&& (!(is_command(args@, "setAfk"@)) ==> final(self).afk == old(self).afk)
                &&& (({
                    &&& is_command(args@, "setAfk"@)
                    &&& args@.len() == 2
                    &&& args@[1] matches CommandArg::Str(flag)
                    &&& flag@ == "true"@ || flag@ == "false"@
                }) ==> final(self).afk == (args@[1]->Str_0@ == "true"@))
                &&& (({
                    &&& is_command(args@, "getStream"@)
                    &&& old(self).stream_id matches Some(sid)
                }) ==> acts@.len() == 2 && acts@[0] == Action::LookupStream(
                    old(self).stream_id->Some_0,
                ))
            }),
            msg matches Frame::Binary(b) ==> ({
                &&& *final(self) == *old(self)
                &&& acts@ == seq![Action::EchoBinary(b)]
            }),
            msg == Frame::Close || msg == Frame::ProtocolError ==> ({
                &&& final(self).phase == SessionPhase::Closed
                &&& acts@ == seq![Action::Stop]
                &&& final(self).hb == old(self).hb
                &&& final(self).stream_id == old(self).stream_id
                &&& final(self).afk == old(self).afk
            }),
    {
        proof {
            reveal_strlit("setAfk");
            reveal_strlit("setStream");
            reveal_strlit("getStream");
            assert("setAfk"@.len() == 6);
            assert("setStream"@.len() == 9);
            assert("getStream"@.len() == 9);
            assert("setStream"@[0] == 's' && "getStream"@[0] == 'g');
        }
        let mut acts: Vec<Action> = Vec::new();
        match msg {
            Frame::Ping(m) => {
                self.hb = now_ms;
                self.phase = SessionPhase::Active;
                acts.push(Action::Pong(m));
                proof {
                    assert(acts@ =~= seq![Action::Pong(msg->Ping_0)]);
                }
            },
            Frame::Pong(_) => {
                self.hb = now_ms;
                self.phase = SessionPhase::Active;
            },
            Frame::Text { raw, args } => {
                if args.len() > 0 {
                    let is_empty_first = match &args[0] {
                        CommandArg::Str(a) => a.as_str().is_empty(),
                        CommandArg::Null => false,
                    };
                    if is_empty_first {
                        return acts;
                    }
                    match &args[0] {
                        CommandArg::Str(a) => {
                            if str_eq(a.as_str(), "setAfk") {
                                match self.set_afk(&args) {
                                    Ok(mut cmd_acts) => {
                                        acts.append(&mut cmd_acts);
                                    },
                                    Err(_) => {},
                                }
                            } else if str_eq(a.as_str(), "setStream") {
                                let mut cmd_acts = self.set_stream(&args);
                                acts.append(&mut cmd_acts);
                            } else if str_eq(a.as_str(), "getStream") {
                                match self.get_ws_stream() {
                                    Ok(sid) => {
                                        acts.push(Action::LookupStream(sid));
                                    },
                                    Err(_) => {},
                                }
                            }
                        },
                        CommandArg::Null => {},
                    }
                }
                acts.push(Action::EchoText(raw));
                proof {
                    assert(acts@.last() == Action::EchoText(msg->raw));
                }
            },
            Frame::Binary(b) => {
                acts.push(Action::EchoBinary(b));
                proof {
                    assert(acts@ =~= seq![Action::EchoBinary(msg->Binary_0)]);
                }
            },
            Frame::Close => {
                self.phase = SessionPhase::Closed;
                acts.push(Action::Stop);
                proof {
                    assert(acts@ =~= seq![Action::Stop]);
                }
            },
            Frame::ProtocolError => {
                self.phase = SessionPhase::Closed;
                acts.push(Action::Stop);
                proof {
                    assert(acts@ =~= seq![Action::Stop]);
                }
            },
        }
        acts
    }
}

/// Whether a parsed frame's first element is the empty string (such frames
/// are ignored outright, without even an echo).
pub open spec fn first_arg_empty(args: Seq<CommandArg>) -> bool {
    &&& args.len() > 0
    &&& args[0] matches CommandArg::Str(a) && a@.len() == 0
}

/// Whether a parsed frame carries the command `name`.
pub open spec fn is_command(args: Seq<CommandArg>, name: Seq<char>) -> bool {
    &&& args.len() > 0
    &&& args[0] matches CommandArg::Str(a) && a@ == name
}

/// The acknowledgment frame for a `setAfk` command.
pub open spec fn ack_text(flag: bool) -> Seq<char> {
    if flag {
        "[\"AFK_SET\",true]"@
    } else {
        "[\"AFK_SET\",false]"@
    }
}

/// Builds the acknowledgment frame for a `setAfk` command.
fn afk_ack(flag: bool) -> (r: String)
    ensures
        r@ == ack_text(flag),
{
    if flag {
        String::from_str("[\"AFK_SET\",true]")
    } else {
        String::from_str("[\"AFK_SET\",false]")
    }
}

} // verus!
