//! What each side does with a connection: which streamers a mode calls for
//! and which handle each of them owns, and the steps by which a server takes
//! a connection from its first byte to streaming.

use crate::mode::Mode;
use crate::protocol::check_magic;
use crate::protocol::decode_mode;
use crate::protocol::decoded_handshake;
use crate::protocol::decoded_mode;
use crate::protocol::magic;
use crate::protocol::HandshakeError;
use vstd::prelude::*;

verus! {

/// The way in which a streamer moves bytes.
#[derive(Clone, Copy, Debug, PartialEq, Eq, Structural)]
pub enum Flow {
    Send,
    Receive,
}

/// One of the two handles to a connection: the one that connecting or
/// accepting gave, or the one made by duplicating it.
#[derive(Clone, Copy, Debug, PartialEq, Eq, Structural)]
pub enum Handle {
    Primary,
    Duplicate,
}

/// The streamers that a client starts, each beside the reporter: for either
/// direction the handle that its streamer owns, if the direction is active.
/// The upstream streamer sends and the downstream streamer receives.
#[derive(Clone, Copy, Debug, PartialEq, Eq, Structural)]
pub struct ClientPlan {
    pub upstream: Option<Handle>,
    pub downstream: Option<Handle>,
}

/// The streamers that a server runs for one connection: one on the task of
/// the connection, over the primary handle, and for two directions a second
/// one on a task of its own, over a duplicate.
#[derive(Clone, Copy, Debug, PartialEq, Eq, Structural)]
pub struct ServerPlan {
    pub inline: Flow,
    pub spawned: Option<Flow>,
}

/// The plan of a client for `mode`. With both directions the upstream
/// streamer gets the duplicate, so that no handle has two owners.
pub open spec fn client_plan_of(mode: Mode) -> ClientPlan {
    ClientPlan {
        upstream: if mode.up {
            Some(
                if mode.down {
                    Handle::Duplicate
                } else {
                    Handle::Primary
                },
            )
        } else {
            None
        },
        downstream: if mode.down {
            Some(Handle::Primary)
        } else {
            None
        },
    }
}

/// The plan of a server for `mode`. Upstream data is received and downstream
/// data is sent. With both directions the server sends on the task of the
/// connection and receives on the second task.
pub open spec fn server_plan_of(mode: Mode) -> ServerPlan {
    if mode.down {
        ServerPlan {
            inline: Flow::Send,
            spawned: if mode.up {
                Some(Flow::Receive)
            } else {
                None
            },
        }
    } else {
        ServerPlan { inline: Flow::Receive, spawned: None }
    }
}

/// Each handle has one owner, and each active direction has its streamer:
/// the two streamers of a client never share a handle, and a duplicate is made
/// only where both directions are active.
pub proof fn lemma_one_owner_for_each_handle(mode: Mode)
    ensures
        client_plan_of(mode).upstream is Some <==> mode.up,
        client_plan_of(mode).downstream is Some <==> mode.down,
        mode.up && mode.down ==> client_plan_of(mode).upstream != client_plan_of(mode).downstream,
        client_plan_of(mode).upstream == Some(Handle::Duplicate) <==> mode.up && mode.down,
        client_plan_of(mode).downstream != Some(Handle::Duplicate),
        server_plan_of(mode).spawned is Some <==> mode.up && mode.down,
        server_plan_of(mode).spawned != Some(server_plan_of(mode).inline),
{
}

/// Plans the streamers of a client. There is no plan for the empty mode:
/// a client must not connect with it.
pub fn client_plan(mode: Mode) -> (plan: Option<ClientPlan>)
    ensures
        plan == if mode.up || mode.down {
            Some(client_plan_of(mode))
        } else {
            None
        },
{
    if mode.is_empty() {
        return None;
    }
    let upstream = if mode.up {
        if mode.down {
            Some(Handle::Duplicate)
        } else {
            Some(Handle::Primary)
        }
    } else {
        None
    };
    let downstream = if mode.down {
        Some(Handle::Primary)
    } else {
        None
    };
    Some(ClientPlan { upstream, downstream })
}

/// Plans the streamers of a server for one connection. There is no plan for
/// the empty mode.
pub fn server_plan(mode: Mode) -> (plan: Option<ServerPlan>)
    ensures
        plan == if mode.up || mode.down {
            Some(server_plan_of(mode))
        } else {
            None
        },
{
    if mode.is_empty() {
        None
    } else if mode.down {
        let spawned = if mode.up {
            Some(Flow::Receive)
        } else {
            None
        };
        Some(ServerPlan { inline: Flow::Send, spawned })
    } else {
        Some(ServerPlan { inline: Flow::Receive, spawned: None })
    }
}

/// Where a server stands with one connection.
#[derive(Clone, Copy, Debug, PartialEq, Eq, Structural)]
pub enum ServerState {
    /// Nothing has been read yet: the magic token comes first.
    ExpectMagic,
    /// The token was accepted: the mode byte comes next.
    ExpectMode,
    /// The handshake was accepted and the streamers of this mode run.
    Streaming(Mode),
    /// The streamers have ended.
    Closed,
    /// The handshake was turned down. Nothing more is read or sent.
    Faulted(HandshakeError),
}

impl ServerState {
    /// The number of bytes that the server reads next.
    pub open spec fn wanted(self) -> nat {
        match self {
            ServerState::ExpectMagic => 4,
            ServerState::ExpectMode => 1,
            _ => 0,
        }
    }

    /// The state that follows when `input` is what was read.
    pub open spec fn after(self, input: Seq<u8>) -> ServerState {
        match self {
            ServerState::ExpectMagic => if input == magic() {
                ServerState::ExpectMode
            } else {
                ServerState::Faulted(HandshakeError::BadMagic)
            },
            ServerState::ExpectMode => if input.len() == 1 {
                match decoded_mode(input[0]) {
                    Ok(mode) => ServerState::Streaming(mode),
                    Err(error) => ServerState::Faulted(error),
                }
            } else {
                ServerState::Faulted(HandshakeError::InvalidMode)
            },
            _ => self,
        }
    }

    /// The state of a connection that was just accepted.
    pub fn start() -> (state: ServerState)
        ensures
            state == ServerState::ExpectMagic,
    {
        ServerState::ExpectMagic
    }

    /// The number of bytes to read, exactly, before the next step.
    pub fn wants(&self) -> (count: usize)
        ensures
            count == self.wanted(),
    {
        match self {
            ServerState::ExpectMagic => 4,
            ServerState::ExpectMode => 1,
            _ => 0,
        }
    }

    /// Takes the bytes that were read and moves on.
    pub fn receive(self, input: &[u8]) -> (next: ServerState)
        ensures
            next == self.after(input@),
    {
        match self {
            ServerState::ExpectMagic => {
                if input.len() != 4 {
                    return ServerState::Faulted(HandshakeError::BadMagic);
                }
                let token: [u8; 4] = [input[0], input[1], input[2], input[3]];
                assert(token@ =~= input@);
                match check_magic(&token) {
                    Ok(_) => ServerState::ExpectMode,
                    Err(error) => ServerState::Faulted(error),
                }
            },
            ServerState::ExpectMode => {
                if input.len() != 1 {
                    return ServerState::Faulted(HandshakeError::InvalidMode);
                }
                match decode_mode(input[0]) {
                    Ok(mode) => ServerState::Streaming(mode),
                    Err(error) => ServerState::Faulted(error),
                }
            },
            _ => self,
        }
    }

    /// Marks the end of the streamers. Other states stay as they are.
    pub fn finish(self) -> (next: ServerState)
        ensures
            next == if self is Streaming {
                ServerState::Closed
            } else {
                self
            },
    {
        match self {
            ServerState::Streaming(_) => ServerState::Closed,
            _ => self,
        }
    }

    /// The streamers to run in this state, if it is one that streams.
    pub fn plan(&self) -> (plan: Option<ServerPlan>)
        ensures
            plan == match *self {
                ServerState::Streaming(mode) => if mode.up || mode.down {
                    Some(server_plan_of(mode))
                } else {
                    None
                },
                _ => None,
            },
    {
        match self {
            ServerState::Streaming(mode) => server_plan(*mode),
            _ => None,
        }
    }
}

/// The state in which a whole handshake leaves a server.
pub open spec fn outcome(decoded: Result<Mode, HandshakeError>) -> ServerState {
    match decoded {
        Ok(mode) => ServerState::Streaming(mode),
        Err(error) => ServerState::Faulted(error),
    }
}

/// A server that reads a handshake in its two parts ends where the decoding
/// of the whole says: it streams the mode that was asked for, or has turned
/// the connection down for the reason that the decoding gives.
pub proof fn lemma_two_reads_decode(frame: Seq<u8>)
    requires
        frame.len() == 5,
    ensures
        ServerState::ExpectMagic.after(frame.subrange(0, 4)).after(frame.subrange(4, 5))
            == outcome(decoded_handshake(frame)),
{
    assert(frame.subrange(4, 5)[0] == frame[4]);
}

/// A mode without a direction never reaches the streamers: a server that
/// takes a step into streaming streams a mode that has one.
pub proof fn lemma_streaming_has_direction(state: ServerState, input: Seq<u8>)
    requires
        !(state is Streaming),
    ensures
        state.after(input) matches ServerState::Streaming(mode) ==> mode.up || mode.down,
{
}

} // verus!
