//! The matchmaking connection: what the server answers to what happens on
//! a player's websocket.

use vstd::prelude::*;

verus! {

/// How long, in seconds, the connection may stay quiet before the server
/// pings the client.
pub const MATCHMAKING_PING_INTERVAL_SECS: u64 = 10;

/// What happened on the connection.
#[derive(Debug)]
pub enum MatchmakingEvent {
    /// A text message from the client (not handled by this server).
    TextMessage,
    /// A binary message from the client (not handled by this server).
    BinaryMessage,
    /// A ping from the client, with its payload.
    Ping(Vec<u8>),
    /// Any other frame, or a broken one.
    OtherFrame,
    /// Nothing happened for `MATCHMAKING_PING_INTERVAL_SECS` seconds.
    Idle,
}

/// What the server sends back.
#[derive(Debug)]
pub enum MatchmakingAction {
    Pong(Vec<u8>),
    Ping(Vec<u8>),
    Nothing,
}

/// The server's answer to an event: a ping is answered by a pong with the
/// same payload, a quiet connection gets an empty ping, anything else no
/// answer. Text and binary messages are not part of the protocol this
/// server speaks.
pub fn matchmaking_reaction(event: MatchmakingEvent) -> (r: MatchmakingAction)
    requires
        !(event is TextMessage),
        !(event is BinaryMessage),
    ensures
        event matches MatchmakingEvent::Ping(p) ==> r == MatchmakingAction::Pong(p),
        event is Idle ==> (r matches MatchmakingAction::Ping(p) && p@.len() == 0),
        event is OtherFrame ==> r is Nothing,
{
    match event {
        MatchmakingEvent::Ping(payload) => MatchmakingAction::Pong(payload),
        MatchmakingEvent::Idle => MatchmakingAction::Ping(Vec::new()),
        _ => MatchmakingAction::Nothing,
    }
}

} // verus!
