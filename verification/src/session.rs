//! Per-session decisions on the server side.
//!
//! A session is one authenticated WebSocket connection.  Two decisions
//! are made here: whether an upgrade request's credentials admit a
//! session at all — a failure is answered with the same not-found shape
//! whether the name is unknown or the password wrong, so nothing reveals
//! which — and what to do with each frame the connection delivers.

use vstd::prelude::*;

use crate::directory::Directory;
use crate::net::IpAddress;
use crate::router::InboundPacket;

verus! {

/// One application frame received on a session's WebSocket.
#[derive(Clone, Debug)]
pub enum Frame {
    /// A whole raw IP packet; the frame boundary is the packet boundary.
    Binary(Vec<u8>),
    /// A text frame: a protocol violation on this wire.
    Text(Vec<u8>),
    /// A control ping carrying its payload.
    Ping(Vec<u8>),
    /// A control pong.
    Pong(Vec<u8>),
    /// The peer closed the stream.
    Close,
}

/// What a session's inbound task does with one frame.
#[derive(Clone, Debug)]
pub enum FrameAction {
    /// Hand the payload to the router, tagged with the session's
    /// authenticated address.
    ForwardToRouter(InboundPacket),
    /// Answer a ping with a pong carrying the same payload.
    ReplyPong(Vec<u8>),
    /// A protocol violation: terminate this session's inbound task.
    Terminate,
    /// Nothing to do for this frame.
    Ignore,
}

/// How an upgrade request was answered.
#[derive(PartialEq, Eq, Structural, Clone, Copy, Debug)]
pub enum AuthOutcome {
    /// Rejected, with a response indistinguishable from an unknown
    /// route, whatever the reason was.
    NotFound,
    /// Admitted, as the session for this assigned address.
    Accept(IpAddress),
}

/// The frame decision as a function of the authenticated address and the
/// frame: binary packets go to the router under the session's address,
/// pings are answered, text ends the session, the rest is ignored.
pub open spec fn spec_handle_frame(tag: IpAddress, frame: Frame) -> FrameAction {
    match frame {
        Frame::Binary(payload) => FrameAction::ForwardToRouter(
            (InboundPacket { source_client_ip: tag, payload: payload }),
        ),
        Frame::Text(t) => FrameAction::Terminate,
        Frame::Ping(p) => FrameAction::ReplyPong(p),
        Frame::Pong(p) => FrameAction::Ignore,
        Frame::Close => FrameAction::Ignore,
    }
}

/// Decides what the inbound task does with one frame.  A binary frame is
/// tagged with `tag`, the address this session authenticated as, never
/// with anything the frame itself claims.
pub fn handle_frame(tag: IpAddress, frame: Frame) -> (a: FrameAction)
    ensures
        a == spec_handle_frame(tag, frame),
{
    match frame {
        Frame::Binary(payload) => FrameAction::ForwardToRouter(
            InboundPacket { source_client_ip: tag, payload },
        ),
        Frame::Text(_) => FrameAction::Terminate,
        Frame::Ping(p) => FrameAction::ReplyPong(p),
        Frame::Pong(_) => FrameAction::Ignore,
        Frame::Close => FrameAction::Ignore,
    }
}

/// Decides whether an upgrade request is admitted: `Accept` with the
/// client's assigned address exactly when the credentials authenticate,
/// and the uniform `NotFound` otherwise — for an unknown name and for a
/// wrong password alike.
pub fn authorize_session(dir: &Directory, name: &String, password: &String) -> (r: AuthOutcome)
    requires
        dir.wf(),
    ensures
        r is NotFound <==> !dir.auth_ok(name@, password@),
        r matches AuthOutcome::Accept(ip) ==> dir.auth_ok(name@, password@) && dir.name_has_ip(
            name@,
            ip,
        ),
{
    if dir.authenticate(name, password) {
        match dir.assigned_ip_of(name) {
            Some(ip) => AuthOutcome::Accept(ip),
            None => {
                proof {
                    let w = choose|w: int|
                        0 <= w < dir@.len() && dir@[w].name@ == name@ && crate::auth::phc_verifies(
                            password@,
                            dir@[w].token@,
                        );
                    assert(dir.has_name(name@));
                }
                AuthOutcome::NotFound
            },
        }
    } else {
        AuthOutcome::NotFound
    }
}

} // verus!
