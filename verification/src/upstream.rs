//! The upstream client's protocol core.
//!
//! The connection itself — TCP, TLS, framing — is I/O and lives with
//! the caller. What is decided here, verified: which address to try
//! next when building a connection and when to give up; the message id
//! handed to each outbound request; and how each incoming frame is
//! classified against the id of the request it must answer. Every
//! accepted response carries the message id of its originating request;
//! anything else fails the exchange.

use vstd::prelude::*;
use crate::proto::{
    BindRequest, BindResponse, Control, LdapMsg, LdapOp, LdapResult, SearchRequest,
    SearchResultEntry,
};

verus! {

/// How an upstream or downstream exchange fails.
#[derive(Debug, Clone, Copy, PartialEq, Eq, Structural)]
pub enum LdapError {
    TlsError,
    ConnectError,
    Transport,
    InvalidProtocolState,
}

/// One observation on a framed stream: a decoded message, a frame that
/// failed to decode (an oversized one included), or a closed stream.
pub enum ReadEvent {
    Msg(LdapMsg),
    DecodeFailed,
    Closed,
}

// ---------------------------------------------------------------------------
// Building a connection: try each address in order.
// ---------------------------------------------------------------------------

/// What to do next while connecting: try the address at this index, or
/// give up with `ConnectError`.
#[derive(Debug, Clone, Copy, PartialEq, Eq, Structural)]
pub enum ConnectStep {
    Try(usize),
    GiveUp,
}

/// Walks the address list during connection build. Every address is
/// handed out exactly once, in order; only once all of them have been
/// tried and have failed does the plan give up — which is when the
/// build returns `ConnectError`.
pub struct ConnectPlan {
    pub n_addrs: usize,
    pub next: usize,
}

impl ConnectPlan {
    pub fn new(n_addrs: usize) -> (r: Self)
        ensures
            r.n_addrs == n_addrs,
            r.next == 0,
    {
        ConnectPlan { n_addrs, next: 0 }
    }

    /// The next address to try after the previous ones failed, or
    /// `GiveUp` exactly when every address has been tried.
    pub fn next_attempt(&mut self) -> (r: ConnectStep)
        ensures
            final(self).n_addrs == old(self).n_addrs,
            old(self).next < old(self).n_addrs ==> r == ConnectStep::Try(old(self).next)
                && final(self).next == old(self).next + 1,
            old(self).next >= old(self).n_addrs ==> r == ConnectStep::GiveUp && final(self).next
                == old(self).next,
    {
        if self.next < self.n_addrs {
            let i = self.next;
            self.next = self.next + 1;
            ConnectStep::Try(i)
        } else {
            ConnectStep::GiveUp
        }
    }
}

/// The build gives up only with every address tried. A plan reachable
/// from `new` has handed out exactly the indices below `next`, one
/// each, in order, and `next` never passes the list's length; when an
/// attempt answers `GiveUp` — which `next_attempt` does exactly for
/// `next >= n_addrs` — all `n_addrs` addresses have been handed out
/// before it.
pub proof fn lemma_every_address_tried(p: ConnectPlan, r: ConnectStep)
    requires
        p.next <= p.n_addrs,
        p.next < p.n_addrs ==> r == ConnectStep::Try(p.next),
        p.next >= p.n_addrs ==> r == ConnectStep::GiveUp,
    ensures
        r == ConnectStep::GiveUp ==> p.next == p.n_addrs,
{
}

// ---------------------------------------------------------------------------
// The client core: message ids and response classification.
// ---------------------------------------------------------------------------

/// The sequential state of one upstream client: a monotonically
/// increasing message-id counter, incremented before each outbound
/// request.
pub struct BasicLdapClient {
    pub msg_counter: i32,
}

impl BasicLdapClient {
    pub fn new() -> (r: Self)
        ensures
            r.msg_counter == 0,
    {
        BasicLdapClient { msg_counter: 0 }
    }

    /// A fresh message id for the next request.
    pub fn next_msgid(&mut self) -> (r: i32)
        requires
            old(self).msg_counter < i32::MAX,
        ensures
            final(self).msg_counter == old(self).msg_counter + 1,
            r == final(self).msg_counter,
    {
        self.msg_counter = self.msg_counter + 1;
        self.msg_counter
    }

    /// The bind request to send upstream: the client's request and
    /// controls verbatim, under a fresh message id.
    pub fn make_bind_msg(&mut self, lbr: BindRequest, ctrl: Vec<Control>) -> (r: LdapMsg)
        requires
            old(self).msg_counter < i32::MAX,
        ensures
            final(self).msg_counter == old(self).msg_counter + 1,
            r.msgid == final(self).msg_counter,
            r.op == LdapOp::BindRequest(lbr),
            r.ctrl == ctrl,
    {
        let msgid = self.next_msgid();
        LdapMsg { msgid, op: LdapOp::BindRequest(lbr), ctrl }
    }

    /// The search request to send upstream, under a fresh message id.
    pub fn make_search_msg(&mut self, sr: SearchRequest, ctrl: Vec<Control>) -> (r: LdapMsg)
        requires
            old(self).msg_counter < i32::MAX,
        ensures
            final(self).msg_counter == old(self).msg_counter + 1,
            r.msgid == final(self).msg_counter,
            r.op == LdapOp::SearchRequest(sr),
            r.ctrl == ctrl,
    {
        let msgid = self.next_msgid();
        LdapMsg { msgid, op: LdapOp::SearchRequest(sr), ctrl }
    }
}

/// Classifies the one frame that must answer a bind. Exactly a bind
/// response carrying the request's message id is accepted, and it is
/// handed back intact, result code whatever it is; a response under any
/// other id or of any other shape is a protocol failure, and a decode
/// failure or closed stream a transport failure.
pub fn classify_bind_response(expected: i32, ev: ReadEvent) -> (r: Result<
    (BindResponse, Vec<Control>),
    LdapError,
>)
    ensures
        (match ev {
            ReadEvent::Msg(m) => match m.op {
                LdapOp::BindResponse(resp) => if m.msgid == expected {
                    r == Result::<(BindResponse, Vec<Control>), LdapError>::Ok((resp, m.ctrl))
                } else {
                    r == Result::<(BindResponse, Vec<Control>), LdapError>::Err(
                        LdapError::InvalidProtocolState,
                    )
                },
                _ => r == Result::<(BindResponse, Vec<Control>), LdapError>::Err(
                    LdapError::InvalidProtocolState,
                ),
            },
            ReadEvent::DecodeFailed => r == Result::<(BindResponse, Vec<Control>), LdapError>::Err(
                LdapError::Transport,
            ),
            ReadEvent::Closed => r == Result::<(BindResponse, Vec<Control>), LdapError>::Err(
                LdapError::Transport,
            ),
        }),
{
    match ev {
        ReadEvent::Msg(m) => match m.op {
            LdapOp::BindResponse(resp) => if m.msgid == expected {
                Result::Ok((resp, m.ctrl))
            } else {
                Result::Err(LdapError::InvalidProtocolState)
            },
            _ => Result::Err(LdapError::InvalidProtocolState),
        },
        ReadEvent::DecodeFailed => Result::Err(LdapError::Transport),
        ReadEvent::Closed => Result::Err(LdapError::Transport),
    }
}

/// What one frame of a search exchange led to.
pub enum SearchStep {
    /// An entry under the right id was accumulated; keep reading.
    Continue,
    /// The terminator under the right id: the overall result and the
    /// response controls.
    Done(LdapResult, Vec<Control>),
    /// The exchange failed.
    Fail(LdapError),
}

/// Folds one incoming frame into a search in progress. An entry under
/// the request's message id is appended, in arrival order, to the
/// accumulated list; the result-done terminator under that id finishes
/// the search; any frame under another id or of another shape fails it
/// with a protocol error, and a decode failure or closed stream with a
/// transport error. Nothing but a correctly correlated entry ever
/// changes the accumulated list.
pub fn search_step(
    expected: i32,
    acc: &mut Vec<(SearchResultEntry, Vec<Control>)>,
    ev: ReadEvent,
) -> (r: SearchStep)
    ensures
        (match ev {
            ReadEvent::Msg(m) => match m.op {
                LdapOp::SearchResultEntry(entry) => if m.msgid == expected {
                    r == SearchStep::Continue && final(acc)@ == old(acc)@.push((entry, m.ctrl))
                } else {
                    r == SearchStep::Fail(LdapError::InvalidProtocolState) && final(acc)@ == old(
                        acc,
                    )@
                },
                LdapOp::SearchResultDone(res) => if m.msgid == expected {
                    r == SearchStep::Done(res, m.ctrl) && final(acc)@ == old(acc)@
                } else {
                    r == SearchStep::Fail(LdapError::InvalidProtocolState) && final(acc)@ == old(
                        acc,
                    )@
                },
                _ => r == SearchStep::Fail(LdapError::InvalidProtocolState) && final(acc)@ == old(
                    acc,
                )@,
            },
            ReadEvent::DecodeFailed => r == SearchStep::Fail(LdapError::Transport) && final(acc)@
                == old(acc)@,
            ReadEvent::Closed => r == SearchStep::Fail(LdapError::Transport) && final(acc)@ == old(
                acc,
            )@,
        }),
{
    match ev {
        ReadEvent::Msg(m) => match m.op {
            LdapOp::SearchResultEntry(entry) => if m.msgid == expected {
                acc.push((entry, m.ctrl));
                SearchStep::Continue
            } else {
                SearchStep::Fail(LdapError::InvalidProtocolState)
            },
            LdapOp::SearchResultDone(res) => if m.msgid == expected {
                SearchStep::Done(res, m.ctrl)
            } else {
                SearchStep::Fail(LdapError::InvalidProtocolState)
            },
            _ => SearchStep::Fail(LdapError::InvalidProtocolState),
        },
        ReadEvent::DecodeFailed => SearchStep::Fail(LdapError::Transport),
        ReadEvent::Closed => SearchStep::Fail(LdapError::Transport),
    }
}

} // verus!
