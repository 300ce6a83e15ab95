//! The per-connection session state machine.
//!
//! A session is `Unbound` until the upstream accepts a bind, then
//! `Authenticated` with the bound identity and its policy. Each
//! decoded downstream frame is dispatched here: the dispatch says what
//! to reply, whether to forward something upstream, and whether the
//! session ends. The caller performs the I/O between steps — it builds
//! the upstream connection, sends the frames, reads the cache — and
//! feeds every outcome back in.
//!
//! A search is forwarded only if the bound identity's policy permits
//! its (base, scope, filter) triple; an unauthorized search is answered
//! with one empty successful result-done and the session closes. A
//! frame that fails to decode — an oversized one included — closes the
//! session with no reply at all.

use vstd::prelude::*;
use vstd::slice::slice_to_vec;
use crate::keys::{CachedValue, SearchCacheKey};
use crate::policy::{BindDnMap, DnConfig, authorized, dn_config_equiv, map_lookup};
use crate::proto::{
    BindRequest, BindResponse, Control, LdapMsg, LdapOp, LdapResult, ExtendedResponse,
    ResultCode, entry_equiv, ctrls_equiv,
};
use crate::upstream::{LdapError, ReadEvent};

verus! {

/// The authentication state of one downstream connection.
pub enum SessionState {
    Unbound,
    Authenticated { dn: String, policy: DnConfig },
}

/// An empty success result record.
fn empty_result(code: ResultCode) -> (r: LdapResult)
    ensures
        r.code == code,
        r.matcheddn@.len() == 0,
        r.message@.len() == 0,
        r.referral@.len() == 0,
{
    LdapResult {
        code,
        matcheddn: String::new(),
        message: String::new(),
        referral: Vec::new(),
    }
}

/// The bind refusal the proxy sends when an identity is unknown or the
/// upstream cannot be reached: an `OperationsError` bind response
/// carrying `msg`, under the request's message id.
pub fn bind_operror(msgid: i32, msg: &str) -> (r: LdapMsg)
    ensures
        r.msgid == msgid,
        r.ctrl@.len() == 0,
        r.op matches LdapOp::BindResponse(br) && br.res.code == ResultCode::OperationsError
            && br.res.matcheddn@.len() == 0 && br.res.message@ == msg@ && br.res.referral@.len()
            == 0 && br.saslcreds is None,
{
    LdapMsg {
        msgid,
        op: LdapOp::BindResponse(
            BindResponse {
                res: LdapResult {
                    code: ResultCode::OperationsError,
                    matcheddn: String::new(),
                    message: msg.to_owned(),
                    referral: Vec::new(),
                },
                saslcreds: Option::None,
            },
        ),
        ctrl: Vec::new(),
    }
}

/// What one downstream frame leads to.
pub enum Dispatch {
    /// A bind for a recognized (or universally allowed) identity:
    /// build an upstream connection and forward the request verbatim,
    /// then feed the outcome to `on_bind_outcome`.
    StartBind { msgid: i32, dn: String, policy: DnConfig, request: BindRequest, ctrl: Vec<Control> },
    /// A bind for an unknown identity: send the refusal and keep the
    /// session as it was.
    RejectBind { reply: LdapMsg },
    /// An unbind: close cleanly.
    CloseClean,
    /// An authorized search by an authenticated session: forward
    /// `key.search` with `key.ctrl` upstream; `key` identifies the
    /// search in the cache.
    StartSearch { msgid: i32, key: SearchCacheKey },
    /// An unauthorized search: send the one deliberate empty success
    /// and close.
    RefuseSearch { reply: LdapMsg },
    /// An extended request was answered locally: send the reply and
    /// continue.
    Reply { reply: LdapMsg },
    /// Anything else — an operation the proxy does not serve, a frame
    /// out of place, a decode failure or a closed stream: close, with
    /// no reply.
    Close,
}

/// The Who-Am-I extended operation.
pub open spec fn whoami_oid() -> Seq<char> {
    "1.3.6.1.4.1.4203.1.11.3"@
}

/// Dispatches one downstream read. This is the session's transition
/// function; every rule of the table below is stated in the contract.
///
/// - A bind request looks the identity up: recognized, or anything
///   when `allow_all` is set, starts an upstream bind under the
///   identity's policy (an empty one when synthesized); otherwise the
///   session answers `OperationsError` and continues unchanged.
/// - An unbind closes cleanly, whatever the state.
/// - A search by an authenticated session is forwarded exactly when
///   the policy authorizes it, under the cache key made of the bound
///   identity, the request and its controls; an unauthorized search is
///   answered with one empty success and the session closes. No
///   upstream search is ever started for an unauthorized triple.
/// - An extended request by an authenticated session is answered
///   locally: Who-Am-I with the bound identity as its value, anything
///   else with an empty `OperationsError` response.
/// - Everything else — other operations, search or extended while
///   unbound, an undecodable frame, a closed stream — closes the
///   session without a reply.
#[verifier::rlimit(30)]
pub fn dispatch(state: &SessionState, ev: ReadEvent, dirs: &BindDnMap, allow_all: bool) -> (r:
    Dispatch)
    ensures
        (match ev {
            ReadEvent::Msg(m) => match m.op {
                LdapOp::BindRequest(lbr) => {
                    if map_lookup(dirs.entries@, lbr.dn@) is Some {
                        &&& r matches Dispatch::StartBind { msgid, dn, policy, request, ctrl }
                        &&& msgid == m.msgid
                        &&& dn@ == lbr.dn@
                        &&& dn_config_equiv(policy, map_lookup(dirs.entries@, lbr.dn@)->Some_0)
                        &&& request == lbr
                        &&& ctrl == m.ctrl
                    } else if allow_all {
                        &&& r matches Dispatch::StartBind { msgid, dn, policy, request, ctrl }
                        &&& msgid == m.msgid
                        &&& dn@ == lbr.dn@
                        &&& policy.allowed_queries@.len() == 0
                        &&& request == lbr
                        &&& ctrl == m.ctrl
                    } else {
                        &&& r matches Dispatch::RejectBind { reply }
                        &&& reply.msgid == m.msgid
                        &&& reply.op matches LdapOp::BindResponse(br)
                        &&& br.res.code == ResultCode::OperationsError
                        &&& br.res.message@ == "unable to bind"@
                    }
                },
                LdapOp::UnbindRequest => r is CloseClean,
                LdapOp::SearchRequest(sr) => match *state {
                    SessionState::Authenticated { dn, policy } => {
                        if authorized(policy, sr) {
                            &&& r matches Dispatch::StartSearch { msgid, key }
                            &&& msgid == m.msgid
                            &&& key.bind_dn@ == dn@
                            &&& key.search == sr
                            &&& key.ctrl == m.ctrl
                        } else {
                            &&& r matches Dispatch::RefuseSearch { reply }
                            &&& reply.msgid == m.msgid
                            &&& reply.op matches LdapOp::SearchResultDone(res)
                            &&& res.code == ResultCode::Success
                            &&& res.matcheddn@.len() == 0 && res.message@.len() == 0
                                && res.referral@.len() == 0
                            &&& reply.ctrl == m.ctrl
                        }
                    },
                    SessionState::Unbound => r is Close,
                },
                LdapOp::ExtendedRequest(ler) => match *state {
                    SessionState::Authenticated { dn, policy } => {
                        &&& r matches Dispatch::Reply { reply }
                        &&& reply.msgid == m.msgid
                        &&& reply.ctrl@.len() == 0
                        &&& reply.op matches LdapOp::ExtendedResponse(resp)
                        &&& (if ler.name@ == whoami_oid() {
                            &&& resp.res.code == ResultCode::Success
                            &&& resp.name is None
                            &&& resp.value matches Option::Some(v) && v@ == vstd::utf8::encode_utf8(
                                dn@,
                            )
                        } else {
                            &&& resp.res.code == ResultCode::OperationsError
                            &&& resp.name is None
                            &&& resp.value is None
                        })
                    },
                    SessionState::Unbound => r is Close,
                },
                _ => r is Close,
            },
            ReadEvent::DecodeFailed => r is Close,
            ReadEvent::Closed => r is Close,
        }),
{
    let m = match ev {
        ReadEvent::Msg(m) => m,
        ReadEvent::DecodeFailed => {
            return Dispatch::Close;
        },
        ReadEvent::Closed => {
            return Dispatch::Close;
        },
    };
    let LdapMsg { msgid, op, ctrl } = m;
    match op {
        LdapOp::BindRequest(lbr) => {
            match dirs.lookup(&lbr.dn) {
                Option::Some(policy) => {
                    let dn = lbr.dn.clone();
                    Dispatch::StartBind { msgid, dn, policy, request: lbr, ctrl }
                },
                Option::None => {
                    if allow_all {
                        let dn = lbr.dn.clone();
                        Dispatch::StartBind {
                            msgid,
                            dn,
                            policy: DnConfig::default(),
                            request: lbr,
                            ctrl,
                        }
                    } else {
                        Dispatch::RejectBind { reply: bind_operror(msgid, "unable to bind") }
                    }
                },
            }
        },
        LdapOp::UnbindRequest => Dispatch::CloseClean,
        LdapOp::SearchRequest(sr) => {
            match state {
                SessionState::Authenticated { dn, policy } => {
                    if crate::policy::authorize(policy, &sr) {
                        let key = SearchCacheKey { bind_dn: dn.clone(), search: sr, ctrl };
                        Dispatch::StartSearch { msgid, key }
                    } else {
                        Dispatch::RefuseSearch {
                            reply: LdapMsg {
                                msgid,
                                op: LdapOp::SearchResultDone(empty_result(ResultCode::Success)),
                                ctrl,
                            },
                        }
                    }
                },
                SessionState::Unbound => Dispatch::Close,
            }
        },
        LdapOp::ExtendedRequest(ler) => {
            match state {
                SessionState::Authenticated { dn, policy: _ } => {
                    let oid: &str = "1.3.6.1.4.1.4203.1.11.3";
                    let is_whoami = crate::proto::str_eq(&ler.name, &oid.to_owned());
                    let resp = if is_whoami {
                        ExtendedResponse {
                            res: empty_result(ResultCode::Success),
                            name: Option::None,
                            value: Option::Some(slice_to_vec(dn.as_str().as_bytes())),
                        }
                    } else {
                        ExtendedResponse {
                            res: empty_result(ResultCode::OperationsError),
                            name: Option::None,
                            value: Option::None,
                        }
                    };
                    Dispatch::Reply {
                        reply: LdapMsg {
                            msgid,
                            op: LdapOp::ExtendedResponse(resp),
                            ctrl: Vec::new(),
                        },
                    }
                },
                SessionState::Unbound => Dispatch::Close,
            }
        },
        _ => Dispatch::Close,
    }
}

/// What the session does after the upstream answered — or failed to
/// answer — a forwarded bind.
pub struct BindStep {
    /// The one reply owed downstream.
    pub reply: LdapMsg,
    /// The state the session continues in, where it continues.
    pub next: Option<SessionState>,
    /// Whether the session ends now.
    pub close: bool,
}

/// Applies the upstream's verdict on a forwarded bind. A response is
/// propagated downstream verbatim under the request's message id; only
/// the `Success` code authenticates the session, under the bound
/// identity and its policy, replacing any prior authenticated state.
/// A non-`Success` response leaves the session as it was. A failure to
/// build the connection or to complete the exchange is answered with
/// the bind refusal and ends the session.
pub fn on_bind_outcome(
    msgid: i32,
    dn: String,
    policy: DnConfig,
    outcome: Result<(BindResponse, Vec<Control>), LdapError>,
) -> (r: BindStep)
    ensures
        r.reply.msgid == msgid,
        (match outcome {
            Result::Ok((resp, ctrl)) => {
                &&& r.reply.op == LdapOp::BindResponse(resp)
                &&& r.reply.ctrl == ctrl
                &&& r.close == false
                &&& (if resp.res.code == ResultCode::Success {
                    &&& r.next matches Option::Some(SessionState::Authenticated {
                        dn: d,
                        policy: p,
                    })
                    &&& d == dn
                    &&& p == policy
                } else {
                    r.next is None
                })
            },
            Result::Err(e) => {
                &&& r.reply.op matches LdapOp::BindResponse(br)
                &&& br.res.code == ResultCode::OperationsError
                &&& br.res.message@ == "unable to bind"@
                &&& r.next is None
                &&& r.close == true
            },
        }),
{
    match outcome {
        Result::Ok((resp, ctrl)) => {
            let valid = resp.res.code == ResultCode::Success;
            let reply = LdapMsg { msgid, op: LdapOp::BindResponse(resp), ctrl };
            if valid {
                BindStep {
                    reply,
                    next: Option::Some(SessionState::Authenticated { dn, policy }),
                    close: false,
                }
            } else {
                BindStep { reply, next: Option::None, close: false }
            }
        },
        Result::Err(_) => BindStep {
            reply: bind_operror(msgid, "unable to bind"),
            next: Option::None,
            close: true,
        },
    }
}

/// The messages a completed search owes downstream: one
/// `SearchResultEntry` per entry, in the entries' own order, each under
/// the request's message id with its per-entry controls, then one
/// `SearchResultDone` carrying the overall result and the response
/// controls.
pub fn search_replies(
    msgid: i32,
    entries: &Vec<(crate::proto::SearchResultEntry, Vec<Control>)>,
    result: LdapResult,
    ctrl: Vec<Control>,
) -> (r: Vec<LdapMsg>)
    ensures
        r@.len() == entries@.len() + 1,
        forall|i: int|
            0 <= i < entries@.len() ==> {
                &&& (#[trigger] r@[i]).msgid == msgid
                &&& r@[i].op matches LdapOp::SearchResultEntry(e) && entry_equiv(e, entries@[i].0)
                &&& ctrls_equiv(r@[i].ctrl@, entries@[i].1@)
            },
        r@.last().msgid == msgid,
        r@.last().op == LdapOp::SearchResultDone(result),
        r@.last().ctrl == ctrl,
{
    let mut r: Vec<LdapMsg> = Vec::new();
    let mut i: usize = 0;
    while i < entries.len()
        invariant
            i <= entries.len(),
            r@.len() == i,
            forall|j: int|
                0 <= j < i ==> {
                    &&& (#[trigger] r@[j]).msgid == msgid
                    &&& r@[j].op matches LdapOp::SearchResultEntry(e) && entry_equiv(
                        e,
                        entries@[j].0,
                    )
                    &&& ctrls_equiv(r@[j].ctrl@, entries@[j].1@)
                },
        decreases entries.len() - i,
    {
        let entry = entries[i].0.clone();
        let ectrl = crate::proto::clone_ctrls(&entries[i].1);
        r.push(LdapMsg { msgid, op: LdapOp::SearchResultEntry(entry), ctrl: ectrl });
        i += 1;
    }
    r.push(LdapMsg { msgid, op: LdapOp::SearchResultDone(result), ctrl });
    r
}

/// What the session does when the upstream could not serve a search:
/// a cached record is replayed — its entries in their stored order,
/// then its stored result, all under the request's message id — and
/// the session continues; with nothing cached, the one `Unavailable`
/// result-done is sent and the session ends.
pub fn on_search_failure(msgid: i32, cached: Option<CachedValue>) -> (r: (Vec<LdapMsg>, bool))
    ensures
        (match cached {
            Option::Some(cv) => {
                &&& r.1 == false
                &&& r.0@.len() == cv.entries@.len() + 1
                &&& forall|i: int|
                    0 <= i < cv.entries@.len() ==> {
                        &&& (#[trigger] r.0@[i]).msgid == msgid
                        &&& r.0@[i].op matches LdapOp::SearchResultEntry(e) && entry_equiv(
                            e,
                            cv.entries@[i].0,
                        )
                        &&& ctrls_equiv(r.0@[i].ctrl@, cv.entries@[i].1@)
                    }
                &&& r.0@.last().msgid == msgid
                &&& r.0@.last().op == LdapOp::SearchResultDone(cv.result)
                &&& r.0@.last().ctrl == cv.ctrl
            },
            Option::None => {
                &&& r.1 == true
                &&& r.0@.len() == 1
                &&& r.0@[0].msgid == msgid
                &&& r.0@[0].op matches LdapOp::SearchResultDone(res)
                &&& res.code == ResultCode::Unavailable
                &&& res.message@ == "Backend LDAP server unavailable and no cached data"@
                &&& res.matcheddn@.len() == 0 && res.referral@.len() == 0
                &&& r.0@[0].ctrl@.len() == 0
            },
        }),
{
    match cached {
        Option::Some(cv) => {
            let msgs = search_replies(msgid, &cv.entries, cv.result, cv.ctrl);
            (msgs, false)
        },
        Option::None => {
            let res = LdapResult {
                code: ResultCode::Unavailable,
                matcheddn: String::new(),
                message: "Backend LDAP server unavailable and no cached data".to_owned(),
                referral: Vec::new(),
            };
            let mut msgs: Vec<LdapMsg> = Vec::new();
            msgs.push(LdapMsg { msgid, op: LdapOp::SearchResultDone(res), ctrl: Vec::new() });
            (msgs, true)
        },
    }
}

} // verus!
