use ldap_proxy::cache::{
    cache_get_local, cache_set, cache_set_if_changed, CacheBackend, CacheGetStep,
};
use ldap_proxy::keys::{CachedValue, SearchCacheKey};
use ldap_proxy::memcache::MemCache;
use ldap_proxy::policy::{authorize, BindDnMap, DnConfig, LdapFilterWrapper};
use ldap_proxy::proto::{
    BindCred, BindRequest, Control, DerefAliases, ExtendedRequest, Filter, LdapMsg, LdapOp,
    LdapResult, ResultCode, SearchRequest, SearchResultEntry, SearchScope,
};
use ldap_proxy::session::{
    bind_operror, dispatch, on_bind_outcome, on_search_failure, search_replies, Dispatch,
    SessionState,
};
use ldap_proxy::tiered::TieredCache;
use ldap_proxy::upstream::{
    classify_bind_response, search_step, BasicLdapClient, ConnectPlan, ConnectStep, LdapError,
    ReadEvent, SearchStep,
};

fn search(base: &str, scope: SearchScope, filter: Filter) -> SearchRequest {
    SearchRequest {
        base: base.to_string(),
        scope,
        aliases: DerefAliases::Never,
        sizelimit: 0,
        timelimit: 0,
        typesonly: false,
        filter,
        attrs: Vec::new(),
    }
}

fn success_result() -> LdapResult {
    LdapResult {
        code: ResultCode::Success,
        matcheddn: "".to_string(),
        message: "".to_string(),
        referral: Vec::new(),
    }
}

fn entry(dn: &str) -> (SearchResultEntry, Vec<Control>) {
    (SearchResultEntry { dn: dn.to_string(), attributes: Vec::new() }, Vec::new())
}

fn cached(entries: Vec<(SearchResultEntry, Vec<Control>)>) -> CachedValue {
    CachedValue { cached_at: 7, entries, result: success_result(), ctrl: Vec::new() }
}

fn key_for(dn: &str, base: &str) -> SearchCacheKey {
    SearchCacheKey {
        bind_dn: dn.to_string(),
        search: search(base, SearchScope::Subtree, Filter::Present("objectClass".to_string())),
        ctrl: Vec::new(),
    }
}

fn john_policy() -> DnConfig {
    DnConfig {
        allowed_queries: vec![(
            "dc=example".to_string(),
            SearchScope::Subtree,
            LdapFilterWrapper { inner: Filter::Present("objectClass".to_string()) },
        )],
    }
}

// --- connection build -------------------------------------------------------

#[test]
fn test_build_tries_every_address_before_giving_up() {
    let mut plan = ConnectPlan::new(3);
    assert_eq!(plan.next_attempt(), ConnectStep::Try(0));
    assert_eq!(plan.next_attempt(), ConnectStep::Try(1));
    assert_eq!(plan.next_attempt(), ConnectStep::Try(2));
    assert_eq!(plan.next_attempt(), ConnectStep::GiveUp);
}

#[test]
fn test_build_stops_at_first_success() {
    let mut plan = ConnectPlan::new(3);
    assert_eq!(plan.next_attempt(), ConnectStep::Try(0));
    // first address connected: the caller stops asking
}

// --- msgid correlation -------------------------------------------------------

#[test]
fn test_bind_response_correlated() {
    let mut client = BasicLdapClient::new();
    let msg = client.make_bind_msg(
        BindRequest { dn: "".to_string(), cred: BindCred::Simple("".to_string()) },
        Vec::new(),
    );
    assert_eq!(msg.msgid, 1);

    let resp = ldap_proxy::proto::BindResponse { res: success_result(), saslcreds: None };
    let ok = classify_bind_response(
        msg.msgid,
        ReadEvent::Msg(LdapMsg { msgid: 1, op: LdapOp::BindResponse(resp), ctrl: Vec::new() }),
    );
    assert!(ok.is_ok());
}

#[test]
fn test_bind_response_msgid_mismatch() {
    let resp = ldap_proxy::proto::BindResponse { res: success_result(), saslcreds: None };
    let r = classify_bind_response(
        1,
        ReadEvent::Msg(LdapMsg { msgid: 2, op: LdapOp::BindResponse(resp), ctrl: Vec::new() }),
    );
    assert!(matches!(r, Err(LdapError::InvalidProtocolState)));
}

#[test]
fn test_bind_response_transport_failures() {
    assert!(matches!(classify_bind_response(1, ReadEvent::Closed), Err(LdapError::Transport)));
    assert!(matches!(
        classify_bind_response(1, ReadEvent::DecodeFailed),
        Err(LdapError::Transport)
    ));
}

#[test]
fn test_search_step_accumulates_in_order() {
    let mut acc = Vec::new();
    let r1 = search_step(
        5,
        &mut acc,
        ReadEvent::Msg(LdapMsg {
            msgid: 5,
            op: LdapOp::SearchResultEntry(entry("cn=e1").0),
            ctrl: Vec::new(),
        }),
    );
    assert!(matches!(r1, SearchStep::Continue));
    let r2 = search_step(
        5,
        &mut acc,
        ReadEvent::Msg(LdapMsg {
            msgid: 5,
            op: LdapOp::SearchResultEntry(entry("cn=e2").0),
            ctrl: Vec::new(),
        }),
    );
    assert!(matches!(r2, SearchStep::Continue));
    let done = search_step(
        5,
        &mut acc,
        ReadEvent::Msg(LdapMsg {
            msgid: 5,
            op: LdapOp::SearchResultDone(success_result()),
            ctrl: Vec::new(),
        }),
    );
    assert!(matches!(done, SearchStep::Done(_, _)));
    assert_eq!(acc.len(), 2);
    assert_eq!(acc[0].0.dn, "cn=e1");
    assert_eq!(acc[1].0.dn, "cn=e2");
}

#[test]
fn test_search_step_msgid_mismatch_fails() {
    let mut acc = Vec::new();
    let r = search_step(
        5,
        &mut acc,
        ReadEvent::Msg(LdapMsg {
            msgid: 6,
            op: LdapOp::SearchResultEntry(entry("cn=e1").0),
            ctrl: Vec::new(),
        }),
    );
    assert!(matches!(r, SearchStep::Fail(LdapError::InvalidProtocolState)));
    assert!(acc.is_empty());
}

// --- session scenarios -------------------------------------------------------

#[test]
fn test_anonymous_bind_accepted() {
    let dirs = BindDnMap {
        entries: vec![("".to_string(), DnConfig { allowed_queries: Vec::new() })],
    };
    let state = SessionState::Unbound;
    let msg = LdapMsg {
        msgid: 1,
        op: LdapOp::BindRequest(BindRequest {
            dn: "".to_string(),
            cred: BindCred::Simple("".to_string()),
        }),
        ctrl: Vec::new(),
    };
    let d = dispatch(&state, ReadEvent::Msg(msg), &dirs, false);
    let (msgid, dn, policy) = match d {
        Dispatch::StartBind { msgid, dn, policy, .. } => (msgid, dn, policy),
        _ => panic!("anonymous bind should start an upstream bind"),
    };
    let resp = ldap_proxy::proto::BindResponse { res: success_result(), saslcreds: None };
    let step = on_bind_outcome(msgid, dn, policy, Ok((resp, Vec::new())));
    assert!(!step.close);
    match step.reply.op {
        LdapOp::BindResponse(ref br) => assert_eq!(br.res.code, ResultCode::Success),
        _ => panic!("bind must be answered with a bind response"),
    }
    match step.next {
        Some(SessionState::Authenticated { dn, .. }) => assert_eq!(dn, ""),
        _ => panic!("successful bind must authenticate"),
    }
}

#[test]
fn test_unknown_dn_rejected() {
    let dirs = BindDnMap { entries: Vec::new() };
    let msg = LdapMsg {
        msgid: 4,
        op: LdapOp::BindRequest(BindRequest {
            dn: "cn=nobody".to_string(),
            cred: BindCred::Simple("x".to_string()),
        }),
        ctrl: Vec::new(),
    };
    let d = dispatch(&SessionState::Unbound, ReadEvent::Msg(msg), &dirs, false);
    match d {
        Dispatch::RejectBind { reply } => {
            assert_eq!(reply.msgid, 4);
            match reply.op {
                LdapOp::BindResponse(br) => {
                    assert_eq!(br.res.code, ResultCode::OperationsError);
                    assert_eq!(br.res.message, "unable to bind");
                }
                _ => panic!("refusal must be a bind response"),
            }
        }
        _ => panic!("unknown identity must be rejected"),
    }
}

#[test]
fn test_failed_upstream_bind_closes() {
    let step = on_bind_outcome(
        9,
        "cn=x".to_string(),
        DnConfig { allowed_queries: Vec::new() },
        Err(LdapError::ConnectError),
    );
    assert!(step.close);
    assert!(step.next.is_none());
    assert_eq!(step.reply.msgid, 9);
}

#[test]
fn test_unauthorized_search_silently_closed() {
    let state = SessionState::Authenticated {
        dn: "cn=John Cena,dc=dooo,dc=do,dc=do,dc=doooooo".to_string(),
        policy: john_policy(),
    };
    let dirs = BindDnMap { entries: Vec::new() };
    let msg = LdapMsg {
        msgid: 2,
        op: LdapOp::SearchRequest(search(
            "dc=other",
            SearchScope::Subtree,
            Filter::Present("cn".to_string()),
        )),
        ctrl: Vec::new(),
    };
    let d = dispatch(&state, ReadEvent::Msg(msg), &dirs, false);
    match d {
        Dispatch::RefuseSearch { reply } => {
            assert_eq!(reply.msgid, 2);
            match reply.op {
                LdapOp::SearchResultDone(res) => {
                    assert_eq!(res.code, ResultCode::Success);
                    assert_eq!(res.matcheddn, "");
                    assert_eq!(res.message, "");
                    assert!(res.referral.is_empty());
                }
                _ => panic!("refusal must be a result-done"),
            }
        }
        _ => panic!("unauthorized search must be refused, never forwarded"),
    }
}

#[test]
fn test_authorized_search_forwarded() {
    let state = SessionState::Authenticated {
        dn: "cn=John Cena,dc=dooo,dc=do,dc=do,dc=doooooo".to_string(),
        policy: john_policy(),
    };
    let dirs = BindDnMap { entries: Vec::new() };
    let msg = LdapMsg {
        msgid: 2,
        op: LdapOp::SearchRequest(search(
            "dc=example",
            SearchScope::Subtree,
            Filter::Present("objectClass".to_string()),
        )),
        ctrl: Vec::new(),
    };
    let d = dispatch(&state, ReadEvent::Msg(msg), &dirs, false);
    match d {
        Dispatch::StartSearch { msgid, key } => {
            assert_eq!(msgid, 2);
            assert_eq!(key.bind_dn, "cn=John Cena,dc=dooo,dc=do,dc=do,dc=doooooo");
            assert_eq!(key.search.base, "dc=example");
        }
        _ => panic!("authorized search must be forwarded"),
    }
}

#[test]
fn test_empty_policy_allows_everything() {
    let policy = DnConfig { allowed_queries: Vec::new() };
    assert!(authorize(
        &policy,
        &search("dc=anything", SearchScope::Base, Filter::Present("cn".to_string()))
    ));
}

#[test]
fn test_whoami() {
    let state = SessionState::Authenticated {
        dn: "cn=Administrator".to_string(),
        policy: DnConfig { allowed_queries: Vec::new() },
    };
    let dirs = BindDnMap { entries: Vec::new() };
    let msg = LdapMsg {
        msgid: 3,
        op: LdapOp::ExtendedRequest(ExtendedRequest {
            name: "1.3.6.1.4.1.4203.1.11.3".to_string(),
            value: None,
        }),
        ctrl: Vec::new(),
    };
    let d = dispatch(&state, ReadEvent::Msg(msg), &dirs, false);
    match d {
        Dispatch::Reply { reply } => {
            assert_eq!(reply.msgid, 3);
            match reply.op {
                LdapOp::ExtendedResponse(resp) => {
                    assert_eq!(resp.res.code, ResultCode::Success);
                    assert_eq!(resp.value, Some(b"cn=Administrator".to_vec()));
                }
                _ => panic!("must be an extended response"),
            }
        }
        _ => panic!("who-am-i must be answered locally"),
    }
}

#[test]
fn test_unknown_extended_op() {
    let state = SessionState::Authenticated {
        dn: "cn=Administrator".to_string(),
        policy: DnConfig { allowed_queries: Vec::new() },
    };
    let dirs = BindDnMap { entries: Vec::new() };
    let msg = LdapMsg {
        msgid: 3,
        op: LdapOp::ExtendedRequest(ExtendedRequest {
            name: "1.2.3.4".to_string(),
            value: None,
        }),
        ctrl: Vec::new(),
    };
    match dispatch(&state, ReadEvent::Msg(msg), &dirs, false) {
        Dispatch::Reply { reply } => match reply.op {
            LdapOp::ExtendedResponse(resp) => {
                assert_eq!(resp.res.code, ResultCode::OperationsError);
                assert!(resp.value.is_none());
                assert!(resp.name.is_none());
            }
            _ => panic!("must be an extended response"),
        },
        _ => panic!("unknown extended operation still gets a reply"),
    }
}

#[test]
fn test_decode_failure_closes_without_reply() {
    let dirs = BindDnMap { entries: Vec::new() };
    assert!(matches!(
        dispatch(&SessionState::Unbound, ReadEvent::DecodeFailed, &dirs, false),
        Dispatch::Close
    ));
    assert!(matches!(
        dispatch(&SessionState::Unbound, ReadEvent::Closed, &dirs, false),
        Dispatch::Close
    ));
}

#[test]
fn test_unbind_closes_cleanly() {
    let dirs = BindDnMap { entries: Vec::new() };
    let msg = LdapMsg { msgid: 8, op: LdapOp::UnbindRequest, ctrl: Vec::new() };
    assert!(matches!(
        dispatch(&SessionState::Unbound, ReadEvent::Msg(msg), &dirs, false),
        Dispatch::CloseClean
    ));
}

#[test]
fn test_other_op_closes() {
    let dirs = BindDnMap { entries: Vec::new() };
    let msg = LdapMsg { msgid: 8, op: LdapOp::Other, ctrl: Vec::new() };
    assert!(matches!(
        dispatch(&SessionState::Unbound, ReadEvent::Msg(msg), &dirs, false),
        Dispatch::Close
    ));
}

#[test]
fn test_bind_operror_shape() {
    let msg = bind_operror(11, "unable to bind");
    assert_eq!(msg.msgid, 11);
    assert!(msg.ctrl.is_empty());
    match msg.op {
        LdapOp::BindResponse(br) => {
            assert_eq!(br.res.code, ResultCode::OperationsError);
            assert_eq!(br.res.message, "unable to bind");
        }
        _ => panic!("must be a bind response"),
    }
}

// --- cache scenarios ---------------------------------------------------------

#[test]
fn test_cache_hit_on_upstream_down() {
    let mut tc = TieredCache::new(1000);
    let key = key_for("cn=admin", "dc=example");
    tc.set(key.clone(), cached(vec![entry("cn=e1"), entry("cn=e2")]));

    // upstream severed; the same search is asked again
    let hit = tc.get(&key_for("cn=admin", "dc=example"));
    let (msgs, close) = on_search_failure(2, hit);
    assert!(!close);
    assert_eq!(msgs.len(), 3);
    match &msgs[0].op {
        LdapOp::SearchResultEntry(e) => assert_eq!(e.dn, "cn=e1"),
        _ => panic!("first message must replay the first entry"),
    }
    match &msgs[1].op {
        LdapOp::SearchResultEntry(e) => assert_eq!(e.dn, "cn=e2"),
        _ => panic!("second message must replay the second entry"),
    }
    assert!(matches!(msgs[2].op, LdapOp::SearchResultDone(_)));
    assert_eq!(msgs[0].msgid, 2);
    assert_eq!(msgs[2].msgid, 2);
}

#[test]
fn test_cache_miss_on_upstream_down() {
    let tc = TieredCache::new(1000);
    let miss = tc.get(&key_for("cn=admin", "dc=another"));
    let (msgs, close) = on_search_failure(2, miss);
    assert!(close);
    assert_eq!(msgs.len(), 1);
    match &msgs[0].op {
        LdapOp::SearchResultDone(res) => {
            assert_eq!(res.code, ResultCode::Unavailable);
            assert_eq!(res.message, "Backend LDAP server unavailable and no cached data");
        }
        _ => panic!("a miss with the upstream down must answer unavailable"),
    }
}

#[test]
fn test_l1_eviction_at_capacity() {
    let mut tc = TieredCache::new(2);
    tc.set(key_for("a", "dc=1"), cached(Vec::new()));
    tc.set(key_for("a", "dc=2"), cached(Vec::new()));
    tc.set(key_for("a", "dc=3"), cached(Vec::new()));
    // exactly the oldest record was evicted
    assert!(tc.get(&key_for("a", "dc=1")).is_none());
    assert!(tc.get(&key_for("a", "dc=2")).is_some());
    assert!(tc.get(&key_for("a", "dc=3")).is_some());
}

#[test]
fn test_tiered_write_skipped_when_unchanged() {
    let mut backend = CacheBackend::Redis(TieredCache::new(1000));
    let key = key_for("cn=admin", "dc=example");
    let value = cached(vec![entry("cn=e1")]);

    // first run: nothing cached yet, the remote store is owed a write
    let first = cache_set_if_changed(&mut backend, &key, value.clone(), "ldap_proxy:", None, &None);
    assert!(first.is_some());

    // second run of the same stable search: the cascade finds the record
    let current = match cache_get_local(&mut backend, &key, "ldap_proxy:") {
        CacheGetStep::Done(v) => v,
        CacheGetStep::NeedRemote(_) => panic!("the record must already sit in the local layer"),
    };
    let again = CachedValue { cached_at: 99, ..value.clone() };
    let second = cache_set_if_changed(&mut backend, &key, again, "ldap_proxy:", None, &current);
    assert!(second.is_none(), "an unchanged record owes no remote write");
}

#[test]
fn test_tiered_write_performed_when_changed() {
    let mut backend = CacheBackend::Redis(TieredCache::new(1000));
    let key = key_for("cn=admin", "dc=example");
    cache_set(&mut backend, &key, cached(vec![entry("cn=e1")]), "ldap_proxy:", Some(60));

    let current = match cache_get_local(&mut backend, &key, "ldap_proxy:") {
        CacheGetStep::Done(v) => v,
        CacheGetStep::NeedRemote(_) => panic!("the record must already sit in the local layer"),
    };
    let changed = cached(vec![entry("cn=e1"), entry("cn=e2")]);
    let w = cache_set_if_changed(&mut backend, &key, changed, "ldap_proxy:", Some(60), &current);
    let w = w.expect("a changed record owes a remote write");
    assert_eq!(w.ttl_seconds, Some(60));
    assert_eq!(w.redis_key, key.to_redis_key("ldap_proxy:"));
}

#[test]
fn test_tiered_remote_key_named_on_miss() {
    let mut backend = CacheBackend::Redis(TieredCache::new(1000));
    let key = key_for("cn=admin", "dc=example");
    match cache_get_local(&mut backend, &key, "ldap_proxy:") {
        CacheGetStep::NeedRemote(s) => assert_eq!(s, key.to_redis_key("ldap_proxy:")),
        CacheGetStep::Done(_) => panic!("an empty local layer must ask for the remote fetch"),
    }
}

#[test]
fn test_memory_backend_serves_cached_search() {
    let mem = MemCache::new(1048576).expect("cache construction");
    let mut backend = CacheBackend::Memory(mem);
    let key = key_for("cn=admin", "dc=example");
    cache_set(&mut backend, &key, cached(vec![entry("cn=e1")]), "ldap_proxy:", None);
    match cache_get_local(&mut backend, &key, "ldap_proxy:") {
        CacheGetStep::Done(Some(v)) => {
            assert_eq!(v.entries.len(), 1);
            assert_eq!(v.entries[0].0.dn, "cn=e1");
        }
        CacheGetStep::Done(None) => panic!("the record should be served back"),
        CacheGetStep::NeedRemote(_) => panic!("the in-process backend never needs a remote fetch"),
    }
}

#[test]
fn test_search_replies_order_and_msgid() {
    let entries = vec![entry("cn=e1"), entry("cn=e2"), entry("cn=e3")];
    let msgs = search_replies(7, &entries, success_result(), Vec::new());
    assert_eq!(msgs.len(), 4);
    for (i, m) in msgs.iter().take(3).enumerate() {
        assert_eq!(m.msgid, 7);
        match &m.op {
            LdapOp::SearchResultEntry(e) => assert_eq!(e.dn, format!("cn=e{}", i + 1)),
            _ => panic!("entries come first, in order"),
        }
    }
    assert_eq!(msgs[3].msgid, 7);
    assert!(matches!(msgs[3].op, LdapOp::SearchResultDone(_)));
}

#[test]
fn test_binddn_map_lookup() {
    let dirs = BindDnMap {
        entries: vec![
            ("".to_string(), DnConfig { allowed_queries: Vec::new() }),
            ("cn=John Cena,dc=dooo,dc=do,dc=do,dc=doooooo".to_string(), john_policy()),
            ("cn=Administrator".to_string(), DnConfig { allowed_queries: Vec::new() }),
        ],
    };
    assert!(dirs.lookup(&"".to_string()).is_some());
    let john = dirs
        .lookup(&"cn=John Cena,dc=dooo,dc=do,dc=do,dc=doooooo".to_string())
        .expect("the identity is configured");
    assert_eq!(john.allowed_queries.len(), 1);
    let admin = dirs.lookup(&"cn=Administrator".to_string()).expect("the identity is configured");
    assert_eq!(admin.allowed_queries.len(), 0);
    assert!(dirs.lookup(&"cn=nobody".to_string()).is_none());
}

#[test]
fn test_allow_all_bind_dns_synthesizes_policy() {
    let dirs = BindDnMap { entries: Vec::new() };
    let msg = LdapMsg {
        msgid: 5,
        op: LdapOp::BindRequest(BindRequest {
            dn: "cn=whoever".to_string(),
            cred: BindCred::Simple("pw".to_string()),
        }),
        ctrl: Vec::new(),
    };
    match dispatch(&SessionState::Unbound, ReadEvent::Msg(msg), &dirs, true) {
        Dispatch::StartBind { dn, policy, .. } => {
            assert_eq!(dn, "cn=whoever");
            assert!(policy.allowed_queries.is_empty());
        }
        _ => panic!("with every identity allowed, any bind goes upstream"),
    }
}
