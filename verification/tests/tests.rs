use ldap_proxy::keys::{CachedValue, SearchCacheKey, encode_key, CACHED_VALUE_BASE_SIZE};
use ldap_proxy::proto::{
    Control, DerefAliases, Filter, LdapResult, PartialAttribute, ResultCode, SearchRequest,
    SearchResultEntry, SearchScope,
};
use ldap_proxy::{default_fallback_cache_bytes, default_redis_key_prefix, AddrInfoSource, CacheConfig};

fn simple_search(base: &str, scope: SearchScope, filter: Filter) -> SearchRequest {
    SearchRequest {
        base: base.to_string(),
        scope,
        aliases: DerefAliases::Never,
        sizelimit: 0,
        timelimit: 0,
        typesonly: false,
        filter,
        attrs: Vec::new(),
    }
}

#[test]
fn test_cachedvalue() {
    let cv = CachedValue {
        cached_at: 0,
        entries: Vec::with_capacity(5),
        result: LdapResult {
            code: ResultCode::Busy,
            matcheddn: "dn=doo".to_string(),
            message: "ohno".to_string(),
            referral: Vec::with_capacity(5),
        },
        ctrl: Vec::with_capacity(5),
    };
    assert_eq!(cv.size(), 144);
}

#[test]
fn test_cachedvalue_size_calculation() {
    let mut entries = Vec::new();
    entries.push((
        SearchResultEntry {
            dn: "cn=test,dc=example,dc=com".to_string(),
            attributes: vec![PartialAttribute {
                atype: "cn".to_string(),
                vals: vec![b"test".to_vec()],
            }],
        },
        Vec::new(),
    ));

    let cv = CachedValue {
        cached_at: 0,
        entries,
        result: LdapResult {
            code: ResultCode::Success,
            matcheddn: "".to_string(),
            message: "".to_string(),
            referral: Vec::new(),
        },
        ctrl: Vec::new(),
    };

    // Size should be greater than the fixed record size due to entry data
    assert!(cv.size() > CACHED_VALUE_BASE_SIZE);
    // 25 bytes of DN, 2 of attribute name, 4 of value
    assert_eq!(cv.size(), 144 + 25 + 2 + 4);
}

#[test]
fn test_default_fallback_cache_bytes() {
    assert_eq!(default_fallback_cache_bytes(), 268435456);
}

#[test]
fn test_default_redis_key_prefix() {
    assert_eq!(default_redis_key_prefix(), "ldap_proxy:");
}

#[test]
fn test_cache_config_default() {
    match CacheConfig::default() {
        CacheConfig::Memory { size_bytes } => assert_eq!(size_bytes, 268435456),
        CacheConfig::Redis { .. } => panic!("default cache backend should be in-process"),
    }
}

#[test]
fn test_addr_info_source_default() {
    assert!(matches!(AddrInfoSource::default(), AddrInfoSource::NoInfo));
}

fn sample_key(dn: &str, base: &str) -> SearchCacheKey {
    SearchCacheKey {
        bind_dn: dn.to_string(),
        search: simple_search(base, SearchScope::Subtree, Filter::Present("objectClass".to_string())),
        ctrl: vec![Control { raw: vec![1, 2, 3] }],
    }
}

#[test]
fn test_redis_key_is_prefix_plus_fnv_hex() {
    let key = sample_key("cn=Administrator", "dc=example,dc=com");
    let bytes = encode_key(&key);
    let mut h: u64 = 0xcbf29ce484222325;
    for b in bytes {
        h = (h ^ (b as u64)).wrapping_mul(0x100000001b3);
    }
    assert_eq!(key.to_redis_key("ldap_proxy:"), format!("ldap_proxy:{:x}", h));
}

#[test]
fn test_redis_key_pure_for_equal_keys() {
    let a = sample_key("cn=Administrator", "dc=example,dc=com");
    let b = sample_key("cn=Administrator", "dc=example,dc=com");
    assert!(ldap_proxy::keys::key_eq(&a, &b));
    assert_eq!(a.to_redis_key("ldap_proxy:"), b.to_redis_key("ldap_proxy:"));
    assert_eq!(a.to_redis_key("other:"), b.to_redis_key("other:"));
}

#[test]
fn test_cache_key_inequality() {
    let a = sample_key("cn=Administrator", "dc=example,dc=com");
    let b = sample_key("cn=Administrator", "dc=other,dc=com");
    assert!(!ldap_proxy::keys::key_eq(&a, &b));
}

#[test]
fn test_key_eq_deep_filter() {
    let mk = |val: &str| SearchCacheKey {
        bind_dn: "".to_string(),
        search: simple_search(
            "dc=example",
            SearchScope::Base,
            Filter::And(vec![
                Filter::Equality("cn".to_string(), val.to_string()),
                Filter::Not(Box::new(Filter::Present("sn".to_string()))),
            ]),
        ),
        ctrl: Vec::new(),
    };
    assert!(ldap_proxy::keys::key_eq(&mk("john"), &mk("john")));
    assert!(!ldap_proxy::keys::key_eq(&mk("john"), &mk("jane")));
}

#[test]
fn test_cv_same_ignores_cached_at() {
    let entry = (
        SearchResultEntry { dn: "cn=a".to_string(), attributes: Vec::new() },
        Vec::new(),
    );
    let mk = |at: u64, msg: &str| CachedValue {
        cached_at: at,
        entries: vec![(entry.0.clone(), entry.1.clone())],
        result: LdapResult {
            code: ResultCode::Success,
            matcheddn: "".to_string(),
            message: msg.to_string(),
            referral: Vec::new(),
        },
        ctrl: Vec::new(),
    };
    assert!(ldap_proxy::keys::cv_same_check(&mk(1, "m"), &mk(2, "m")));
    assert!(!ldap_proxy::keys::cv_same_check(&mk(1, "m"), &mk(1, "other")));
}
