//! Bind identities and what each one may search.
//!
//! A policy maps a bind DN to the set of query triples (base, scope,
//! filter) it may run. An empty set means every query is permitted for
//! that identity. The authorization check is an equality-based match on
//! the triple: bases byte for byte, scope as an enum, and the filter by
//! its parsed structure, never its textual form.

use vstd::prelude::*;
use crate::proto::{Filter, SearchRequest, SearchScope, filter_eq, filter_equiv, str_eq};

verus! {

/// A parsed search filter, as it appears in a policy.
#[derive(Debug, Hash, PartialEq, Eq)]
pub struct LdapFilterWrapper {
    pub inner: Filter,
}

impl Clone for LdapFilterWrapper {
    fn clone(&self) -> (r: Self)
        ensures
            filter_equiv(r.inner, self.inner),
    {
        LdapFilterWrapper { inner: self.inner.clone() }
    }
}

/// One permitted query: base DN, scope and filter.
pub type AllowedQuery = (String, SearchScope, LdapFilterWrapper);

pub open spec fn query_equiv(a: AllowedQuery, b: AllowedQuery) -> bool {
    a.0@ == b.0@ && a.1 == b.1 && filter_equiv(a.2.inner, b.2.inner)
}

pub open spec fn queries_equiv(a: Seq<AllowedQuery>, b: Seq<AllowedQuery>) -> bool
    decreases a.len(),
{
    if a.len() != b.len() {
        false
    } else if a.len() == 0 {
        true
    } else {
        queries_equiv(a.subrange(0, a.len() - 1), b.subrange(0, b.len() - 1)) && query_equiv(
            a.last(),
            b.last(),
        )
    }
}

/// Whether some triple in `s` matches base `base`, scope `scope` and
/// filter `f`.
pub open spec fn queries_contain(
    s: Seq<AllowedQuery>,
    base: Seq<char>,
    scope: SearchScope,
    f: Filter,
) -> bool
    decreases s.len(),
{
    if s.len() == 0 {
        false
    } else {
        queries_contain(s.subrange(0, s.len() - 1), base, scope, f) || (s.last().0@ == base
            && s.last().1 == scope && filter_equiv(s.last().2.inner, f))
    }
}

proof fn lemma_queries_contain_extend(s: Seq<AllowedQuery>, base: Seq<char>, scope: SearchScope, f: Filter, i: int)
    requires
        0 <= i <= s.len(),
        queries_contain(s.take(i), base, scope, f),
    ensures
        queries_contain(s, base, scope, f),
    decreases s.len() - i,
{
    if i < s.len() {
        assert(s.take(i + 1).subrange(0, i) =~= s.take(i));
        lemma_queries_contain_extend(s, base, scope, f, i + 1);
    } else {
        assert(s.take(i) =~= s);
    }
}

/// The policy attached to one bind identity.
#[derive(Debug)]
pub struct DnConfig {
    pub allowed_queries: Vec<AllowedQuery>,
}

impl Clone for DnConfig {
    fn clone(&self) -> (r: Self)
        ensures
            queries_equiv(r.allowed_queries@, self.allowed_queries@),
    {
        let mut q: Vec<AllowedQuery> = Vec::new();
        let mut i: usize = 0;
        while i < self.allowed_queries.len()
            invariant
                i <= self.allowed_queries.len(),
                q@.len() == i,
                queries_equiv(q@, self.allowed_queries@.take(i as int)),
            decreases self.allowed_queries.len() - i,
        {
            let t = &self.allowed_queries[i];
            let copied = (t.0.clone(), t.1, t.2.clone());
            let ghost prev = q@;
            q.push(copied);
            proof {
                assert(q@.subrange(0, i as int) =~= prev);
                assert(self.allowed_queries@.take(i + 1).subrange(0, i as int)
                    =~= self.allowed_queries@.take(i as int));
            }
            i += 1;
        }
        proof {
            assert(self.allowed_queries@.take(self.allowed_queries@.len() as int)
                =~= self.allowed_queries@);
        }
        DnConfig { allowed_queries: q }
    }
}

impl Default for DnConfig {
    /// The empty policy: every query is permitted.
    fn default() -> (r: Self)
        ensures
            r.allowed_queries@.len() == 0,
    {
        DnConfig { allowed_queries: Vec::new() }
    }
}

/// Whether `policy` permits running `sr`: either the policy restricts
/// nothing, or the request's (base, scope, filter) triple is one of its
/// allowed queries.
pub open spec fn authorized(policy: DnConfig, sr: SearchRequest) -> bool {
    policy.allowed_queries@.len() == 0 || queries_contain(
        policy.allowed_queries@,
        sr.base@,
        sr.scope,
        sr.filter,
    )
}

/// A restricting policy never authorizes a triple outside its list:
/// for an identity whose `allowed_queries` is non-empty and any search
/// whose (base, scope, filter) triple is not among them, the
/// authorization check fails — and the session machine forwards a
/// search upstream only where it succeeds.
pub proof fn lemma_unlisted_triple_refused(policy: DnConfig, sr: SearchRequest)
    requires
        policy.allowed_queries@.len() != 0,
        !queries_contain(policy.allowed_queries@, sr.base@, sr.scope, sr.filter),
    ensures
        !authorized(policy, sr),
{
}

/// Decides the authorization check for one search.
pub fn authorize(policy: &DnConfig, sr: &SearchRequest) -> (r: bool)
    ensures
        r == authorized(*policy, *sr),
{
    if policy.allowed_queries.len() == 0 {
        return true;
    }
    let ghost qs = policy.allowed_queries@;
    let mut i: usize = 0;
    while i < policy.allowed_queries.len()
        invariant
            i <= policy.allowed_queries.len(),
            qs == policy.allowed_queries@,
            !queries_contain(qs.take(i as int), sr.base@, sr.scope, sr.filter),
        decreases policy.allowed_queries.len() - i,
    {
        let t = &policy.allowed_queries[i];
        if str_eq(&t.0, &sr.base) && t.1 == sr.scope && filter_eq(&t.2.inner, &sr.filter) {
            proof {
                assert(qs.take(i + 1).subrange(0, i as int) =~= qs.take(i as int));
                assert(qs.take(i + 1).last() == qs[i as int]);
                lemma_queries_contain_extend(qs, sr.base@, sr.scope, sr.filter, i + 1);
            }
            return true;
        }
        proof {
            assert(qs.take(i + 1).subrange(0, i as int) =~= qs.take(i as int));
            assert(qs.take(i + 1).last() == qs[i as int]);
        }
        i += 1;
    }
    proof {
        assert(qs.take(qs.len() as int) =~= qs);
    }
    false
}

// ---------------------------------------------------------------------------
// The map from bind DN to policy.
// ---------------------------------------------------------------------------

pub open spec fn dn_config_equiv(a: DnConfig, b: DnConfig) -> bool {
    queries_equiv(a.allowed_queries@, b.allowed_queries@)
}

/// The policy for `dn` in `s`: the first entry whose name matches, if
/// any.
pub open spec fn map_lookup(s: Seq<(String, DnConfig)>, dn: Seq<char>) -> Option<DnConfig>
    decreases s.len(),
{
    if s.len() == 0 {
        Option::None
    } else if s[0].0@ == dn {
        Option::Some(s[0].1)
    } else {
        map_lookup(s.subrange(1, s.len() as int), dn)
    }
}

/// The recognized bind identities, each with its policy.
#[derive(Debug)]
pub struct BindDnMap {
    pub entries: Vec<(String, DnConfig)>,
}

impl BindDnMap {
    /// The policy configured for `dn`, copied out, or `None` when the
    /// identity is not recognized.
    pub fn lookup(&self, dn: &String) -> (r: Option<DnConfig>)
        ensures
            match r {
                Option::None => map_lookup(self.entries@, dn@) is None,
                Option::Some(c) => {
                    &&& map_lookup(self.entries@, dn@) matches Option::Some(c0)
                    &&& dn_config_equiv(c, c0)
                },
            },
    {
        let mut i: usize = 0;
        proof {
            assert(self.entries@.skip(0) =~= self.entries@);
        }
        while i < self.entries.len()
            invariant
                i <= self.entries.len(),
                map_lookup(self.entries@, dn@) == map_lookup(
                    self.entries@.skip(i as int),
                    dn@,
                ),
            decreases self.entries.len() - i,
        {
            proof {
                assert(self.entries@.skip(i as int).len() != 0);
                assert(self.entries@.skip(i as int)[0] == self.entries@[i as int]);
                assert(self.entries@.skip(i as int).subrange(
                    1,
                    self.entries@.skip(i as int).len() as int,
                ) =~= self.entries@.skip(i + 1));
            }
            if str_eq(&self.entries[i].0, dn) {
                return Option::Some(self.entries[i].1.clone());
            }
            i += 1;
        }
        proof {
            assert(self.entries@.skip(self.entries@.len() as int).len() == 0);
        }
        Option::None
    }
}

} // verus!
