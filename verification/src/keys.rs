//! Cache identity and cached values.
//!
//! A search is identified by the triple of bind identity, search request
//! and request controls. The remote store is keyed by a fixed prefix
//! followed by the lowercase hexadecimal of a stable 64-bit hash of that
//! triple: the hash is a pure function of the key's contents, computed
//! over a canonical byte encoding, so equal keys always name the same
//! remote slot, on every machine and in every process.
//!
//! A cached value keeps the entries of one completed search in server
//! order, the closing result record and the response controls, plus the
//! time it was cached. The capture time is informational: it takes no
//! part in the change-detection equality.

use vstd::prelude::*;
use vstd::string::StringExecFns;
use vstd::utf8::encode_utf8;
use crate::proto::{
    Control, DerefAliases, Filter, LdapResult, MatchingRuleAssertion, PartialAttribute,
    SearchRequest, SearchResultEntry, SearchScope, SubstringFilter, clone_ctrls, clone_entries,
    ctrls_eq, ctrls_equiv, entries_eq, entries_equiv, filter_equiv, filters_equiv, result_equiv,
    sr_eq, sr_equiv, str_eq, strs_equiv,
};

verus! {

broadcast use vstd::slice::group_slice_axioms;

/// Identity of a cached search: who asked, what was asked, with which
/// request controls.
#[derive(Debug, Hash, PartialEq, Eq, PartialOrd, Ord)]
pub struct SearchCacheKey {
    pub bind_dn: String,
    pub search: SearchRequest,
    pub ctrl: Vec<Control>,
}

pub open spec fn key_equiv(a: SearchCacheKey, b: SearchCacheKey) -> bool {
    &&& a.bind_dn@ == b.bind_dn@
    &&& sr_equiv(a.search, b.search)
    &&& ctrls_equiv(a.ctrl@, b.ctrl@)
}

impl Clone for SearchCacheKey {
    fn clone(&self) -> (r: Self)
        ensures
            key_equiv(r, *self),
    {
        SearchCacheKey {
            bind_dn: self.bind_dn.clone(),
            search: self.search.clone(),
            ctrl: clone_ctrls(&self.ctrl),
        }
    }
}

/// Decides whether two cache keys identify the same search.
pub fn key_eq(a: &SearchCacheKey, b: &SearchCacheKey) -> (r: bool)
    ensures
        r == key_equiv(*a, *b),
{
    str_eq(&a.bind_dn, &b.bind_dn) && sr_eq(&a.search, &b.search) && ctrls_eq(&a.ctrl, &b.ctrl)
}

// ---------------------------------------------------------------------------
// Canonical byte encoding of a key.
//
// 0xff closes every string: it cannot occur inside well-formed UTF-8, so
// the boundary between adjacent strings is always unambiguous. Options
// and filter nodes carry a leading tag byte.
// ---------------------------------------------------------------------------

pub open spec fn enc_str(s: Seq<char>) -> Seq<u8> {
    encode_utf8(s) + seq![0xffu8]
}

pub open spec fn enc_opt_str(o: Option<String>) -> Seq<u8> {
    match o {
        Option::None => seq![0u8],
        Option::Some(s) => seq![1u8] + enc_str(s@),
    }
}

pub open spec fn enc_strs(s: Seq<String>) -> Seq<u8>
    decreases s.len(),
{
    if s.len() == 0 {
        Seq::empty()
    } else {
        enc_strs(s.subrange(0, s.len() - 1)) + enc_str(s.last()@)
    }
}

pub open spec fn enc_bool(b: bool) -> Seq<u8> {
    if b {
        seq![1u8]
    } else {
        seq![0u8]
    }
}

pub open spec fn enc_i32(x: i32) -> Seq<u8> {
    let u = x as u32;
    seq![(u & 0xff) as u8, ((u >> 8u32) & 0xff) as u8, ((u >> 16u32) & 0xff) as u8, ((u
        >> 24u32) & 0xff) as u8]
}

pub open spec fn enc_scope(s: SearchScope) -> Seq<u8> {
    match s {
        SearchScope::Base => seq![0u8],
        SearchScope::OneLevel => seq![1u8],
        SearchScope::Subtree => seq![2u8],
        SearchScope::Children => seq![3u8],
    }
}

pub open spec fn enc_aliases(a: DerefAliases) -> Seq<u8> {
    match a {
        DerefAliases::Never => seq![0u8],
        DerefAliases::InSearching => seq![1u8],
        DerefAliases::FindingBaseObj => seq![2u8],
        DerefAliases::Always => seq![3u8],
    }
}

pub open spec fn enc_sub(s: SubstringFilter) -> Seq<u8> {
    enc_opt_str(s.initial) + enc_strs(s.any@) + seq![0xfeu8] + enc_opt_str(s.final_part)
}

pub open spec fn enc_mra(m: MatchingRuleAssertion) -> Seq<u8> {
    enc_opt_str(m.matching_rule) + enc_opt_str(m.rule_type) + enc_str(m.match_value@) + enc_bool(
        m.dn_attributes,
    )
}

pub open spec fn enc_filter(f: Filter) -> Seq<u8>
    decreases f,
{
    match f {
        Filter::And(x) => seq![1u8] + enc_filters(x@) + seq![0xfeu8],
        Filter::Or(x) => seq![2u8] + enc_filters(x@) + seq![0xfeu8],
        Filter::Not(x) => seq![3u8] + enc_filter(*x),
        Filter::Equality(a, v) => seq![4u8] + enc_str(a@) + enc_str(v@),
        Filter::Substring(a, s) => seq![5u8] + enc_str(a@) + enc_sub(s),
        Filter::GreaterOrEqual(a, v) => seq![6u8] + enc_str(a@) + enc_str(v@),
        Filter::LessOrEqual(a, v) => seq![7u8] + enc_str(a@) + enc_str(v@),
        Filter::Present(a) => seq![8u8] + enc_str(a@),
        Filter::Approx(a, v) => seq![9u8] + enc_str(a@) + enc_str(v@),
        Filter::Extensible(m) => seq![10u8] + enc_mra(m),
    }
}

pub open spec fn enc_filters(s: Seq<Filter>) -> Seq<u8>
    decreases s,
{
    if s.len() == 0 {
        Seq::empty()
    } else {
        enc_filters(s.subrange(0, s.len() - 1)) + enc_filter(s.last())
    }
}

pub open spec fn enc_ctrl(c: Control) -> Seq<u8> {
    c.raw@ + seq![0xfeu8]
}

pub open spec fn enc_ctrls(s: Seq<Control>) -> Seq<u8>
    decreases s.len(),
{
    if s.len() == 0 {
        Seq::empty()
    } else {
        enc_ctrls(s.subrange(0, s.len() - 1)) + enc_ctrl(s.last())
    }
}

pub open spec fn enc_sr(sr: SearchRequest) -> Seq<u8> {
    enc_str(sr.base@) + enc_scope(sr.scope) + enc_aliases(sr.aliases) + enc_i32(sr.sizelimit)
        + enc_i32(sr.timelimit) + enc_bool(sr.typesonly) + enc_filter(sr.filter) + seq![0xfeu8]
        + enc_strs(sr.attrs@)
}

pub open spec fn enc_key(k: SearchCacheKey) -> Seq<u8> {
    enc_str(k.bind_dn@) + enc_sr(k.search) + seq![0xfeu8] + enc_ctrls(k.ctrl@)
}

// ---------------------------------------------------------------------------
// The stable 64-bit hash and its hexadecimal form.
// ---------------------------------------------------------------------------

pub const FNV_OFFSET: u64 = 0xcbf29ce484222325;

pub const FNV_PRIME: u64 = 0x100000001b3;

/// 64-bit FNV-1a over a byte sequence, folded left to right.
pub open spec fn fnv64(s: Seq<u8>) -> u64
    decreases s.len(),
{
    if s.len() == 0 {
        FNV_OFFSET
    } else {
        (fnv64(s.subrange(0, s.len() - 1)) ^ (s.last() as u64)).wrapping_mul(FNV_PRIME)
    }
}

/// The stable hash of a cache key.
pub open spec fn key_hash(k: SearchCacheKey) -> u64 {
    fnv64(enc_key(k))
}

pub open spec fn hex_char(d: nat) -> char {
    if d == 0 {
        '0'
    } else if d == 1 {
        '1'
    } else if d == 2 {
        '2'
    } else if d == 3 {
        '3'
    } else if d == 4 {
        '4'
    } else if d == 5 {
        '5'
    } else if d == 6 {
        '6'
    } else if d == 7 {
        '7'
    } else if d == 8 {
        '8'
    } else if d == 9 {
        '9'
    } else if d == 10 {
        'a'
    } else if d == 11 {
        'b'
    } else if d == 12 {
        'c'
    } else if d == 13 {
        'd'
    } else if d == 14 {
        'e'
    } else {
        'f'
    }
}

/// Lowercase hexadecimal digits of `h`, most significant first, without
/// leading zeros.
pub open spec fn hex_seq(h: nat) -> Seq<char>
    decreases h,
{
    if h < 16 {
        seq![hex_char(h)]
    } else {
        hex_seq(h / 16).push(hex_char(h % 16))
    }
}

/// The remote-store key for a cache key under a prefix.
pub open spec fn redis_key_spec(prefix: Seq<char>, k: SearchCacheKey) -> Seq<char> {
    prefix + hex_seq(key_hash(k) as nat)
}

fn hex_digit(d: u64) -> (r: &'static str)
    requires
        d < 16,
    ensures
        r@ == seq![hex_char(d as nat)],
{
    let r: &'static str = match d {
        0 => "0",
        1 => "1",
        2 => "2",
        3 => "3",
        4 => "4",
        5 => "5",
        6 => "6",
        7 => "7",
        8 => "8",
        9 => "9",
        10 => "a",
        11 => "b",
        12 => "c",
        13 => "d",
        14 => "e",
        _ => "f",
    };
    proof {
        reveal_strlit("0");
        reveal_strlit("1");
        reveal_strlit("2");
        reveal_strlit("3");
        reveal_strlit("4");
        reveal_strlit("5");
        reveal_strlit("6");
        reveal_strlit("7");
        reveal_strlit("8");
        reveal_strlit("9");
        reveal_strlit("a");
        reveal_strlit("b");
        reveal_strlit("c");
        reveal_strlit("d");
        reveal_strlit("e");
        reveal_strlit("f");
        assert(r@ =~= seq![hex_char(d as nat)]);
    }
    r
}

fn push_hex(s: &mut String, h: u64)
    ensures
        final(s)@ == old(s)@ + hex_seq(h as nat),
    decreases h,
{
    if h < 16 {
        s.append(hex_digit(h));
    } else {
        push_hex(s, h / 16);
        s.append(hex_digit(h % 16));
        proof {
            assert(old(s)@ + hex_seq((h / 16) as nat) + seq![hex_char((h % 16) as nat)] =~= old(
                s,
            )@ + hex_seq(h as nat));
        }
    }
}

// ---------------------------------------------------------------------------
// Building the encoding.
// ---------------------------------------------------------------------------

fn put_str(dst: &mut Vec<u8>, s: &String)
    ensures
        final(dst)@ == old(dst)@ + enc_str(s@),
{
    let bytes = s.as_str().as_bytes();
    let mut i: usize = 0;
    while i < bytes.len()
        invariant
            i <= bytes@.len(),
            bytes@ == encode_utf8(s@),
            dst@ == old(dst)@ + bytes@.take(i as int),
        decreases bytes@.len() - i,
    {
        let ghost prev = dst@;
        dst.push(bytes[i]);
        proof {
            assert(dst@ =~= old(dst)@ + bytes@.take(i + 1));
        }
        i += 1;
    }
    let ghost prev = dst@;
    dst.push(0xff);
    proof {
        assert(bytes@.take(bytes@.len() as int) =~= bytes@);
        assert(dst@ =~= old(dst)@ + enc_str(s@));
    }
}

fn put_opt_str(dst: &mut Vec<u8>, o: &Option<String>)
    ensures
        final(dst)@ == old(dst)@ + enc_opt_str(*o),
{
    match o {
        Option::None => {
            dst.push(0);
            proof {
                assert(dst@ =~= old(dst)@ + enc_opt_str(Option::None));
            }
        },
        Option::Some(s) => {
            dst.push(1);
            put_str(dst, s);
            proof {
                assert(old(dst)@.push(1u8) + enc_str(s@) =~= old(dst)@ + enc_opt_str(
                    Option::Some(*s),
                ));
            }
        },
    }
}

fn put_strs(dst: &mut Vec<u8>, v: &Vec<String>)
    ensures
        final(dst)@ == old(dst)@ + enc_strs(v@),
{
    let mut i: usize = 0;
    proof {
        assert(dst@ =~= dst@ + enc_strs(v@.take(0)));
    }
    while i < v.len()
        invariant
            i <= v.len(),
            dst@ == old(dst)@ + enc_strs(v@.take(i as int)),
        decreases v.len() - i,
    {
        put_str(dst, &v[i]);
        proof {
            assert(v@.take(i + 1).subrange(0, i as int) =~= v@.take(i as int));
            assert(v@.take(i + 1).last() == v@[i as int]);
            assert(dst@ =~= old(dst)@ + enc_strs(v@.take(i + 1)));
        }
        i += 1;
    }
    proof {
        assert(v@.take(v@.len() as int) =~= v@);
    }
}

fn put_bool(dst: &mut Vec<u8>, b: bool)
    ensures
        final(dst)@ == old(dst)@ + enc_bool(b),
{
    if b {
        dst.push(1);
    } else {
        dst.push(0);
    }
    proof {
        assert(dst@ =~= old(dst)@ + enc_bool(b));
    }
}

fn put_i32(dst: &mut Vec<u8>, x: i32)
    ensures
        final(dst)@ == old(dst)@ + enc_i32(x),
{
    let u = x as u32;
    dst.push((u & 0xff) as u8);
    dst.push(((u >> 8u32) & 0xff) as u8);
    dst.push(((u >> 16u32) & 0xff) as u8);
    dst.push(((u >> 24u32) & 0xff) as u8);
    proof {
        assert(dst@ =~= old(dst)@ + enc_i32(x));
    }
}

fn put_scope(dst: &mut Vec<u8>, s: &SearchScope)
    ensures
        final(dst)@ == old(dst)@ + enc_scope(*s),
{
    let tag: u8 = match s {
        SearchScope::Base => 0,
        SearchScope::OneLevel => 1,
        SearchScope::Subtree => 2,
        SearchScope::Children => 3,
    };
    dst.push(tag);
    proof {
        assert(dst@ =~= old(dst)@ + enc_scope(*s));
    }
}

fn put_aliases(dst: &mut Vec<u8>, a: &DerefAliases)
    ensures
        final(dst)@ == old(dst)@ + enc_aliases(*a),
{
    let tag: u8 = match a {
        DerefAliases::Never => 0,
        DerefAliases::InSearching => 1,
        DerefAliases::FindingBaseObj => 2,
        DerefAliases::Always => 3,
    };
    dst.push(tag);
    proof {
        assert(dst@ =~= old(dst)@ + enc_aliases(*a));
    }
}

fn put_sub(dst: &mut Vec<u8>, s: &SubstringFilter)
    ensures
        final(dst)@ == old(dst)@ + enc_sub(*s),
{
    put_opt_str(dst, &s.initial);
    put_strs(dst, &s.any);
    dst.push(0xfe);
    put_opt_str(dst, &s.final_part);
    proof {
        assert(dst@ =~= old(dst)@ + enc_sub(*s));
    }
}

fn put_mra(dst: &mut Vec<u8>, m: &MatchingRuleAssertion)
    ensures
        final(dst)@ == old(dst)@ + enc_mra(*m),
{
    put_opt_str(dst, &m.matching_rule);
    put_opt_str(dst, &m.rule_type);
    put_str(dst, &m.match_value);
    put_bool(dst, m.dn_attributes);
    proof {
        assert(dst@ =~= old(dst)@ + enc_mra(*m));
    }
}

fn put_filter(dst: &mut Vec<u8>, f: &Filter)
    ensures
        final(dst)@ == old(dst)@ + enc_filter(*f),
    decreases *f,
{
    match f {
        Filter::And(x) => {
            dst.push(1);
            put_filter_vec(dst, x);
            dst.push(0xfe);
            proof {
                assert(dst@ =~= old(dst)@ + enc_filter(*f));
            }
        },
        Filter::Or(x) => {
            dst.push(2);
            put_filter_vec(dst, x);
            dst.push(0xfe);
            proof {
                assert(dst@ =~= old(dst)@ + enc_filter(*f));
            }
        },
        Filter::Not(x) => {
            dst.push(3);
            put_filter(dst, x);
            proof {
                assert(dst@ =~= old(dst)@ + enc_filter(*f));
            }
        },
        Filter::Equality(a, v) => {
            dst.push(4);
            put_str(dst, a);
            put_str(dst, v);
            proof {
                assert(dst@ =~= old(dst)@ + enc_filter(*f));
            }
        },
        Filter::Substring(a, s) => {
            dst.push(5);
            put_str(dst, a);
            put_sub(dst, s);
            proof {
                assert(dst@ =~= old(dst)@ + enc_filter(*f));
            }
        },
        Filter::GreaterOrEqual(a, v) => {
            dst.push(6);
            put_str(dst, a);
            put_str(dst, v);
            proof {
                assert(dst@ =~= old(dst)@ + enc_filter(*f));
            }
        },
        Filter::LessOrEqual(a, v) => {
            dst.push(7);
            put_str(dst, a);
            put_str(dst, v);
            proof {
                assert(dst@ =~= old(dst)@ + enc_filter(*f));
            }
        },
        Filter::Present(a) => {
            dst.push(8);
            put_str(dst, a);
            proof {
                assert(dst@ =~= old(dst)@ + enc_filter(*f));
            }
        },
        Filter::Approx(a, v) => {
            dst.push(9);
            put_str(dst, a);
            put_str(dst, v);
            proof {
                assert(dst@ =~= old(dst)@ + enc_filter(*f));
            }
        },
        Filter::Extensible(m) => {
            dst.push(10);
            put_mra(dst, m);
            proof {
                assert(dst@ =~= old(dst)@ + enc_filter(*f));
            }
        },
    }
}

fn put_filter_vec(dst: &mut Vec<u8>, v: &Vec<Filter>)
    ensures
        final(dst)@ == old(dst)@ + enc_filters(v@),
    decreases v@,
{
    let mut i: usize = 0;
    proof {
        assert(dst@ =~= dst@ + enc_filters(v@.take(0)));
    }
    while i < v.len()
        invariant
            i <= v.len(),
            dst@ == old(dst)@ + enc_filters(v@.take(i as int)),
        decreases v.len() - i,
    {
        put_filter(dst, &v[i]);
        proof {
            assert(v@.take(i + 1).subrange(0, i as int) =~= v@.take(i as int));
            assert(v@.take(i + 1).last() == v@[i as int]);
            assert(dst@ =~= old(dst)@ + enc_filters(v@.take(i + 1)));
        }
        i += 1;
    }
    proof {
        assert(v@.take(v@.len() as int) =~= v@);
    }
}

fn put_ctrls(dst: &mut Vec<u8>, v: &Vec<Control>)
    ensures
        final(dst)@ == old(dst)@ + enc_ctrls(v@),
{
    let mut i: usize = 0;
    proof {
        assert(dst@ =~= dst@ + enc_ctrls(v@.take(0)));
    }
    while i < v.len()
        invariant
            i <= v.len(),
            dst@ == old(dst)@ + enc_ctrls(v@.take(i as int)),
        decreases v.len() - i,
    {
        let c = &v[i];
        let mut j: usize = 0;
        let ghost before = dst@;
        while j < c.raw.len()
            invariant
                j <= c.raw@.len(),
                dst@ == before + c.raw@.take(j as int),
            decreases c.raw@.len() - j,
        {
            dst.push(c.raw[j]);
            proof {
                assert(dst@ =~= before + c.raw@.take(j + 1));
            }
            j += 1;
        }
        dst.push(0xfe);
        proof {
            assert(c.raw@.take(c.raw@.len() as int) =~= c.raw@);
            assert(v@.take(i + 1).subrange(0, i as int) =~= v@.take(i as int));
            assert(v@.take(i + 1).last() == v@[i as int]);
            assert(dst@ =~= old(dst)@ + enc_ctrls(v@.take(i + 1)));
        }
        i += 1;
    }
    proof {
        assert(v@.take(v@.len() as int) =~= v@);
    }
}

/// The canonical byte encoding of a cache key.
pub fn encode_key(k: &SearchCacheKey) -> (r: Vec<u8>)
    ensures
        r@ == enc_key(*k),
{
    let mut dst: Vec<u8> = Vec::new();
    put_str(&mut dst, &k.bind_dn);
    put_str(&mut dst, &k.search.base);
    put_scope(&mut dst, &k.search.scope);
    put_aliases(&mut dst, &k.search.aliases);
    put_i32(&mut dst, k.search.sizelimit);
    put_i32(&mut dst, k.search.timelimit);
    put_bool(&mut dst, k.search.typesonly);
    put_filter(&mut dst, &k.search.filter);
    dst.push(0xfe);
    put_strs(&mut dst, &k.search.attrs);
    dst.push(0xfe);
    put_ctrls(&mut dst, &k.ctrl);
    proof {
        assert(dst@ =~= enc_key(*k));
    }
    dst
}

/// 64-bit FNV-1a over bytes.
pub fn fnv64_bytes(v: &Vec<u8>) -> (r: u64)
    ensures
        r == fnv64(v@),
{
    let mut h: u64 = FNV_OFFSET;
    let mut i: usize = 0;
    proof {
        assert(v@.take(0) =~= Seq::<u8>::empty());
    }
    while i < v.len()
        invariant
            i <= v.len(),
            h == fnv64(v@.take(i as int)),
        decreases v.len() - i,
    {
        h = (h ^ (v[i] as u64)).wrapping_mul(FNV_PRIME);
        proof {
            assert(v@.take(i + 1).subrange(0, i as int) =~= v@.take(i as int));
            assert(v@.take(i + 1).last() == v@[i as int]);
        }
        i += 1;
    }
    proof {
        assert(v@.take(v@.len() as int) =~= v@);
    }
    h
}

impl SearchCacheKey {
    /// The remote-store key: `prefix` followed by the lowercase
    /// hexadecimal of the stable hash of this key.
    pub fn to_redis_key(&self, prefix: &str) -> (r: String)
        ensures
            r@ == redis_key_spec(prefix@, *self),
    {
        let mut out = prefix.to_owned();
        let bytes = encode_key(self);
        let h = fnv64_bytes(&bytes);
        push_hex(&mut out, h);
        out
    }
}

// ---------------------------------------------------------------------------
// The encoding is a pure function of a key's contents.
// ---------------------------------------------------------------------------

proof fn lemma_enc_strs_equiv(a: Seq<String>, b: Seq<String>)
    requires
        strs_equiv(a, b),
    ensures
        enc_strs(a) == enc_strs(b),
    decreases a.len(),
{
    if a.len() != 0 {
        lemma_enc_strs_equiv(a.subrange(0, a.len() - 1), b.subrange(0, b.len() - 1));
    }
}

proof fn lemma_enc_filter_equiv(a: Filter, b: Filter)
    requires
        filter_equiv(a, b),
    ensures
        enc_filter(a) == enc_filter(b),
    decreases a,
{
    match (a, b) {
        (Filter::And(x), Filter::And(y)) => {
            lemma_enc_filters_equiv(x@, y@);
        },
        (Filter::Or(x), Filter::Or(y)) => {
            lemma_enc_filters_equiv(x@, y@);
        },
        (Filter::Not(x), Filter::Not(y)) => {
            lemma_enc_filter_equiv(*x, *y);
        },
        (Filter::Substring(xa, xs), Filter::Substring(ya, ys)) => {
            lemma_enc_strs_equiv(xs.any@, ys.any@);
        },
        (Filter::Extensible(x), Filter::Extensible(y)) => {
        },
        _ => {
        },
    }
}

proof fn lemma_enc_filters_equiv(a: Seq<Filter>, b: Seq<Filter>)
    requires
        filters_equiv(a, b),
    ensures
        enc_filters(a) == enc_filters(b),
    decreases a,
{
    if a.len() != 0 {
        lemma_enc_filters_equiv(a.subrange(0, a.len() - 1), b.subrange(0, b.len() - 1));
        lemma_enc_filter_equiv(a.last(), b.last());
    }
}

proof fn lemma_enc_ctrls_equiv(a: Seq<Control>, b: Seq<Control>)
    requires
        ctrls_equiv(a, b),
    ensures
        enc_ctrls(a) == enc_ctrls(b),
    decreases a.len(),
{
    if a.len() != 0 {
        lemma_enc_ctrls_equiv(a.subrange(0, a.len() - 1), b.subrange(0, b.len() - 1));
    }
}

/// Two keys that identify the same search have the same canonical
/// encoding, hence the same stable hash.
pub proof fn lemma_key_hash_pure(a: SearchCacheKey, b: SearchCacheKey)
    requires
        key_equiv(a, b),
    ensures
        enc_key(a) == enc_key(b),
        key_hash(a) == key_hash(b),
{
    lemma_enc_filter_equiv(a.search.filter, b.search.filter);
    lemma_enc_strs_equiv(a.search.attrs@, b.search.attrs@);
    lemma_enc_ctrls_equiv(a.ctrl@, b.ctrl@);
}

/// Remote-key derivation is pure: for a fixed prefix, keys that identify
/// the same search are sent to the same remote slot.
pub proof fn lemma_redis_key_pure(prefix: Seq<char>, a: SearchCacheKey, b: SearchCacheKey)
    requires
        key_equiv(a, b),
    ensures
        redis_key_spec(prefix, a) == redis_key_spec(prefix, b),
{
    lemma_key_hash_pure(a, b);
}

// ---------------------------------------------------------------------------
// Cached values.
// ---------------------------------------------------------------------------

/// Fixed byte cost attributed to a cached record besides its entries.
pub const CACHED_VALUE_BASE_SIZE: usize = 144;

/// The entries of one completed search in server order, each with its
/// per-entry controls, the closing result record, the response controls,
/// and when the record was captured.
#[derive(Debug)]
pub struct CachedValue {
    pub cached_at: u64,
    pub entries: Vec<(SearchResultEntry, Vec<Control>)>,
    pub result: LdapResult,
    pub ctrl: Vec<Control>,
}

/// Change-detection equality: entries, result code, result message and
/// response controls. The capture time takes no part in it.
pub open spec fn cv_same(a: CachedValue, b: CachedValue) -> bool {
    &&& entries_equiv(a.entries@, b.entries@)
    &&& a.result.code == b.result.code
    &&& a.result.message@ == b.result.message@
    &&& ctrls_equiv(a.ctrl@, b.ctrl@)
}

/// Equality of whole records, capture time included.
pub open spec fn cv_equiv(a: CachedValue, b: CachedValue) -> bool {
    &&& a.cached_at == b.cached_at
    &&& entries_equiv(a.entries@, b.entries@)
    &&& result_equiv(a.result, b.result)
    &&& ctrls_equiv(a.ctrl@, b.ctrl@)
}

impl Clone for CachedValue {
    fn clone(&self) -> (r: Self)
        ensures
            cv_equiv(r, *self),
    {
        CachedValue {
            cached_at: self.cached_at,
            entries: clone_entries(&self.entries),
            result: self.result.clone(),
            ctrl: clone_ctrls(&self.ctrl),
        }
    }
}

/// Decides the change-detection equality.
pub fn cv_same_check(a: &CachedValue, b: &CachedValue) -> (r: bool)
    ensures
        r == cv_same(*a, *b),
{
    entries_eq(&a.entries, &b.entries) && a.result.code == b.result.code && str_eq(
        &a.result.message,
        &b.result.message,
    ) && ctrls_eq(&a.ctrl, &b.ctrl)
}

pub proof fn lemma_key_equiv_refl(k: SearchCacheKey)
    ensures
        key_equiv(k, k),
{
    crate::proto::lemma_sr_equiv_refl(k.search);
    crate::proto::lemma_ctrls_equiv_refl(k.ctrl@);
}

// ---------------------------------------------------------------------------
// The byte-size estimate: the fixed record size plus, for each entry,
// its DN length and its attribute name and value byte lengths. The sum
// saturates at the machine limit.
// ---------------------------------------------------------------------------

pub open spec fn clamp_usize(n: nat) -> usize {
    if n > usize::MAX {
        usize::MAX
    } else {
        n as usize
    }
}

pub open spec fn vals_size(s: Seq<Vec<u8>>) -> nat
    decreases s.len(),
{
    if s.len() == 0 {
        0
    } else {
        vals_size(s.subrange(0, s.len() - 1)) + s.last()@.len()
    }
}

pub open spec fn attr_size(a: PartialAttribute) -> nat {
    encode_utf8(a.atype@).len() + vals_size(a.vals@)
}

pub open spec fn attrs_size(s: Seq<PartialAttribute>) -> nat
    decreases s.len(),
{
    if s.len() == 0 {
        0
    } else {
        attrs_size(s.subrange(0, s.len() - 1)) + attr_size(s.last())
    }
}

pub open spec fn entry_size(e: SearchResultEntry) -> nat {
    encode_utf8(e.dn@).len() + attrs_size(e.attributes@)
}

pub open spec fn entries_size(s: Seq<(SearchResultEntry, Vec<Control>)>) -> nat
    decreases s.len(),
{
    if s.len() == 0 {
        0
    } else {
        entries_size(s.subrange(0, s.len() - 1)) + entry_size(s.last().0)
    }
}

pub open spec fn cv_size(v: CachedValue) -> nat {
    CACHED_VALUE_BASE_SIZE as nat + entries_size(v.entries@)
}

fn attr_size_exec(a: &PartialAttribute) -> (r: usize)
    ensures
        r == clamp_usize(attr_size(*a)),
{
    let atype_bytes = a.atype.as_str().as_bytes();
    let mut acc: usize = atype_bytes.len();
    let mut j: usize = 0;
    proof {
        assert(a.vals@.take(0) =~= Seq::<Vec<u8>>::empty());
    }
    while j < a.vals.len()
        invariant
            j <= a.vals.len(),
            acc == clamp_usize(encode_utf8(a.atype@).len() + vals_size(a.vals@.take(j as int))),
        decreases a.vals.len() - j,
    {
        acc = acc.saturating_add(a.vals[j].len());
        proof {
            assert(a.vals@.take(j + 1).subrange(0, j as int) =~= a.vals@.take(j as int));
            assert(a.vals@.take(j + 1).last() == a.vals@[j as int]);
        }
        j += 1;
    }
    proof {
        assert(a.vals@.take(a.vals@.len() as int) =~= a.vals@);
    }
    acc
}

impl SearchResultEntry {
    /// The byte-size estimate of one entry.
    pub fn size(&self) -> (r: usize)
        ensures
            r == clamp_usize(entry_size(*self)),
    {
        let dn_bytes = self.dn.as_str().as_bytes();
        let mut acc: usize = dn_bytes.len();
        let mut i: usize = 0;
        proof {
            assert(self.attributes@.take(0) =~= Seq::<PartialAttribute>::empty());
        }
        while i < self.attributes.len()
            invariant
                i <= self.attributes.len(),
                acc == clamp_usize(
                    encode_utf8(self.dn@).len() + attrs_size(self.attributes@.take(i as int)),
                ),
            decreases self.attributes.len() - i,
        {
            acc = acc.saturating_add(attr_size_exec(&self.attributes[i]));
            proof {
                assert(self.attributes@.take(i + 1).subrange(0, i as int) =~= self.attributes@.take(
                    i as int,
                ));
                assert(self.attributes@.take(i + 1).last() == self.attributes@[i as int]);
            }
            i += 1;
        }
        proof {
            assert(self.attributes@.take(self.attributes@.len() as int) =~= self.attributes@);
        }
        acc
    }
}

impl CachedValue {
    /// The byte-size estimate the bounded in-process cache accounts
    /// with. It is strictly positive and depends only on the record's
    /// contents.
    pub fn size(&self) -> (r: usize)
        ensures
            r == clamp_usize(cv_size(*self)),
            r >= CACHED_VALUE_BASE_SIZE,
    {
        let mut acc: usize = CACHED_VALUE_BASE_SIZE;
        let mut i: usize = 0;
        proof {
            assert(self.entries@.take(0) =~= Seq::<(SearchResultEntry, Vec<Control>)>::empty());
        }
        while i < self.entries.len()
            invariant
                i <= self.entries.len(),
                acc == clamp_usize(
                    CACHED_VALUE_BASE_SIZE as nat + entries_size(self.entries@.take(i as int)),
                ),
            decreases self.entries.len() - i,
        {
            acc = acc.saturating_add(self.entries[i].0.size());
            proof {
                assert(self.entries@.take(i + 1).subrange(0, i as int) =~= self.entries@.take(
                    i as int,
                ));
                assert(self.entries@.take(i + 1).last() == self.entries@[i as int]);
            }
            i += 1;
        }
        proof {
            assert(self.entries@.take(self.entries@.len() as int) =~= self.entries@);
        }
        acc
    }
}

} // verus!
