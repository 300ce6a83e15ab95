//! The protocol values a proxy session works on.
//!
//! These types carry, as plain values, exactly what the proxy reads from
//! the directory protocol: message ids, the operations it dispatches on,
//! search parameters with their filter tree, result records and entries.
//! A control is carried as an opaque encoded blob; the proxy never looks
//! inside one, it only forwards and compares them.
//!
//! Equality of two values is stated over views (the `_equiv` spec
//! functions) and decided by verified functions whose contracts return
//! exactly that equivalence.

use vstd::prelude::*;

verus! {

/// The region of the tree a search applies to.
#[derive(Debug, Clone, Copy, PartialEq, Eq, Structural, Hash, PartialOrd, Ord)]
pub enum SearchScope {
    Base,
    OneLevel,
    Subtree,
    Children,
}

/// How aliases are dereferenced during a search.
#[derive(Debug, Clone, Copy, PartialEq, Eq, Structural, Hash, PartialOrd, Ord)]
pub enum DerefAliases {
    Never,
    InSearching,
    FindingBaseObj,
    Always,
}

/// A protocol result code.
#[derive(Debug, Clone, Copy, PartialEq, Eq, Structural, Hash, PartialOrd, Ord)]
pub enum ResultCode {
    Success,
    OperationsError,
    ProtocolError,
    TimeLimitExceeded,
    SizeLimitExceeded,
    CompareFalse,
    CompareTrue,
    AuthMethodNotSupported,
    StrongerAuthRequired,
    Referral,
    AdminLimitExceeded,
    UnavailableCriticalExtension,
    ConfidentialityRequired,
    SaslBindInProgress,
    NoSuchAttribute,
    UndefinedAttributeType,
    InappropriateMatching,
    ConstraintViolation,
    AttributeOrValueExists,
    InvalidAttributeSyntax,
    NoSuchObject,
    AliasProblem,
    InvalidDNSyntax,
    AliasDereferencingProblem,
    InappropriateAuthentication,
    InvalidCredentials,
    InsufficentAccessRights,
    Busy,
    Unavailable,
    UnwillingToPerform,
    LoopDetect,
    NamingViolation,
    ObjectClassViolation,
    NotAllowedOnNonLeaf,
    NotALlowedOnRDN,
    EntryAlreadyExists,
    ObjectClassModsProhibited,
    AffectsMultipleDSAs,
    Other,
    EsyncRefreshRequired,
}

/// A substring filter: optional head, middle parts, optional tail.
#[derive(Debug, Hash, PartialEq, Eq, PartialOrd, Ord)]
pub struct SubstringFilter {
    pub initial: Option<String>,
    pub any: Vec<String>,
    pub final_part: Option<String>,
}

/// An extensible-match assertion.
#[derive(Debug, Hash, PartialEq, Eq, PartialOrd, Ord)]
pub struct MatchingRuleAssertion {
    pub matching_rule: Option<String>,
    pub rule_type: Option<String>,
    pub match_value: String,
    pub dn_attributes: bool,
}

/// A search filter tree.
#[derive(Debug, Hash, PartialEq, Eq, PartialOrd, Ord)]
pub enum Filter {
    And(Vec<Filter>),
    Or(Vec<Filter>),
    Not(Box<Filter>),
    Equality(String, String),
    Substring(String, SubstringFilter),
    GreaterOrEqual(String, String),
    LessOrEqual(String, String),
    Present(String),
    Approx(String, String),
    Extensible(MatchingRuleAssertion),
}

/// A request or response control, carried as its encoded bytes.
///
/// The proxy forwards controls verbatim and compares them for equality;
/// it never interprets one.
#[derive(Debug, Hash, PartialEq, Eq, PartialOrd, Ord)]
pub struct Control {
    pub raw: Vec<u8>,
}

/// The parameters of a search request.
#[derive(Debug, Hash, PartialEq, Eq, PartialOrd, Ord)]
pub struct SearchRequest {
    pub base: String,
    pub scope: SearchScope,
    pub aliases: DerefAliases,
    pub sizelimit: i32,
    pub timelimit: i32,
    pub typesonly: bool,
    pub filter: Filter,
    pub attrs: Vec<String>,
}

/// One attribute of a returned entry: its name and its values.
#[derive(Debug)]
pub struct PartialAttribute {
    pub atype: String,
    pub vals: Vec<Vec<u8>>,
}

/// One entry returned by a search.
#[derive(Debug)]
pub struct SearchResultEntry {
    pub dn: String,
    pub attributes: Vec<PartialAttribute>,
}

/// The overall result record of an operation.
#[derive(Debug)]
pub struct LdapResult {
    pub code: ResultCode,
    pub matcheddn: String,
    pub message: String,
    pub referral: Vec<String>,
}

/// A simple or SASL bind credential.
#[derive(Debug)]
pub enum BindCred {
    Simple(String),
    Sasl(String, Vec<u8>),
}

/// A bind request: the identity and its credential.
#[derive(Debug)]
pub struct BindRequest {
    pub dn: String,
    pub cred: BindCred,
}

/// A bind response.
#[derive(Debug)]
pub struct BindResponse {
    pub res: LdapResult,
    pub saslcreds: Option<Vec<u8>>,
}

/// An extended request: an OID and an optional value.
#[derive(Debug)]
pub struct ExtendedRequest {
    pub name: String,
    pub value: Option<Vec<u8>>,
}

/// An extended response.
#[derive(Debug)]
pub struct ExtendedResponse {
    pub res: LdapResult,
    pub name: Option<String>,
    pub value: Option<Vec<u8>>,
}

/// The operations a proxy session distinguishes. Anything else a peer can
/// send is `Other` and ends the session.
#[derive(Debug)]
pub enum LdapOp {
    BindRequest(BindRequest),
    BindResponse(BindResponse),
    UnbindRequest,
    SearchRequest(SearchRequest),
    SearchResultEntry(SearchResultEntry),
    SearchResultDone(LdapResult),
    ExtendedRequest(ExtendedRequest),
    ExtendedResponse(ExtendedResponse),
    Other,
}

/// A framed protocol message.
#[derive(Debug)]
pub struct LdapMsg {
    pub msgid: i32,
    pub op: LdapOp,
    pub ctrl: Vec<Control>,
}

// ---------------------------------------------------------------------------
// Equivalence, stated over views.
// ---------------------------------------------------------------------------

pub open spec fn opt_str_equiv(a: Option<String>, b: Option<String>) -> bool {
    match (a, b) {
        (Option::None, Option::None) => true,
        (Option::Some(x), Option::Some(y)) => x@ == y@,
        _ => false,
    }
}

pub open spec fn strs_equiv(a: Seq<String>, b: Seq<String>) -> bool
    decreases a.len(),
{
    if a.len() != b.len() {
        false
    } else if a.len() == 0 {
        true
    } else {
        strs_equiv(a.subrange(0, a.len() - 1), b.subrange(0, b.len() - 1)) && a.last()@
            == b.last()@
    }
}

pub open spec fn vals_equiv(a: Seq<Vec<u8>>, b: Seq<Vec<u8>>) -> bool
    decreases a.len(),
{
    if a.len() != b.len() {
        false
    } else if a.len() == 0 {
        true
    } else {
        vals_equiv(a.subrange(0, a.len() - 1), b.subrange(0, b.len() - 1)) && a.last()@
            == b.last()@
    }
}

pub open spec fn sub_equiv(a: SubstringFilter, b: SubstringFilter) -> bool {
    &&& opt_str_equiv(a.initial, b.initial)
    &&& strs_equiv(a.any@, b.any@)
    &&& opt_str_equiv(a.final_part, b.final_part)
}

pub open spec fn mra_equiv(a: MatchingRuleAssertion, b: MatchingRuleAssertion) -> bool {
    &&& opt_str_equiv(a.matching_rule, b.matching_rule)
    &&& opt_str_equiv(a.rule_type, b.rule_type)
    &&& a.match_value@ == b.match_value@
    &&& a.dn_attributes == b.dn_attributes
}

pub open spec fn filter_equiv(a: Filter, b: Filter) -> bool
    decreases a,
{
    match (a, b) {
        (Filter::And(x), Filter::And(y)) => filters_equiv(x@, y@),
        (Filter::Or(x), Filter::Or(y)) => filters_equiv(x@, y@),
        (Filter::Not(x), Filter::Not(y)) => filter_equiv(*x, *y),
        (Filter::Equality(xa, xv), Filter::Equality(ya, yv)) => xa@ == ya@ && xv@ == yv@,
        (Filter::Substring(xa, xs), Filter::Substring(ya, ys)) => xa@ == ya@ && sub_equiv(xs, ys),
        (Filter::GreaterOrEqual(xa, xv), Filter::GreaterOrEqual(ya, yv)) => xa@ == ya@ && xv@
            == yv@,
        (Filter::LessOrEqual(xa, xv), Filter::LessOrEqual(ya, yv)) => xa@ == ya@ && xv@ == yv@,
        (Filter::Present(x), Filter::Present(y)) => x@ == y@,
        (Filter::Approx(xa, xv), Filter::Approx(ya, yv)) => xa@ == ya@ && xv@ == yv@,
        (Filter::Extensible(x), Filter::Extensible(y)) => mra_equiv(x, y),
        _ => false,
    }
}

pub open spec fn filters_equiv(a: Seq<Filter>, b: Seq<Filter>) -> bool
    decreases a,
{
    if a.len() != b.len() {
        false
    } else if a.len() == 0 {
        true
    } else {
        filters_equiv(a.subrange(0, a.len() - 1), b.subrange(0, b.len() - 1)) && filter_equiv(
            a.last(),
            b.last(),
        )
    }
}

pub open spec fn ctrl_equiv(a: Control, b: Control) -> bool {
    a.raw@ == b.raw@
}

pub open spec fn ctrls_equiv(a: Seq<Control>, b: Seq<Control>) -> bool
    decreases a.len(),
{
    if a.len() != b.len() {
        false
    } else if a.len() == 0 {
        true
    } else {
        ctrls_equiv(a.subrange(0, a.len() - 1), b.subrange(0, b.len() - 1)) && ctrl_equiv(
            a.last(),
            b.last(),
        )
    }
}

pub open spec fn sr_equiv(a: SearchRequest, b: SearchRequest) -> bool {
    &&& a.base@ == b.base@
    &&& a.scope == b.scope
    &&& a.aliases == b.aliases
    &&& a.sizelimit == b.sizelimit
    &&& a.timelimit == b.timelimit
    &&& a.typesonly == b.typesonly
    &&& filter_equiv(a.filter, b.filter)
    &&& strs_equiv(a.attrs@, b.attrs@)
}

pub open spec fn attr_equiv(a: PartialAttribute, b: PartialAttribute) -> bool {
    a.atype@ == b.atype@ && vals_equiv(a.vals@, b.vals@)
}

pub open spec fn attrs_equiv(a: Seq<PartialAttribute>, b: Seq<PartialAttribute>) -> bool
    decreases a.len(),
{
    if a.len() != b.len() {
        false
    } else if a.len() == 0 {
        true
    } else {
        attrs_equiv(a.subrange(0, a.len() - 1), b.subrange(0, b.len() - 1)) && attr_equiv(
            a.last(),
            b.last(),
        )
    }
}

pub open spec fn entry_equiv(a: SearchResultEntry, b: SearchResultEntry) -> bool {
    a.dn@ == b.dn@ && attrs_equiv(a.attributes@, b.attributes@)
}

pub open spec fn result_equiv(a: LdapResult, b: LdapResult) -> bool {
    &&& a.code == b.code
    &&& a.matcheddn@ == b.matcheddn@
    &&& a.message@ == b.message@
    &&& strs_equiv(a.referral@, b.referral@)
}

/// One returned entry together with its per-entry controls.
pub open spec fn entry_pair_equiv(
    a: (SearchResultEntry, Vec<Control>),
    b: (SearchResultEntry, Vec<Control>),
) -> bool {
    entry_equiv(a.0, b.0) && ctrls_equiv(a.1@, b.1@)
}

pub open spec fn entries_equiv(
    a: Seq<(SearchResultEntry, Vec<Control>)>,
    b: Seq<(SearchResultEntry, Vec<Control>)>,
) -> bool
    decreases a.len(),
{
    if a.len() != b.len() {
        false
    } else if a.len() == 0 {
        true
    } else {
        entries_equiv(a.subrange(0, a.len() - 1), b.subrange(0, b.len() - 1)) && entry_pair_equiv(
            a.last(),
            b.last(),
        )
    }
}

// ---------------------------------------------------------------------------
// What the list equivalences mean element by element.
// ---------------------------------------------------------------------------

pub proof fn lemma_strs_equiv_index(a: Seq<String>, b: Seq<String>, i: int)
    requires
        strs_equiv(a, b),
        0 <= i < a.len(),
    ensures
        a.len() == b.len(),
        a[i]@ == b[i]@,
    decreases a.len(),
{
    if i < a.len() - 1 {
        lemma_strs_equiv_index(a.subrange(0, a.len() - 1), b.subrange(0, b.len() - 1), i);
    }
}

pub proof fn lemma_vals_equiv_index(a: Seq<Vec<u8>>, b: Seq<Vec<u8>>, i: int)
    requires
        vals_equiv(a, b),
        0 <= i < a.len(),
    ensures
        a.len() == b.len(),
        a[i]@ == b[i]@,
    decreases a.len(),
{
    if i < a.len() - 1 {
        lemma_vals_equiv_index(a.subrange(0, a.len() - 1), b.subrange(0, b.len() - 1), i);
    }
}

pub proof fn lemma_filters_equiv_index(a: Seq<Filter>, b: Seq<Filter>, i: int)
    requires
        filters_equiv(a, b),
        0 <= i < a.len(),
    ensures
        a.len() == b.len(),
        filter_equiv(a[i], b[i]),
    decreases a.len(),
{
    if i < a.len() - 1 {
        lemma_filters_equiv_index(a.subrange(0, a.len() - 1), b.subrange(0, b.len() - 1), i);
    }
}

pub proof fn lemma_ctrls_equiv_index(a: Seq<Control>, b: Seq<Control>, i: int)
    requires
        ctrls_equiv(a, b),
        0 <= i < a.len(),
    ensures
        a.len() == b.len(),
        ctrl_equiv(a[i], b[i]),
    decreases a.len(),
{
    if i < a.len() - 1 {
        lemma_ctrls_equiv_index(a.subrange(0, a.len() - 1), b.subrange(0, b.len() - 1), i);
    }
}

pub proof fn lemma_attrs_equiv_index(a: Seq<PartialAttribute>, b: Seq<PartialAttribute>, i: int)
    requires
        attrs_equiv(a, b),
        0 <= i < a.len(),
    ensures
        a.len() == b.len(),
        attr_equiv(a[i], b[i]),
    decreases a.len(),
{
    if i < a.len() - 1 {
        lemma_attrs_equiv_index(a.subrange(0, a.len() - 1), b.subrange(0, b.len() - 1), i);
    }
}

pub proof fn lemma_entries_equiv_index(
    a: Seq<(SearchResultEntry, Vec<Control>)>,
    b: Seq<(SearchResultEntry, Vec<Control>)>,
    i: int,
)
    requires
        entries_equiv(a, b),
        0 <= i < a.len(),
    ensures
        a.len() == b.len(),
        entry_pair_equiv(a[i], b[i]),
    decreases a.len(),
{
    if i < a.len() - 1 {
        lemma_entries_equiv_index(a.subrange(0, a.len() - 1), b.subrange(0, b.len() - 1), i);
    }
}

// ---------------------------------------------------------------------------
// Every value is equivalent to itself.
// ---------------------------------------------------------------------------

pub proof fn lemma_strs_equiv_refl(s: Seq<String>)
    ensures
        strs_equiv(s, s),
    decreases s.len(),
{
    if s.len() != 0 {
        lemma_strs_equiv_refl(s.subrange(0, s.len() - 1));
    }
}

pub proof fn lemma_vals_equiv_refl(s: Seq<Vec<u8>>)
    ensures
        vals_equiv(s, s),
    decreases s.len(),
{
    if s.len() != 0 {
        lemma_vals_equiv_refl(s.subrange(0, s.len() - 1));
    }
}

pub proof fn lemma_filter_equiv_refl(f: Filter)
    ensures
        filter_equiv(f, f),
    decreases f,
{
    match f {
        Filter::And(x) => lemma_filters_equiv_refl(x@),
        Filter::Or(x) => lemma_filters_equiv_refl(x@),
        Filter::Not(x) => lemma_filter_equiv_refl(*x),
        Filter::Substring(a, s) => lemma_strs_equiv_refl(s.any@),
        _ => (),
    }
}

pub proof fn lemma_filters_equiv_refl(s: Seq<Filter>)
    ensures
        filters_equiv(s, s),
    decreases s,
{
    if s.len() != 0 {
        lemma_filters_equiv_refl(s.subrange(0, s.len() - 1));
        lemma_filter_equiv_refl(s.last());
    }
}

pub proof fn lemma_ctrls_equiv_refl(s: Seq<Control>)
    ensures
        ctrls_equiv(s, s),
    decreases s.len(),
{
    if s.len() != 0 {
        lemma_ctrls_equiv_refl(s.subrange(0, s.len() - 1));
    }
}

pub proof fn lemma_sr_equiv_refl(sr: SearchRequest)
    ensures
        sr_equiv(sr, sr),
{
    lemma_filter_equiv_refl(sr.filter);
    lemma_strs_equiv_refl(sr.attrs@);
}

pub proof fn lemma_attrs_equiv_refl(s: Seq<PartialAttribute>)
    ensures
        attrs_equiv(s, s),
    decreases s.len(),
{
    if s.len() != 0 {
        lemma_attrs_equiv_refl(s.subrange(0, s.len() - 1));
        lemma_vals_equiv_refl(s.last().vals@);
    }
}

pub proof fn lemma_entries_equiv_refl(s: Seq<(SearchResultEntry, Vec<Control>)>)
    ensures
        entries_equiv(s, s),
    decreases s.len(),
{
    if s.len() != 0 {
        lemma_entries_equiv_refl(s.subrange(0, s.len() - 1));
        lemma_attrs_equiv_refl(s.last().0.attributes@);
        lemma_ctrls_equiv_refl(s.last().1@);
    }
}

pub proof fn lemma_result_equiv_refl(r: LdapResult)
    ensures
        result_equiv(r, r),
{
    lemma_strs_equiv_refl(r.referral@);
}

// ---------------------------------------------------------------------------
// Decided equality.
// ---------------------------------------------------------------------------

pub fn bytes_eq(a: &Vec<u8>, b: &Vec<u8>) -> (r: bool)
    ensures
        r == (a@ == b@),
{
    if a.len() != b.len() {
        return false;
    }
    let mut i: usize = 0;
    while i < a.len()
        invariant
            i <= a.len(),
            a.len() == b.len(),
            forall|j: int| 0 <= j < i ==> a@[j] == b@[j],
        decreases a.len() - i,
    {
        if a[i] != b[i] {
            return false;
        }
        i += 1;
    }
    proof {
        assert(a@ =~= b@);
    }
    true
}

pub fn str_eq(a: &String, b: &String) -> (r: bool)
    ensures
        r == (a@ == b@),
{
    a.eq(b)
}

pub fn opt_str_eq(a: &Option<String>, b: &Option<String>) -> (r: bool)
    ensures
        r == opt_str_equiv(*a, *b),
{
    match (a, b) {
        (Option::None, Option::None) => true,
        (Option::Some(x), Option::Some(y)) => str_eq(x, y),
        _ => false,
    }
}

pub fn strs_eq(a: &Vec<String>, b: &Vec<String>) -> (r: bool)
    ensures
        r == strs_equiv(a@, b@),
{
    if a.len() != b.len() {
        return false;
    }
    let mut i: usize = 0;
    while i < a.len()
        invariant
            i <= a.len(),
            a.len() == b.len(),
            strs_equiv(a@.take(i as int), b@.take(i as int)),
        decreases a.len() - i,
    {
        if !str_eq(&a[i], &b[i]) {
            proof {
                if strs_equiv(a@, b@) {
                    lemma_strs_equiv_index(a@, b@, i as int);
                }
            }
            return false;
        }
        proof {
            assert(a@.take(i + 1).subrange(0, i as int) =~= a@.take(i as int));
            assert(b@.take(i + 1).subrange(0, i as int) =~= b@.take(i as int));
        }
        i += 1;
    }
    proof {
        assert(a@.take(a@.len() as int) =~= a@);
        assert(b@.take(b@.len() as int) =~= b@);
    }
    true
}

fn vals_eq(a: &Vec<Vec<u8>>, b: &Vec<Vec<u8>>) -> (r: bool)
    ensures
        r == vals_equiv(a@, b@),
{
    if a.len() != b.len() {
        return false;
    }
    let mut i: usize = 0;
    while i < a.len()
        invariant
            i <= a.len(),
            a.len() == b.len(),
            vals_equiv(a@.take(i as int), b@.take(i as int)),
        decreases a.len() - i,
    {
        if !bytes_eq(&a[i], &b[i]) {
            proof {
                if vals_equiv(a@, b@) {
                    lemma_vals_equiv_index(a@, b@, i as int);
                }
            }
            return false;
        }
        proof {
            assert(a@.take(i + 1).subrange(0, i as int) =~= a@.take(i as int));
            assert(b@.take(i + 1).subrange(0, i as int) =~= b@.take(i as int));
        }
        i += 1;
    }
    proof {
        assert(a@.take(a@.len() as int) =~= a@);
        assert(b@.take(b@.len() as int) =~= b@);
    }
    true
}

pub fn sub_eq(a: &SubstringFilter, b: &SubstringFilter) -> (r: bool)
    ensures
        r == sub_equiv(*a, *b),
{
    opt_str_eq(&a.initial, &b.initial) && strs_eq(&a.any, &b.any) && opt_str_eq(
        &a.final_part,
        &b.final_part,
    )
}

pub fn mra_eq(a: &MatchingRuleAssertion, b: &MatchingRuleAssertion) -> (r: bool)
    ensures
        r == mra_equiv(*a, *b),
{
    opt_str_eq(&a.matching_rule, &b.matching_rule) && opt_str_eq(&a.rule_type, &b.rule_type)
        && str_eq(&a.match_value, &b.match_value) && a.dn_attributes == b.dn_attributes
}

pub fn filter_eq(a: &Filter, b: &Filter) -> (r: bool)
    ensures
        r == filter_equiv(*a, *b),
    decreases *a,
{
    match (a, b) {
        (Filter::And(x), Filter::And(y)) => filter_vec_eq(x, y),
        (Filter::Or(x), Filter::Or(y)) => filter_vec_eq(x, y),
        (Filter::Not(x), Filter::Not(y)) => filter_eq(x, y),
        (Filter::Equality(xa, xv), Filter::Equality(ya, yv)) => str_eq(xa, ya) && str_eq(xv, yv),
        (Filter::Substring(xa, xs), Filter::Substring(ya, ys)) => str_eq(xa, ya) && sub_eq(xs, ys),
        (Filter::GreaterOrEqual(xa, xv), Filter::GreaterOrEqual(ya, yv)) => str_eq(xa, ya)
            && str_eq(xv, yv),
        (Filter::LessOrEqual(xa, xv), Filter::LessOrEqual(ya, yv)) => str_eq(xa, ya) && str_eq(
            xv,
            yv,
        ),
        (Filter::Present(x), Filter::Present(y)) => str_eq(x, y),
        (Filter::Approx(xa, xv), Filter::Approx(ya, yv)) => str_eq(xa, ya) && str_eq(xv, yv),
        (Filter::Extensible(x), Filter::Extensible(y)) => mra_eq(x, y),
        _ => false,
    }
}

fn filter_vec_eq(a: &Vec<Filter>, b: &Vec<Filter>) -> (r: bool)
    ensures
        r == filters_equiv(a@, b@),
    decreases a@,
{
    if a.len() != b.len() {
        return false;
    }
    let mut i: usize = 0;
    while i < a.len()
        invariant
            i <= a.len(),
            a.len() == b.len(),
            filters_equiv(a@.take(i as int), b@.take(i as int)),
        decreases a.len() - i,
    {
        if !filter_eq(&a[i], &b[i]) {
            proof {
                if filters_equiv(a@, b@) {
                    lemma_filters_equiv_index(a@, b@, i as int);
                }
            }
            return false;
        }
        proof {
            assert(a@.take(i + 1).subrange(0, i as int) =~= a@.take(i as int));
            assert(b@.take(i + 1).subrange(0, i as int) =~= b@.take(i as int));
        }
        i += 1;
    }
    proof {
        assert(a@.take(a@.len() as int) =~= a@);
        assert(b@.take(b@.len() as int) =~= b@);
    }
    true
}

pub fn ctrl_eq(a: &Control, b: &Control) -> (r: bool)
    ensures
        r == ctrl_equiv(*a, *b),
{
    bytes_eq(&a.raw, &b.raw)
}

pub fn ctrls_eq(a: &Vec<Control>, b: &Vec<Control>) -> (r: bool)
    ensures
        r == ctrls_equiv(a@, b@),
{
    if a.len() != b.len() {
        return false;
    }
    let mut i: usize = 0;
    while i < a.len()
        invariant
            i <= a.len(),
            a.len() == b.len(),
            ctrls_equiv(a@.take(i as int), b@.take(i as int)),
        decreases a.len() - i,
    {
        if !ctrl_eq(&a[i], &b[i]) {
            proof {
                if ctrls_equiv(a@, b@) {
                    lemma_ctrls_equiv_index(a@, b@, i as int);
                }
            }
            return false;
        }
        proof {
            assert(a@.take(i + 1).subrange(0, i as int) =~= a@.take(i as int));
            assert(b@.take(i + 1).subrange(0, i as int) =~= b@.take(i as int));
        }
        i += 1;
    }
    proof {
        assert(a@.take(a@.len() as int) =~= a@);
        assert(b@.take(b@.len() as int) =~= b@);
    }
    true
}

pub fn sr_eq(a: &SearchRequest, b: &SearchRequest) -> (r: bool)
    ensures
        r == sr_equiv(*a, *b),
{
    str_eq(&a.base, &b.base) && a.scope == b.scope && a.aliases == b.aliases && a.sizelimit
        == b.sizelimit && a.timelimit == b.timelimit && a.typesonly == b.typesonly && filter_eq(
        &a.filter,
        &b.filter,
    ) && strs_eq(&a.attrs, &b.attrs)
}

pub fn attr_eq(a: &PartialAttribute, b: &PartialAttribute) -> (r: bool)
    ensures
        r == attr_equiv(*a, *b),
{
    str_eq(&a.atype, &b.atype) && vals_eq(&a.vals, &b.vals)
}

pub fn entry_eq(a: &SearchResultEntry, b: &SearchResultEntry) -> (r: bool)
    ensures
        r == entry_equiv(*a, *b),
{
    if !str_eq(&a.dn, &b.dn) {
        return false;
    }
    if a.attributes.len() != b.attributes.len() {
        return false;
    }
    let mut i: usize = 0;
    while i < a.attributes.len()
        invariant
            i <= a.attributes.len(),
            a.attributes.len() == b.attributes.len(),
            a.dn@ == b.dn@,
            attrs_equiv(a.attributes@.take(i as int), b.attributes@.take(i as int)),
        decreases a.attributes.len() - i,
    {
        if !attr_eq(&a.attributes[i], &b.attributes[i]) {
            proof {
                if attrs_equiv(a.attributes@, b.attributes@) {
                    lemma_attrs_equiv_index(a.attributes@, b.attributes@, i as int);
                }
            }
            return false;
        }
        proof {
            assert(a.attributes@.take(i + 1).subrange(0, i as int) =~= a.attributes@.take(
                i as int,
            ));
            assert(b.attributes@.take(i + 1).subrange(0, i as int) =~= b.attributes@.take(
                i as int,
            ));
        }
        i += 1;
    }
    proof {
        assert(a.attributes@.take(a.attributes@.len() as int) =~= a.attributes@);
        assert(b.attributes@.take(b.attributes@.len() as int) =~= b.attributes@);
    }
    true
}

pub fn entries_eq(
    a: &Vec<(SearchResultEntry, Vec<Control>)>,
    b: &Vec<(SearchResultEntry, Vec<Control>)>,
) -> (r: bool)
    ensures
        r == entries_equiv(a@, b@),
{
    if a.len() != b.len() {
        return false;
    }
    let mut i: usize = 0;
    while i < a.len()
        invariant
            i <= a.len(),
            a.len() == b.len(),
            entries_equiv(a@.take(i as int), b@.take(i as int)),
        decreases a.len() - i,
    {
        if !(entry_eq(&a[i].0, &b[i].0) && ctrls_eq(&a[i].1, &b[i].1)) {
            proof {
                if entries_equiv(a@, b@) {
                    lemma_entries_equiv_index(a@, b@, i as int);
                }
            }
            return false;
        }
        proof {
            assert(a@.take(i + 1).subrange(0, i as int) =~= a@.take(i as int));
            assert(b@.take(i + 1).subrange(0, i as int) =~= b@.take(i as int));
        }
        i += 1;
    }
    proof {
        assert(a@.take(a@.len() as int) =~= a@);
        assert(b@.take(b@.len() as int) =~= b@);
    }
    true
}

// ---------------------------------------------------------------------------
// Deep copies whose contracts keep the views.
// ---------------------------------------------------------------------------

pub fn clone_bytes(v: &Vec<u8>) -> (r: Vec<u8>)
    ensures
        r@ == v@,
{
    let mut r: Vec<u8> = Vec::new();
    let mut i: usize = 0;
    while i < v.len()
        invariant
            i <= v.len(),
            r@ == v@.take(i as int),
        decreases v.len() - i,
    {
        r.push(v[i]);
        proof {
            assert(r@ =~= v@.take(i + 1));
        }
        i += 1;
    }
    proof {
        assert(v@.take(v@.len() as int) =~= v@);
    }
    r
}

pub fn clone_opt_str(v: &Option<String>) -> (r: Option<String>)
    ensures
        opt_str_equiv(r, *v),
{
    match v {
        Option::None => Option::None,
        Option::Some(x) => Option::Some(x.clone()),
    }
}

pub fn clone_strs(v: &Vec<String>) -> (r: Vec<String>)
    ensures
        strs_equiv(r@, v@),
{
    let mut r: Vec<String> = Vec::new();
    let mut i: usize = 0;
    while i < v.len()
        invariant
            i <= v.len(),
            r@.len() == i,
            strs_equiv(r@, v@.take(i as int)),
        decreases v.len() - i,
    {
        let ghost prev = r@;
        r.push(v[i].clone());
        proof {
            assert(r@.subrange(0, i as int) =~= prev);
            assert(v@.take(i + 1).subrange(0, i as int) =~= v@.take(i as int));
        }
        i += 1;
    }
    proof {
        assert(v@.take(v@.len() as int) =~= v@);
    }
    r
}

impl Clone for SubstringFilter {
    fn clone(&self) -> (r: Self)
        ensures
            sub_equiv(r, *self),
    {
        SubstringFilter {
            initial: clone_opt_str(&self.initial),
            any: clone_strs(&self.any),
            final_part: clone_opt_str(&self.final_part),
        }
    }
}

impl Clone for MatchingRuleAssertion {
    fn clone(&self) -> (r: Self)
        ensures
            mra_equiv(r, *self),
    {
        MatchingRuleAssertion {
            matching_rule: clone_opt_str(&self.matching_rule),
            rule_type: clone_opt_str(&self.rule_type),
            match_value: self.match_value.clone(),
            dn_attributes: self.dn_attributes,
        }
    }
}

impl Clone for Filter {
    fn clone(&self) -> (r: Self)
        ensures
            filter_equiv(r, *self),
        decreases *self,
    {
        match self {
            Filter::And(x) => Filter::And(clone_filter_vec(x)),
            Filter::Or(x) => Filter::Or(clone_filter_vec(x)),
            Filter::Not(x) => Filter::Not(Box::new((**x).clone())),
            Filter::Equality(a, v) => Filter::Equality(a.clone(), v.clone()),
            Filter::Substring(a, s) => Filter::Substring(a.clone(), s.clone()),
            Filter::GreaterOrEqual(a, v) => Filter::GreaterOrEqual(a.clone(), v.clone()),
            Filter::LessOrEqual(a, v) => Filter::LessOrEqual(a.clone(), v.clone()),
            Filter::Present(a) => Filter::Present(a.clone()),
            Filter::Approx(a, v) => Filter::Approx(a.clone(), v.clone()),
            Filter::Extensible(m) => Filter::Extensible(m.clone()),
        }
    }
}

fn clone_filter_vec(v: &Vec<Filter>) -> (r: Vec<Filter>)
    ensures
        filters_equiv(r@, v@),
    decreases v@,
{
    let mut r: Vec<Filter> = Vec::new();
    let mut i: usize = 0;
    while i < v.len()
        invariant
            i <= v.len(),
            r@.len() == i,
            filters_equiv(r@, v@.take(i as int)),
        decreases v.len() - i,
    {
        let ghost prev = r@;
        r.push(v[i].clone());
        proof {
            assert(r@.subrange(0, i as int) =~= prev);
            assert(v@.take(i + 1).subrange(0, i as int) =~= v@.take(i as int));
        }
        i += 1;
    }
    proof {
        assert(v@.take(v@.len() as int) =~= v@);
    }
    r
}

impl Clone for Control {
    fn clone(&self) -> (r: Self)
        ensures
            ctrl_equiv(r, *self),
    {
        Control { raw: clone_bytes(&self.raw) }
    }
}

pub fn clone_ctrls(v: &Vec<Control>) -> (r: Vec<Control>)
    ensures
        ctrls_equiv(r@, v@),
{
    let mut r: Vec<Control> = Vec::new();
    let mut i: usize = 0;
    while i < v.len()
        invariant
            i <= v.len(),
            r@.len() == i,
            ctrls_equiv(r@, v@.take(i as int)),
        decreases v.len() - i,
    {
        let ghost prev = r@;
        r.push(v[i].clone());
        proof {
            assert(r@.subrange(0, i as int) =~= prev);
            assert(v@.take(i + 1).subrange(0, i as int) =~= v@.take(i as int));
        }
        i += 1;
    }
    proof {
        assert(v@.take(v@.len() as int) =~= v@);
    }
    r
}

impl Clone for SearchRequest {
    fn clone(&self) -> (r: Self)
        ensures
            sr_equiv(r, *self),
    {
        SearchRequest {
            base: self.base.clone(),
            scope: self.scope,
            aliases: self.aliases,
            sizelimit: self.sizelimit,
            timelimit: self.timelimit,
            typesonly: self.typesonly,
            filter: self.filter.clone(),
            attrs: clone_strs(&self.attrs),
        }
    }
}

impl Clone for PartialAttribute {
    fn clone(&self) -> (r: Self)
        ensures
            attr_equiv(r, *self),
    {
        let mut vals: Vec<Vec<u8>> = Vec::new();
        let mut i: usize = 0;
        while i < self.vals.len()
            invariant
                i <= self.vals.len(),
                vals@.len() == i,
                vals_equiv(vals@, self.vals@.take(i as int)),
            decreases self.vals.len() - i,
        {
            let ghost prev = vals@;
            vals.push(clone_bytes(&self.vals[i]));
            proof {
                assert(vals@.subrange(0, i as int) =~= prev);
                assert(self.vals@.take(i + 1).subrange(0, i as int) =~= self.vals@.take(i as int));
            }
            i += 1;
        }
        proof {
            assert(self.vals@.take(self.vals@.len() as int) =~= self.vals@);
        }
        PartialAttribute { atype: self.atype.clone(), vals }
    }
}

impl Clone for SearchResultEntry {
    fn clone(&self) -> (r: Self)
        ensures
            entry_equiv(r, *self),
    {
        let mut attributes: Vec<PartialAttribute> = Vec::new();
        let mut i: usize = 0;
        while i < self.attributes.len()
            invariant
                i <= self.attributes.len(),
                attributes@.len() == i,
                attrs_equiv(attributes@, self.attributes@.take(i as int)),
            decreases self.attributes.len() - i,
        {
            let ghost prev = attributes@;
            attributes.push(self.attributes[i].clone());
            proof {
                assert(attributes@.subrange(0, i as int) =~= prev);
                assert(self.attributes@.take(i + 1).subrange(0, i as int) =~= self.attributes@.take(
                    i as int,
                ));
            }
            i += 1;
        }
        proof {
            assert(self.attributes@.take(self.attributes@.len() as int) =~= self.attributes@);
        }
        SearchResultEntry { dn: self.dn.clone(), attributes }
    }
}

impl Clone for LdapResult {
    fn clone(&self) -> (r: Self)
        ensures
            result_equiv(r, *self),
    {
        LdapResult {
            code: self.code,
            matcheddn: self.matcheddn.clone(),
            message: self.message.clone(),
            referral: clone_strs(&self.referral),
        }
    }
}

pub fn clone_entries(v: &Vec<(SearchResultEntry, Vec<Control>)>) -> (r: Vec<
    (SearchResultEntry, Vec<Control>),
>)
    ensures
        entries_equiv(r@, v@),
{
    let mut r: Vec<(SearchResultEntry, Vec<Control>)> = Vec::new();
    let mut i: usize = 0;
    while i < v.len()
        invariant
            i <= v.len(),
            r@.len() == i,
            entries_equiv(r@, v@.take(i as int)),
        decreases v.len() - i,
    {
        let pair = (v[i].0.clone(), clone_ctrls(&v[i].1));
        let ghost prev = r@;
        r.push(pair);
        proof {
            assert(r@.subrange(0, i as int) =~= prev);
            assert(v@.take(i + 1).subrange(0, i as int) =~= v@.take(i as int));
        }
        i += 1;
    }
    proof {
        assert(v@.take(v@.len() as int) =~= v@);
    }
    r
}

} // verus!
