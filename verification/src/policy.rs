//! Policy resolution: turning an anonymous superuser request into an
//! Allow/Deny decision.
//!
//! The resolver consults a cached per-uid decision first; on a miss it
//! asks the manager application through a bounded, blocking round trip
//! that the surrounding process performs. Resolution is therefore split
//! into two verified halves: [`resolve_begin`] decides from the cache and
//! the registry whether a prompt is needed at all, and [`resolve_finish`]
//! turns whatever came back from the manager into the final decision and
//! the cache write. Every outcome is normalized to Deny or Allow; the
//! `Query` sentinel is never returned and never persisted, and the absence
//! of a manager is never read as trust (fail closed).

use crate::request::SuRequest;
use vstd::prelude::*;

verus! {

/// A policy decision. `Query` is the "no cached answer, must ask"
/// sentinel: it gates a manager round trip and is never a final outcome.
#[derive(Clone, Copy, Debug, PartialEq, Eq, Structural)]
pub enum SuPolicy {
    Query,
    Deny,
    Allow,
}

/// Kernel-verified identity of a connecting peer, supplied by the
/// operating system at connection time; never taken from the client's
/// payload.
#[derive(Clone, Copy, Debug, PartialEq, Eq, Structural)]
pub struct UCred {
    pub pid: i32,
    pub uid: i32,
    pub gid: i32,
}

/// The resolver-facing view of one request: the peer identity, the
/// identity actually evaluated against policy, the manager application's
/// coordinates, and the request itself.
pub struct SuAppRequest {
    pub uid: i32,
    pub pid: i32,
    pub eval_uid: i32,
    pub mgr_pkg: String,
    pub mgr_uid: i32,
    pub request: SuRequest,
}

/// Build the resolver-facing view of a request. The peer credential is
/// the only trusted identity source: `uid` and `pid` come from it, never
/// from the uid embedded in the request body.
pub fn make_app_request(cred: &UCred, eval_uid: i32, mgr_pkg: String, mgr_uid: i32, request:
    SuRequest) -> (r: SuAppRequest)
    ensures
        r.uid == cred.uid,
        r.pid == cred.pid,
        r.eval_uid == eval_uid,
        r.mgr_pkg@ == mgr_pkg@,
        r.mgr_uid == mgr_uid,
        r.request == request,
{
    SuAppRequest { uid: cred.uid, pid: cred.pid, eval_uid, mgr_pkg, mgr_uid, request }
}

// ----------------------------------------------------------------------
// The cached-decision store
// ----------------------------------------------------------------------

/// First-match lookup over the store's entry list; a fresh write is
/// placed in front of older ones, so the freshest write wins.
pub open spec fn lookup(s: Seq<(i32, SuPolicy)>, uid: i32) -> Option<SuPolicy>
    decreases s.len(),
{
    if s.len() == 0 {
        None
    } else if s[0].0 == uid {
        Some(s[0].1)
    } else {
        lookup(s.drop_first(), uid)
    }
}

/// No entry carries the `Query` sentinel: it is not a storable outcome.
pub open spec fn no_query(s: Seq<(i32, SuPolicy)>) -> bool {
    forall|i: int| 0 <= i < s.len() ==> (#[trigger] s[i]).1 != SuPolicy::Query
}

/// A decision looked up in a `Query`-free store is never `Query`.
pub proof fn lemma_lookup_no_query(s: Seq<(i32, SuPolicy)>, uid: i32)
    requires
        no_query(s),
    ensures
        lookup(s, uid) matches Some(d) ==> d != SuPolicy::Query,
    decreases s.len(),
{
    if s.len() > 0 && s[0].0 != uid {
        lemma_lookup_no_query(s.drop_first(), uid);
    }
}

/// The cached per-uid decision store. The daemon treats it as a keyed
/// black box: reads see the freshest write for a uid, and concurrent
/// duplicate resolutions for one uid end with the last write winning.
pub struct DecisionStore {
    entries: Vec<(i32, SuPolicy)>,
}

impl View for DecisionStore {
    type V = Seq<(i32, SuPolicy)>;

    closed spec fn view(&self) -> Seq<(i32, SuPolicy)> {
        self.entries@
    }
}

impl DecisionStore {
    /// The store's invariant: the `Query` sentinel is never stored.
    pub open spec fn wf(&self) -> bool {
        no_query(self@)
    }

    /// An empty store: no uid has a cached decision.
    pub fn new() -> (s: Self)
        ensures
            s@.len() == 0,
            s.wf(),
            forall|u: i32| lookup(s@, u) is None,
    {
        let s = DecisionStore { entries: Vec::new() };
        s
    }

    /// Read the cached decision for `uid`, if any.
    pub fn get(&self, uid: i32) -> (r: Option<SuPolicy>)
        ensures
            r == lookup(self@, uid),
    {
        let n = self.entries.len();
        let mut i: usize = 0;
        proof {
            assert(self@.skip(0) =~= self@);
        }
        while i < n
            invariant
                i <= n,
                n == self@.len(),
                lookup(self@, uid) == lookup(self@.skip(i as int), uid),
            decreases n - i,
        {
            proof {
                let suf = self@.skip(i as int);
                assert(suf[0] == self@[i as int]);
                assert(suf.drop_first() =~= self@.skip(i as int + 1));
            }
            let (k, d) = self.entries[i];
            if k == uid {
                return Some(d);
            }
            i = i + 1;
        }
        proof {
            assert(self@.skip(n as int) =~= Seq::<(i32, SuPolicy)>::empty());
        }
        None
    }

    /// Write the decision for `uid`. The write shadows any older entry
    /// for the same uid and leaves every other uid's answer unchanged;
    /// the `Query` sentinel is refused by contract.
    pub fn set(&mut self, uid: i32, d: SuPolicy)
        requires
            old(self).wf(),
            d != SuPolicy::Query,
        ensures
            final(self).wf(),
            final(self)@ == old(self)@.insert(0, (uid, d)),
            lookup(final(self)@, uid) == Some(d),
            forall|u: i32| u != uid ==> lookup(final(self)@, u) == lookup(old(self)@, u),
    {
        self.entries.insert(0, (uid, d));
        proof {
            let s = self@;
            assert(s =~= old(self)@.insert(0, (uid, d)));
            assert(s.drop_first() =~= old(self)@);
            assert(s[0] == (uid, d));
            assert forall|u: i32| u != uid implies lookup(s, u) == lookup(old(self)@, u) by {
                assert(lookup(s, u) == lookup(s.drop_first(), u));
            }
            assert forall|i: int| 0 <= i < s.len() implies (#[trigger] s[i]).1 != SuPolicy::Query
                by {
                if i > 0 {
                    assert(s[i] == old(self)@[i - 1]);
                }
            }
        }
    }
}

// ----------------------------------------------------------------------
// The manager-endpoint registry
// ----------------------------------------------------------------------

/// The manager application's listening endpoint for one user space: its
/// package name and its uid.
pub struct ManagerEndpoint {
    pub pkg: String,
    pub uid: i32,
}

/// First-match lookup over the registry's entry list; the freshest
/// registration for a user space wins.
pub open spec fn reg_lookup(s: Seq<(i32, ManagerEndpoint)>, user: i32) -> Option<ManagerEndpoint>
    decreases s.len(),
{
    if s.len() == 0 {
        None
    } else if s[0].0 == user {
        Some(s[0].1)
    } else {
        reg_lookup(s.drop_first(), user)
    }
}

/// The process-wide registry of manager endpoints, keyed by user-space
/// id. Absence of an entry means no manager is reachable for that user
/// space, which the resolver treats as an immediate Deny.
pub struct ManagerRegistry {
    entries: Vec<(i32, ManagerEndpoint)>,
}

impl View for ManagerRegistry {
    type V = Seq<(i32, ManagerEndpoint)>;

    closed spec fn view(&self) -> Seq<(i32, ManagerEndpoint)> {
        self.entries@
    }
}

impl ManagerRegistry {
    /// An empty registry: no user space has a manager.
    pub fn new() -> (s: Self)
        ensures
            s@.len() == 0,
            forall|u: i32| reg_lookup(s@, u) is None,
    {
        ManagerRegistry { entries: Vec::new() }
    }

    /// Register the manager endpoint for a user space, shadowing any
    /// older registration and leaving other user spaces unchanged.
    pub fn register(&mut self, user: i32, endpoint: ManagerEndpoint)
        ensures
            final(self)@ == old(self)@.insert(0, (user, endpoint)),
            reg_lookup(final(self)@, user) == Some(endpoint),
            forall|u: i32| u != user ==> reg_lookup(final(self)@, u) == reg_lookup(old(self)@, u),
    {
        self.entries.insert(0, (user, endpoint));
        proof {
            let s = self@;
            assert(s =~= old(self)@.insert(0, (user, endpoint)));
            assert(s.drop_first() =~= old(self)@);
            assert(s[0] == (user, endpoint));
            assert forall|u: i32| u != user implies reg_lookup(s, u) == reg_lookup(old(self)@, u)
                by {
                assert(reg_lookup(s, u) == reg_lookup(s.drop_first(), u));
            }
        }
    }

    /// Locate the manager endpoint for a user space: its package name
    /// and uid, or `None` when none is registered.
    pub fn lookup(&self, user: i32) -> (r: Option<(String, i32)>)
        ensures
            r is Some <==> reg_lookup(self@, user) is Some,
            r matches Some((p, u)) ==> {
                let ep = reg_lookup(self@, user)->0;
                p@ == ep.pkg@ && u == ep.uid
            },
    {
        let n = self.entries.len();
        let mut i: usize = 0;
        proof {
            assert(self@.skip(0) =~= self@);
        }
        while i < n
            invariant
                i <= n,
                n == self@.len(),
                reg_lookup(self@, user) == reg_lookup(self@.skip(i as int), user),
            decreases n - i,
        {
            proof {
                let suf = self@.skip(i as int);
                assert(suf[0] == self@[i as int]);
                assert(suf.drop_first() =~= self@.skip(i as int + 1));
            }
            let e = &self.entries[i];
            if e.0 == user {
                return Some((e.1.pkg.clone(), e.1.uid));
            }
            i = i + 1;
        }
        proof {
            assert(self@.skip(n as int) =~= Seq::<(i32, ManagerEndpoint)>::empty());
        }
        None
    }
}

// ----------------------------------------------------------------------
// Resolution
// ----------------------------------------------------------------------

/// The data a manager prompt carries: the request's public identity
/// fields, never the raw payload.
#[derive(Clone, Copy, Debug, PartialEq, Eq, Structural)]
pub struct Prompt {
    pub uid: i32,
    pub pid: i32,
    pub eval_uid: i32,
}

/// What `resolve_begin` decides: either the final decision is already
/// known without any manager contact, or a prompt round trip is needed.
#[derive(Clone, Copy, Debug, PartialEq, Eq, Structural)]
pub enum ResolveStep {
    Decided(SuPolicy),
    AskManager(Prompt),
}

/// What came back from the manager round trip: a timeout or communication
/// failure, or an explicit reply carrying the decision and whether the
/// manager asks for it to be cached.
#[derive(Clone, Copy, Debug, PartialEq, Eq, Structural)]
pub enum ManagerOutcome {
    NoReply,
    Reply { policy: SuPolicy, cache: bool },
}

/// Normalization of a final outcome: everything that is not an explicit
/// Allow is a Deny.
pub open spec fn normalize(p: SuPolicy) -> SuPolicy {
    if p == SuPolicy::Allow {
        SuPolicy::Allow
    } else {
        SuPolicy::Deny
    }
}

/// The first half of resolution, from the cache and the registry alone.
pub open spec fn spec_resolve_begin(
    store: Seq<(i32, SuPolicy)>,
    mgr_registered: bool,
    uid: i32,
    pid: i32,
    eval_uid: i32,
) -> ResolveStep {
    match lookup(store, eval_uid) {
        Some(d) => if d != SuPolicy::Query {
            ResolveStep::Decided(d)
        } else if mgr_registered {
            ResolveStep::AskManager(Prompt { uid, pid, eval_uid })
        } else {
            ResolveStep::Decided(SuPolicy::Deny)
        },
        None => if mgr_registered {
            ResolveStep::AskManager(Prompt { uid, pid, eval_uid })
        } else {
            ResolveStep::Decided(SuPolicy::Deny)
        },
    }
}

/// The decision that the second half of resolution returns.
pub open spec fn spec_finish_decision(outcome: ManagerOutcome) -> SuPolicy {
    match outcome {
        ManagerOutcome::NoReply => SuPolicy::Deny,
        ManagerOutcome::Reply { policy, cache } => normalize(policy),
    }
}

/// The store contents after the second half of resolution.
pub open spec fn spec_finish_store(
    store: Seq<(i32, SuPolicy)>,
    eval_uid: i32,
    outcome: ManagerOutcome,
) -> Seq<(i32, SuPolicy)> {
    match outcome {
        ManagerOutcome::NoReply => store,
        ManagerOutcome::Reply { policy, cache } => if cache && policy != SuPolicy::Query {
            store.insert(0, (eval_uid, policy))
        } else {
            store
        },
    }
}

/// Begin resolving: consult the cached decision for the evaluated uid,
/// and fall back to the manager registry. No manager is contacted here;
/// a result of `Decided` means resolution is complete with zero blocking
/// calls, and in particular the absence of a registered manager resolves
/// to Deny on the spot.
pub fn resolve_begin(store: &DecisionStore, mgr_registered: bool, req: &SuAppRequest) -> (r:
    ResolveStep)
    ensures
        r == spec_resolve_begin(store@, mgr_registered, req.uid, req.pid, req.eval_uid),
{
    match store.get(req.eval_uid) {
        Some(d) => {
            if !matches!(d, SuPolicy::Query) {
                ResolveStep::Decided(d)
            } else if mgr_registered {
                ResolveStep::AskManager(
                    Prompt { uid: req.uid, pid: req.pid, eval_uid: req.eval_uid },
                )
            } else {
                ResolveStep::Decided(SuPolicy::Deny)
            }
        },
        None => {
            if mgr_registered {
                ResolveStep::AskManager(
                    Prompt { uid: req.uid, pid: req.pid, eval_uid: req.eval_uid },
                )
            } else {
                ResolveStep::Decided(SuPolicy::Deny)
            }
        },
    }
}

/// Finish resolving after the manager round trip. A timeout or
/// communication failure is a Deny with no cache write; an explicit reply
/// is normalized to Deny/Allow, and is written to the store only when the
/// reply asks for caching and carries a storable (non-`Query`) decision.
pub fn resolve_finish(store: &mut DecisionStore, eval_uid: i32, outcome: ManagerOutcome) -> (r:
    SuPolicy)
    requires
        old(store).wf(),
    ensures
        final(store).wf(),
        r == spec_finish_decision(outcome),
        r != SuPolicy::Query,
        final(store)@ == spec_finish_store(old(store)@, eval_uid, outcome),
{
    match outcome {
        ManagerOutcome::NoReply => SuPolicy::Deny,
        ManagerOutcome::Reply { policy, cache } => {
            if cache && !matches!(policy, SuPolicy::Query) {
                store.set(eval_uid, policy);
            }
            if matches!(policy, SuPolicy::Allow) {
                SuPolicy::Allow
            } else {
                SuPolicy::Deny
            }
        },
    }
}

// ----------------------------------------------------------------------
// Laws
// ----------------------------------------------------------------------

/// A uid with a cached decision is answered from the cache alone: the
/// manager endpoint is never contacted, whatever the registry holds. In
/// particular a cached Deny denies immediately.
pub proof fn lemma_cached_decision_fast_path(
    store: Seq<(i32, SuPolicy)>,
    mgr_registered: bool,
    uid: i32,
    pid: i32,
    eval_uid: i32,
)
    requires
        no_query(store),
        lookup(store, eval_uid) is Some,
    ensures
        spec_resolve_begin(store, mgr_registered, uid, pid, eval_uid) == ResolveStep::Decided(
            lookup(store, eval_uid)->0,
        ),
        !(spec_resolve_begin(store, mgr_registered, uid, pid, eval_uid) is AskManager),
{
    lemma_lookup_no_query(store, eval_uid);
}

/// Fail closed: a uid with no cache entry and no registered manager is
/// denied at once, with no prompt step and hence no blocking call.
pub proof fn lemma_no_manager_fail_closed(
    store: Seq<(i32, SuPolicy)>,
    uid: i32,
    pid: i32,
    eval_uid: i32,
)
    requires
        lookup(store, eval_uid) is None,
    ensures
        spec_resolve_begin(store, false, uid, pid, eval_uid) == ResolveStep::Decided(
            SuPolicy::Deny,
        ),
{
}

/// The `Query` sentinel is never resolution's final value and is never
/// persisted: beginning never decides `Query` over a well-formed store,
/// finishing never returns it, and the store stays `Query`-free through
/// any outcome.
pub proof fn lemma_query_never_final_nor_cached(
    store: Seq<(i32, SuPolicy)>,
    mgr_registered: bool,
    uid: i32,
    pid: i32,
    eval_uid: i32,
    outcome: ManagerOutcome,
)
    requires
        no_query(store),
    ensures
        !(spec_resolve_begin(store, mgr_registered, uid, pid, eval_uid) == ResolveStep::Decided(
            SuPolicy::Query,
        )),
        spec_finish_decision(outcome) != SuPolicy::Query,
        no_query(spec_finish_store(store, eval_uid, outcome)),
{
    lemma_lookup_no_query(store, eval_uid);
    let s2 = spec_finish_store(store, eval_uid, outcome);
    match outcome {
        ManagerOutcome::NoReply => {},
        ManagerOutcome::Reply { policy, cache } => {
            if cache && policy != SuPolicy::Query {
                assert(s2 =~= seq![(eval_uid, policy)] + store);
                assert forall|i: int| 0 <= i < s2.len() implies (#[trigger] s2[i]).1
                    != SuPolicy::Query by {
                    if i > 0 {
                        assert(s2[i] == store[i - 1]);
                    }
                }
            }
        },
    }
}

} // verus!
