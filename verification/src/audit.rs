//! The notifier/auditor step of the pipeline.
//!
//! Whatever path a resolution took — cache hit, manager reply, timeout or
//! missing manager — concluding it produces exactly one UI notification
//! and exactly one audit-log record, in that order. Both are
//! fire-and-forget for the surrounding process: whether the notification
//! succeeded is recorded in the log record for diagnosability, but never
//! gates logging, and neither can change the decision.

use crate::policy::{
    lemma_lookup_no_query, no_query, spec_finish_decision, spec_resolve_begin, ManagerOutcome,
    ResolveStep, SuAppRequest, SuPolicy,
};
use vstd::prelude::*;

verus! {

/// One fire-and-forget side effect of a concluded resolution, carrying
/// the original attribution tuple.
#[derive(Clone, Copy, Debug, PartialEq, Eq, Structural)]
pub enum AuditEvent {
    Notify { uid: i32, pid: i32, policy: SuPolicy },
    Log { uid: i32, pid: i32, policy: SuPolicy, notified: bool },
}

/// The exact event sequence a concluded resolution emits: one
/// notification, then one log record.
pub open spec fn spec_decision_events(uid: i32, pid: i32, policy: SuPolicy, notified: bool) -> Seq<
    AuditEvent,
> {
    seq![
        AuditEvent::Notify { uid, pid, policy },
        AuditEvent::Log { uid, pid, policy, notified },
    ]
}

/// Conclude one resolved request: emit its notification and audit-log
/// events. Exactly one of each is produced, the notification first, both
/// carrying the decision and the original (uid, pid); `notified` records
/// whether the notification itself succeeded.
pub fn decision_events(req: &SuAppRequest, policy: SuPolicy, notified: bool) -> (r: Vec<AuditEvent>)
    ensures
        r@ == spec_decision_events(req.uid, req.pid, policy, notified),
{
    let mut out: Vec<AuditEvent> = Vec::new();
    out.push(AuditEvent::Notify { uid: req.uid, pid: req.pid, policy });
    out.push(AuditEvent::Log { uid: req.uid, pid: req.pid, policy, notified });
    proof {
        assert(out@ =~= spec_decision_events(req.uid, req.pid, policy, notified));
    }
    out
}

/// Whether an event is a notification.
pub open spec fn is_notify(e: AuditEvent) -> bool {
    e is Notify
}

/// Whether an event is an audit-log record.
pub open spec fn is_log(e: AuditEvent) -> bool {
    e is Log
}

/// Exactly-once, in order: for every decision the event sequence holds
/// one notification and one log record, and the notification comes
/// first. This holds per resolution, so concurrent duplicate resolutions
/// for one uid each conclude with their own single pair.
pub proof fn lemma_one_notify_one_log(uid: i32, pid: i32, policy: SuPolicy, notified: bool)
    ensures
        ({
            let es = spec_decision_events(uid, pid, policy, notified);
            &&& es.len() == 2
            &&& forall|i: int| 0 <= i < es.len() ==> (is_notify(#[trigger] es[i]) <==> i == 0)
            &&& forall|i: int| 0 <= i < es.len() ==> (is_log(#[trigger] es[i]) <==> i == 1)
            &&& forall|i: int, j: int|
                0 <= i < es.len() && 0 <= j < es.len() && is_notify(es[i]) && is_log(es[j]) ==> i
                    < j
        }),
{
}

/// End to end: whichever path a resolution takes over a well-formed
/// store — a cache hit, a missing manager, a manager timeout or an
/// explicit reply — its final decision is Deny or Allow, and concluding
/// it emits exactly one notification followed by exactly one audit
/// record carrying that decision.
pub proof fn lemma_pipeline_conclusion(
    store: Seq<(i32, SuPolicy)>,
    mgr_registered: bool,
    uid: i32,
    pid: i32,
    eval_uid: i32,
    outcome: ManagerOutcome,
    notified: bool,
)
    requires
        no_query(store),
    ensures
        ({
            let d = match spec_resolve_begin(store, mgr_registered, uid, pid, eval_uid) {
                ResolveStep::Decided(d0) => d0,
                ResolveStep::AskManager(_) => spec_finish_decision(outcome),
            };
            let es = spec_decision_events(uid, pid, d, notified);
            &&& d == SuPolicy::Allow || d == SuPolicy::Deny
            &&& es.len() == 2
            &&& es[0] == (AuditEvent::Notify { uid, pid, policy: d })
            &&& es[1] == (AuditEvent::Log { uid, pid, policy: d, notified })
        }),
{
    lemma_lookup_no_query(store, eval_uid);
}

} // verus!
