//! Dispatcher, resolver, audit and engine behaviour, including the
//! end-to-end scenarios: a cached Allow, a fail-closed miss, a client
//! disconnect mid-session, and concurrent duplicate resolutions.

use su_broker::audit::{decision_events, AuditEvent};
use su_broker::dispatch::{
    after_boot_command, dispatch, wire_code, BootPhase, DaemonPhase, RequestCode,
};
use su_broker::engine::{
    execution_allowed, execution_plan, relay_step, CleanupAction, EngineRun, ExecStep, MntNsMode,
    RelayAction, RelayEvent, RelayState,
};
use su_broker::policy::{
    make_app_request, resolve_begin, resolve_finish, DecisionStore, ManagerEndpoint,
    ManagerOutcome, ManagerRegistry, ResolveStep, SuAppRequest, SuPolicy, UCred,
};
use su_broker::request::SuRequest;
use su_broker::EXEC_NOT_STARTED;

fn plain_request(uid: i32, command: &str) -> SuRequest {
    SuRequest {
        target_uid: uid,
        target_pid: 321,
        login: false,
        keep_env: false,
        shell: String::from("/system/bin/sh"),
        command: String::from(command),
        context: String::new(),
        gids: vec![],
    }
}

fn app_request(uid: i32, command: &str) -> SuAppRequest {
    let cred = UCred { pid: 321, uid, gid: uid };
    make_app_request(&cred, uid, String::from("com.example.manager"), 10000, plain_request(
        uid, command,
    ))
}

// ---------------------------------------------------------------- dispatch

#[test]
fn wire_codes_are_stable() {
    assert_eq!(wire_code(0), Some(RequestCode::StartDaemon));
    assert_eq!(wire_code(3), Some(RequestCode::StopDaemon));
    assert_eq!(wire_code(5), Some(RequestCode::Superuser));
    assert_eq!(wire_code(10), Some(RequestCode::Zygisk));
    assert_eq!(wire_code(12), Some(RequestCode::PostFsData));
    assert_eq!(wire_code(14), Some(RequestCode::BootComplete));
    // The two band sentinels and the end marker name no command.
    assert_eq!(wire_code(4), None);
    assert_eq!(wire_code(11), None);
    assert_eq!(wire_code(15), None);
    assert_eq!(wire_code(-1), None);
    assert_eq!(wire_code(99), None);
}

#[test]
fn dispatch_bands_follow_phase() {
    let booting = DaemonPhase { ready: false, boot: BootPhase::AwaitPostFsData };
    let ready = DaemonPhase { ready: true, boot: BootPhase::AwaitLateStart };
    // Session commands are accepted at any time.
    assert_eq!(dispatch(1, booting), Some(RequestCode::CheckVersion));
    assert_eq!(dispatch(1, ready), Some(RequestCode::CheckVersion));
    // Privileged commands only once the daemon is ready.
    assert_eq!(dispatch(5, booting), None);
    assert_eq!(dispatch(5, ready), Some(RequestCode::Superuser));
    // A boot-stage command only during its own phase.
    assert_eq!(dispatch(12, booting), Some(RequestCode::PostFsData));
    assert_eq!(dispatch(12, ready), None);
    assert_eq!(dispatch(13, ready), Some(RequestCode::LateStart));
    // Unknown and sentinel codes close the connection in every phase.
    assert_eq!(dispatch(4, ready), None);
    assert_eq!(dispatch(11, booting), None);
    assert_eq!(dispatch(-7, ready), None);
}

#[test]
fn boot_stages_advance_in_order() {
    let start = DaemonPhase { ready: false, boot: BootPhase::AwaitPostFsData };
    let after_first = after_boot_command(start, RequestCode::PostFsData);
    assert!(after_first.ready);
    assert_eq!(after_first.boot, BootPhase::AwaitLateStart);
    let after_second = after_boot_command(after_first, RequestCode::LateStart);
    assert_eq!(after_second.boot, BootPhase::AwaitBootComplete);
    let after_third = after_boot_command(after_second, RequestCode::BootComplete);
    assert_eq!(after_third.boot, BootPhase::BootDone);
    // Once a stage is over its command is out of band.
    assert_eq!(dispatch(12, after_first), None);
}

// ----------------------------------------------------------------- policy

#[test]
fn peer_credential_overrides_payload_uid() {
    let cred = UCred { pid: 55, uid: 10007, gid: 10007 };
    // The payload claims uid 0; the resolver-facing view must carry the
    // kernel-verified identity instead.
    let req = make_app_request(&cred, 10007, String::new(), 10000, plain_request(0, "id"));
    assert_eq!(req.uid, 10007);
    assert_eq!(req.pid, 55);
    assert_eq!(req.request.target_uid, 0);
}

#[test]
fn cached_deny_skips_manager() {
    let mut store = DecisionStore::new();
    store.set(10055, SuPolicy::Deny);
    let req = app_request(10055, "id");
    // Even with a manager registered, the cached Deny answers at once.
    match resolve_begin(&store, true, &req) {
        ResolveStep::Decided(d) => assert_eq!(d, SuPolicy::Deny),
        ResolveStep::AskManager(_) => panic!("cached Deny must not reach the manager"),
    }
}

#[test]
fn cached_allow_skips_manager() {
    let mut store = DecisionStore::new();
    store.set(10060, SuPolicy::Allow);
    let req = app_request(10060, "id");
    match resolve_begin(&store, false, &req) {
        ResolveStep::Decided(d) => assert_eq!(d, SuPolicy::Allow),
        ResolveStep::AskManager(_) => panic!("cached Allow must not reach the manager"),
    }
}

#[test]
fn no_cache_no_manager_fails_closed() {
    let store = DecisionStore::new();
    let req = app_request(10200, "id");
    match resolve_begin(&store, false, &req) {
        ResolveStep::Decided(d) => assert_eq!(d, SuPolicy::Deny),
        ResolveStep::AskManager(_) => panic!("no registered manager: no round trip may start"),
    }
}

#[test]
fn registry_keys_endpoints_by_user_space() {
    let mut registry = ManagerRegistry::new();
    assert_eq!(registry.lookup(0), None);
    registry.register(0, ManagerEndpoint { pkg: String::from("com.example.manager"), uid: 10000 });
    registry.register(10, ManagerEndpoint { pkg: String::from("com.example.second"), uid: 1010000 });
    let (pkg, uid) = registry.lookup(0).unwrap();
    assert_eq!(pkg, "com.example.manager");
    assert_eq!(uid, 10000);
    let (pkg, uid) = registry.lookup(10).unwrap();
    assert_eq!(pkg, "com.example.second");
    assert_eq!(uid, 1010000);
    assert_eq!(registry.lookup(11), None);
    // A fresh registration for a user space shadows the old one.
    registry.register(0, ManagerEndpoint { pkg: String::from("com.example.third"), uid: 10999 });
    assert_eq!(registry.lookup(0).unwrap().1, 10999);
}

#[test]
fn manager_timeout_denies_without_cache_write() {
    let mut store = DecisionStore::new();
    let d = resolve_finish(&mut store, 10300, ManagerOutcome::NoReply);
    assert_eq!(d, SuPolicy::Deny);
    assert_eq!(store.get(10300), None);
}

#[test]
fn manager_reply_without_cache_bit_is_not_persisted() {
    let mut store = DecisionStore::new();
    let d = resolve_finish(&mut store, 10301, ManagerOutcome::Reply {
        policy: SuPolicy::Allow,
        cache: false,
    });
    assert_eq!(d, SuPolicy::Allow);
    assert_eq!(store.get(10301), None);
}

#[test]
fn query_reply_normalizes_to_deny_and_is_never_cached() {
    let mut store = DecisionStore::new();
    let d = resolve_finish(&mut store, 10302, ManagerOutcome::Reply {
        policy: SuPolicy::Query,
        cache: true,
    });
    assert_eq!(d, SuPolicy::Deny);
    assert_eq!(store.get(10302), None);
}

#[test]
fn store_last_write_wins() {
    let mut store = DecisionStore::new();
    store.set(42, SuPolicy::Allow);
    store.set(7, SuPolicy::Deny);
    store.set(42, SuPolicy::Deny);
    assert_eq!(store.get(42), Some(SuPolicy::Deny));
    assert_eq!(store.get(7), Some(SuPolicy::Deny));
    assert_eq!(store.get(1), None);
}

// ------------------------------------------------------------------ audit

#[test]
fn one_notify_then_one_log_per_decision() {
    let req = app_request(10010, "ls");
    let events = decision_events(&req, SuPolicy::Allow, true);
    assert_eq!(events.len(), 2);
    assert_eq!(events[0], AuditEvent::Notify { uid: 10010, pid: 321, policy: SuPolicy::Allow });
    assert_eq!(events[1], AuditEvent::Log {
        uid: 10010,
        pid: 321,
        policy: SuPolicy::Allow,
        notified: true,
    });
}

#[test]
fn failed_notification_never_gates_logging() {
    let req = app_request(10011, "ls");
    let events = decision_events(&req, SuPolicy::Deny, false);
    assert_eq!(events.len(), 2);
    assert_eq!(events[1], AuditEvent::Log {
        uid: 10011,
        pid: 321,
        policy: SuPolicy::Deny,
        notified: false,
    });
}

// ----------------------------------------------------------------- engine

#[test]
fn plan_switches_groups_before_gid_before_uid() {
    let req = plain_request(10100, "id");
    let plan = execution_plan(&req, 321, MntNsMode::Requester);
    let groups = plan.iter().position(|s| matches!(s, ExecStep::SetGroups)).unwrap();
    let gid = plan.iter().position(|s| matches!(s, ExecStep::SetGid(_))).unwrap();
    let uid = plan.iter().position(|s| matches!(s, ExecStep::SetUid(_))).unwrap();
    assert!(groups < gid);
    assert!(gid < uid);
}

#[test]
fn login_session_gets_a_pty() {
    let mut req = plain_request(10100, "");
    req.login = true;
    let plan = execution_plan(&req, 321, MntNsMode::Global);
    assert!(plan.iter().any(|s| matches!(s, ExecStep::WirePty)));
    assert!(!plan.iter().any(|s| matches!(s, ExecStep::WireStdio)));
}

#[test]
fn shell_is_interactive_only_for_login_without_command() {
    let mut req = plain_request(10100, "");
    req.login = true;
    let plan = execution_plan(&req, 321, MntNsMode::Global);
    assert!(plan
        .iter()
        .any(|s| matches!(s, ExecStep::ExecShell { interactive: true, keep_env: false })));
    let req2 = plain_request(10100, "id");
    let plan2 = execution_plan(&req2, 321, MntNsMode::Global);
    assert!(plan2
        .iter()
        .any(|s| matches!(s, ExecStep::ExecShell { interactive: false, keep_env: false })));
}

#[test]
fn identity_switch_failure_aborts_and_kills_child() {
    let req = plain_request(10100, "id");
    let mut run = EngineRun::start(&req, 321, MntNsMode::Global);
    // Namespace, fork and group list commit; the gid switch fails.
    for _ in 0..3 {
        assert!(run.next_step().is_some());
        run.report(true);
    }
    assert!(matches!(run.next_step(), Some(ExecStep::SetGid(10100))));
    run.report(false);
    assert_eq!(run.next_step(), None);
    // The forked child must not be left running with root credentials.
    assert_eq!(run.cleanup(), Some(CleanupAction::KillChild));
    assert_eq!(run.status(0), EXEC_NOT_STARTED);
}

#[test]
fn failure_before_fork_needs_no_cleanup() {
    let req = plain_request(10100, "id");
    let mut run = EngineRun::start(&req, 321, MntNsMode::Isolate);
    run.report(false);
    assert_eq!(run.cleanup(), None);
    assert_eq!(run.status(0), EXEC_NOT_STARTED);
}

// -------------------------------------------------------------- scenarios

/// uid 10100 has a cached Allow and asks for `id`: no manager contact,
/// the engine spawns with uid 10100, and the shell's own exit code comes
/// back to the client.
#[test]
fn scenario_cached_allow_runs_command() {
    let mut store = DecisionStore::new();
    store.set(10100, SuPolicy::Allow);
    let req = app_request(10100, "id");
    let decision = match resolve_begin(&store, true, &req) {
        ResolveStep::Decided(d) => d,
        ResolveStep::AskManager(_) => panic!("cache hit must not prompt"),
    };
    assert_eq!(decision, SuPolicy::Allow);
    let events = decision_events(&req, decision, true);
    assert_eq!(events.len(), 2);
    assert!(execution_allowed(decision));
    let mut run = EngineRun::start(&req.request, req.pid, MntNsMode::Requester);
    assert!(matches!(
        run.next_step(),
        Some(ExecStep::AttachNamespace { mode: MntNsMode::Requester, requester_pid: 321 })
    ));
    let mut saw_uid_switch = false;
    while let Some(step) = run.next_step() {
        if matches!(step, ExecStep::SetUid(u) if u == 10100) {
            saw_uid_switch = true;
        }
        run.report(true);
    }
    assert!(saw_uid_switch);
    // Every step committed: the child's exit status passes through.
    assert_eq!(run.status(0), 0);
    assert_eq!(run.status(3), 3);
}

/// uid 10200 has no cache entry and no manager endpoint is registered:
/// Deny on the spot, no prompt step, and execution never starts.
#[test]
fn scenario_uncached_uid_without_manager_is_denied() {
    let store = DecisionStore::new();
    let registry = ManagerRegistry::new();
    let mgr_registered = registry.lookup(0).is_some();
    assert!(!mgr_registered);
    let req = app_request(10200, "id");
    let decision = match resolve_begin(&store, mgr_registered, &req) {
        ResolveStep::Decided(d) => d,
        ResolveStep::AskManager(_) => panic!("no manager endpoint: no round trip may start"),
    };
    assert_eq!(decision, SuPolicy::Deny);
    let events = decision_events(&req, decision, true);
    assert_eq!(events.len(), 2);
    assert!(!execution_allowed(decision));
}

/// The client disconnects mid-interactive-session: the relay detects the
/// end of stream, terminates the child's terminal session, and reaps the
/// child.
#[test]
fn scenario_client_disconnect_mid_session() {
    let mut state = RelayState::Pumping;
    let (s, a) = relay_step(state, RelayEvent::ClientData);
    assert_eq!(a, RelayAction::ForwardToChild);
    state = s;
    let (s, a) = relay_step(state, RelayEvent::ClientEof);
    assert_eq!(a, RelayAction::TerminateChildSession);
    assert_eq!(s, RelayState::Draining);
    state = s;
    // Output from a dying child has no destination any more.
    let (s, a) = relay_step(state, RelayEvent::ChildData);
    assert_eq!(a, RelayAction::Ignore);
    state = s;
    let (s, a) = relay_step(state, RelayEvent::ChildExited);
    assert_eq!(a, RelayAction::ReapChild);
    assert_eq!(s, RelayState::Done);
}

/// Two concurrent requests for one previously-uncached uid each perform
/// their own manager round trip; each gets its own (here differing)
/// decision, and the cache keeps whichever reply was written last.
#[test]
fn scenario_concurrent_duplicate_resolutions() {
    let mut store = DecisionStore::new();
    let first = app_request(10400, "id");
    let second = app_request(10400, "ls");
    // Both begin before either reply lands: both must prompt.
    assert!(matches!(resolve_begin(&store, true, &first), ResolveStep::AskManager(_)));
    assert!(matches!(resolve_begin(&store, true, &second), ResolveStep::AskManager(_)));
    // A rapid double-tap: the first reply allows, the second denies.
    let d1 = resolve_finish(&mut store, 10400, ManagerOutcome::Reply {
        policy: SuPolicy::Allow,
        cache: true,
    });
    let d2 = resolve_finish(&mut store, 10400, ManagerOutcome::Reply {
        policy: SuPolicy::Deny,
        cache: true,
    });
    assert_eq!(d1, SuPolicy::Allow);
    assert_eq!(d2, SuPolicy::Deny);
    // Each resolution concludes with exactly one notify and one log.
    assert_eq!(decision_events(&first, d1, true).len(), 2);
    assert_eq!(decision_events(&second, d2, true).len(), 2);
    // Last writer wins in the store.
    assert_eq!(store.get(10400), Some(SuPolicy::Deny));
}
