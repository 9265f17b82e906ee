use server_supervisor::registry::{LifecycleRegistry, ProcessHandle, StoreError};
use server_supervisor::supervisor::{begin_startup, StartFailure, StartPlan};

#[test]
fn start_spawns_exact_command() {
    // Bundle directory /A/server holds server.js; the runtime is found at
    // /usr/local/bin/node.
    let plan = begin_startup(Some(String::from("/A/server")));
    let mut plan = plan.ok().expect("a located bundle opens a start attempt");
    assert_eq!(plan.entry_file().as_str(), "/A/server/server.js");
    assert!(plan.needs_entry_check());
    plan.on_entry_check(true);
    assert!(plan.needs_runtime());
    plan.on_runtime(Some(String::from("/usr/local/bin/node")));
    {
        let cmd = plan.spawn_command().expect("a runtime yields a spawn command");
        assert_eq!(cmd.program.as_str(), "/usr/local/bin/node");
        assert_eq!(cmd.arg.as_str(), "/A/server/server.js");
        assert_eq!(cmd.working_dir.as_str(), "/A/server");
        let env: Vec<(&str, &str)> =
            cmd.env.iter().map(|p| (p.0.as_str(), p.1.as_str())).collect();
        assert_eq!(env, vec![("PORT", "1234"), ("HOSTNAME", "localhost")]);
    }
    plan.on_spawn_result(Some(4242));
    let handle = plan.handle().expect("a successful spawn yields a handle");
    assert!(handle.pid != 0);
    assert_eq!(handle.pid, 4242);
}

#[test]
fn missing_entry_fails_without_consulting_runtime_locator() {
    let mut plan = StartPlan::new(String::from("/A/server"));
    let mut runtime_locator_called = false;
    plan.on_entry_check(false);
    // The attempt is already failed; a faithful driver, which consults the
    // runtime locator only when the plan asks for it, never records a call.
    if plan.needs_runtime() {
        runtime_locator_called = true;
        plan.on_runtime(Some(String::from("/usr/bin/node")));
    }
    assert!(!runtime_locator_called);
    assert_eq!(plan.failure(), Some(StartFailure::EntryMissing));
    assert_eq!(plan.handle(), None);
}

#[test]
fn missing_runtime_fails_spawnless() {
    let mut plan = StartPlan::new(String::from("/A/server"));
    plan.on_entry_check(true);
    plan.on_runtime(None);
    assert_eq!(plan.failure(), Some(StartFailure::RuntimeNotFound));
    assert!(plan.spawn_command().is_none());
}

#[test]
fn refused_spawn_fails() {
    let mut plan = StartPlan::new(String::from("/A/server"));
    plan.on_entry_check(true);
    plan.on_runtime(Some(String::from("/usr/bin/node")));
    plan.on_spawn_result(None);
    assert_eq!(plan.failure(), Some(StartFailure::SpawnFailed));
    assert_eq!(plan.handle(), None);
}

#[test]
fn missing_bundle_never_reaches_supervisor() {
    // The bundle locator came back empty-handed: the startup fails with the
    // one bundle-search error and no start attempt is ever opened.
    let r = begin_startup(None);
    match r {
        Ok(_) => panic!("a missing bundle must not open a start attempt"),
        Err(f) => assert_eq!(f, StartFailure::BundleNotFound),
    }
}

#[test]
fn terminate_signals_stored_pid_exactly_once() {
    let mut registry = LifecycleRegistry::new();
    registry.store(ProcessHandle { pid: 4242 }).expect("an empty slot accepts a handle");
    assert_eq!(registry.terminate(), Some(4242));
    // The slot was emptied: a second terminate signals nothing.
    assert_eq!(registry.terminate(), None);
}

#[test]
fn terminate_on_empty_registry_is_a_noop() {
    let mut registry = LifecycleRegistry::new();
    assert_eq!(registry.terminate(), None);
}

#[test]
fn store_refuses_occupied_slot() {
    let mut registry = LifecycleRegistry::new();
    registry.store(ProcessHandle { pid: 1 }).expect("an empty slot accepts a handle");
    let refused = registry.store(ProcessHandle { pid: 2 });
    assert_eq!(refused, Err(StoreError::AlreadyRunning));
    // The first handle is still the one terminated.
    assert_eq!(registry.terminate(), Some(1));
}

#[test]
fn replace_hands_back_previous_handle() {
    let mut registry = LifecycleRegistry::new();
    assert_eq!(registry.replace(ProcessHandle { pid: 1 }), None);
    assert_eq!(registry.replace(ProcessHandle { pid: 2 }), Some(ProcessHandle { pid: 1 }));
    assert_eq!(registry.terminate(), Some(2));
}
