use gitit::EngineLifecycle;

#[test]
fn initialization_runs_exactly_once() {
    let mut lifecycle = EngineLifecycle::new();
    assert!(lifecycle.ensure_initialized());
    assert!(!lifecycle.ensure_initialized());
    assert!(!lifecycle.ensure_initialized());
}

#[test]
fn shutdown_runs_exactly_once() {
    let mut lifecycle = EngineLifecycle::new();
    assert!(lifecycle.ensure_initialized());
    assert!(lifecycle.begin_shutdown());
    assert!(!lifecycle.begin_shutdown());
}

#[test]
fn shutdown_gate_is_independent_of_init_requests() {
    let mut lifecycle = EngineLifecycle::new();
    assert!(lifecycle.ensure_initialized());
    assert!(!lifecycle.ensure_initialized());
    assert!(lifecycle.begin_shutdown());
    assert!(!lifecycle.ensure_initialized());
    assert!(!lifecycle.begin_shutdown());
}
