use scaffold_gateway::state::{get_julia_status, AppState};
use scaffold_gateway::supervisor::{is_julia_running, JuliaError, StartStep, StopStep, Supervisor};

#[test]
fn start_spawns_once_and_is_idempotent() {
    let mut st = AppState::new();
    let mut sup = Supervisor::new();

    // first start reaches the spawn
    let step = sup.begin_start();
    assert!(matches!(step, StartStep::Spawn));
    sup.on_spawned(&mut st, 4242);

    // a second start must not spawn again
    let step2 = sup.begin_start();
    assert!(matches!(step2, StartStep::AlreadyUp));
    assert!(is_julia_running(&sup));
    assert_eq!(sup.slot, Some(4242));

    // and a third, after readiness, still must not
    sup.on_ready().unwrap();
    let step3 = sup.begin_start();
    assert!(matches!(step3, StartStep::AlreadyUp));
    assert_eq!(sup.slot, Some(4242));
}

#[test]
fn stop_twice_is_noop_and_never_errors() {
    let mut st = AppState::new();
    let mut sup = Supervisor::new();

    let first = sup.begin_stop();
    assert!(matches!(first, StopStep::Noop));
    let second = sup.begin_stop();
    assert!(matches!(second, StopStep::Noop));
    assert!(!is_julia_running(&sup));

    // the same after a full start/stop round
    assert!(matches!(sup.begin_start(), StartStep::Spawn));
    sup.on_spawned(&mut st, 7);
    sup.on_ready().unwrap();
    match sup.begin_stop() {
        StopStep::Kill(pid) => assert_eq!(pid, 7),
        StopStep::Noop => panic!("a live process must be killed"),
    }
    sup.finish_stop(&mut st, None).unwrap();
    assert!(matches!(sup.begin_stop(), StopStep::Noop));
    assert!(matches!(sup.begin_stop(), StopStep::Noop));
}

#[test]
fn status_reflects_start_and_stop() {
    let mut st = AppState::new();
    let mut sup = Supervisor::new();

    let before = get_julia_status(&st);
    assert!(!before.running);
    assert_eq!(before.pid, None);
    assert_eq!(before.url, "http://localhost:8081");

    assert!(matches!(sup.begin_start(), StartStep::Spawn));
    sup.on_spawned(&mut st, 31001);
    sup.on_ready().unwrap();

    let during = get_julia_status(&st);
    assert!(during.running);
    assert!(during.pid.unwrap() > 0);
    assert_eq!(during.pid, Some(31001));

    sup.begin_stop();
    sup.finish_stop(&mut st, None).unwrap();
    let after = get_julia_status(&st);
    assert!(!after.running);
    assert_eq!(after.pid, None);
}

#[test]
fn spawn_failure_reports_and_leaves_slot_free() {
    let st = AppState::new();
    let mut sup = Supervisor::new();

    assert!(matches!(sup.begin_start(), StartStep::Spawn));
    let r = sup.on_spawn_failed("julia not found".to_string());
    match r {
        Err(JuliaError::StartError(m)) => assert_eq!(m, "julia not found"),
        _ => panic!("a failed spawn must surface a start error"),
    }
    assert!(!is_julia_running(&sup));
    assert!(!get_julia_status(&st).running);

    // the supervisor stays usable: a new start may spawn again
    assert!(matches!(sup.begin_start(), StartStep::Spawn));
}

#[test]
fn probe_timeout_leaves_process_running() {
    let mut st = AppState::new();
    let mut sup = Supervisor::new();

    assert!(matches!(sup.begin_start(), StartStep::Spawn));
    sup.on_spawned(&mut st, 99);
    let r = sup.on_probe_timeout("Server did not respond within timeout".to_string());
    match r {
        Err(JuliaError::ConnectionError(m)) => {
            assert_eq!(m, "Server did not respond within timeout")
        }
        _ => panic!("a probe timeout must surface a connection error"),
    }
    // the process is deliberately left running and stoppable
    assert!(is_julia_running(&sup));
    assert!(get_julia_status(&st).running);
    match sup.begin_stop() {
        StopStep::Kill(pid) => assert_eq!(pid, 99),
        StopStep::Noop => panic!("the left-running process must be killable"),
    }
    sup.finish_stop(&mut st, None).unwrap();
    assert!(!get_julia_status(&st).running);
}

#[test]
fn kill_failure_still_clears_state() {
    let mut st = AppState::new();
    let mut sup = Supervisor::new();
    assert!(matches!(sup.begin_start(), StartStep::Spawn));
    sup.on_spawned(&mut st, 5);
    sup.begin_stop();
    let r = sup.finish_stop(&mut st, Some("permission denied".to_string()));
    match r {
        Err(JuliaError::StartError(m)) => assert_eq!(m, "permission denied"),
        _ => panic!("a failed kill must surface an error"),
    }
    // state is force-cleared so future starts are not blocked
    assert!(!is_julia_running(&sup));
    assert!(!get_julia_status(&st).running);
    assert!(matches!(sup.begin_start(), StartStep::Spawn));
}
