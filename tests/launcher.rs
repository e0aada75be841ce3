use backend_launcher::lifecycle::{BackendChild, Phase};
use backend_launcher::location::{backend_exe_path, missing_backend_message, spawn_backend, BackendPath, SpawnPlan};

fn parts(p: &BackendPath) -> Vec<&str> {
    p.components.iter().map(|c| c.as_str()).collect()
}

#[test]
fn exe_path_is_under_bin() {
    let p = backend_exe_path("/app/resources");
    assert_eq!(parts(&p), vec!["/app/resources", "bin", "lcai_api.exe"]);
}

#[test]
fn exe_path_under_empty_root() {
    let p = backend_exe_path("");
    assert_eq!(parts(&p), vec!["", "bin", "lcai_api.exe"]);
}

#[test]
fn join_appends_component() {
    let p = BackendPath::new("root").join("a").join("b");
    assert_eq!(parts(&p), vec!["root", "a", "b"]);
}

#[test]
fn present_executable_is_launched_with_port() {
    let plan = spawn_backend(backend_exe_path("/app/resources"), true);
    match plan {
        SpawnPlan::Launch(req) => {
            assert_eq!(parts(&req.program), vec!["/app/resources", "bin", "lcai_api.exe"]);
            assert_eq!(req.env.len(), 2);
            assert_eq!(req.env[0].name, "LCAI_PORT");
            assert_eq!(req.env[0].value, "8787");
            assert_eq!(req.env[1].name, "LCAI_JWT_SECRET");
            assert_eq!(req.env[1].value, "CHANGE_ME_DEV_ONLY");
        }
        SpawnPlan::Missing(_) => panic!("expected a launch"),
    }
}

#[test]
fn absent_executable_is_reported() {
    let plan = spawn_backend(backend_exe_path("/app/resources"), false);
    match plan {
        SpawnPlan::Missing(p) => {
            assert_eq!(parts(&p), vec!["/app/resources", "bin", "lcai_api.exe"]);
        }
        SpawnPlan::Launch(_) => panic!("expected no launch"),
    }
}

#[test]
fn missing_message_holds_path() {
    let m = missing_backend_message("\"/app/resources/bin/lcai_api.exe\"");
    assert_eq!(m, "Backend exe not found at: \"/app/resources/bin/lcai_api.exe\"");
}

#[test]
fn fresh_guard_may_spawn() {
    let g = BackendChild::new();
    assert_eq!(g.phase(), Phase::NotStarted);
    assert!(g.may_spawn());
}

#[test]
fn spawn_outcomes_set_phase() {
    let mut a = BackendChild::new();
    a.record_spawn(true);
    assert_eq!(a.phase(), Phase::Running);
    assert!(!a.may_spawn());
    let mut b = BackendChild::new();
    b.record_spawn(false);
    assert_eq!(b.phase(), Phase::Absent);
    assert!(!b.may_spawn());
}

#[test]
fn only_first_spawn_counts() {
    let mut g = BackendChild::new();
    g.record_spawn(false);
    g.record_spawn(true);
    assert_eq!(g.phase(), Phase::Absent);
}

#[test]
fn teardown_after_spawn_kills_once() {
    let mut g = BackendChild::new();
    g.record_spawn(true);
    assert!(g.teardown());
    assert_eq!(g.phase(), Phase::Terminated);
    assert!(!g.teardown());
    assert!(!g.teardown());
}

#[test]
fn teardown_without_handle_is_noop() {
    let mut g = BackendChild::new();
    g.record_spawn(false);
    assert!(!g.teardown());
    assert_eq!(g.phase(), Phase::Terminated);
    let mut h = BackendChild::new();
    assert!(!h.teardown());
    assert_eq!(h.phase(), Phase::Terminated);
}

#[test]
fn no_spawn_after_teardown() {
    let mut g = BackendChild::new();
    assert!(!g.teardown());
    assert!(!g.may_spawn());
    g.record_spawn(true);
    assert_eq!(g.phase(), Phase::Terminated);
    assert!(!g.teardown());
}
