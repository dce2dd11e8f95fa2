use fluxbooks::orchestration::{
    InitDb, InitDbAction, InitDbEvent, InitDbStage, BackendAction, BackendEnsure, BackendEvent, BackendStage, Poll, PollAction, PollTarget, Startup,
    StartupAction, StartupOp,
};
use fluxbooks::plaid::{
    accounts_url, balances_url, exchange_token_url, link_page_url, link_token_url,
    recent_transactions_url, req_err, sync_transactions_url, transactions_url,
};
use fluxbooks::progress::{progress_event_name, progress_log_line, startup_progress};
use fluxbooks::startup::{
    health_url, server_present, initdb_launch_error, initdb_status_error, postgres_spawn_error,
    backend_env, createdb_args, data_dir, database_url, initdb_args, lib_dir, pg_bin,
    pg_ctl_stop_args, pg_isready_args, postgres_args, postgres_bin_dir, postgres_folder,
    server_binary, socket_dir, tool_path, version_marker, Platform,
};

fn v(parts: &[&str]) -> Vec<String> {
    parts.iter().map(|s| s.to_string()).collect()
}

#[test]
fn plaid_urls() {
    assert_eq!(link_token_url(), "http://localhost:3001/plaid/link-token");
    assert_eq!(exchange_token_url(), "http://localhost:3001/plaid/exchange-token");
    assert_eq!(sync_transactions_url(), "http://localhost:3001/plaid/transactions/sync");
    assert_eq!(balances_url("it-1"), "http://localhost:3001/plaid/balances?item_id=it-1");
    assert_eq!(link_page_url("tok"), "http://localhost:3001/plaid/link-page?token=tok");
    assert_eq!(accounts_url(), "http://localhost:3001/plaid/accounts");
    assert_eq!(recent_transactions_url(), "http://localhost:3001/plaid/transactions?limit=500");
}

#[test]
fn transactions_url_with_optional_dates() {
    assert_eq!(transactions_url("i", None, None), "http://localhost:3001/plaid/transactions?item_id=i");
    assert_eq!(
        transactions_url("i", Some("2024-01-01".to_string()), None),
        "http://localhost:3001/plaid/transactions?item_id=i&start_date=2024-01-01"
    );
    assert_eq!(
        transactions_url("i", None, Some("2024-02-01".to_string())),
        "http://localhost:3001/plaid/transactions?item_id=i&end_date=2024-02-01"
    );
    assert_eq!(
        transactions_url("i", Some("a".to_string()), Some("b".to_string())),
        "http://localhost:3001/plaid/transactions?item_id=i&start_date=a&end_date=b"
    );
}

#[test]
fn request_error_message() {
    assert_eq!(req_err("connection refused"), "HTTP request failed: connection refused");
}

#[test]
fn progress_reports() {
    let p = startup_progress("ready", "Ready");
    assert_eq!(p.step, "ready");
    assert_eq!(p.message, "Ready");
    assert_eq!(progress_log_line("ready", "Ready"), "[startup] ready: Ready");
    assert_eq!(progress_event_name(), "startup_progress");
}

#[test]
fn postgres_paths() {
    let res = v(&["/opt", "app", "resources"]);
    assert_eq!(postgres_folder(Platform::Windows), "postgres-windows");
    assert_eq!(postgres_folder(Platform::MacOs), "postgres-macos");
    assert_eq!(postgres_folder(Platform::Linux), "postgres-linux");
    let bin = postgres_bin_dir(&res, Platform::Linux);
    assert_eq!(bin, v(&["/opt", "app", "resources", "postgres-linux"]));
    assert_eq!(pg_bin(&bin, "initdb", false), v(&["/opt", "app", "resources", "postgres-linux", "bin", "initdb"]));
    assert_eq!(pg_bin(&bin, "initdb", true), v(&["/opt", "app", "resources", "postgres-linux", "bin", "initdb.exe"]));
    assert_eq!(tool_path(&bin, "pg_ctl"), v(&["/opt", "app", "resources", "postgres-linux", "bin", "pg_ctl"]));
    assert_eq!(lib_dir(&bin), v(&["/opt", "app", "resources", "postgres-linux", "lib"]));
    let local = v(&["/home", "u", ".local"]);
    assert_eq!(data_dir(&local), v(&["/home", "u", ".local", "pgdata"]));
    assert_eq!(socket_dir(&local), v(&["/home", "u", ".local", "pgsocket"]));
    assert_eq!(version_marker(&data_dir(&local)), v(&["/home", "u", ".local", "pgdata", "PG_VERSION"]));
    assert_eq!(server_binary(&res, true), v(&["/opt", "app", "resources", "server.exe"]));
    assert_eq!(server_binary(&res, false), v(&["/opt", "app", "resources", "server"]));
}

#[test]
fn postgres_arguments() {
    assert_eq!(initdb_args("/d"), v(&["-D", "/d", "--username=fluxbooks", "--auth=trust", "--encoding=UTF8"]));
    assert_eq!(postgres_args("/d", "/s"), v(&["-D", "/d", "-p", "5432", "-k", "/s", "-h", "127.0.0.1"]));
    assert_eq!(createdb_args(), v(&["-h", "127.0.0.1", "-p", "5432", "-U", "fluxbooks", "fluxbooks"]));
    assert_eq!(pg_isready_args(), v(&["-h", "127.0.0.1", "-p", "5432", "-U", "fluxbooks"]));
    assert_eq!(pg_ctl_stop_args("/d"), v(&["stop", "-D", "/d", "-m", "fast"]));
}

#[test]
fn backend_environment() {
    let env = backend_env(Some("cid".to_string()), None);
    let got: Vec<(String, String)> = env;
    assert_eq!(got[0], ("PORT".to_string(), "3001".to_string()));
    assert_eq!(got[1], ("DATABASE_URL".to_string(), database_url()));
    assert_eq!(got[2], ("PLAID_ENV".to_string(), "sandbox".to_string()));
    assert_eq!(got[3], ("PLAID_CLIENT_ID".to_string(), "cid".to_string()));
    assert_eq!(got[4], ("PLAID_SECRET".to_string(), "REPLACE_ME".to_string()));
}

fn run_startup(outcomes: &[Result<(), String>]) -> (Vec<String>, Result<(), String>) {
    let mut s = Startup::new();
    let mut log = Vec::new();
    let mut ops = outcomes.iter();
    loop {
        match s.action() {
            StartupAction::Emit(p) => {
                log.push(p.step);
                s.record(Ok(()));
            }
            StartupAction::Run(op) => {
                log.push(format!("{:?}", op));
                s.record(ops.next().cloned().unwrap_or(Ok(())));
            }
            StartupAction::Finish(r) => return (log, r),
        }
    }
}

#[test]
fn startup_runs_in_order_and_ends_ready() {
    let (log, r) = run_startup(&[]);
    assert_eq!(r, Ok(()));
    assert_eq!(
        log,
        vec![
            "postgres_init".to_string(),
            format!("{:?}", StartupOp::InitDb),
            "postgres_starting".to_string(),
            format!("{:?}", StartupOp::StartPostgres),
            "postgres_waiting".to_string(),
            format!("{:?}", StartupOp::WaitPostgres { timeout_secs: 30 }),
            format!("{:?}", StartupOp::CreateDatabase),
            "backend_starting".to_string(),
            format!("{:?}", StartupOp::EnsureBackend),
            "ready".to_string(),
        ]
    );
}

#[test]
fn startup_stops_at_first_failure() {
    let (log, r) = run_startup(&[Ok(()), Err("Failed to spawn postgres: denied".to_string()), Ok(())]);
    assert_eq!(r, Err("Failed to spawn postgres: denied".to_string()));
    assert_eq!(log.last().unwrap(), &format!("{:?}", StartupOp::StartPostgres));
    assert_eq!(log.len(), 4);
}

#[test]
fn poll_probes_until_deadline() {
    let p = Poll::new(PollTarget::Postgres, 1000, 30);
    assert_eq!(p.deadline_ms, 31000);
    assert!(matches!(p.before_probe(1000), PollAction::Probe));
    assert!(matches!(p.before_probe(30999), PollAction::Probe));
    assert!(matches!(p.before_probe(31000), PollAction::TimeOut { ref error }
        if error == "PostgreSQL did not become ready in time"));
    assert!(matches!(p.after_probe(true), PollAction::Succeed));
    assert!(matches!(p.after_probe(false), PollAction::Sleep { ms: 500 }));
    let b = Poll::new(PollTarget::Backend, 0, 30);
    assert!(matches!(b.before_probe(40000), PollAction::TimeOut { ref error }
        if error == "Backend did not become healthy in time"));
}

#[test]
fn backend_already_running_and_healthy() {
    let (mut b, a) = BackendEnsure::start();
    assert!(matches!(a, BackendAction::CheckPort { port: 3001 }));
    assert!(matches!(b.on(BackendEvent::PortInUse(true)), Some(BackendAction::ProbeHealth)));
    assert!(matches!(b.on(BackendEvent::Healthy(true)), Some(BackendAction::Finish(Ok(())))));
    assert_eq!(b.stage, BackendStage::Done);
}

#[test]
fn backend_port_taken_by_another_process() {
    let (mut b, _) = BackendEnsure::start();
    b.on(BackendEvent::PortInUse(true));
    match b.on(BackendEvent::Healthy(false)) {
        Some(BackendAction::Finish(Err(e))) => assert_eq!(e, "Port 3001 is in use by another process"),
        _ => panic!("expected an error"),
    }
}

#[test]
fn backend_spawned_then_waited_for() {
    let (mut b, _) = BackendEnsure::start();
    assert!(matches!(b.on(BackendEvent::PortInUse(false)), Some(BackendAction::Spawn)));
    assert!(matches!(b.on(BackendEvent::Healthy(true)), None));
    assert!(matches!(b.on(BackendEvent::Spawned(Ok(()))), Some(BackendAction::WaitHealthy { timeout_secs: 30 })));
    match b.on(BackendEvent::WaitDone(Err("Backend did not become healthy in time".to_string()))) {
        Some(BackendAction::Finish(Err(e))) => assert_eq!(e, "Backend did not become healthy in time"),
        _ => panic!("expected the wait's error"),
    }
}

#[test]
fn backend_spawn_failure_is_reported() {
    let (mut b, _) = BackendEnsure::start();
    b.on(BackendEvent::PortInUse(false));
    match b.on(BackendEvent::Spawned(Err("server binary not found".to_string()))) {
        Some(BackendAction::Finish(Err(e))) => assert_eq!(e, "server binary not found"),
        _ => panic!("expected the spawn error"),
    }
}

#[test]
fn startup_messages() {
    assert_eq!(health_url(), "http://localhost:3001/health");
    assert_eq!(initdb_launch_error("not found"), "initdb failed to launch: not found");
    assert_eq!(initdb_status_error(), "initdb exited with non-zero status");
    assert_eq!(postgres_spawn_error("denied"), "Failed to spawn postgres: denied");
}

#[test]
fn server_must_be_present() {
    assert_eq!(server_present(true, "\"/r/server\""), Ok(()));
    assert_eq!(
        server_present(false, "\"/r/server\""),
        Err("server binary not found at \"/r/server\"".to_string())
    );
}

#[test]
fn initdb_skipped_when_initialised() {
    let (mut p, a) = InitDb::start();
    assert!(matches!(a, InitDbAction::CheckMarker));
    assert!(matches!(p.on(InitDbEvent::MarkerExists(true)), Some(InitDbAction::Finish(Ok(())))));
    assert_eq!(p.stage, InitDbStage::Done);
}

#[test]
fn initdb_runs_and_reports_failures() {
    let (mut p, _) = InitDb::start();
    assert!(matches!(p.on(InitDbEvent::MarkerExists(false)), Some(InitDbAction::CreateDataDir)));
    assert!(matches!(p.on(InitDbEvent::DataDirCreated(Ok(()))), Some(InitDbAction::RunInitdb)));
    match p.on(InitDbEvent::InitdbRan(Ok(false))) {
        Some(InitDbAction::Finish(Err(e))) => assert_eq!(e, "initdb exited with non-zero status"),
        _ => panic!("expected the status error"),
    }
    let (mut p, _) = InitDb::start();
    p.on(InitDbEvent::MarkerExists(false));
    p.on(InitDbEvent::DataDirCreated(Ok(())));
    match p.on(InitDbEvent::InitdbRan(Err("No such file".to_string()))) {
        Some(InitDbAction::Finish(Err(e))) => assert_eq!(e, "initdb failed to launch: No such file"),
        _ => panic!("expected the launch error"),
    }
    let (mut p, _) = InitDb::start();
    p.on(InitDbEvent::MarkerExists(false));
    match p.on(InitDbEvent::DataDirCreated(Err("denied".to_string()))) {
        Some(InitDbAction::Finish(Err(e))) => assert_eq!(e, "denied"),
        _ => panic!("expected the directory error"),
    }
    let (mut p, _) = InitDb::start();
    p.on(InitDbEvent::MarkerExists(false));
    p.on(InitDbEvent::DataDirCreated(Ok(())));
    assert!(matches!(p.on(InitDbEvent::InitdbRan(Ok(true))), Some(InitDbAction::Finish(Ok(())))));
    assert!(p.on(InitDbEvent::MarkerExists(true)).is_none());
}

#[test]
fn link_page_needs_a_token() {
    assert_eq!(
        fluxbooks::plaid::link_page_for(Some("link-1".to_string())),
        Ok(("link-1".to_string(), "http://localhost:3001/plaid/link-page?token=link-1".to_string()))
    );
    assert_eq!(fluxbooks::plaid::link_page_for(None), Err("No link_token".to_string()));
}
