use embedstore::errors::StoreError;
use embedstore::locator::{
    first_success, interpret_install_probe, runtime_candidates, select_runtime,
    select_server_tool, tool_candidates, ServerTool,
};
use embedstore::recovery::{
    classify_operation_error, is_corruption_signature, is_missing_collection_error,
    recovery_step, RecoveryAction, RecoveryEvent, RecoveryPhase,
};
use embedstore::registry::{
    client_connect_params, ChromaDBServer, EnsurePlan, Registry,
};
use embedstore::supervisor::{
    reclaim_followup, should_terminate_pid, spawn_command, start_step, ReclaimFollowup,
    StartAction, StartEvent, StartPhase,
};

#[test]
fn runtime_candidates_are_ranked() {
    // Version-qualified names first, then well-known install paths, then
    // per-user install paths when a home directory is known.
    let c = runtime_candidates(&None);
    assert_eq!(c[0], "python3.12");
    assert_eq!(c[6], "python");
    assert_eq!(c[7], "/opt/homebrew/bin/python3.12");
    assert_eq!(c[11], "/opt/homebrew/opt/python@3.12/bin/python3");
    assert_eq!(c[14], "/usr/local/bin/python3.12");
    assert_eq!(c[18], "/usr/bin/python3");
    assert_eq!(c.len(), 19);
    let with_home = runtime_candidates(&Some("/home/u".to_string()));
    assert_eq!(with_home.len(), 24);
    assert_eq!(with_home[19], "/home/u/Library/Python/3.12/bin/python3");
    assert_eq!(with_home[23], "/home/u/Library/Python/3.8/bin/python3");
    assert_eq!(tool_candidates(), vec!["chroma", "chromadb"]);
}

#[test]
fn first_probe_success_wins() {
    assert_eq!(first_success(&vec![false, true, true]), Some(1));
    assert_eq!(first_success(&vec![false, false]), None);
    assert_eq!(first_success(&vec![]), None);
}

#[test]
fn runtime_selection() {
    let cands = vec!["python3".to_string(), "python".to_string()];
    let ok = select_runtime(&cands, &vec![false, true]).unwrap();
    assert_eq!(ok, "python");
    let err = select_runtime(&cands, &vec![false, false]);
    assert!(matches!(err, Err(StoreError::RuntimeNotFound(_))));
}

#[test]
fn install_probe_interpretation() {
    assert!(interpret_install_probe(true, "/usr/bin/python3", String::new()).is_ok());
    let err = interpret_install_probe(false, "/usr/bin/python3", "ModuleNotFoundError".to_string());
    match err {
        Err(StoreError::ServerToolingNotFound(m)) => {
            assert!(m.contains("/usr/bin/python3"));
            assert!(m.contains("pip3 install chromadb"));
            assert!(m.contains("ModuleNotFoundError"));
        }
        other => panic!("expected tooling-not-found, got {:?}", other),
    }
}

#[test]
fn server_tool_selection_prefers_direct_command() {
    let cands = tool_candidates();
    let tool = select_server_tool(
        &cands,
        &vec![true, false],
        "python3".to_string(),
        false,
        false,
        false,
        false,
    )
    .unwrap();
    assert_eq!(
        tool,
        ServerTool::Direct {
            command: "chroma".to_string()
        }
    );
}

#[test]
fn server_tool_selection_falls_back_to_modules() {
    let cands = tool_candidates();
    let cli = select_server_tool(
        &cands,
        &vec![false, false],
        "python3".to_string(),
        true,
        true,
        false,
        false,
    )
    .unwrap();
    assert_eq!(
        cli,
        ServerTool::Module {
            runtime: "python3".to_string(),
            module: "chromadb.cli".to_string()
        }
    );
    let plain = select_server_tool(
        &cands,
        &vec![false, false],
        "python3".to_string(),
        false,
        false,
        true,
        true,
    )
    .unwrap();
    assert_eq!(
        plain,
        ServerTool::Module {
            runtime: "python3".to_string(),
            module: "chromadb".to_string()
        }
    );
    let none = select_server_tool(
        &cands,
        &vec![false, false],
        "python3".to_string(),
        true,
        false,
        true,
        false,
    );
    assert!(matches!(none, Err(StoreError::ServerToolingNotFound(_))));
}

#[test]
fn spawn_command_lines() {
    let (prog, args) = spawn_command(
        &ServerTool::Direct {
            command: "chroma".to_string(),
        },
        8001,
        "/data/chromadb",
    );
    assert_eq!(prog, "chroma");
    assert_eq!(
        args,
        vec!["run", "--host", "localhost", "--port", "8001", "--path", "/data/chromadb"]
    );
    let (prog2, args2) = spawn_command(
        &ServerTool::Module {
            runtime: "python3".to_string(),
            module: "chromadb.cli".to_string(),
        },
        9000,
        "/d",
    );
    assert_eq!(prog2, "python3");
    assert_eq!(args2[0], "-m");
    assert_eq!(args2[1], "chromadb.cli");
    assert_eq!(args2[6], "9000");
}

#[test]
fn registry_lazy_initialization_is_idempotent() {
    let mut reg = Registry::new();
    assert!(!reg.server_initialized());
    assert!(matches!(
        reg.get_client(),
        Err(StoreError::ClientNotInitialized)
    ));
    let s = ChromaDBServer::started(8001, "/d".to_string(), "python3".to_string());
    assert_eq!(s.port(), 8001);
    assert_eq!(s.data_dir(), "/d");
    assert!(reg.install_server(s));
    let s2 = ChromaDBServer::started(9999, "/x".to_string(), "python".to_string());
    // The second install loses the race and changes nothing.
    assert!(!reg.install_server(s2));
    assert_eq!(reg.server_port(), Some(8001));
    assert!(reg.init_client(8001));
    assert!(!reg.init_client(8001));
    let h = reg.get_client().unwrap();
    assert_eq!(h.port, 8001);
    assert_eq!(h.database, "default_database");
}

#[test]
fn client_connection_always_names_a_database() {
    let (url, database) = client_connect_params(8001);
    assert_eq!(url, "http://localhost:8001");
    assert_eq!(database, "default_database");
    assert!(!database.is_empty());
}

#[test]
fn ensure_plan_reflects_registry_state() {
    let mut reg = Registry::new();
    assert_eq!(
        reg.ensure_plan(&Some("9005".to_string())),
        EnsurePlan::StartServer { port: 9005 }
    );
    assert_eq!(reg.ensure_plan(&None), EnsurePlan::StartServer { port: 8001 });
    reg.install_server(ChromaDBServer::started(
        8001,
        "/d".to_string(),
        "python3".to_string(),
    ));
    assert_eq!(
        reg.ensure_plan(&None),
        EnsurePlan::InitClientOnly { port: 8001 }
    );
    reg.init_client(8001);
    assert_eq!(reg.ensure_plan(&None), EnsurePlan::Ready);
}

#[test]
fn stopping_a_server_is_idempotent() {
    let mut s = ChromaDBServer::started(8001, "/d".to_string(), "python3".to_string());
    assert!(s.stop());
    assert!(!s.stop());
}

#[test]
fn registry_teardown_clears_both_handles() {
    let mut reg = Registry::new();
    reg.install_server(ChromaDBServer::started(
        8001,
        "/d".to_string(),
        "python3".to_string(),
    ));
    reg.init_client(8001);
    let taken = reg.take_server();
    assert!(taken.is_some());
    reg.clear_client();
    assert!(!reg.server_initialized());
    assert!(reg.get_client().is_err());
}

#[test]
fn foreign_process_on_port_is_never_terminated() {
    // A foreign process squatting on the port is not killed.
    assert!(!should_terminate_pid(4242, 1, "nginx", "nginx: worker"));
    // The caller's own process is not killed even if it matches.
    assert!(!should_terminate_pid(77, 77, "python3", "python3 -m chromadb run"));
    // The managed server is.
    assert!(should_terminate_pid(4243, 1, "chroma", "chroma run --port 8001"));
    assert!(should_terminate_pid(4244, 1, "python3", "python3 -m chromadb.cli run"));
}

fn direct_tool() -> ServerTool {
    ServerTool::Direct {
        command: "chroma".to_string(),
    }
}

#[test]
fn start_proceeds_past_occupied_port() {
    // The target port stays occupied by a foreign process: the wait is
    // bounded and the start proceeds with a warning, never crashing.
    let (mut phase, action) = start_step(
        StartPhase::ProbePort {
            tool: direct_tool(),
        },
        StartEvent::PortStatus {
            listening: true,
            responding: false,
        },
    );
    assert_eq!(action, StartAction::ReclaimThenWait);
    let mut steps = 0;
    loop {
        assert!(!matches!(phase, StartPhase::Failed { .. }));
        if let StartPhase::SpawnServer { .. } = phase {
            break;
        }
        let (next, act) = start_step(
            phase,
            StartEvent::PortStatus {
                listening: true,
                responding: false,
            },
        );
        assert!(act == StartAction::WaitThenCheckPort || act == StartAction::Spawn);
        phase = next;
        steps += 1;
        assert!(steps <= 10, "the port wait must be bounded");
    }
}

#[test]
fn start_happy_path() {
    let (p, a) = start_step(StartPhase::EnsureDataDir, StartEvent::DirCreated);
    assert_eq!(a, StartAction::ProbeRuntime);
    let (p, a) = start_step(
        p,
        StartEvent::RuntimeFound {
            runtime: "python3".to_string(),
        },
    );
    assert_eq!(a, StartAction::ProbeInstall);
    let (p, a) = start_step(p, StartEvent::InstallOk);
    assert_eq!(a, StartAction::ProbeTool);
    let (p, a) = start_step(
        p,
        StartEvent::ToolFound {
            tool: direct_tool(),
        },
    );
    assert_eq!(a, StartAction::CheckPort);
    let (p, a) = start_step(
        p,
        StartEvent::PortStatus {
            listening: false,
            responding: false,
        },
    );
    assert_eq!(a, StartAction::Spawn);
    let (p, a) = start_step(p, StartEvent::Spawned);
    assert_eq!(a, StartAction::WaitThenHealthCheck);
    let (p, a) = start_step(p, StartEvent::HealthOk);
    assert_eq!(a, StartAction::SettleDelay);
    let (p, a) = start_step(p, StartEvent::Settled);
    assert_eq!(a, StartAction::Finish);
    assert_eq!(p, StartPhase::Running);
}

#[test]
fn start_times_out_with_stderr_excerpt() {
    let mut phase = StartPhase::HealthPoll { attempts: 0 };
    let mut polls = 1;
    loop {
        let (next, act) = start_step(phase, StartEvent::HealthDown);
        phase = next;
        if act == StartAction::DrainStderr {
            break;
        }
        assert_eq!(act, StartAction::WaitThenHealthCheck);
        polls += 1;
        assert!(polls <= 20, "the health poll must be bounded");
    }
    assert_eq!(phase, StartPhase::CollectStderr);
    let (p, a) = start_step(
        phase,
        StartEvent::StderrCollected {
            excerpt: "ModuleNotFoundError: chromadb".to_string(),
        },
    );
    assert_eq!(a, StartAction::Abort);
    match p {
        StartPhase::Failed {
            error: StoreError::StartTimeout(excerpt),
        } => assert_eq!(excerpt, "ModuleNotFoundError: chromadb"),
        other => panic!("expected a start timeout, got {:?}", other),
    }
}

#[test]
fn start_fails_on_missing_runtime() {
    let (p, a) = start_step(
        StartPhase::LocateRuntime,
        StartEvent::RuntimeMissing {
            error: StoreError::RuntimeNotFound("install python".to_string()),
        },
    );
    assert_eq!(a, StartAction::Abort);
    assert!(matches!(
        p,
        StartPhase::Failed {
            error: StoreError::RuntimeNotFound(_)
        }
    ));
}

#[test]
fn corruption_signature_recognition() {
    assert!(is_corruption_signature("error: no such table: tenants"));
    assert!(is_corruption_signature("failed to acquire_write on segment"));
    assert!(!is_corruption_signature("connection refused"));
    assert!(matches!(
        classify_operation_error("no such table: x".to_string()),
        StoreError::CorruptionDetected(_)
    ));
    assert!(matches!(
        classify_operation_error("timeout".to_string()),
        StoreError::OperationFailed(_)
    ));
}

#[test]
fn missing_collection_errors_are_tolerated() {
    assert!(is_missing_collection_error("collection not found"));
    assert!(is_missing_collection_error("collection does not exist"));
    assert!(!is_missing_collection_error("permission denied"));
}

fn dd() -> String {
    "/data/chromadb".to_string()
}

#[test]
fn corruption_triggers_exactly_one_recovery_cycle() {
    // One corrupted operation: the machine runs exactly one
    // stop -> wipe -> restart -> reinit cycle, then retries and succeeds.
    let mut wipes = 0;
    let mut stops = 0;
    let (p, a) = recovery_step(
        RecoveryPhase::TryOp,
        RecoveryEvent::OpFailed {
            message: "no such table: embeddings".to_string(),
        },
        dd(),
    );
    assert_eq!(a, RecoveryAction::StopAndClear);
    stops += 1;
    let (p, a) = recovery_step(p, RecoveryEvent::Stopped, dd());
    assert_eq!(a, RecoveryAction::Sleep);
    let (p, a) = recovery_step(p, RecoveryEvent::Settled, dd());
    assert_eq!(a, RecoveryAction::WipeDataDir);
    wipes += 1;
    let (p, a) = recovery_step(p, RecoveryEvent::Wiped, dd());
    assert_eq!(a, RecoveryAction::CheckPort);
    let (p, a) = recovery_step(
        p,
        RecoveryEvent::PortStatus {
            listening: false,
            responding: false,
        },
        dd(),
    );
    assert_eq!(a, RecoveryAction::StartServer);
    let (p, a) = recovery_step(p, RecoveryEvent::RestartOk, dd());
    assert_eq!(a, RecoveryAction::InitClient);
    let (p, a) = recovery_step(p, RecoveryEvent::ReinitOk, dd());
    assert_eq!(a, RecoveryAction::AttemptOp);
    let (p, a) = recovery_step(p, RecoveryEvent::OpOk, dd());
    assert_eq!(a, RecoveryAction::Finish);
    assert_eq!(p, RecoveryPhase::Done);
    assert_eq!(wipes, 1);
    assert_eq!(stops, 1);
}

#[test]
fn second_corruption_is_retried_then_fatal() {
    // After recovery, further corruption never re-wipes: the operation is
    // retried up to three times, then surfaces as fatal.
    let mut phase = RecoveryPhase::RetryOp {
        cause: "no such table: tenants".to_string(),
        attempts: 0,
    };
    let mut attempts_after_recovery = 1;
    loop {
        let (next, act) = recovery_step(
            phase,
            RecoveryEvent::OpFailed {
                message: "no such table: embeddings".to_string(),
            },
            dd(),
        );
        assert_ne!(act, RecoveryAction::WipeDataDir);
        assert_ne!(act, RecoveryAction::StopAndClear);
        phase = next;
        match &phase {
            RecoveryPhase::Failed { error } => {
                // The terminal error combines the corruption cause with the
                // last failure and names the data directory to clear.
                match error {
                    StoreError::RecoveryFailed { cause, detail, data_dir } => {
                        assert_eq!(cause, "no such table: tenants");
                        assert_eq!(detail, "no such table: embeddings");
                        assert_eq!(data_dir, "/data/chromadb");
                    }
                    other => panic!("expected a recovery failure, got {:?}", other),
                }
                let text = error.message();
                assert!(text.contains("/data/chromadb"));
                assert!(text.contains("restart the application"));
                break;
            }
            RecoveryPhase::RetryOp { .. } => {
                assert_eq!(act, RecoveryAction::WaitThenRetryOp);
                attempts_after_recovery += 1;
            }
            other => panic!("unexpected phase {:?}", other),
        }
    }
    assert_eq!(attempts_after_recovery, 3);
}

#[test]
fn failed_restart_is_terminal_with_remediation() {
    let (p, a) = recovery_step(
        RecoveryPhase::Restart {
            cause: "failed to acquire_write".to_string(),
        },
        RecoveryEvent::RestartFailed {
            message: "spawn failed".to_string(),
        },
        dd(),
    );
    assert_eq!(a, RecoveryAction::Abort);
    match p {
        RecoveryPhase::Failed { error } => {
            let text = error.message();
            assert!(text.contains("failed to acquire_write"));
            assert!(text.contains("spawn failed"));
            assert!(text.contains("/data/chromadb"));
            assert!(text.contains("restart the application"));
        }
        other => panic!("expected failure, got {:?}", other),
    }
}

#[test]
fn non_corruption_errors_fail_without_recovery() {
    let (p, a) = recovery_step(
        RecoveryPhase::TryOp,
        RecoveryEvent::OpFailed {
            message: "connection refused".to_string(),
        },
        dd(),
    );
    assert_eq!(a, RecoveryAction::Abort);
    assert!(matches!(
        p,
        RecoveryPhase::Failed {
            error: StoreError::OperationFailed(_)
        }
    ));
}

#[test]
fn recovery_port_wait_escalates_then_proceeds() {
    let mut phase = RecoveryPhase::PortWait {
        cause: "no such table: segments".to_string(),
        attempts: 0,
        unresponsive: 0,
    };
    let mut reclaims = 0;
    let mut checks = 0;
    loop {
        let (next, act) = recovery_step(
            phase,
            RecoveryEvent::PortStatus {
                listening: true,
                responding: false,
            },
            dd(),
        );
        checks += 1;
        if act == RecoveryAction::ReclaimThenCheckPort {
            reclaims += 1;
        }
        phase = next;
        if let RecoveryPhase::FinalReclaim { .. } = phase {
            break;
        }
        assert!(checks <= 20, "the recovery port wait must be bounded");
    }
    // Escalation after every third consecutive unresponsive check.
    assert!(reclaims >= 1);
    let (p, a) = recovery_step(phase, RecoveryEvent::Reclaimed, dd());
    assert_eq!(a, RecoveryAction::StartServer);
    assert!(matches!(p, RecoveryPhase::Restart { .. }));
}

#[test]
fn error_messages_carry_detail() {
    let m = StoreError::StartTimeout("stderr tail".to_string()).message();
    assert!(m.contains("stderr tail"));
    let m2 = StoreError::ClientNotInitialized.message();
    assert!(m2.contains("not initialized"));
    let m3 = StoreError::RuntimeNotFound("brew install python3".to_string()).message();
    assert!(m3.contains("brew install python3"));
    let m4 = StoreError::PortConflict.message();
    assert!(m4.contains("port"));
    let m5 = StoreError::ServerToolingNotFound("pip3 install chromadb".to_string()).message();
    assert!(m5.contains("pip3 install chromadb"));
    let m6 = StoreError::CorruptionDetected("no such table: x".to_string()).message();
    assert!(m6.contains("no such table: x"));
    let m7 = StoreError::OperationFailed("timeout".to_string()).message();
    assert!(m7.contains("timeout"));
    // An empty stderr excerpt falls back to likely causes and remediation.
    let m8 = StoreError::StartTimeout(String::new()).message();
    assert!(m8.contains("likely causes"));
    assert!(m8.contains("pip3 install chromadb"));
    assert!(m8.contains("restart the application"));
    let m9 = StoreError::RecoveryFailed {
        cause: "no such table: x".to_string(),
        detail: "reinit failed".to_string(),
        data_dir: "/d/chromadb".to_string(),
    }
    .message();
    assert!(m9.contains("no such table: x"));
    assert!(m9.contains("reinit failed"));
    assert!(m9.contains("/d/chromadb"));
}

#[test]
fn reclaim_escalates_only_on_survivors() {
    assert_eq!(reclaim_followup(true), ReclaimFollowup::ForceKill);
    assert_eq!(reclaim_followup(false), ReclaimFollowup::AlreadyGone);
}
