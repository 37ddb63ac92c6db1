use portkiller::envelope::{ErrorType, ProcessInfo};
use portkiller::inspect::{build_process_info, join_args, ProcessRecord};
use portkiller::ops::{
    assemble_scan, common_ports, detect_common_ports, find_port, find_port_with, kill_port,
    KillAttempt,
};
use portkiller::platform::OsFamily;
use portkiller::terminate::{classify_termination, TerminationFailure, TerminationOutcome};

fn node_record() -> ProcessRecord {
    ProcessRecord {
        name: String::from("node"),
        exe_path: Some(String::from("/usr/local/bin/node")),
        cmd_args: vec![String::from("node"), String::from("server.js")],
        user_id: Some(String::from("alice")),
    }
}

#[test]
fn find_port_zero_is_invalid() {
    let r = find_port(0, None);
    assert!(!r.success);
    assert_eq!(r.error, Some(ErrorType::PortInvalid));
    assert!(r.data.is_none());
    let r = find_port(0, Some(5));
    assert_eq!(r.error, Some(ErrorType::PortInvalid));
}

#[test]
fn find_port_with_no_owner_reports_free() {
    let r = find_port(4321, None);
    assert!(r.success);
    assert!(r.error.is_none());
    let d = r.data.expect("success carries data");
    assert_eq!(d.port, 4321);
    assert!(!d.in_use);
    assert!(d.process.is_none());
}

#[test]
fn find_port_absorbs_vanished_owner() {
    // The resolver named an owner but no such process exists any more:
    // the race is absorbed as "free", not reported as an error.
    let r = find_port(8080, Some(u32::MAX));
    assert!(r.success);
    let d = r.data.expect("success carries data");
    assert!(!d.in_use);
    assert!(d.process.is_none());
}

#[test]
fn find_port_scenario_node_on_8080() {
    let info = build_process_info(1234, node_record());
    let r = find_port_with(8080, Some(info));
    assert!(r.success);
    assert!(r.error.is_none());
    let d = r.data.expect("success carries data");
    assert_eq!(d.port, 8080);
    assert!(d.in_use);
    let p = d.process.expect("in use carries a process");
    assert_eq!(p.name, "node");
    assert_eq!(p.pid, 1234);
    assert_eq!(p.path, "/usr/local/bin/node");
    assert_eq!(p.command, "node server.js");
    assert_eq!(p.user.as_deref(), Some("alice"));
    assert_eq!(p.framework.as_deref(), Some("Node.js"));
    assert!(!p.is_docker);
}

#[test]
fn kill_port_without_owner_is_not_found() {
    let r = kill_port(OsFamily::Unix, 8080, None);
    assert!(!r.success);
    assert_eq!(r.error, Some(ErrorType::ProcessNotFound));
    assert!(r.data.is_none());
    assert!(r.suggestion.is_some());
}

#[test]
fn kill_port_success_reports_pid() {
    let attempt = KillAttempt {
        pid: 1234,
        outcome: TerminationOutcome::Exited { success: true, diagnostic: String::new() },
    };
    let r = kill_port(OsFamily::Unix, 3000, Some(attempt));
    assert!(r.success);
    let k = r.data.expect("success carries data");
    assert!(k.killed);
    assert_eq!(k.port, 3000);
    assert_eq!(k.pid, Some(1234));
}

#[test]
fn kill_port_permission_denied_unix() {
    let attempt = KillAttempt {
        pid: 1,
        outcome: TerminationOutcome::Exited {
            success: false,
            diagnostic: String::from("kill: (1) - Operation not permitted"),
        },
    };
    let r = kill_port(OsFamily::Unix, 80, Some(attempt));
    assert!(!r.success);
    assert_eq!(r.error, Some(ErrorType::PermissionDenied));
    assert_eq!(r.suggestion.as_deref(), Some("Run the application with sudo or as root"));
}

#[test]
fn kill_port_permission_denied_windows() {
    let attempt = KillAttempt {
        pid: 4,
        outcome: TerminationOutcome::Exited {
            success: false,
            diagnostic: String::from("ERROR: The process could not be terminated. Access is denied."),
        },
    };
    let r = kill_port(OsFamily::Windows, 80, Some(attempt));
    assert_eq!(r.error, Some(ErrorType::PermissionDenied));
    assert_eq!(
        r.suggestion.as_deref(),
        Some("Run the application as Administrator (right click, run as administrator)"),
    );
}

#[test]
fn kill_port_unknown_failure_keeps_raw_text() {
    let attempt = KillAttempt {
        pid: 7,
        outcome: TerminationOutcome::Exited {
            success: false,
            diagnostic: String::from("kill: (7) - No such process"),
        },
    };
    let r = kill_port(OsFamily::Unix, 80, Some(attempt));
    assert!(!r.success);
    assert_eq!(r.error, Some(ErrorType::UnknownError));
    assert_eq!(r.message.as_deref(), Some("kill: (7) - No such process"));
}

#[test]
fn kill_port_spawn_failure_keeps_raw_text() {
    let attempt = KillAttempt {
        pid: 7,
        outcome: TerminationOutcome::SpawnFailed {
            detail: String::from("taskkill: program not found"),
        },
    };
    let r = kill_port(OsFamily::Windows, 443, Some(attempt));
    assert_eq!(r.error, Some(ErrorType::UnknownError));
    assert_eq!(r.message.as_deref(), Some("taskkill: program not found"));
}

#[test]
fn killed_port_scans_free_afterwards() {
    // Once a successful kill has taken effect the resolver names no owner,
    // and the next find reports the port free.
    let attempt = KillAttempt {
        pid: 555,
        outcome: TerminationOutcome::Exited { success: true, diagnostic: String::new() },
    };
    let killed = kill_port(OsFamily::Unix, 5173, Some(attempt));
    assert!(killed.success);
    let r = find_port(5173, None);
    assert!(r.success);
    let d = r.data.expect("success carries data");
    assert!(!d.in_use);
    assert!(d.process.is_none());
}

#[test]
fn termination_classification_is_deterministic() {
    let ok = TerminationOutcome::Exited {
        success: true,
        diagnostic: String::from("permission denied"),
    };
    // A zero exit status is success whatever the diagnostic says.
    assert!(classify_termination(OsFamily::Unix, &ok).is_ok());
    let denied = TerminationOutcome::Exited {
        success: false,
        diagnostic: String::from("PERMISSION DENIED"),
    };
    match classify_termination(OsFamily::Unix, &denied) {
        Err(TerminationFailure::PermissionDenied) => {}
        _ => panic!("expected a permission failure"),
    }
    // The permission phrases are platform-specific.
    match classify_termination(OsFamily::Windows, &denied) {
        Err(TerminationFailure::Other { detail }) => assert_eq!(detail, "PERMISSION DENIED"),
        _ => panic!("expected an unknown failure"),
    }
}

#[test]
fn error_codes_are_fixed_tokens() {
    assert_eq!(ErrorType::PermissionDenied.code(), "PERMISSION_DENIED");
    assert_eq!(ErrorType::PortFree.code(), "PORT_FREE");
    assert_eq!(ErrorType::PortInvalid.code(), "PORT_INVALID");
    assert_eq!(ErrorType::ProcessNotFound.code(), "PROCESS_NOT_FOUND");
    assert_eq!(ErrorType::UnknownError.code(), "UNKNOWN_ERROR");
}

#[test]
fn common_port_list_is_fixed_and_ordered() {
    let v = common_ports();
    assert_eq!(v, vec![3000, 3001, 3306, 5173, 5432, 6379, 8000, 8080, 9229]);
}

#[test]
fn detect_common_ports_with_no_owners_is_empty_success() {
    let resolved: Vec<Option<u32>> = vec![None; 9];
    let r = detect_common_ports(&resolved);
    assert!(r.success);
    assert!(r.error.is_none());
    let d = r.data.expect("the scan always carries data");
    assert!(d.is_empty());
}

#[test]
fn detect_common_ports_omits_vanished_owners() {
    let mut resolved: Vec<Option<u32>> = vec![None; 9];
    resolved[7] = Some(u32::MAX);
    let r = detect_common_ports(&resolved);
    let d = r.data.expect("the scan always carries data");
    assert!(d.is_empty());
}

#[test]
fn assemble_scan_keeps_order_and_omits_misses() {
    let a = build_process_info(11, node_record());
    let b = build_process_info(22, ProcessRecord {
        name: String::from("redis-server"),
        exe_path: None,
        cmd_args: vec![String::from("redis-server")],
        user_id: None,
    });
    let ports = vec![3000u16, 3001, 6379];
    let infos: Vec<Option<ProcessInfo>> = vec![Some(a), None, Some(b)];
    let v = assemble_scan(&ports, infos);
    assert_eq!(v.len(), 2);
    assert_eq!(v[0].port, 3000);
    assert!(v[0].in_use);
    assert_eq!(v[0].process.as_ref().map(|p| p.pid), Some(11));
    assert_eq!(v[1].port, 6379);
    assert_eq!(v[1].process.as_ref().map(|p| p.pid), Some(22));
}

#[test]
fn command_line_is_space_joined() {
    assert_eq!(join_args(&vec![String::from("node"), String::from("server.js")]), "node server.js");
    assert_eq!(join_args(&Vec::new()), "");
    assert_eq!(join_args(&vec![String::from("solo")]), "solo");
}

#[test]
fn missing_path_becomes_empty_string() {
    let info = build_process_info(5, ProcessRecord {
        name: String::from("postgres"),
        exe_path: None,
        cmd_args: Vec::new(),
        user_id: None,
    });
    assert_eq!(info.path, "");
    assert_eq!(info.command, "");
    assert_eq!(info.user, None);
    assert_eq!(info.framework, None);
    assert!(!info.is_docker);
}
