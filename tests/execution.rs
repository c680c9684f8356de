use seramc_ssh::error::SshError;
use seramc_ssh::lines::LineAssembler;
use seramc_ssh::outcome::{
    active_from, auth_outcome, cat_command, chmod_command, command_outcome, exists_command,
    exists_from_output, exists_from_result, auth_request, install_command, logs_command, output_text_lines, port_command,
    port_free_from, service_command, service_status_from, str_contains,
};
use seramc_ssh::model::CommandResponse;
use seramc_ssh::model::{AuthRequest, SSHAuth};
use seramc_ssh::protocol::{after_step, InstallStep, INSTALL_SCRIPT_PATH};
use seramc_ssh::text::{is_whitespace, trim_bounds};

fn lines_of(chunks: &[&[u8]]) -> Vec<String> {
    let mut a = LineAssembler::new();
    for c in chunks {
        a.push_chunk(c);
    }
    a.finish()
}

#[test]
fn zero_exit_returns_output_exactly() {
    assert_eq!(command_outcome(0, "hello\n".to_string()).unwrap(), "hello\n");
}

#[test]
fn nonzero_exit_is_command_failure_with_output() {
    match command_outcome(3, "boom".to_string()) {
        Err(SshError::Command { exit_code, output }) => {
            assert_eq!(exit_code, 3);
            assert_eq!(output, "boom");
        }
        other => panic!("unexpected {:?}", other),
    }
    assert!(matches!(command_outcome(-1, String::new()), Err(SshError::Command { exit_code: -1, .. })));
}

#[test]
fn line_split_across_chunks_is_reassembled() {
    let whole = lines_of(&[b"first line\nsecond line\n"]);
    let split = lines_of(&[b"first li", b"ne\nsecond line\n"]);
    assert_eq!(whole, vec!["first line".to_string(), "second line".to_string()]);
    assert_eq!(split, whole);
}

#[test]
fn character_split_across_chunks_is_reassembled() {
    let bytes = "año ñandú\nok\n".as_bytes();
    let whole = lines_of(&[bytes]);
    let split = lines_of(&[&bytes[..2], &bytes[2..]]);
    assert_eq!(whole, vec!["año ñandú".to_string(), "ok".to_string()]);
    assert_eq!(split, whole);
}

#[test]
fn streamed_lines_follow_str_lines() {
    assert_eq!(lines_of(&[b"a\r\nb"]), vec!["a".to_string(), "b".to_string()]);
    assert_eq!(lines_of(&[b"\n\nx\n"]), vec![String::new(), String::new(), "x".to_string()]);
    assert_eq!(lines_of(&[b"x\r\ny\r"]), vec!["x".to_string(), "y\r".to_string()]);
    assert!(lines_of(&[]).is_empty());
    assert!(lines_of(&[b""]).is_empty());
}

#[test]
fn invalid_bytes_are_replaced() {
    assert_eq!(lines_of(&[b"a\xffb\n"]), vec!["a\u{fffd}b".to_string()]);
}

#[test]
fn output_lines_of_a_buffered_output() {
    assert_eq!(
        output_text_lines("l1\r\nl2\nl3"),
        vec!["l1".to_string(), "l2".to_string(), "l3".to_string()]
    );
}

#[test]
fn rejected_credential_is_authentication_failure() {
    assert!(matches!(auth_outcome(Err("denied".to_string()), true), Err(SshError::Authentication(_))));
    assert!(matches!(auth_outcome(Err("denied".to_string()), false), Err(SshError::Authentication(_))));
    assert!(matches!(auth_outcome(Ok(()), false), Err(SshError::Authentication(_))));
    assert!(auth_outcome(Ok(()), true).is_ok());
}

#[test]
fn command_lines_are_built_verbatim() {
    assert_eq!(exists_command("/a b"), "test -e /a b && echo 'exists' || echo 'not_exists'");
    assert_eq!(cat_command("/etc/x"), "cat /etc/x");
    assert_eq!(service_command("nginx"), "systemctl is-active nginx");
    assert_eq!(chmod_command("/tmp/s.sh"), "chmod +x /tmp/s.sh");
    assert_eq!(port_command(8080), "netstat -tuln | grep :8080 || echo 'AVAILABLE'");
    assert_eq!(port_command(0), "netstat -tuln | grep :0 || echo 'AVAILABLE'");
    assert_eq!(logs_command("aymc-agent", 250), "journalctl -u aymc-agent -n 250 --no-pager");
}

#[test]
fn install_command_injects_environment() {
    assert_eq!(
        install_command(INSTALL_SCRIPT_PATH, "pw", "sec", None),
        "DB_PASSWORD='pw' JWT_SECRET='sec' APP_PORT='8080' /tmp/install-aymc.sh"
    );
    assert_eq!(
        install_command("/x.sh", "p'w", "s", Some("9000".to_string())),
        "DB_PASSWORD='p'w' JWT_SECRET='s' APP_PORT='9000' /x.sh"
    );
}

#[test]
fn probe_answers_are_read() {
    assert!(exists_from_output("exists\n"));
    assert!(!exists_from_output("not_exists\n"));
    assert!(active_from(&Ok(" active\n".to_string())));
    assert!(!active_from(&Ok("inactive\n".to_string())));
    assert!(!active_from(&Err(SshError::Command { exit_code: 3, output: "inactive".to_string() })));
    assert!(port_free_from(&Ok("AVAILABLE\n".to_string())));
    assert!(!port_free_from(&Ok("tcp 0 0 0.0.0.0:8080 LISTEN\n".to_string())));
    assert!(!port_free_from(&Err(SshError::Channel("x".to_string()))));
}

#[test]
fn substring_search() {
    assert!(str_contains("abcabd", "abd"));
    assert!(!str_contains("abcab", "abd"));
    assert!(str_contains("x", ""));
    assert!(!str_contains("", "a"));
}

#[test]
fn trimming_bounds() {
    assert_eq!(trim_bounds("  ab c \t", 0, 8, false), (2, 6));
    assert_eq!(trim_bounds("\"\"q\"", 0, 4, true), (2, 3));
    assert_eq!(trim_bounds("   ", 0, 3, false), (3, 3));
    assert!(is_whitespace('\u{3000}'));
    assert!(!is_whitespace('a'));
}

#[test]
fn all_checks_false_gives_no_paths() {
    let s = service_status_from(false, false, false, false, false);
    assert!(!s.backend_installed && !s.agent_installed);
    assert!(!s.backend_running && !s.agent_running && !s.postgresql_running);
    assert_eq!(s.backend_path, None);
    assert_eq!(s.agent_path, None);
}

#[test]
fn installed_parts_get_paths() {
    let s = service_status_from(true, true, false, true, true);
    assert_eq!(s.backend_path.as_deref(), Some("/opt/aymc/backend"));
    assert_eq!(s.agent_path.as_deref(), Some("/opt/aymc/agent"));
    assert!(s.agent_running && s.postgresql_running && !s.backend_running);
}

#[test]
fn chmod_failure_stops_the_protocol() {
    assert_eq!(after_step(InstallStep::Upload, Ok(())).unwrap(), Some(InstallStep::Chmod));
    assert_eq!(after_step(InstallStep::Chmod, Ok(())).unwrap(), Some(InstallStep::Execute));
    assert_eq!(after_step(InstallStep::Execute, Ok(())).unwrap(), None);
    let f = after_step(InstallStep::Chmod, Err(SshError::Command { exit_code: 1, output: "denied".to_string() }))
        .unwrap_err();
    assert_eq!(f.step, InstallStep::Chmod);
    assert!(matches!(f.error, SshError::Command { exit_code: 1, .. }));
    let f = after_step(InstallStep::Upload, Err(SshError::Io("w".to_string()))).unwrap_err();
    assert_eq!(f.step, InstallStep::Upload);
}

#[test]
fn failed_existence_test_stays_a_failure() {
    assert_eq!(exists_from_result(Ok("exists\n".to_string())).unwrap(), true);
    assert_eq!(exists_from_result(Ok("not_exists\n".to_string())).unwrap(), false);
    assert!(matches!(
        exists_from_result(Err(SshError::Command { exit_code: 255, output: String::new() })),
        Err(SshError::Command { exit_code: 255, .. })
    ));
}

#[test]
fn authentication_requests_per_credential() {
    let pw = SSHAuth::Password { password: "s3".to_string() };
    assert!(matches!(auth_request(&pw, None), Some(AuthRequest::Password { password }) if password == "s3"));
    let file = SSHAuth::PrivateKey { private_key_path: "/k/id".to_string(), passphrase: Some("pp".to_string()) };
    match auth_request(&file, Some("/ignored")) {
        Some(AuthRequest::KeyFile { key_path, passphrase }) => {
            assert_eq!(key_path, "/k/id");
            assert_eq!(passphrase.as_deref(), Some("pp"));
        }
        other => panic!("unexpected {:?}", other),
    }
    let data = SSHAuth::PrivateKeyData { private_key_data: "KEY".to_string(), passphrase: None };
    assert!(auth_request(&data, None).is_none());
    match auth_request(&data, Some("/tmp/k.tmp")) {
        Some(AuthRequest::KeyFile { key_path, passphrase }) => {
            assert_eq!(key_path, "/tmp/k.tmp");
            assert_eq!(passphrase, None);
        }
        other => panic!("unexpected {:?}", other),
    }
}

#[test]
fn response_envelopes() {
    let ok = CommandResponse::success(5u8);
    assert!(ok.success);
    assert_eq!(ok.data, Some(5));
    assert_eq!(ok.error, None);
    let err: CommandResponse<u8> = CommandResponse::error("no session".to_string());
    assert!(!err.success);
    assert_eq!(err.data, None);
    assert_eq!(err.error.as_deref(), Some("no session"));
}

#[test]
fn empty_session_slot() {
    let mut slot = seramc_ssh::client::SessionSlot::new();
    assert!(!slot.is_connected());
    assert!(slot.client().is_none());
    assert!(!slot.disconnect());
    assert!(!slot.is_connected());
}
