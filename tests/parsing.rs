use seramc_ssh::config::{backend_config_from, parse_backend_env};
use seramc_ssh::disk::{parse_decimal, parse_disk_space, percent_used};
use seramc_ssh::error::SshError;
use seramc_ssh::model::DiskSpace;

#[test]
fn config_reads_port_and_environment() {
    let content = "APP_PORT=9090\n# comment\nAPP_ENV=\"staging\"\n";
    let (port, env) = parse_backend_env(content);
    assert_eq!(port, "9090");
    assert_eq!(env, "staging");
    let c = backend_config_from("10.0.0.5", content);
    assert_eq!(c.port, "9090");
    assert_eq!(c.environment, "staging");
    assert_eq!(c.api_url, "http://10.0.0.5:9090/api/v1");
    assert_eq!(c.ws_url, "ws://10.0.0.5:9090/api/v1/ws");
}

#[test]
fn config_defaults_when_keys_are_absent() {
    let c = backend_config_from("host", "DB_HOST=localhost\n\n   \n# APP_PORT=1\n");
    assert_eq!(c.port, "8080");
    assert_eq!(c.environment, "production");
    assert_eq!(c.api_url, "http://host:8080/api/v1");
    assert_eq!(c.ws_url, "ws://host:8080/api/v1/ws");
}

#[test]
fn config_trims_and_cuts_at_first_equals() {
    let (port, env) = parse_backend_env("  APP_PORT =  \"7000\"  \r\nAPP_ENV=a=b\nNOEQUALS\nAPP_ENV = dev");
    assert_eq!(port, "7000");
    assert_eq!(env, "dev");
    let (_, env) = parse_backend_env("APP_ENV=a=b");
    assert_eq!(env, "a=b");
}

#[test]
fn config_later_line_wins() {
    let (port, _) = parse_backend_env("APP_PORT=1\nAPP_PORT=2\n");
    assert_eq!(port, "2");
}

#[test]
fn config_strips_all_surrounding_quotes() {
    let (port, env) = parse_backend_env("APP_PORT=\"\"\nAPP_ENV=\"\"qa\"\"\n");
    assert_eq!(port, "");
    assert_eq!(env, "qa");
}

#[test]
fn disk_row_is_parsed() {
    let d = parse_disk_space("/dev/sda1 10000 4000 6000 40% /").unwrap();
    assert_eq!(
        d,
        DiskSpace { total_mb: 10000, used_mb: 4000, available_mb: 6000, percent_used: 40 }
    );
}

#[test]
fn disk_row_with_newline_and_tabs() {
    let d = parse_disk_space("  /dev/vda1\t 2048   1023\t1025  50% /\n").unwrap();
    assert_eq!(d.total_mb, 2048);
    assert_eq!(d.used_mb, 1023);
    assert_eq!(d.available_mb, 1025);
    assert_eq!(d.percent_used, 49);
}

#[test]
fn disk_row_too_short_is_parse_failure() {
    assert!(matches!(parse_disk_space("/dev/sda1 10000 4000 6000"), Err(SshError::Parse(_))));
    assert!(matches!(parse_disk_space(""), Err(SshError::Parse(_))));
}

#[test]
fn disk_fields_that_are_not_numbers_read_as_zero() {
    let d = parse_disk_space("fs x 4000 -1 40% /").unwrap();
    assert_eq!(d.total_mb, 0);
    assert_eq!(d.used_mb, 4000);
    assert_eq!(d.available_mb, 0);
    assert_eq!(d.percent_used, 0);
}

#[test]
fn percent_is_truncated_and_zero_on_empty_disk() {
    assert_eq!(percent_used(1, 3), 33);
    assert_eq!(percent_used(2, 3), 66);
    assert_eq!(percent_used(5, 0), 0);
    assert_eq!(percent_used(10, 10), 100);
    assert_eq!(percent_used(u64::MAX, 1), 255);
}

#[test]
fn decimal_parsing_follows_u64_rules() {
    let s = "+42 18446744073709551615 18446744073709551616 4a + ";
    assert_eq!(parse_decimal(s, 0, 3), Some(42));
    assert_eq!(parse_decimal(s, 4, 24), Some(u64::MAX));
    assert_eq!(parse_decimal(s, 25, 45), None);
    assert_eq!(parse_decimal(s, 46, 48), None);
    assert_eq!(parse_decimal(s, 49, 50), None);
    assert_eq!(parse_decimal(s, 0, 0), None);
}
