use money_transfer::connection::{
    encryption_enabled, eq_ignore_ascii_case, parse_address, task_queue, Authentication,
    ConnectionSettings,
};

fn s(v: &str) -> Option<String> {
    Some(v.to_string())
}

#[test]
fn settings_default_to_a_local_server() {
    let c = ConnectionSettings::from_environment(None, None, None, None, None, None);
    assert_eq!(c.address, "127.0.0.1:7233");
    assert_eq!(c.namespace, "default");
    assert_eq!(c.cert_path, "");
    assert_eq!(c.key_path, "");
    assert_eq!(c.api_key, "");
    assert_eq!(c.tls_server_name, None);
    assert_eq!(c.authentication(), Authentication::Plaintext);
    assert!(!c.authentication().uses_tls());
}

#[test]
fn empty_server_name_counts_as_none() {
    let c = ConnectionSettings::from_environment(None, None, None, None, None, s(""));
    assert_eq!(c.tls_server_name, None);
    let c = ConnectionSettings::from_environment(None, None, None, None, None, s("proxy.local"));
    assert_eq!(c.tls_server_name, s("proxy.local"));
}

#[test]
fn api_key_wins_over_certificates() {
    let c = ConnectionSettings::from_environment(
        s("ns.acct.tmprl.cloud:7233"), s("ns.acct"), s("/c.pem"), s("/k.key"), s("secret"), None,
    );
    assert_eq!(c.authentication(), Authentication::ApiKey);
    assert!(c.authentication().uses_tls());
    assert_eq!(c.namespace, "ns.acct");
}

#[test]
fn certificate_needs_its_key() {
    let c = ConnectionSettings::from_environment(None, None, s("/c.pem"), s("/k.key"), s(""), None);
    assert_eq!(c.authentication(), Authentication::MutualTls);
    let c = ConnectionSettings::from_environment(None, None, s("/c.pem"), None, None, None);
    assert_eq!(c.authentication(), Authentication::Plaintext);
}

#[test]
fn bare_addresses_get_a_scheme() {
    assert_eq!(parse_address("127.0.0.1:7233", false).unwrap(), "http://127.0.0.1:7233/");
    assert_eq!(parse_address("localhost:7233", false).unwrap(), "http://localhost:7233/");
    assert_eq!(parse_address("localhost:7233", true).unwrap(), "https://localhost:7233/");
}

#[test]
fn addresses_with_a_scheme_are_kept() {
    assert_eq!(parse_address("https://example.com:7233", false).unwrap(), "https://example.com:7233/");
}

#[test]
fn unparsable_addresses_are_errors() {
    assert!(parse_address("bad host:99999", false).is_err());
}

#[test]
fn task_queue_defaults_to_money_transfer() {
    assert_eq!(task_queue(None), "MoneyTransfer");
    assert_eq!(task_queue(s("other")), "other");
}

#[test]
fn encryption_flag_ignores_case() {
    assert!(encryption_enabled(s("true")));
    assert!(encryption_enabled(s("TRUE")));
    assert!(encryption_enabled(s("True")));
    assert!(!encryption_enabled(s("yes")));
    assert!(!encryption_enabled(s("true ")));
    assert!(!encryption_enabled(None));
    assert!(eq_ignore_ascii_case("ÄbC", "Äbc"));
    assert!(!eq_ignore_ascii_case("ä", "Ä"));
}
