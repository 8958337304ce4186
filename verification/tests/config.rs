use lotide::config::{parse_flag, parse_port, read_config, ConfigError, DEFAULT_PORT};

#[test]
fn ports_are_read_as_the_standard_library_reads_them() {
    for s in ["0", "80", "3333", "65535", "+80", "0080"] {
        assert_eq!(parse_port(s), s.parse::<u16>().ok());
        assert!(parse_port(s).is_some());
    }
    for s in ["", "-1", "-0", "65536", "99999999999999999999", "80 ", "8o", "+"] {
        assert_eq!(parse_port(s), None);
        assert!(s.parse::<u16>().is_err());
    }
}

#[test]
fn flags_are_true_or_false() {
    assert_eq!(parse_flag("true"), Some(true));
    assert_eq!(parse_flag("false"), Some(false));
    for s in ["", "1", "TRUE", "yes", "true "] {
        assert_eq!(parse_flag(s), None);
        assert!(s.parse::<bool>().is_err());
    }
}

#[test]
fn settings_with_defaults() {
    let c = read_config(
        Some("https://lotide.example:8443/apub"),
        Some("https://lotide.example/api"),
        None,
        Some("postgres://localhost/lotide"),
        None,
    )
    .unwrap();
    assert_eq!(c.port, 3333);
    assert_eq!(DEFAULT_PORT, 3333);
    assert!(!c.apub_proxy_rewrites);
    assert_eq!(c.local_hostname, "lotide.example:8443");
    assert_eq!(c.host_url_apub, "https://lotide.example:8443/apub");
    assert_eq!(c.host_url_api, "https://lotide.example/api");
    assert_eq!(c.database_url, "postgres://localhost/lotide");
    let c = read_config(Some("https://l.example"), Some("a"), Some("true"), Some("d"), Some("80"))
        .unwrap();
    assert_eq!((c.port, c.apub_proxy_rewrites), (80, true));
    assert_eq!(c.local_hostname, "l.example");
}

#[test]
fn unusable_settings() {
    let apub = Some("https://l.example");
    assert_eq!(
        read_config(None, None, Some("x"), None, Some("x")),
        Err(ConfigError::MissingHostUrlActivityPub)
    );
    assert_eq!(
        read_config(apub, None, Some("x"), None, Some("x")),
        Err(ConfigError::MissingHostUrlApi)
    );
    assert_eq!(
        read_config(apub, Some("a"), Some("x"), None, Some("x")),
        Err(ConfigError::InvalidProxyRewrites)
    );
    assert_eq!(
        read_config(apub, Some("a"), Some("false"), None, Some("x")),
        Err(ConfigError::MissingDatabaseUrl)
    );
    assert_eq!(
        read_config(apub, Some("a"), None, Some("d"), Some("x")),
        Err(ConfigError::InvalidPort)
    );
    assert_eq!(
        read_config(Some("nonsense"), Some("a"), None, Some("d"), None),
        Err(ConfigError::InvalidHostUrlActivityPub)
    );
}
