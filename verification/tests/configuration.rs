use elastic_cli::configuration::get_default_config;

#[test]
fn test_get_configuration_use_defaults_when_no_config_basedir_provided() {
    let config = get_default_config();

    assert_eq!(config.elastic.host, "127.0.0.1".to_string());
    assert_eq!(config.elastic.port, 9200);
    assert_eq!(config.elastic.version, "8.8.0".to_string(),);
    assert_eq!(config.elastic.protocol, "http".to_string());
    assert_eq!(config.elastic.username, "elastic".to_string());
    assert_eq!(config.elastic.password, "changeme".to_string());
}

#[test]
fn default_configuration_has_no_proxy() {
    let config = get_default_config();
    assert!(config.proxy.is_none());
}
