use elastic_cli::client::{resolve_base_url, ElasticApi, ElasticApiClient};
use elastic_cli::configuration::{get_default_config, Config, ElasticConfig, Proxy};

fn cluster(host: &str, port: u16) -> ElasticConfig {
    ElasticConfig {
        host: host.to_string(),
        port,
        protocol: "http".to_string(),
        username: "elastic".to_string(),
        password: "secure_password".to_string(),
        version: "8.8.0".to_string(),
    }
}

fn tunnel(enabled: bool, protocol: &str, port: u16) -> Proxy {
    Proxy {
        enabled,
        host: "bastion.example.org".to_string(),
        port,
        protocol: protocol.to_string(),
        key: "/home/me/.ssh/id_rsa".to_string(),
        user: "me".to_string(),
        remote_user: "ops".to_string(),
        timeout: 10,
    }
}

#[test]
fn test_get_elasticsearch_baseurl_when_no_config_file_provided() {
    let conf = get_default_config();

    let client = ElasticApiClient {};

    let base_url = client.get_elasticsearch_baseurl(&conf);
    assert_eq!(base_url, "http://127.0.0.1:9200");
}

#[test]
fn test_get_elasticsearch_baseurl_when_config_file_provided_and_proxy_disabled() {
    let conf = Config { elastic: cluster("otherhost", 9200), proxy: Some(tunnel(false, "http", 9201)) };

    let client = ElasticApiClient {};

    let base_url = client.get_elasticsearch_baseurl(&conf);
    assert_eq!(base_url, "http://otherhost:9200");
}

#[test]
fn test_get_elasticsearch_baseurl_when_config_file_provided_and_proxy_enabled() {
    let conf = Config { elastic: cluster("otherhost", 9200), proxy: Some(tunnel(true, "http", 9201)) };

    let client = ElasticApiClient {};

    let base_url = client.get_elasticsearch_baseurl(&conf);
    assert_eq!(base_url, "http://127.0.0.1:9201");
}

#[test]
fn base_url_without_proxy_is_the_cluster_address() {
    let url = resolve_base_url(&cluster("search.internal", 443), &None);
    assert_eq!(url, "http://search.internal:443");
}

#[test]
fn base_url_with_enabled_proxy_ignores_the_cluster() {
    let proxy = Some(tunnel(true, "https", 9300));
    let one = resolve_base_url(&cluster("a.example", 1), &proxy);
    let other = resolve_base_url(&cluster("b.example", 65535), &proxy);
    assert_eq!(one, "https://127.0.0.1:9300");
    assert_eq!(other, one);
}

#[test]
fn base_url_is_the_same_on_every_call() {
    let conf = Config { elastic: cluster("otherhost", 9200), proxy: Some(tunnel(true, "http", 9201)) };
    let client = ElasticApiClient {};
    let first = client.get_elasticsearch_baseurl(&conf);
    let second = client.get_elasticsearch_baseurl(&conf);
    assert_eq!(first, second);
}

#[test]
fn base_url_writes_ports_in_decimal() {
    assert_eq!(resolve_base_url(&cluster("h", 0), &None), "http://h:0");
    assert_eq!(resolve_base_url(&cluster("h", 7), &None), "http://h:7");
    assert_eq!(resolve_base_url(&cluster("h", 10), &None), "http://h:10");
    assert_eq!(resolve_base_url(&cluster("h", 8080), &None), "http://h:8080");
    assert_eq!(resolve_base_url(&cluster("h", 10000), &None), "http://h:10000");
    assert_eq!(resolve_base_url(&cluster("h", 65535), &None), "http://h:65535");
}
