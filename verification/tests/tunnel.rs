use elastic_cli::client::resolve_base_url;
use elastic_cli::configuration::{get_default_config, Config, ElasticConfig, Proxy};
use elastic_cli::tunnel::{plan_tunnel, Tunnel};

fn settings(enabled: bool) -> Config {
    Config {
        elastic: ElasticConfig {
            host: "otherhost".to_string(),
            port: 9200,
            protocol: "http".to_string(),
            username: "elastic".to_string(),
            password: "secure_password".to_string(),
            version: "8.8.0".to_string(),
        },
        proxy: Some(Proxy {
            enabled,
            host: "bastion.example.org".to_string(),
            port: 9201,
            protocol: "http".to_string(),
            key: "/home/me/.ssh/id_rsa".to_string(),
            user: "me".to_string(),
            remote_user: "ops".to_string(),
            timeout: 10,
        }),
    }
}

#[test]
fn no_tunnel_without_a_proxy() {
    assert_eq!(plan_tunnel(&get_default_config()), None);
}

#[test]
fn no_tunnel_with_a_disabled_proxy() {
    assert_eq!(plan_tunnel(&settings(false)), None);
}

#[test]
fn tunnel_forwards_the_proxy_port_to_the_cluster() {
    assert_eq!(
        plan_tunnel(&settings(true)),
        Some(Tunnel {
            local_port: 9201,
            remote_host: "otherhost".to_string(),
            remote_port: 9200,
            identity: "/home/me/.ssh/id_rsa".to_string(),
            login_user: "ops".to_string(),
            login_host: "bastion.example.org".to_string(),
            timeout: 10,
        })
    );
}

#[test]
fn base_url_addresses_the_port_that_the_tunnel_binds() {
    let conf = settings(true);
    let tunnel = plan_tunnel(&conf).unwrap();
    let url = resolve_base_url(&conf.elastic, &conf.proxy);
    assert_eq!(url, format!("http://127.0.0.1:{}", tunnel.local_port));
}
