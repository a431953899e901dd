//! What a tunnel supervisor is told when the cluster is reached through a
//! forwarded local port.

use crate::configuration::{Config, ConfigView};
use vstd::prelude::*;

verus! {

/// One port forward: the local port to bind, the remote address to reach
/// from the far end, and how to log in there.
#[derive(Debug, Clone, PartialEq, Eq)]
pub struct Tunnel {
    pub local_port: u16,
    pub remote_host: String,
    pub remote_port: u16,
    pub identity: String,
    pub login_user: String,
    pub login_host: String,
    pub timeout: u8,
}

/// What a `Tunnel` holds, as plain values.
pub struct TunnelView {
    pub local_port: u16,
    pub remote_host: Seq<char>,
    pub remote_port: u16,
    pub identity: Seq<char>,
    pub login_user: Seq<char>,
    pub login_host: Seq<char>,
    pub timeout: u8,
}

impl View for Tunnel {
    type V = TunnelView;

    open spec fn view(&self) -> TunnelView {
        TunnelView {
            local_port: self.local_port,
            remote_host: self.remote_host@,
            remote_port: self.remote_port,
            identity: self.identity@,
            login_user: self.login_user@,
            login_host: self.login_host@,
            timeout: self.timeout,
        }
    }
}

/// The forward that the settings ask for: none without an enabled proxy;
/// with one, the proxy's port locally, the cluster's own address remotely,
/// and the proxy's key, remote user, host and lifetime for the login.
pub open spec fn tunnel_of(config: ConfigView) -> Option<TunnelView> {
    match config.proxy {
        Some(p) => if p.enabled {
            Some(
                TunnelView {
                    local_port: p.port,
                    remote_host: config.elastic.host,
                    remote_port: config.elastic.port,
                    identity: p.key,
                    login_user: p.remote_user,
                    login_host: p.host,
                    timeout: p.timeout,
                },
            )
        } else {
            None
        },
        None => None,
    }
}

/// The view of an optional tunnel.
pub open spec fn tunnel_view(tunnel: Option<Tunnel>) -> Option<TunnelView> {
    match tunnel {
        Some(t) => Some(t@),
        None => None,
    }
}

/// Works out the forward that the settings ask for, if they ask for one.
pub fn plan_tunnel(config: &Config) -> (tunnel: Option<Tunnel>)
    ensures
        tunnel_view(tunnel) == tunnel_of(config@),
{
    match &config.proxy {
        Some(p) => {
            if p.enabled {
                Some(
                    Tunnel {
                        local_port: p.port,
                        remote_host: config.elastic.host.clone(),
                        remote_port: config.elastic.port,
                        identity: p.key.clone(),
                        login_user: p.remote_user.clone(),
                        login_host: p.host.clone(),
                        timeout: p.timeout,
                    },
                )
            } else {
                None
            }
        },
        None => None,
    }
}

} // verus!
