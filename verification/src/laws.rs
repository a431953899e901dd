//! What holds of every resolution and of every mapping.

use crate::arguments::{AddArgsView, ApiView, Operation};
use crate::client::{base_url_of, missing, origin, request_of, LOOPBACK};
use crate::configuration::{Config, ConfigView, ElasticConfigView, ProxyView};
use crate::request::{MappingErrorView, RequestDescriptorView};
use crate::tunnel::tunnel_of;
use vstd::prelude::*;

verus! {

/// Without a proxy, or with one that is switched off, the base URL is the
/// cluster's own `protocol://host:port`.
pub proof fn direct_address_without_enabled_proxy(
    connection: ElasticConfigView,
    proxy: Option<ProxyView>,
)
    requires
        proxy matches Some(p) ==> !p.enabled,
    ensures
        base_url_of(connection, proxy) == origin(
            connection.protocol,
            connection.host,
            connection.port,
        ),
{
}

/// With an enabled proxy the base URL is the proxy's protocol and port on
/// the loopback address, whatever the cluster's own address is.
pub proof fn enabled_proxy_decides_alone(
    connection: ElasticConfigView,
    other: ElasticConfigView,
    proxy: ProxyView,
)
    requires
        proxy.enabled,
    ensures
        base_url_of(connection, Some(proxy)) == origin(proxy.protocol, "127.0.0.1"@, proxy.port),
        base_url_of(connection, Some(proxy)) == base_url_of(other, Some(proxy)),
{
    assert(LOOPBACK@ == "127.0.0.1"@);
}

/// The base URL is a function of what the settings hold and of nothing
/// else: two settings that hold the same values resolve to the same URL.
pub proof fn resolution_depends_on_values_alone(first: Config, second: Config)
    requires
        first@ == second@,
    ensures
        base_url_of(first@.elastic, first@.proxy) == base_url_of(
            second@.elastic,
            second@.proxy,
        ),
{
}

/// Whenever a tunnel is asked for, the base URL addresses the very port
/// that the tunnel binds locally, on the loopback address; and whenever
/// none is asked for, the base URL is the cluster's own address.
pub proof fn base_url_enters_the_tunnel(config: ConfigView)
    ensures
        match tunnel_of(config) {
            Some(tunnel) => config.proxy is Some && base_url_of(config.elastic, config.proxy)
                == origin(config.proxy->Some_0.protocol, LOOPBACK@, tunnel.local_port),
            None => base_url_of(config.elastic, config.proxy) == origin(
                config.elastic.protocol,
                config.elastic.host,
                config.elastic.port,
            ),
        },
{
}

/// Creating a document without a body has no request: it fails for want
/// of an argument of document creation, whatever else is given. The
/// argument named is the index name where that is absent too, else the
/// body.
pub proof fn document_creation_needs_a_body(args: AddArgsView, base_url: Seq<char>)
    requires
        args.operation == Operation::Create,
        args.body is None,
    ensures
        request_of(ApiView::Document(args), base_url) == Err::<
            RequestDescriptorView,
            MappingErrorView,
        >(
            MappingErrorView::MissingArgument(
                if args.index_name is None {
                    "index_name"@
                } else {
                    "body"@
                },
                "document create"@,
            ),
        ),
{
    reveal_strlit("document");
    reveal_strlit(" ");
    reveal_strlit("create");
    reveal_strlit("document create");
    assert("document"@ + " "@ + "create"@ =~= "document create"@);
}

/// Updating a document of a named index without a body fails for want of
/// the body, whether or not an id is given.
pub proof fn document_update_needs_a_body(args: AddArgsView, base_url: Seq<char>)
    requires
        args.operation == Operation::Update,
        args.index_name is Some,
        args.body is None,
    ensures
        request_of(ApiView::Document(args), base_url) == Err::<
            RequestDescriptorView,
            MappingErrorView,
        >(MappingErrorView::MissingArgument("body"@, "document update"@)),
{
    reveal_strlit("document");
    reveal_strlit(" ");
    reveal_strlit("update");
    reveal_strlit("document update");
    assert("document"@ + " "@ + "update"@ =~= "document update"@);
}

/// A document command without an index name has no request, whatever its
/// operation and whatever else it holds: it fails for want of the index
/// name.
pub proof fn document_needs_its_index_name(args: AddArgsView, base_url: Seq<char>)
    requires
        args.index_name is None,
    ensures
        request_of(ApiView::Document(args), base_url) == Err::<
            RequestDescriptorView,
            MappingErrorView,
        >(missing("index_name"@, "document"@, args.operation)),
{
}

/// Updating an index is not implemented, whatever the other fields hold.
pub proof fn index_update_is_not_implemented(args: AddArgsView, base_url: Seq<char>)
    requires
        args.operation == Operation::Update,
    ensures
        request_of(ApiView::Index(args), base_url) == Err::<
            RequestDescriptorView,
            MappingErrorView,
        >(MappingErrorView::NotImplemented("index update"@)),
{
    reveal_strlit("index");
    reveal_strlit(" ");
    reveal_strlit("update");
    reveal_strlit("index update");
    assert("index"@ + " "@ + "update"@ =~= "index update"@);
}

/// An information command stands for the same request whatever its
/// arguments are.
pub proof fn information_ignores_its_arguments(
    args: AddArgsView,
    other: AddArgsView,
    base_url: Seq<char>,
)
    ensures
        request_of(ApiView::Info(args), base_url) == request_of(ApiView::Info(other), base_url),
{
}

} // verus!
