//! The client's two decisions: which base URL to address, and which request
//! a command stands for.

use crate::arguments::{
    text_view, AddArgs, AddArgsView, Api, ApiView, Arguments, Operation, DOCUMENT_FAMILY,
    INDEX_FAMILY,
};
use crate::configuration::{Config, ElasticConfig, ElasticConfigView, Proxy, ProxyView};
use crate::decimal::{decimal, push_decimal};
use crate::request::{
    outcome_view, Header, MappingError, MappingErrorView, Method, RequestDescriptor,
    RequestDescriptorView,
};
use vstd::prelude::*;

verus! {

/// The address at which a forwarded port is reached.
pub const LOOPBACK: &'static str = "127.0.0.1";

/// `protocol://host:port`, the port in decimal.
pub open spec fn origin(protocol: Seq<char>, host: Seq<char>, port: u16) -> Seq<char> {
    protocol + "://"@ + host + ":"@ + decimal(port as nat)
}

/// The base URL to address. With an enabled proxy it is the forwarded port
/// on the loopback address, under the proxy's protocol, and the cluster's
/// own address plays no part; otherwise it is the cluster's own address.
pub open spec fn base_url_of(connection: ElasticConfigView, proxy: Option<ProxyView>) -> Seq<
    char,
> {
    match proxy {
        Some(p) => if p.enabled {
            origin(p.protocol, LOOPBACK@, p.port)
        } else {
            origin(connection.protocol, connection.host, connection.port)
        },
        None => origin(connection.protocol, connection.host, connection.port),
    }
}

/// Writes `protocol://host:port`.
fn origin_text(protocol: &str, host: &str, port: u16) -> (url: String)
    ensures
        url@ == origin(protocol@, host@, port),
{
    let mut url = protocol.to_owned();
    url.append("://");
    url.append(host);
    url.append(":");
    push_decimal(&mut url, port);
    url
}

/// The names of the fields that an operation may miss.
pub const INDEX_NAME_FIELD: &'static str = "index_name";

pub const BODY_FIELD: &'static str = "body";

pub const ID_FIELD: &'static str = "id";

/// The body that creates an index when none is given: an empty object.
pub const EMPTY_OBJECT: &'static str = "{}";

/// The type under which a document is deleted when none is given.
pub const DEFAULT_DOCUMENT_TYPE: &'static str = "_doc";

/// The one header that a request may carry.
pub const CONTENT_TYPE: &'static str = "Content-Type";

pub const JSON: &'static str = "application/json";

/// A family and an operation in words, as `"document update"`.
pub open spec fn context(family: Seq<char>, operation: Operation) -> Seq<char> {
    family + " "@ + operation.name()
}

/// The error for a field that `operation` needs in `family` and did not get.
pub open spec fn missing(field: Seq<char>, family: Seq<char>, operation: Operation)
    -> MappingErrorView {
    MappingErrorView::MissingArgument(field, context(family, operation))
}

/// The headers of a request whose body is JSON.
pub open spec fn json_headers() -> Seq<(Seq<char>, Seq<char>)> {
    seq![(CONTENT_TYPE@, JSON@)]
}

/// `base/segment`. Nothing is escaped: the segment is taken as URL-safe.
pub open spec fn child(base: Seq<char>, segment: Seq<char>) -> Seq<char> {
    base + "/"@ + segment
}

/// The request for cluster information: a plain read of the base URL.
pub open spec fn info_request(base_url: Seq<char>) -> RequestDescriptorView {
    RequestDescriptorView { method: Method::Get, url: base_url, body: None, headers: seq![] }
}

/// The request of an index command.
///
/// Updating an index is not offered, whatever else is given. The other
/// operations need the index name, and address `base_url/index`: creation
/// with `PUT`, a JSON body (an empty object by default) and the JSON header;
/// reading with `GET`; deletion with `DELETE`.
pub open spec fn index_request(args: AddArgsView, base_url: Seq<char>) -> Result<
    RequestDescriptorView,
    MappingErrorView,
> {
    if args.operation == Operation::Update {
        Err(MappingErrorView::NotImplemented(context(INDEX_FAMILY@, Operation::Update)))
    } else {
        match args.index_name {
            None => Err(missing(INDEX_NAME_FIELD@, INDEX_FAMILY@, args.operation)),
            Some(index) => Ok(
                match args.operation {
                    Operation::Create => RequestDescriptorView {
                        method: Method::Put,
                        url: child(base_url, index),
                        body: Some(
                            match args.body {
                                Some(body) => body,
                                None => EMPTY_OBJECT@,
                            },
                        ),
                        headers: json_headers(),
                    },
                    Operation::Delete => RequestDescriptorView {
                        method: Method::Delete,
                        url: child(base_url, index),
                        body: None,
                        headers: seq![],
                    },
                    _ => RequestDescriptorView {
                        method: Method::Get,
                        url: child(base_url, index),
                        body: None,
                        headers: seq![],
                    },
                },
            ),
        }
    }
}

/// The field that a document operation needs besides the index name and
/// did not get, if there is one: the body for creation, the body and then
/// the id for an update, the id for deletion.
pub open spec fn document_lack(args: AddArgsView) -> Option<Seq<char>> {
    match args.operation {
        Operation::Create => if args.body is None {
            Some(BODY_FIELD@)
        } else {
            None
        },
        Operation::Read => None,
        Operation::Update => if args.body is None {
            Some(BODY_FIELD@)
        } else if args.id is None {
            Some(ID_FIELD@)
        } else {
            None
        },
        Operation::Delete => if args.id is None {
            Some(ID_FIELD@)
        } else {
            None
        },
    }
}

/// The request of a document command that lacks nothing, on `index`.
///
/// Creation posts the body to `_doc`, an update posts it to `_update/id`,
/// both with the JSON header. A search posts the body (empty by default) to
/// `_search`. Deletion addresses `type/id`, the type `_doc` by default.
pub open spec fn document_request_on(args: AddArgsView, index: Seq<char>, base_url: Seq<char>)
    -> RequestDescriptorView {
    let home = child(base_url, index);
    match args.operation {
        Operation::Create => RequestDescriptorView {
            method: Method::Post,
            url: child(home, "_doc"@),
            body: args.body,
            headers: json_headers(),
        },
        Operation::Read => RequestDescriptorView {
            method: Method::Post,
            url: child(home, "_search"@),
            body: Some(
                match args.body {
                    Some(body) => body,
                    None => Seq::<char>::empty(),
                },
            ),
            headers: seq![],
        },
        Operation::Update => RequestDescriptorView {
            method: Method::Post,
            url: child(child(home, "_update"@), args.id->Some_0),
            body: args.body,
            headers: json_headers(),
        },
        Operation::Delete => RequestDescriptorView {
            method: Method::Delete,
            url: child(
                child(
                    home,
                    match args.document_type {
                        Some(t) => t,
                        None => DEFAULT_DOCUMENT_TYPE@,
                    },
                ),
                args.id->Some_0,
            ),
            body: None,
            headers: seq![],
        },
    }
}

/// The request of a document command.
///
/// The index name is asked for first: without it the command fails for
/// want of it, whatever else is given or lacking. With it, what the
/// operation itself lacks is reported; a command that lacks nothing has its
/// request.
pub open spec fn document_request(args: AddArgsView, base_url: Seq<char>) -> Result<
    RequestDescriptorView,
    MappingErrorView,
> {
    match args.index_name {
        None => Err(missing(INDEX_NAME_FIELD@, DOCUMENT_FAMILY@, args.operation)),
        Some(index) => match document_lack(args) {
            Some(field) => Err(missing(field, DOCUMENT_FAMILY@, args.operation)),
            None => Ok(document_request_on(args, index, base_url)),
        },
    }
}

/// The request that `command` stands for at `base_url`, or the reason why
/// it has none. An information command ignores its arguments.
pub open spec fn request_of(command: ApiView, base_url: Seq<char>) -> Result<
    RequestDescriptorView,
    MappingErrorView,
> {
    match command {
        ApiView::Info(_) => Ok(info_request(base_url)),
        ApiView::Index(args) => index_request(args, base_url),
        ApiView::Document(args) => document_request(args, base_url),
    }
}

/// Resolves the base URL for the given connection and optional proxy.
pub fn resolve_base_url(connection: &ElasticConfig, proxy: &Option<Proxy>) -> (url: String)
    ensures
        url@ == base_url_of(
            connection@,
            match *proxy {
                Some(p) => Some(p@),
                None => None,
            },
        ),
{
    match proxy {
        Some(p) => {
            if p.enabled {
                origin_text(p.protocol.as_str(), LOOPBACK, p.port)
            } else {
                origin_text(connection.protocol.as_str(), connection.host.as_str(), connection.port)
            }
        },
        None => origin_text(
            connection.protocol.as_str(),
            connection.host.as_str(),
            connection.port,
        ),
    }
}

/// Writes `base/segment`.
fn child_text(base: &str, segment: &str) -> (url: String)
    ensures
        url@ == child(base@, segment@),
{
    let mut url = base.to_owned();
    url.append("/");
    url.append(segment);
    url
}

/// Writes a family and an operation in words.
fn context_text(family: &str, operation: Operation) -> (text: String)
    ensures
        text@ == context(family@, operation),
{
    let mut text = family.to_owned();
    text.append(" ");
    text.append(operation.as_str());
    text
}

/// Builds the error for a lacking field.
fn missing_argument(field: &str, family: &str, operation: Operation) -> (error: MappingError)
    ensures
        error@ == missing(field@, family@, operation),
{
    MappingError::MissingArgument(field.to_owned(), context_text(family, operation))
}

/// Puts a request together.
fn request(method: Method, url: String, body: Option<String>, json: bool) -> (request:
    RequestDescriptor)
    ensures
        request@ == (RequestDescriptorView {
            method,
            url: url@,
            body: text_view(body),
            headers: if json {
                json_headers()
            } else {
                seq![]
            },
        }),
{
    let mut headers: Vec<Header> = Vec::new();
    if json {
        headers.push(Header { name: CONTENT_TYPE.to_owned(), value: JSON.to_owned() });
    }
    let request = RequestDescriptor { method, url, body, headers };
    assert(request@.headers =~= if json {
        json_headers()
    } else {
        seq![]
    });
    request
}

/// Maps an information command: a `GET` of the base URL itself.
pub fn map_info(base_url: &str) -> (request: RequestDescriptor)
    ensures
        request@ == info_request(base_url@),
{
    request(Method::Get, base_url.to_owned(), None, false)
}

/// Maps an index command onto its request, or says why it has none.
pub fn map_index(arguments: AddArgs, base_url: &str) -> (outcome: Result<
    RequestDescriptor,
    MappingError,
>)
    ensures
        outcome_view(outcome) == index_request(arguments@, base_url@),
{
    let AddArgs { operation, index_name, body, document_type: _, id: _, page: _ } = arguments;
    match operation {
        Operation::Update => Err(
            MappingError::NotImplemented(context_text(INDEX_FAMILY, Operation::Update)),
        ),
        _ => match index_name {
            None => Err(missing_argument(INDEX_NAME_FIELD, INDEX_FAMILY, operation)),
            Some(index) => {
                let url = child_text(base_url, index.as_str());
                match operation {
                    Operation::Create => {
                        let body = match body {
                            Some(body) => body,
                            None => EMPTY_OBJECT.to_owned(),
                        };
                        Ok(request(Method::Put, url, Some(body), true))
                    },
                    Operation::Delete => Ok(request(Method::Delete, url, None, false)),
                    _ => Ok(request(Method::Get, url, None, false)),
                }
            },
        },
    }
}

/// Maps a document command onto its request, or says why it has none.
pub fn map_document(arguments: AddArgs, base_url: &str) -> (outcome: Result<
    RequestDescriptor,
    MappingError,
>)
    ensures
        outcome_view(outcome) == document_request(arguments@, base_url@),
{
    let AddArgs { operation, index_name, body, document_type, id, page: _ } = arguments;
    let index = match index_name {
        None => {
            return Err(missing_argument(INDEX_NAME_FIELD, DOCUMENT_FAMILY, operation));
        },
        Some(index) => index,
    };
    let home = child_text(base_url, index.as_str());
    match operation {
        Operation::Create => match body {
            None => Err(missing_argument(BODY_FIELD, DOCUMENT_FAMILY, operation)),
            Some(body) => {
                let url = child_text(home.as_str(), "_doc");
                Ok(request(Method::Post, url, Some(body), true))
            },
        },
        Operation::Read => {
            let url = child_text(home.as_str(), "_search");
            let body = match body {
                Some(body) => body,
                None => String::new(),
            };
            Ok(request(Method::Post, url, Some(body), false))
        },
        Operation::Update => match body {
            None => Err(missing_argument(BODY_FIELD, DOCUMENT_FAMILY, operation)),
            Some(body) => match id {
                None => Err(missing_argument(ID_FIELD, DOCUMENT_FAMILY, operation)),
                Some(id) => {
                    let updates = child_text(home.as_str(), "_update");
                    let url = child_text(updates.as_str(), id.as_str());
                    Ok(request(Method::Post, url, Some(body), true))
                },
            },
        },
        Operation::Delete => match id {
            None => Err(missing_argument(ID_FIELD, DOCUMENT_FAMILY, operation)),
            Some(id) => {
                let kind = match document_type {
                    Some(kind) => kind,
                    None => DEFAULT_DOCUMENT_TYPE.to_owned(),
                };
                let shelf = child_text(home.as_str(), kind.as_str());
                let url = child_text(shelf.as_str(), id.as_str());
                Ok(request(Method::Delete, url, None, false))
            },
        },
    }
}

/// Maps a command onto its request at `base_url`, or says why it has none.
pub fn map_command(command: Api, base_url: &str) -> (outcome: Result<
    RequestDescriptor,
    MappingError,
>)
    ensures
        outcome_view(outcome) == request_of(command@, base_url@),
{
    match command {
        Api::Info(_) => Ok(map_info(base_url)),
        Api::Index(arguments) => map_index(arguments, base_url),
        Api::Document(arguments) => map_document(arguments, base_url),
    }
}

/// What a client of the cluster decides before anything is sent: the base
/// URL that its settings select, and the request that a command stands for
/// there.
pub trait ElasticApi {
    /// The request of the whole invocation.
    fn execute_command(&self, config: &Config, arguments: Arguments) -> (outcome: Result<
        RequestDescriptor,
        MappingError,
    >)
        ensures
            outcome_view(outcome) == request_of(
                arguments@.api,
                base_url_of(config@.elastic, config@.proxy),
            ),
    ;

    /// The base URL that `config` selects.
    fn get_elasticsearch_baseurl(&self, config: &Config) -> (url: String)
        ensures
            url@ == base_url_of(config@.elastic, config@.proxy),
    ;

    /// The request of an information command. The arguments play no part.
    fn info_command(&self, config: &Config, arguments: Arguments) -> (outcome: Result<
        RequestDescriptor,
        MappingError,
    >)
        ensures
            outcome_view(outcome) == Ok::<RequestDescriptorView, MappingErrorView>(
                info_request(base_url_of(config@.elastic, config@.proxy)),
            ),
    ;

    /// The request of an index command.
    fn index_command(&self, config: &Config, arguments: AddArgs) -> (outcome: Result<
        RequestDescriptor,
        MappingError,
    >)
        ensures
            outcome_view(outcome) == index_request(
                arguments@,
                base_url_of(config@.elastic, config@.proxy),
            ),
    ;

    /// The request of a document command.
    fn document_command(&self, config: &Config, arguments: AddArgs) -> (outcome: Result<
        RequestDescriptor,
        MappingError,
    >)
        ensures
            outcome_view(outcome) == document_request(
                arguments@,
                base_url_of(config@.elastic, config@.proxy),
            ),
    ;
}

/// The client.
pub struct ElasticApiClient {}

impl ElasticApi for ElasticApiClient {
    fn execute_command(&self, config: &Config, arguments: Arguments) -> (outcome: Result<
        RequestDescriptor,
        MappingError,
    >) {
        let base_url = self.get_elasticsearch_baseurl(config);
        map_command(arguments.api, base_url.as_str())
    }

    fn get_elasticsearch_baseurl(&self, config: &Config) -> (url: String) {
        resolve_base_url(&config.elastic, &config.proxy)
    }

    fn info_command(&self, config: &Config, arguments: Arguments) -> (outcome: Result<
        RequestDescriptor,
        MappingError,
    >) {
        let base_url = self.get_elasticsearch_baseurl(config);
        Ok(map_info(base_url.as_str()))
    }

    fn index_command(&self, config: &Config, arguments: AddArgs) -> (outcome: Result<
        RequestDescriptor,
        MappingError,
    >) {
        let base_url = self.get_elasticsearch_baseurl(config);
        map_index(arguments, base_url.as_str())
    }

    fn document_command(&self, config: &Config, arguments: AddArgs) -> (outcome: Result<
        RequestDescriptor,
        MappingError,
    >) {
        let base_url = self.get_elasticsearch_baseurl(config);
        map_document(arguments, base_url.as_str())
    }
}

} // verus!
