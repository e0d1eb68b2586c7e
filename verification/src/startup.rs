//! What the server derives from its configuration when it starts: the log
//! lines that announce it, and the description that the viewer shows.

use vstd::prelude::*;
use vstd::string::*;
use crate::config::{Config, EndpointConfig, EndpointView};
use crate::registry::{HandlerRegistry, SharedHandler};
use crate::text::{decimal, line_views, push_decimal, push_line};
use crate::viewer::{EndpointInfo, ServerInfo};

verus! {

/// The two lines that announce the server.
pub open spec fn banner_lines(config_path: Seq<char>, host: Seq<char>, port: u16) -> Seq<Seq<char>> {
    seq![
        "Server starting with configuration from "@ + config_path,
        "Server will listen on "@ + host + ":"@ + decimal(port as nat),
    ]
}

/// The two lines that announce an endpoint: what it is, and whether a
/// handler is registered under the name that it gives.
pub open spec fn endpoint_lines(
    endpoint: EndpointView,
    handlers: Map<Seq<char>, SharedHandler>,
) -> Seq<Seq<char>> {
    seq![
        "Configured endpoint: "@ + endpoint.method + " "@ + endpoint.path + " - "@
            + endpoint.description,
        if handlers.contains_key(endpoint.handler) {
            "  Using custom handler: "@ + endpoint.handler
        } else {
            "  Using default handler with static response"@
        },
    ]
}

/// The lines that announce the endpoints, in order.
pub open spec fn all_endpoint_lines(
    endpoints: Seq<EndpointConfig>,
    handlers: Map<Seq<char>, SharedHandler>,
) -> Seq<Seq<char>>
    decreases endpoints.len(),
{
    if endpoints.len() == 0 {
        Seq::empty()
    } else {
        all_endpoint_lines(endpoints.drop_last(), handlers) + endpoint_lines(
            endpoints.last()@,
            handlers,
        )
    }
}

/// The log lines of a start with the configuration read from `config_path`.
pub fn startup_lines(config_path: &str, config: &Config, registry: &HandlerRegistry) -> (lines:
    Vec<String>)
    ensures
        line_views(lines@) == banner_lines(config_path@, config.server.host@, config.server.port)
            + all_endpoint_lines(config.endpoints@, registry@),
{
    let mut lines: Vec<String> = Vec::new();
    let mut starting = String::from_str("Server starting with configuration from ");
    starting.append(config_path);
    push_line(&mut lines, starting);
    let mut listening = String::from_str("Server will listen on ");
    listening.append(config.server.host.as_str());
    listening.append(":");
    push_decimal(&mut listening, config.server.port as u64);
    push_line(&mut lines, listening);
    let ghost banner = banner_lines(config_path@, config.server.host@, config.server.port);
    proof {
        assert(line_views(lines@) =~= banner);
        assert(banner + all_endpoint_lines(config.endpoints@.take(0), registry@) =~= banner);
    }
    let mut i: usize = 0;
    while i < config.endpoints.len()
        invariant
            i <= config.endpoints@.len(),
            line_views(lines@) == banner + all_endpoint_lines(
                config.endpoints@.take(i as int),
                registry@,
            ),
        decreases config.endpoints@.len() - i,
    {
        let endpoint = &config.endpoints[i];
        let ghost before = line_views(lines@);
        let mut configured = String::from_str("Configured endpoint: ");
        configured.append(endpoint.method.as_str());
        configured.append(" ");
        configured.append(endpoint.path.as_str());
        configured.append(" - ");
        configured.append(endpoint.description.as_str());
        push_line(&mut lines, configured);
        if registry.contains(endpoint.handler.as_str()) {
            let mut using = String::from_str("  Using custom handler: ");
            using.append(endpoint.handler.as_str());
            push_line(&mut lines, using);
        } else {
            push_line(&mut lines, String::from_str("  Using default handler with static response"));
        }
        proof {
            let taken = config.endpoints@.take(i as int + 1);
            assert(taken.drop_last() =~= config.endpoints@.take(i as int));
            assert(taken.last() == *endpoint);
            assert(line_views(lines@) =~= before + endpoint_lines(endpoint@, registry@));
            assert(line_views(lines@) =~= banner + all_endpoint_lines(taken, registry@));
        }
        i = i + 1;
    }
    proof {
        assert(config.endpoints@.take(i as int) =~= config.endpoints@);
    }
    lines
}

/// What the viewer shows of one endpoint declaration.
pub open spec fn endpoint_info(endpoint: EndpointConfig) -> EndpointInfo {
    EndpointInfo {
        path: endpoint.path,
        method: endpoint.method,
        description: endpoint.description,
    }
}

/// The description of the server for the viewer: where it listens, and its
/// endpoints as they are declared.
pub fn server_info(config: &Config) -> (info: ServerInfo)
    ensures
        info.host == config.server.host,
        info.port == config.server.port,
        info.endpoints@ == config.endpoints@.map_values(|e: EndpointConfig| endpoint_info(e)),
{
    let mut endpoints: Vec<EndpointInfo> = Vec::new();
    let mut i: usize = 0;
    while i < config.endpoints.len()
        invariant
            i <= config.endpoints@.len(),
            endpoints@ == config.endpoints@.take(i as int).map_values(
                |e: EndpointConfig| endpoint_info(e),
            ),
        decreases config.endpoints@.len() - i,
    {
        let endpoint = &config.endpoints[i];
        endpoints.push(
            EndpointInfo {
                path: endpoint.path.clone(),
                method: endpoint.method.clone(),
                description: endpoint.description.clone(),
            },
        );
        proof {
            assert(endpoints@ =~= config.endpoints@.take(i as int + 1).map_values(
                |e: EndpointConfig| endpoint_info(e),
            ));
        }
        i = i + 1;
    }
    proof {
        assert(config.endpoints@.take(i as int) =~= config.endpoints@);
    }
    ServerInfo { host: config.server.host.clone(), port: config.server.port, endpoints }
}

} // verus!
