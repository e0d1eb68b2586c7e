//! The server's configuration as it stands in memory: where to listen, and
//! the endpoint declarations.

use vstd::prelude::*;
use crate::params::Params;

verus! {

/// Where the server listens.
#[derive(Debug)]
pub struct ServerConfig {
    pub host: String,
    pub port: u16,
}

/// One endpoint declaration.
#[derive(Debug)]
pub struct EndpointConfig {
    /// The path template; it may hold one placeholder in braces.
    pub path: String,
    /// `GET`, `POST`, `PUT` or `DELETE`, in any case.
    pub method: String,
    /// The name of the handler; it need not be registered.
    pub handler: String,
    /// The static payload that handlers find in their context.
    pub response: String,
    /// For people; never interpreted.
    pub description: String,
    /// Handed to the handler as they are.
    pub params: Params,
}

/// An endpoint declaration with each string taken by its view.
pub struct EndpointView {
    pub path: Seq<char>,
    pub method: Seq<char>,
    pub handler: Seq<char>,
    pub response: Seq<char>,
    pub description: Seq<char>,
    pub params: Map<Seq<char>, Seq<char>>,
}

impl View for EndpointConfig {
    type V = EndpointView;

    open spec fn view(&self) -> EndpointView {
        EndpointView {
            path: self.path@,
            method: self.method@,
            handler: self.handler@,
            response: self.response@,
            description: self.description@,
            params: self.params@,
        }
    }
}

/// The views of a list of endpoint declarations.
pub open spec fn endpoint_views(endpoints: Seq<EndpointConfig>) -> Seq<EndpointView> {
    endpoints.map_values(|e: EndpointConfig| e@)
}

/// The whole configuration.
#[derive(Debug)]
pub struct Config {
    pub server: ServerConfig,
    pub endpoints: Vec<EndpointConfig>,
}

impl Clone for ServerConfig {
    fn clone(&self) -> (copy: Self)
        ensures
            copy == *self,
    {
        ServerConfig { host: self.host.clone(), port: self.port }
    }
}

impl Clone for EndpointConfig {
    fn clone(&self) -> (copy: Self)
        ensures
            copy@ == self@,
    {
        EndpointConfig {
            path: self.path.clone(),
            method: self.method.clone(),
            handler: self.handler.clone(),
            response: self.response.clone(),
            description: self.description.clone(),
            params: self.params.clone(),
        }
    }
}

impl Clone for Config {
    fn clone(&self) -> (copy: Self)
        ensures
            copy.server == self.server,
            endpoint_views(copy.endpoints@) == endpoint_views(self.endpoints@),
    {
        let mut endpoints: Vec<EndpointConfig> = Vec::new();
        let mut i: usize = 0;
        while i < self.endpoints.len()
            invariant
                i <= self.endpoints@.len(),
                endpoints@.len() == i,
                forall|k: int| 0 <= k < i ==> endpoints@[k]@ == self.endpoints@[k]@,
            decreases self.endpoints@.len() - i,
        {
            endpoints.push(self.endpoints[i].clone());
            i = i + 1;
        }
        proof {
            assert(endpoint_views(endpoints@) =~= endpoint_views(self.endpoints@));
        }
        Config { server: self.server.clone(), endpoints }
    }
}

} // verus!
