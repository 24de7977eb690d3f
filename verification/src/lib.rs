//! Run a locally-dispatchable web application as a cloud function behind an
//! HTTP gateway: translate each incoming proxy event into a local request,
//! dispatch it in process, and translate the local response back into the
//! wire shape the gateway expects.
//!
//! The types here model the boundary values as plain data — the proxy event,
//! the local request and response, the wire response — and every translation
//! step carries a contract: method mapping, base-path resolution for the
//! three hosting scenarios, query-string re-serialization with percent
//! encoding, the text/binary encoding policy, and the once-only lazy
//! creation of the dispatch client.

use vstd::prelude::*;

mod body;
mod builder;
mod config;
mod error;
mod handler;
mod laws;
mod request;
mod strutil;
mod uri;

pub use body::Body;
pub use builder::RocketHandlerBuilder;
pub use config::BasePathBehaviour;
pub use config::Config;
pub use config::ResponseType;
pub use error::RocketLambError;
pub use handler::LazyClient;
pub use laws::lemma_alb_no_base_path;
pub use laws::lemma_default_encoding_for_key;
pub use laws::lemma_default_encoding_for_response;
pub use laws::lemma_empty_base_path_paths_equal;
pub use laws::lemma_empty_base_path_uri_mode_independent;
pub use handler::LocalRequest;
pub use handler::LocalResponse;
pub use handler::Method;
pub use handler::RocketHandler;
pub use handler::WireResponse;
pub use handler::to_rocket_method;
pub use request::ProxyRequest;
pub use request::RequestContext;
pub use request::is_default_api_gateway_url;
pub use request::populate_resource_path;

verus! {

/// Extensions for the embedded application type to make it easier to
/// create handlers.
pub trait RocketExt: Sized {
    /// Creates a new [`RocketHandlerBuilder`] around this application, with
    /// the default configuration.
    fn lambda(self) -> (b: RocketHandlerBuilder<Self>)
        ensures
            b.spec_rocket() == self,
            b.spec_config().default_response_type == ResponseType::Text,
            b.spec_config().overrides() == Map::<Seq<char>, ResponseType>::empty(),
            b.spec_config().base_path_behaviour == BasePathBehaviour::RemountAndInclude,
    ;
}

impl<T: Sized> RocketExt for T {
    fn lambda(self) -> (b: RocketHandlerBuilder<T>) {
        RocketHandlerBuilder::new(self)
    }
}

} // verus!
