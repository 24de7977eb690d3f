//! The library-wide laws: facts that hold of every input, proved once here
//! and usable by every caller.

use vstd::prelude::*;
use crate::config::{Config, ResponseType};
use crate::handler::{spec_dispatch_uri, spec_resolved_mode};
use crate::request::{spec_api_path, spec_base_path, spec_full_path, ProxyRequest};

verus! {

/// For a configuration with no overrides whose default mode is text, the
/// effective encoding mode for any content-type key is text.
pub proof fn lemma_default_encoding_for_key(c: Config, key: Seq<char>)
    requires
        c.overrides() == Map::<Seq<char>, ResponseType>::empty(),
        c.default_response_type == ResponseType::Text,
    ensures
        c.spec_mode_for(key) == ResponseType::Text,
{
    assert(!Map::<Seq<char>, ResponseType>::empty().dom().contains(key));
}

/// For a configuration with no overrides whose default mode is text, the
/// encoding mode resolved for any response — whatever its content-type
/// header, including none at all — is text.
pub proof fn lemma_default_encoding_for_response(c: Config, hs: Seq<(String, String)>)
    requires
        c.overrides() == Map::<Seq<char>, ResponseType>::empty(),
        c.default_response_type == ResponseType::Text,
    ensures
        spec_resolved_mode(c, hs) == ResponseType::Text,
{
    lemma_default_encoding_for_key(c, crate::handler::spec_content_type_key(hs));
}

/// When the resolved base path of an event is empty, the full path and the
/// application-relative path coincide: there is no prefix to add or remove.
pub proof fn lemma_empty_base_path_paths_equal(req: ProxyRequest)
    requires
        spec_base_path(req).len() == 0,
    ensures
        spec_api_path(req) == spec_full_path(req),
        spec_full_path(req) == req.path@,
{
    assert(req.path@.skip(0) =~= req.path@);
    if !(req.context is Alb) && crate::request::spec_is_default_api_gateway_url(req) {
        assert(spec_base_path(req) + req.path@ =~= req.path@);
    }
}

/// When the resolved base path of an event is empty, the dispatch URI is
/// the same under every configuration: the three base-path modes are
/// observationally equivalent.
pub proof fn lemma_empty_base_path_uri_mode_independent(c1: Config, c2: Config, req: ProxyRequest)
    requires
        spec_base_path(req).len() == 0,
    ensures
        spec_dispatch_uri(c1, req) == spec_dispatch_uri(c2, req),
{
    lemma_empty_base_path_paths_equal(req);
}

/// A load-balancer event never has a base path, so its full path, its
/// application-relative path and the incoming path itself all coincide,
/// under every base-path mode.
pub proof fn lemma_alb_no_base_path(req: ProxyRequest)
    requires
        req.context is Alb,
    ensures
        spec_base_path(req).len() == 0,
        spec_full_path(req) == req.path@,
        spec_api_path(req) == req.path@,
{
    lemma_empty_base_path_paths_equal(req);
}

} // verus!
