//! The structured proxy event delivered by the host runtime, and the
//! resolution of its base path and effective request path across the three
//! hosting scenarios: default gateway domain, custom gateway domain, and
//! load balancer.

use vstd::prelude::*;
use crate::body::Body;
use crate::strutil::{
    contains_seq, contains_str, ends_with_seq, ends_with_str, find_char, find_idx, header_text,
    lemma_rfind_before_some, rfind_str, spec_header_text, spec_rfind, str_eq,
};

verus! {

/// The request context the gateway attaches to a proxy event: an
/// API-gateway context carries the deployment stage, the matched
/// resource-path template and the template's path parameters; a
/// load-balancer context carries none of these.
pub enum RequestContext {
    /// An API-gateway event.
    ApiGateway {
        /// The deployment stage name.
        stage: String,
        /// The declared route template for the matched endpoint, with
        /// `{name}` or greedy `{name+}` placeholder segments.
        resource_path: String,
        /// The values substituted for the template's placeholders.
        path_parameters: Vec<(String, String)>,
    },
    /// An application-load-balancer event.
    Alb,
}

impl RequestContext {
    /// Whether this context represents a load-balancer event.
    pub fn is_alb(&self) -> (r: bool)
        ensures
            r == (*self is Alb),
    {
        match self {
            RequestContext::Alb => true,
            RequestContext::ApiGateway { .. } => false,
        }
    }
}

/// One inbound proxy event, as decoded by the host runtime: method, path,
/// query mapping (keys may repeat through their value lists), headers (names
/// as the runtime delivers them, lower-cased; values as raw bytes), body and
/// request context.
pub struct ProxyRequest {
    /// The HTTP method name, upper-cased, as it appeared on the wire.
    pub method: String,
    /// The full observed URI path.
    pub path: String,
    /// The query parameters: each key with its values, in the order received.
    pub query: Vec<(String, Vec<String>)>,
    /// The request headers: lower-cased names with raw byte values.
    pub headers: Vec<(String, Vec<u8>)>,
    /// The request body.
    pub body: Body,
    /// The gateway's request context.
    pub context: RequestContext,
}

/// The value of the first header with the given name, if any.
pub open spec fn header_first(hs: Seq<(String, Vec<u8>)>, name: Seq<char>) -> Option<Seq<u8>>
    decreases hs.len(),
{
    if hs.len() == 0 {
        None
    } else if hs[0].0@ == name {
        Some(hs[0].1@)
    } else {
        header_first(hs.drop_first(), name)
    }
}

/// Whether the event was addressed to the gateway's default domain: its
/// `host` header reads as text, ends with `.amazonaws.com` and contains
/// `.execute-api.`.
pub open spec fn spec_is_default_api_gateway_url(req: ProxyRequest) -> bool {
    match header_first(req.headers@, "host"@) {
        Option::None => false,
        Option::Some(bs) => match spec_header_text(bs) {
            Option::None => false,
            Option::Some(h) => ends_with_seq(h, ".amazonaws.com"@) && contains_seq(
                h,
                ".execute-api."@,
            ),
        },
    }
}

impl ProxyRequest {
    /// The value of the first header with the given name, if any.
    pub fn get_header<'a>(&'a self, name: &str) -> (r: Option<&'a Vec<u8>>)
        ensures
            match r {
                Some(v) => header_first(self.headers@, name@) == Some(v@),
                None => header_first(self.headers@, name@) is None,
            },
    {
        let n = self.headers.len();
        let mut i: usize = 0;
        proof {
            assert(self.headers@.skip(0) =~= self.headers@);
        }
        while i < n
            invariant
                i <= n,
                n == self.headers@.len(),
                header_first(self.headers@, name@) == header_first(
                    self.headers@.skip(i as int),
                    name@,
                ),
            decreases n - i,
        {
            proof {
                assert(self.headers@.skip(i as int)[0] == self.headers@[i as int]);
                assert(self.headers@.skip(i as int).drop_first() =~= self.headers@.skip(i + 1));
            }
            if str_eq(self.headers[i].0.as_str(), name) {
                return Some(&self.headers[i].1);
            }
            i += 1;
        }
        proof {
            assert(self.headers@.skip(n as int) =~= Seq::<(String, Vec<u8>)>::empty());
        }
        None
    }
}

/// Whether the event was addressed to the gateway's default domain.
pub fn is_default_api_gateway_url(req: &ProxyRequest) -> (r: bool)
    ensures
        r == spec_is_default_api_gateway_url(*req),
{
    match req.get_header("host") {
        Option::None => false,
        Option::Some(bs) => match header_text(bs) {
            Option::None => false,
            Option::Some(h) => ends_with_str(h.as_str(), ".amazonaws.com") && contains_str(
                h.as_str(),
                ".execute-api.",
            ),
        },
    }
}

/// The path parameters carried by the context; none for a load balancer.
pub open spec fn spec_params_of(ctx: RequestContext) -> Seq<(String, String)> {
    match ctx {
        RequestContext::ApiGateway { path_parameters, .. } => path_parameters@,
        RequestContext::Alb => Seq::empty(),
    }
}

/// The value of the first parameter with the given name, if any.
pub open spec fn lookup_param(params: Seq<(String, String)>, name: Seq<char>) -> Option<Seq<char>>
    decreases params.len(),
{
    if params.len() == 0 {
        None
    } else if params[0].0@ == name {
        Some(params[0].1@)
    } else {
        lookup_param(params.drop_first(), name)
    }
}

/// One segment of the resource-path template after substitution: a
/// placeholder segment becomes the named parameter's value (undefined when
/// the parameter is missing or the placeholder is malformed), any other
/// segment stays as written.
pub open spec fn subst_segment(seg: Seq<char>, params: Seq<(String, String)>) -> Option<Seq<char>> {
    if seg.len() > 0 && seg[0] == '{' {
        let trail: int = if ends_with_seq(seg, "+}"@) {
            2
        } else {
            1
        };
        if seg.len() - trail >= 1 {
            lookup_param(params, seg.subrange(1, seg.len() - trail))
        } else {
            None
        }
    } else {
        Some(seg)
    }
}

/// The resource-path template with every placeholder segment replaced by its
/// parameter value, segments joined back with `/`; undefined as soon as one
/// segment is undefined.
pub open spec fn spec_populate(s: Seq<char>, params: Seq<(String, String)>) -> Option<Seq<char>>
    decreases s.len(),
{
    // find_idx lies within 0 ..= s.len(); the bounds here discharge the
    // termination check.
    let i = find_idx(s, '/');
    if 0 <= i && i < s.len() {
        match subst_segment(s.take(i), params) {
            Option::None => None,
            Option::Some(t) => match spec_populate(s.skip(i + 1), params) {
                Option::None => None,
                Option::Some(rest) => Some(t + seq!['/'] + rest),
            },
        }
    } else {
        subst_segment(s, params)
    }
}

/// The reconstructed literal form of the event's resource-path template.
pub open spec fn spec_populated_resource_path(req: ProxyRequest) -> Option<Seq<char>> {
    spec_populate(req.context->ApiGateway_resource_path@, spec_params_of(req.context))
}

fn lookup_param_exec(params: &Vec<(String, String)>, name: &str) -> (r: Option<String>)
    ensures
        match r {
            Some(s) => lookup_param(params@, name@) == Some(s@),
            None => lookup_param(params@, name@) is None,
        },
{
    let pn = params.len();
    let mut i: usize = 0;
    proof {
        assert(params@.skip(0) =~= params@);
    }
    while i < pn
        invariant
            i <= pn,
            pn == params@.len(),
            lookup_param(params@, name@) == lookup_param(params@.skip(i as int), name@),
        decreases pn - i,
    {
        proof {
            assert(params@.skip(i as int)[0] == params@[i as int]);
            assert(params@.skip(i as int).drop_first() =~= params@.skip(i + 1));
        }
        if str_eq(params[i].0.as_str(), name) {
            return Some(params[i].1.clone());
        }
        i += 1;
    }
    proof {
        assert(params@.skip(pn as int) =~= Seq::<(String, String)>::empty());
    }
    None
}

fn subst_segment_exec(seg: &str, req: &ProxyRequest) -> (r: Option<String>)
    ensures
        match r {
            Some(s) => subst_segment(seg@, spec_params_of(req.context)) == Some(s@),
            None => subst_segment(seg@, spec_params_of(req.context)) is None,
        },
{
    let l = seg.unicode_len();
    if l > 0 && seg.get_char(0) == '{' {
        let trail: usize = if ends_with_str(seg, "+}") {
            2
        } else {
            1
        };
        if l >= trail + 1 {
            let name = seg.substring_char(1, l - trail);
            match &req.context {
                RequestContext::ApiGateway { path_parameters, .. } => {
                    lookup_param_exec(path_parameters, name)
                },
                RequestContext::Alb => None,
            }
        } else {
            None
        }
    } else {
        Some(String::from_str(seg))
    }
}

/// Substitutes the request's path parameters into the resource-path
/// template; `None` when a placeholder cannot be filled in, which the
/// caller must treat as a defect.
pub fn populate_resource_path(req: &ProxyRequest, resource_path: &str) -> (r: Option<String>)
    ensures
        match r {
            Some(s) => spec_populate(resource_path@, spec_params_of(req.context)) == Some(s@),
            None => spec_populate(resource_path@, spec_params_of(req.context)) is None,
        },
{
    let ghost params = spec_params_of(req.context);
    let n = resource_path.unicode_len();
    let mut acc = String::new();
    let mut pos: usize = 0;
    proof {
        assert(resource_path@.skip(0) =~= resource_path@);
    }
    loop
        invariant
            pos <= n,
            n == resource_path@.len(),
            params == spec_params_of(req.context),
            spec_populate(resource_path@, params) is None <==> spec_populate(
                resource_path@.skip(pos as int),
                params,
            ) is None,
            spec_populate(resource_path@, params) is Some ==> spec_populate(
                resource_path@,
                params,
            )->0 == acc@ + spec_populate(resource_path@.skip(pos as int), params)->0,
        decreases n - pos,
    {
        let ghost rem = resource_path@.skip(pos as int);
        let rem_str = resource_path.substring_char(pos, n);
        proof {
            assert(rem_str@ =~= rem);
        }
        let i_rel = find_char(rem_str, '/');
        proof {
            crate::strutil::lemma_find_idx_bounds(rem, '/');
            if find_idx(rem, '/') == rem.len() {
                assert(rem.take(find_idx(rem, '/')) =~= rem);
            }
        }
        let seg = rem_str.substring_char(0, i_rel);
        proof {
            assert(seg@ =~= rem.take(find_idx(rem, '/')));
        }
        match subst_segment_exec(seg, req) {
            Option::None => {
                return None;
            },
            Option::Some(t) => {
                let ghost acc_before = acc@;
                acc.append(t.as_str());
                if pos + i_rel == n {
                    return Some(acc);
                }
                crate::strutil::push_char(&mut acc, '/');
                proof {
                    let rest = spec_populate(resource_path@.skip(pos + i_rel + 1), params);
                    assert(rem.skip(find_idx(rem, '/') + 1) =~= resource_path@.skip(
                        pos + i_rel + 1,
                    ));
                    assert(acc@ =~= acc_before + (t@ + seq!['/']));
                    if spec_populate(resource_path@, params) is Some {
                        assert(spec_populate(rem, params)->0 == (t@ + seq!['/']) + rest->0);
                        assert(acc_before + ((t@ + seq!['/']) + rest->0) =~= acc@ + rest->0);
                    }
                }
                pos = pos + i_rel + 1;
            },
        }
    }
}

/// Whether the base path can be resolved for this event: always, except for
/// a custom-domain gateway event whose reconstructed resource-path template
/// is malformed or cannot be located inside the observed path — an
/// internal-consistency defect, not a recoverable request error.
pub open spec fn base_path_defect_free(req: ProxyRequest) -> bool {
    match req.context {
        RequestContext::Alb => true,
        RequestContext::ApiGateway { .. } => spec_is_default_api_gateway_url(req) || {
            &&& spec_populated_resource_path(req) is Some
            &&& spec_rfind(req.path@, spec_populated_resource_path(req)->0) is Some
        },
    }
}

/// The gateway-contributed path prefix that is not part of the embedded
/// application's own route space: empty for a load balancer, `/` plus the
/// stage name on the default domain, and whatever precedes the last
/// occurrence of the reconstructed resource-path template on a custom
/// domain.
pub open spec fn spec_base_path(req: ProxyRequest) -> Seq<char> {
    match req.context {
        RequestContext::Alb => Seq::empty(),
        RequestContext::ApiGateway { stage, .. } => if spec_is_default_api_gateway_url(req) {
            seq!['/'] + stage@
        } else {
            req.path@.take(spec_rfind(req.path@, spec_populated_resource_path(req)->0)->0)
        },
    }
}

/// The full request path including the base path.
pub open spec fn spec_full_path(req: ProxyRequest) -> Seq<char> {
    if req.context is Alb || !spec_is_default_api_gateway_url(req) {
        req.path@
    } else {
        spec_base_path(req) + req.path@
    }
}

/// The application-relative part of the request path, after the base path.
pub open spec fn spec_api_path(req: ProxyRequest) -> Seq<char> {
    if req.context is Alb || spec_is_default_api_gateway_url(req) {
        req.path@
    } else {
        req.path@.skip(spec_base_path(req).len() as int)
    }
}

impl ProxyRequest {
    /// Whether the base path can be resolved for this event; when this is
    /// false, resolving it is an internal-consistency defect that a caller
    /// should treat as fatal.
    pub fn base_path_locatable(&self) -> (r: bool)
        ensures
            r == base_path_defect_free(*self),
    {
        match &self.context {
            RequestContext::Alb => true,
            RequestContext::ApiGateway { resource_path, .. } => {
                if is_default_api_gateway_url(self) {
                    true
                } else {
                    match populate_resource_path(self, resource_path.as_str()) {
                        Option::None => false,
                        Option::Some(rp) => match rfind_str(self.path.as_str(), rp.as_str()) {
                            Option::None => false,
                            Option::Some(_) => true,
                        },
                    }
                }
            },
        }
    }

    /// The gateway-contributed path prefix, per hosting scenario.
    pub fn base_path(&self) -> (r: String)
        requires
            base_path_defect_free(*self),
        ensures
            r@ == spec_base_path(*self),
    {
        match &self.context {
            RequestContext::Alb => String::new(),
            RequestContext::ApiGateway { stage, resource_path, .. } => {
                if is_default_api_gateway_url(self) {
                    let mut r = String::from_str("/");
                    proof {
                        reveal_strlit("/");
                        assert("/"@ =~= seq!['/']);
                    }
                    r.append(stage.as_str());
                    r
                } else {
                    match populate_resource_path(self, resource_path.as_str()) {
                        Option::None => {
                            proof {
                                assert(false);
                            }
                            vstd::pervasive::unreached()
                        },
                        Option::Some(rp) => match rfind_str(self.path.as_str(), rp.as_str()) {
                            Option::None => {
                                proof {
                                    assert(false);
                                }
                                vstd::pervasive::unreached()
                            },
                            Option::Some(idx) => {
                                proof {
                                    lemma_rfind_before_some(
                                        self.path@,
                                        rp@,
                                        self.path@.len() - rp@.len() + 1,
                                    );
                                }
                                let sub = self.path.as_str().substring_char(0, idx);
                                proof {
                                    assert(sub@ =~= self.path@.take(idx as int));
                                }
                                String::from_str(sub)
                            },
                        },
                    }
                }
            },
        }
    }

    /// The full request path including the base path.
    pub fn full_path(&self) -> (r: String)
        ensures
            r@ == spec_full_path(*self),
    {
        if self.context.is_alb() || !is_default_api_gateway_url(self) {
            String::from_str(self.path.as_str())
        } else {
            let mut p = self.base_path();
            p.append(self.path.as_str());
            p
        }
    }

    /// The application-relative part of the request path.
    pub fn api_path(&self) -> (r: String)
        requires
            base_path_defect_free(*self),
        ensures
            r@ == spec_api_path(*self),
    {
        if self.context.is_alb() || is_default_api_gateway_url(self) {
            String::from_str(self.path.as_str())
        } else {
            let bp = self.base_path();
            proof {
                lemma_rfind_before_some(
                    self.path@,
                    spec_populated_resource_path(*self)->0,
                    self.path@.len() - spec_populated_resource_path(*self)->0.len() + 1,
                );
            }
            let bl = bp.as_str().unicode_len();
            let pl = self.path.as_str().unicode_len();
            let sub = self.path.as_str().substring_char(bl, pl);
            proof {
                assert(sub@ =~= self.path@.skip(spec_base_path(*self).len() as int));
            }
            String::from_str(sub)
        }
    }
}

} // verus!
