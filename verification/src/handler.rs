//! The handler core: translates one proxy event into a local request,
//! has it dispatched against the embedded application, and translates the
//! local response back into the wire response the gateway expects. Owns the
//! once-only lazy initialization of the local dispatch client.

use vstd::prelude::*;
use vstd::utf8::{decode_utf8, valid_utf8};
use crate::body::Body;
use crate::config::{BasePathBehaviour, Config, ResponseType};
use crate::error::RocketLambError;
use crate::request::{base_path_defect_free, spec_api_path, spec_full_path, ProxyRequest};
use crate::strutil::{
    ascii_eq_ignore_case, ascii_lower, find_char, find_idx, header_text, lemma_find_idx_bounds,
    lower_of, lowercase, push_char, spec_header_text, str_eq,
};
use crate::uri::{append_percent_encoded, percent_encode_str};

verus! {

/// The HTTP methods the local framework accepts, one for each method name
/// the gateway may deliver.
#[derive(PartialEq, Eq, Structural, Copy, Clone, Debug)]
pub enum Method {
    Get,
    Put,
    Post,
    Delete,
    Options,
    Head,
    Trace,
    Connect,
    Patch,
}

/// The local method for a method name: defined exactly for the nine
/// supported names.
pub open spec fn spec_method(s: Seq<char>) -> Option<Method> {
    if s == "GET"@ {
        Some(Method::Get)
    } else if s == "PUT"@ {
        Some(Method::Put)
    } else if s == "POST"@ {
        Some(Method::Post)
    } else if s == "DELETE"@ {
        Some(Method::Delete)
    } else if s == "OPTIONS"@ {
        Some(Method::Options)
    } else if s == "HEAD"@ {
        Some(Method::Head)
    } else if s == "TRACE"@ {
        Some(Method::Trace)
    } else if s == "CONNECT"@ {
        Some(Method::Connect)
    } else if s == "PATCH"@ {
        Some(Method::Patch)
    } else {
        None
    }
}

/// Translates a method name to the local framework's method, or fails with
/// an invalid-request error naming the unknown method.
pub fn to_rocket_method(method: &str) -> (r: Result<Method, RocketLambError>)
    ensures
        match spec_method(method@) {
            Option::Some(m) => r == Ok::<Method, RocketLambError>(m),
            Option::None => (r matches Err(RocketLambError::InvalidRequest(s)) && s@
                == "unknown method '"@ + method@ + "'"@),
        },
{
    if str_eq(method, "GET") {
        Ok(Method::Get)
    } else if str_eq(method, "PUT") {
        Ok(Method::Put)
    } else if str_eq(method, "POST") {
        Ok(Method::Post)
    } else if str_eq(method, "DELETE") {
        Ok(Method::Delete)
    } else if str_eq(method, "OPTIONS") {
        Ok(Method::Options)
    } else if str_eq(method, "HEAD") {
        Ok(Method::Head)
    } else if str_eq(method, "TRACE") {
        Ok(Method::Trace)
    } else if str_eq(method, "CONNECT") {
        Ok(Method::Connect)
    } else if str_eq(method, "PATCH") {
        Ok(Method::Patch)
    } else {
        let mut m = String::from_str("unknown method '");
        m.append(method);
        m.append("'");
        Err(RocketLambError::InvalidRequest(m))
    }
}

/// The request handed to the local framework for in-process dispatch.
pub struct LocalRequest {
    /// The local method.
    pub method: Method,
    /// The dispatch URI: resolved path plus re-serialized query string.
    pub uri: String,
    /// The copied request headers, values read as text.
    pub headers: Vec<(String, String)>,
    /// The request body, passed through unchanged.
    pub body: Body,
}

/// The response the local framework produced for a dispatched request.
pub struct LocalResponse {
    /// The numeric status code.
    pub status: u16,
    /// The response headers, as the application set them.
    pub headers: Vec<(String, String)>,
    /// The response body's bytes, if the response declared a body.
    pub body: Option<Vec<u8>>,
}

/// The response handed back to the host runtime for the gateway.
pub struct WireResponse {
    /// The numeric status code.
    pub status: u16,
    /// The response headers, names normalized to lower case.
    pub headers: Vec<(String, String)>,
    /// The response body: empty, text, or bytes to be base64-encoded.
    pub body: Body,
}

impl WireResponse {
    /// Whether the wire body is sent base64-encoded.
    pub fn is_base64_encoded(&self) -> (r: bool)
        ensures
            r == (self.body is Binary),
    {
        match self.body {
            Body::Binary(_) => true,
            _ => false,
        }
    }
}

/// The separator written before a query pair: `?` before the first pair,
/// `&` before every later one.
pub open spec fn query_sep(first: bool) -> Seq<char> {
    if first {
        seq!['?']
    } else {
        seq!['&']
    }
}

/// What the values of one query key, from index `j` on, add to the query
/// string: one percent-encoded `key=value` pair per value, in order.
pub open spec fn render_vals_from(key: Seq<char>, vals: Seq<String>, j: int, first: bool) -> Seq<
    char,
>
    decreases vals.len() - j,
{
    if j < 0 || j >= vals.len() {
        Seq::empty()
    } else {
        query_sep(first) + percent_encode_str(key) + seq!['='] + percent_encode_str(vals[j]@)
            + render_vals_from(key, vals, j + 1, false)
    }
}

/// What the query mapping, from key index `i` on, adds to the query string.
pub open spec fn render_query_from(q: Seq<(String, Vec<String>)>, i: int, first: bool) -> Seq<char>
    decreases q.len() - i,
{
    if i < 0 || i >= q.len() {
        Seq::empty()
    } else {
        render_vals_from(q[i].0@, q[i].1@, 0, first) + render_query_from(
            q,
            i + 1,
            first && q[i].1@.len() == 0,
        )
    }
}

/// The re-serialized query string: every value of every key as a
/// percent-encoded `key=value` pair, `?` before the first pair, `&` before
/// each later one, and nothing at all when there are no pairs.
pub open spec fn spec_query_string(q: Seq<(String, Vec<String>)>) -> Seq<char> {
    render_query_from(q, 0, true)
}

/// The dispatch URI for a request: the full path (for the include modes) or
/// the application-relative path (for the exclude mode), followed by the
/// re-serialized query string.
pub open spec fn spec_dispatch_uri(config: Config, req: ProxyRequest) -> Seq<char> {
    let path = match config.base_path_behaviour {
        BasePathBehaviour::Exclude => spec_api_path(req),
        BasePathBehaviour::Include => spec_full_path(req),
        BasePathBehaviour::RemountAndInclude => spec_full_path(req),
    };
    path + spec_query_string(req.query@)
}

fn append_query_values(uri: &mut String, key: &String, vals: &Vec<String>, first: bool) -> (nf:
    bool)
    ensures
        final(uri)@ == old(uri)@ + render_vals_from(key@, vals@, 0, first),
        nf == (first && vals@.len() == 0),
{
    let m = vals.len();
    let mut j: usize = 0;
    let mut f = first;
    while j < m
        invariant
            j <= m,
            m == vals@.len(),
            f == (if j == 0 {
                first
            } else {
                false
            }),
            old(uri)@ + render_vals_from(key@, vals@, 0, first) == uri@ + render_vals_from(
                key@,
                vals@,
                j as int,
                f,
            ),
        decreases m - j,
    {
        let ghost u0 = uri@;
        let ghost piece = query_sep(f) + percent_encode_str(key@) + seq!['=']
            + percent_encode_str(vals@[j as int]@);
        if f {
            push_char(uri, '?');
        } else {
            push_char(uri, '&');
        }
        proof {
            assert(uri@ =~= u0 + query_sep(f));
        }
        append_percent_encoded(uri, key.as_str());
        let ghost u1 = uri@;
        push_char(uri, '=');
        proof {
            assert(uri@ =~= u1 + seq!['=']);
        }
        append_percent_encoded(uri, vals[j].as_str());
        proof {
            assert(uri@ =~= u0 + piece);
            assert(render_vals_from(key@, vals@, j as int, f) == piece + render_vals_from(
                key@,
                vals@,
                j + 1,
                false,
            ));
            assert(u0 + (piece + render_vals_from(key@, vals@, j + 1, false)) =~= uri@
                + render_vals_from(key@, vals@, j + 1, false));
        }
        f = false;
        j += 1;
    }
    proof {
        assert(render_vals_from(key@, vals@, m as int, f) =~= Seq::<char>::empty());
        assert(uri@ + Seq::<char>::empty() =~= uri@);
    }
    f
}

/// The name of the first header whose value cannot be read as text, if any.
pub open spec fn first_bad_header(hs: Seq<(String, Vec<u8>)>) -> Option<Seq<char>>
    decreases hs.len(),
{
    if hs.len() == 0 {
        None
    } else if spec_header_text(hs[0].1@) is None {
        Some(hs[0].0@)
    } else {
        first_bad_header(hs.drop_first())
    }
}

/// The message of the invalid-request error an event produces, if any: an
/// unknown method first, then the first header value that is not text.
pub open spec fn spec_request_error(req: ProxyRequest) -> Option<Seq<char>> {
    if spec_method(req.method@) is None {
        Some("unknown method '"@ + req.method@ + "'"@)
    } else if first_bad_header(req.headers@) is Some {
        Some("invalid value for header '"@ + first_bad_header(req.headers@)->0 + "'"@)
    } else {
        None
    }
}

/// How a successfully translated local request relates to the event it was
/// built from: the mapped method, the dispatch URI, every header copied in
/// order with its value read as text, and the body passed through.
pub open spec fn local_request_matches(config: Config, req: ProxyRequest, lr: LocalRequest) -> bool {
    &&& spec_method(req.method@) == Some(lr.method)
    &&& lr.uri@ == spec_dispatch_uri(config, req)
    &&& lr.headers@.len() == req.headers@.len()
    &&& forall|k: int|
        0 <= k < req.headers@.len() ==> (#[trigger] lr.headers@[k]).0@ == req.headers@[k].0@
    &&& forall|k: int|
        0 <= k < req.headers@.len() ==> spec_header_text(req.headers@[k].1@) == Some(
            (#[trigger] lr.headers@[k]).1@,
        )
    &&& lr.body == req.body
}

/// A character accepted in a wire header name, as the wire response type
/// validates names.
pub open spec fn is_header_name_char(c: char) -> bool {
    ||| 'a' <= c && c <= 'z'
    ||| 'A' <= c && c <= 'Z'
    ||| '0' <= c && c <= '9'
    ||| c == '!'
    ||| c == '"'
    ||| c == '#'
    ||| c == '$'
    ||| c == '%'
    ||| c == '&'
    ||| c == '\''
    ||| c == '*'
    ||| c == '+'
    ||| c == '-'
    ||| c == '.'
    ||| c == '^'
    ||| c == '_'
    ||| c == '`'
    ||| c == '|'
    ||| c == '~'
}

/// A valid wire header name: non-empty, every character accepted.
pub open spec fn valid_wire_header_name(s: Seq<char>) -> bool {
    s.len() > 0 && (forall|k: int| 0 <= k < s.len() ==> is_header_name_char(#[trigger] s[k]))
}

/// A valid wire header value: no control characters other than those at or
/// above space, and no delete character.
pub open spec fn valid_wire_header_value(s: Seq<char>) -> bool {
    forall|k: int| 0 <= k < s.len() ==> ((#[trigger] s[k]) as u32 >= 32 && s[k] as u32 != 127)
}

/// The message for the first local response header the wire response type
/// rejects, if any: a bad name before a bad value of the same header.
pub open spec fn first_wire_header_error(hs: Seq<(String, String)>) -> Option<Seq<char>>
    decreases hs.len(),
{
    if hs.len() == 0 {
        None
    } else if !valid_wire_header_name(hs[0].0@) {
        Some("invalid HTTP header name"@)
    } else if !valid_wire_header_value(hs[0].1@) {
        Some("failed to parse header value"@)
    } else {
        first_wire_header_error(hs.drop_first())
    }
}

/// The value of the first header matching `name` up to ASCII case, if any.
pub open spec fn wire_get_one(hs: Seq<(String, String)>, name: Seq<char>) -> Option<Seq<char>>
    decreases hs.len(),
{
    if hs.len() == 0 {
        None
    } else if ascii_lower(hs[0].0@) == ascii_lower(name) {
        Some(hs[0].1@)
    } else {
        wire_get_one(hs.drop_first(), name)
    }
}

/// The key the encoding policy looks up for a response: the part of the
/// `content-type` header before any `;`, lower-cased; the empty key when the
/// header is absent.
pub open spec fn spec_content_type_key(hs: Seq<(String, String)>) -> Seq<char> {
    match wire_get_one(hs, "content-type"@) {
        Option::None => Seq::empty(),
        Option::Some(v) => lower_of(v.take(find_idx(v, ';'))),
    }
}

/// The encoding mode resolved for a local response under a configuration.
pub open spec fn spec_resolved_mode(config: Config, hs: Seq<(String, String)>) -> ResponseType {
    config.spec_mode_for(spec_content_type_key(hs))
}

/// The message of the invalid-response error a local response produces, if
/// any: a text-mode body that is not UTF-8 first, then a status code the
/// wire response type rejects, then its first rejected header.
pub open spec fn spec_response_error(config: Config, res: LocalResponse) -> Option<Seq<char>> {
    if res.body is Some && spec_resolved_mode(config, res.headers@) == ResponseType::Text
        && !valid_utf8(res.body->0@) {
        Some("response body was not text"@)
    } else if !(100 <= res.status < 1000) {
        Some("invalid status code"@)
    } else if first_wire_header_error(res.headers@) is Some {
        first_wire_header_error(res.headers@)
    } else {
        None
    }
}

/// How a successfully translated wire response relates to the local
/// response it was built from: the status copied, every header copied in
/// order with its name lower-cased, and the body resolved by the encoding
/// policy — empty without a body, decoded text in text mode, the raw bytes
/// in binary mode.
pub open spec fn wire_response_matches(config: Config, res: LocalResponse, w: WireResponse) -> bool {
    &&& w.status == res.status
    &&& w.headers@.len() == res.headers@.len()
    &&& forall|k: int|
        0 <= k < res.headers@.len() ==> (#[trigger] w.headers@[k]).0@ == ascii_lower(
            res.headers@[k].0@,
        )
    &&& forall|k: int|
        0 <= k < res.headers@.len() ==> (#[trigger] w.headers@[k]).1@ == res.headers@[k].1@
    &&& match res.body {
        Option::None => w.body is Empty,
        Option::Some(b) => if spec_resolved_mode(config, res.headers@) == ResponseType::Text {
            w.body matches Body::Text(s) && s@ == decode_utf8(b@)
        } else {
            w.body matches Body::Binary(bb) && bb@ == b@
        },
    }
}

fn valid_header_name_exec(s: &str) -> (r: bool)
    ensures
        r == valid_wire_header_name(s@),
{
    let n = s.unicode_len();
    if n == 0 {
        return false;
    }
    let mut i: usize = 0;
    while i < n
        invariant
            i <= n,
            n == s@.len(),
            forall|k: int| 0 <= k < i ==> is_header_name_char(#[trigger] s@[k]),
        decreases n - i,
    {
        let c = s.get_char(i);
        let ok = 'a' <= c && c <= 'z' || 'A' <= c && c <= 'Z' || '0' <= c && c <= '9' || c == '!'
            || c == '"' || c == '#' || c == '$' || c == '%' || c == '&' || c == '\'' || c == '*'
            || c == '+' || c == '-' || c == '.' || c == '^' || c == '_' || c == '`' || c == '|'
            || c == '~';
        if !ok {
            return false;
        }
        i += 1;
    }
    true
}

fn valid_header_value_exec(s: &str) -> (r: bool)
    ensures
        r == valid_wire_header_value(s@),
{
    let n = s.unicode_len();
    let mut i: usize = 0;
    while i < n
        invariant
            i <= n,
            n == s@.len(),
            forall|k: int| 0 <= k < i ==> ((#[trigger] s@[k]) as u32 >= 32 && s@[k] as u32 != 127),
        decreases n - i,
    {
        let c = s.get_char(i);
        if (c as u32) < 32 || (c as u32) == 127 {
            return false;
        }
        i += 1;
    }
    true
}

/// The local dispatch client, created once, on the first invocation: the
/// not-yet-ready application first, a transient placeholder during the
/// swap, and the ready client for the rest of the process lifetime.
pub enum LazyClient<A, C> {
    /// The transient state occupied only during initialization; observing it
    /// from anywhere else is a defect.
    Placeholder,
    /// The application as configured, before the first invocation.
    Uninitialized(A),
    /// The dispatch-ready client.
    Ready(C),
}

/// A handler for gateway proxy events that processes requests by
/// dispatching them in process against an embedded application. `A` is the
/// not-yet-dispatchable application, `C` the dispatch-ready client built
/// from it.
pub struct RocketHandler<A, C> {
    /// The lazily created dispatch client.
    pub(crate) client: LazyClient<A, C>,
    /// The settings fixed by the builder.
    pub(crate) config: Config,
}

/// How the argument handed to the client builder relates to the first
/// event: the base path is passed exactly when routes must be re-mounted
/// under it — remount-and-include mode and a non-empty base path.
pub open spec fn remount_arg_matches(config: Config, req: ProxyRequest, b: Option<String>) -> bool {
    if config.base_path_behaviour == BasePathBehaviour::RemountAndInclude && crate::request::spec_base_path(
        req,
    ).len() > 0 {
        b matches Some(s) && s@ == crate::request::spec_base_path(req)
    } else {
        b is None
    }
}

impl<A, C> RocketHandler<A, C> {
    /// The settings this handler serves with.
    pub closed spec fn spec_config(&self) -> Config {
        self.config
    }

    /// The lazy client's current state.
    pub closed spec fn spec_client(&self) -> LazyClient<A, C> {
        self.client
    }

    /// A handler around a not-yet-dispatchable application, its client not
    /// yet created.
    pub(crate) fn new_uninitialized(rocket: A, config: Config) -> (h: RocketHandler<A, C>)
        ensures
            h.spec_config() == config,
            h.spec_client() == LazyClient::<A, C>::Uninitialized(rocket),
    {
        RocketHandler { client: LazyClient::Uninitialized(rocket), config }
    }

    /// The base-path mode this handler serves with.
    pub fn base_path_behaviour(&self) -> (r: BasePathBehaviour)
        ensures
            r == self.spec_config().base_path_behaviour,
    {
        self.config.base_path_behaviour
    }

    /// Whether the client is stuck in the transient placeholder state — a
    /// defect that a caller should treat as fatal.
    pub fn is_placeholder(&self) -> (r: bool)
        ensures
            r == (self.spec_client() is Placeholder),
    {
        match &self.client {
            LazyClient::Placeholder => true,
            _ => false,
        }
    }

    /// Whether the dispatch client has been created.
    pub fn is_ready(&self) -> (r: bool)
        ensures
            r == (self.spec_client() is Ready),
    {
        match &self.client {
            LazyClient::Ready(_) => true,
            _ => false,
        }
    }

    /// The ready dispatch client.
    pub fn client(&self) -> (r: &C)
        requires
            self.spec_client() is Ready,
        ensures
            *r == self.spec_client()->Ready_0,
    {
        match &self.client {
            LazyClient::Ready(c) => c,
            _ => vstd::pervasive::unreached(),
        }
    }

    /// Creates the dispatch client on the first invocation: hands the
    /// application to `build`, together with the base path detected from
    /// this event when remount-and-include mode requires re-mounting, and
    /// stores the result; does nothing once the client is ready. Must never
    /// see the transient placeholder state — initialization is not
    /// re-entrant.
    pub fn ensure_client_ready<F: FnOnce(A, Option<String>) -> C>(
        &mut self,
        req: &ProxyRequest,
        build: F,
    )
        requires
            !(old(self).spec_client() is Placeholder),
            (old(self).spec_client() is Uninitialized && old(self).spec_config().base_path_behaviour
                == BasePathBehaviour::RemountAndInclude) ==> base_path_defect_free(*req),
            old(self).spec_client() is Uninitialized ==> (forall|b: Option<String>|
                remount_arg_matches(old(self).spec_config(), *req, b) ==> call_requires(
                    build,
                    (old(self).spec_client()->Uninitialized_0, b),
                )),
        ensures
            final(self).spec_config() == old(self).spec_config(),
            final(self).spec_client() is Ready,
            old(self).spec_client() is Ready ==> *final(self) == *old(self),
            old(self).spec_client() is Uninitialized ==> (exists|b: Option<String>, c: C|
                {
                    &&& remount_arg_matches(old(self).spec_config(), *req, b)
                    &&& call_ensures(build, (old(self).spec_client()->Uninitialized_0, b), c)
                    &&& final(self).spec_client() == LazyClient::<A, C>::Ready(c)
                }),
    {
        let mut taken = LazyClient::Placeholder;
        core::mem::swap(&mut taken, &mut self.client);
        match taken {
            LazyClient::Uninitialized(app) => {
                let mut base: Option<String> = None;
                if self.config.base_path_behaviour == BasePathBehaviour::RemountAndInclude {
                    let bp = req.base_path();
                    if !bp.as_str().is_empty() {
                        base = Some(bp);
                    }
                }
                let ghost gb = base;
                proof {
                    assert(app == old(self).spec_client()->Uninitialized_0);
                    assert(remount_arg_matches(old(self).spec_config(), *req, gb));
                }
                let client = build(app, base);
                let ghost gc = client;
                self.client = LazyClient::Ready(client);
                proof {
                    assert(remount_arg_matches(old(self).config, *req, gb) && call_ensures(
                        build,
                        (old(self).client->Uninitialized_0, gb),
                        gc,
                    ) && self.client == LazyClient::<A, C>::Ready(gc));
                }
            },
            LazyClient::Ready(c) => {
                self.client = LazyClient::Ready(c);
            },
            LazyClient::Placeholder => {
                proof {
                    assert(false);
                }
            },
        }
    }

    /// The dispatch URI for an event: the resolved path under the base-path
    /// mode, then the re-serialized query string.
    pub fn get_path_and_query(&self, req: &ProxyRequest) -> (r: String)
        requires
            (self.spec_config().base_path_behaviour == BasePathBehaviour::Exclude)
                ==> base_path_defect_free(*req),
        ensures
            r@ == spec_dispatch_uri(self.spec_config(), *req),
    {
        let mut uri = match self.config.base_path_behaviour {
            BasePathBehaviour::Include => req.full_path(),
            BasePathBehaviour::RemountAndInclude => req.full_path(),
            BasePathBehaviour::Exclude => req.api_path(),
        };
        let ghost base = uri@;
        let n = req.query.len();
        let mut first = true;
        let mut i: usize = 0;
        while i < n
            invariant
                i <= n,
                n == req.query@.len(),
                base + spec_query_string(req.query@) == uri@ + render_query_from(
                    req.query@,
                    i as int,
                    first,
                ),
            decreases n - i,
        {
            let ghost u0 = uri@;
            let kv = &req.query[i];
            let nf = append_query_values(&mut uri, &kv.0, &kv.1, first);
            proof {
                let q = req.query@;
                let rvf = render_vals_from(q[i as int].0@, q[i as int].1@, 0, first);
                let rqf = render_query_from(q, i + 1, nf);
                assert(render_query_from(q, i as int, first) == rvf + rqf);
                assert(u0 + (rvf + rqf) =~= (u0 + rvf) + rqf);
            }
            first = nf;
            i += 1;
        }
        proof {
            assert(render_query_from(req.query@, n as int, first) =~= Seq::<char>::empty());
            assert(uri@ + Seq::<char>::empty() =~= uri@);
        }
        uri
    }

    /// Builds the local request for an event: the mapped method, the
    /// dispatch URI, every header copied with its value read as text, and
    /// the body passed through; fails with an invalid-request error on an
    /// unknown method or a header value that is not text.
    pub fn create_rocket_request(&self, req: ProxyRequest) -> (r: Result<
        LocalRequest,
        RocketLambError,
    >)
        requires
            (self.spec_config().base_path_behaviour == BasePathBehaviour::Exclude)
                ==> base_path_defect_free(req),
        ensures
            (spec_request_error(req) matches Some(m) ==> (r matches Err(
                RocketLambError::InvalidRequest(s),
            ) && s@ == m)),
            spec_request_error(req) is None ==> (r matches Ok(lr) && local_request_matches(
                self.spec_config(),
                req,
                lr,
            )),
    {
        let method = match to_rocket_method(req.method.as_str()) {
            Ok(m) => m,
            Err(e) => {
                return Err(e);
            },
        };
        let uri = self.get_path_and_query(&req);
        let n = req.headers.len();
        let mut headers: Vec<(String, String)> = Vec::new();
        let mut i: usize = 0;
        proof {
            assert(req.headers@.skip(0) =~= req.headers@);
        }
        while i < n
            invariant
                i <= n,
                n == req.headers@.len(),
                spec_method(req.method@) == Some(method),
                uri@ == spec_dispatch_uri(self.spec_config(), req),
                headers@.len() == i,
                forall|k: int| 0 <= k < i ==> (#[trigger] headers@[k]).0@ == req.headers@[k].0@,
                forall|k: int|
                    0 <= k < i ==> spec_header_text(req.headers@[k].1@) == Some(
                        (#[trigger] headers@[k]).1@,
                    ),
                first_bad_header(req.headers@) == first_bad_header(req.headers@.skip(i as int)),
            decreases n - i,
        {
            proof {
                assert(req.headers@.skip(i as int)[0] == req.headers@[i as int]);
                assert(req.headers@.skip(i as int).drop_first() =~= req.headers@.skip(i + 1));
            }
            match header_text(&req.headers[i].1) {
                Option::None => {
                    let mut msg = String::from_str("invalid value for header '");
                    msg.append(req.headers[i].0.as_str());
                    msg.append("'");
                    return Err(RocketLambError::InvalidRequest(msg));
                },
                Option::Some(t) => {
                    headers.push((req.headers[i].0.clone(), t));
                },
            }
            i += 1;
        }
        proof {
            assert(req.headers@.skip(n as int) =~= Seq::<(String, Vec<u8>)>::empty());
        }
        let body = req.body;
        Ok(LocalRequest { method, uri, headers, body })
    }

    fn resolve_mode(&self, hs: &Vec<(String, String)>) -> (r: ResponseType)
        ensures
            r == spec_resolved_mode(self.spec_config(), hs@),
    {
        let key: String = match wire_get_one_exec(hs, "content-type") {
            Option::None => String::new(),
            Option::Some(v) => {
                proof {
                    lemma_find_idx_bounds(v@, ';');
                }
                let ct_end = find_char(v.as_str(), ';');
                let seg = v.as_str().substring_char(0, ct_end);
                proof {
                    assert(seg@ =~= v@.take(find_idx(v@, ';')));
                }
                lowercase(seg)
            },
        };
        self.config.mode_for_key(&key)
    }

    /// Builds the wire response for a local response: status and headers
    /// copied (names lower-cased), the body resolved by the encoding
    /// policy; fails with an invalid-response error when a text-mode body
    /// is not UTF-8, or when the wire response type rejects the status code
    /// or a header.
    pub fn create_lambda_response(&self, res: LocalResponse) -> (r: Result<
        WireResponse,
        RocketLambError,
    >)
        ensures
            (spec_response_error(self.spec_config(), res) matches Some(m) ==> (r matches Err(
                RocketLambError::InvalidResponse(s),
            ) && s@ == m)),
            spec_response_error(self.spec_config(), res) is None ==> (r matches Ok(w)
                && wire_response_matches(self.spec_config(), res, w)),
    {
        let LocalResponse { status, headers: rheaders, body: rbody } = res;
        let mode = self.resolve_mode(&rheaders);
        let body = match rbody {
            Option::None => Body::Empty,
            Option::Some(b) => {
                if mode == ResponseType::Text {
                    match crate::strutil::bytes_to_text(b) {
                        Option::None => {
                            return Err(
                                RocketLambError::InvalidResponse(
                                    String::from_str("response body was not text"),
                                ),
                            );
                        },
                        Option::Some(s) => Body::Text(s),
                    }
                } else {
                    Body::Binary(b)
                }
            },
        };
        if status < 100 || status >= 1000 {
            return Err(RocketLambError::InvalidResponse(String::from_str("invalid status code")));
        }
        let n = rheaders.len();
        let mut headers: Vec<(String, String)> = Vec::new();
        let mut i: usize = 0;
        proof {
            assert(rheaders@.skip(0) =~= rheaders@);
        }
        while i < n
            invariant
                i <= n,
                n == rheaders@.len(),
                rheaders@ == res.headers@,
                status == res.status,
                spec_response_error(self.spec_config(), res) == first_wire_header_error(
                    res.headers@,
                ),
                (match res.body {
                    Option::None => body is Empty,
                    Option::Some(b) => if spec_resolved_mode(self.spec_config(), res.headers@)
                        == ResponseType::Text {
                        body matches Body::Text(s) && s@ == decode_utf8(b@)
                    } else {
                        body matches Body::Binary(bb) && bb@ == b@
                    },
                }),
                headers@.len() == i,
                forall|k: int|
                    0 <= k < i ==> (#[trigger] headers@[k]).0@ == ascii_lower(res.headers@[k].0@),
                forall|k: int| 0 <= k < i ==> (#[trigger] headers@[k]).1@ == res.headers@[k].1@,
                first_wire_header_error(res.headers@) == first_wire_header_error(
                    res.headers@.skip(i as int),
                ),
            decreases n - i,
        {
            proof {
                assert(res.headers@.skip(i as int)[0] == res.headers@[i as int]);
                assert(res.headers@.skip(i as int).drop_first() =~= res.headers@.skip(i + 1));
            }
            if !valid_header_name_exec(rheaders[i].0.as_str()) {
                return Err(
                    RocketLambError::InvalidResponse(String::from_str("invalid HTTP header name")),
                );
            }
            if !valid_header_value_exec(rheaders[i].1.as_str()) {
                return Err(
                    RocketLambError::InvalidResponse(
                        String::from_str("failed to parse header value"),
                    ),
                );
            }
            let lowered = crate::strutil::ascii_lower_str(rheaders[i].0.as_str());
            headers.push((lowered, rheaders[i].1.clone()));
            i += 1;
        }
        proof {
            assert(res.headers@.skip(n as int) =~= Seq::<(String, String)>::empty());
        }
        Ok(WireResponse { status, headers, body })
    }

    /// Processes one event end to end: builds the local request, has
    /// `dispatch` execute it against the ready client, and builds the wire
    /// response from whatever came back.
    pub fn process_request<F: FnOnce(LocalRequest) -> LocalResponse>(
        &self,
        req: ProxyRequest,
        dispatch: F,
    ) -> (r: Result<WireResponse, RocketLambError>)
        requires
            (self.spec_config().base_path_behaviour == BasePathBehaviour::Exclude)
                ==> base_path_defect_free(req),
            forall|lr: LocalRequest|
                local_request_matches(self.spec_config(), req, lr) ==> call_requires(
                    dispatch,
                    (lr,),
                ),
        ensures
            (spec_request_error(req) matches Some(m) ==> (r matches Err(
                RocketLambError::InvalidRequest(s),
            ) && s@ == m)),
            spec_request_error(req) is None ==> (exists|lr: LocalRequest, res: LocalResponse|
                {
                    &&& local_request_matches(self.spec_config(), req, lr)
                    &&& call_ensures(dispatch, (lr,), res)
                    &&& (match spec_response_error(self.spec_config(), res) {
                        Option::Some(m) => r matches Err(RocketLambError::InvalidResponse(s)) && s@
                            == m,
                        Option::None => r matches Ok(w) && wire_response_matches(
                            self.spec_config(),
                            res,
                            w,
                        ),
                    })
                }),
    {
        let local_req = match self.create_rocket_request(req) {
            Ok(lr) => lr,
            Err(e) => {
                return Err(e);
            },
        };
        let ghost glr = local_req;
        let local_res = dispatch(local_req);
        let ghost gres = local_res;
        let out = self.create_lambda_response(local_res);
        proof {
            if spec_request_error(req) is None {
                assert(local_request_matches(self.spec_config(), req, glr) && call_ensures(
                    dispatch,
                    (glr,),
                    gres,
                ));
            }
        }
        out
    }
}

fn wire_get_one_exec<'a>(hs: &'a Vec<(String, String)>, name: &str) -> (r: Option<&'a String>)
    ensures
        match r {
            Some(v) => wire_get_one(hs@, name@) == Some(v@),
            None => wire_get_one(hs@, name@) is None,
        },
{
    let n = hs.len();
    let mut i: usize = 0;
    proof {
        assert(hs@.skip(0) =~= hs@);
    }
    while i < n
        invariant
            i <= n,
            n == hs@.len(),
            wire_get_one(hs@, name@) == wire_get_one(hs@.skip(i as int), name@),
        decreases n - i,
    {
        proof {
            assert(hs@.skip(i as int)[0] == hs@[i as int]);
            assert(hs@.skip(i as int).drop_first() =~= hs@.skip(i + 1));
        }
        if ascii_eq_ignore_case(hs[i].0.as_str(), name) {
            return Some(&hs[i].1);
        }
        i += 1;
    }
    proof {
        assert(hs@.skip(n as int) =~= Seq::<(String, String)>::empty());
    }
    None
}

} // verus!
