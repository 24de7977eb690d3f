use rocket_lamb::{
    Body, LocalRequest, LocalResponse, Method, ProxyRequest, RequestContext, ResponseType,
    RocketHandler, RocketHandlerBuilder, WireResponse,
};

/// The proxy event the acceptance fixture describes: a POST to
/// `/upper/one?query=two` with body `three`, delivered through a custom
/// domain (so the observed path is the application path itself).
fn request_upper() -> ProxyRequest {
    ProxyRequest {
        method: "POST".to_string(),
        path: "/upper/one".to_string(),
        query: vec![("query".to_string(), vec!["two".to_string()])],
        headers: vec![
            ("host".to_string(), b"api.example.com".to_vec()),
            ("accept".to_string(), b"*/*".to_vec()),
        ],
        body: Body::Text("three".to_string()),
        context: RequestContext::ApiGateway {
            stage: "Prod".to_string(),
            resource_path: "/upper/{path}".to_string(),
            path_parameters: vec![("path".to_string(), "one".to_string())],
        },
    }
}

fn request_not_found() -> ProxyRequest {
    ProxyRequest {
        method: "GET".to_string(),
        path: "/missing".to_string(),
        query: vec![],
        headers: vec![("host".to_string(), b"api.example.com".to_vec())],
        body: Body::Empty,
        context: RequestContext::ApiGateway {
            stage: "Prod".to_string(),
            resource_path: "/missing".to_string(),
            path_parameters: vec![],
        },
    }
}

/// Behaves as the example application's only route does: `POST
/// /upper/<path>?<query>` with a text body answers with the three inputs
/// upper-cased, as `text/plain`; anything else falls to a bodiless
/// not-found catcher.
fn upper_app(req: LocalRequest) -> LocalResponse {
    let (path, query) = match req.uri.find('?') {
        Some(i) => (req.uri[..i].to_string(), req.uri[i + 1..].to_string()),
        None => (req.uri.clone(), String::new()),
    };
    let seg = path.strip_prefix("/upper/").map(str::to_string);
    let q = query.strip_prefix("query=").map(str::to_string);
    match (req.method, seg, q, req.body) {
        (Method::Post, Some(seg), Some(q), Body::Text(body)) => {
            let text = format!(
                "{}, {}, {}",
                seg.to_uppercase(),
                q.to_uppercase(),
                body.to_uppercase()
            );
            LocalResponse {
                status: 200,
                headers: vec![(
                    "Content-Type".to_string(),
                    "text/plain; charset=utf-8".to_string(),
                )],
                body: Some(text.into_bytes()),
            }
        }
        _ => LocalResponse {
            status: 404,
            headers: vec![],
            body: None,
        },
    }
}

fn run(
    handler: &mut RocketHandler<(), ()>,
    req: ProxyRequest,
) -> Result<WireResponse, rocket_lamb::RocketLambError> {
    assert!(req.base_path_locatable());
    handler.ensure_client_ready(&req, |_app, _base| ());
    handler.process_request(req, upper_app)
}

fn make_handler() -> RocketHandler<(), ()> {
    RocketHandlerBuilder::new(()).into_handler()
}

fn assert_header(res: &WireResponse, name: &str, value: &str) {
    let values: Vec<&String> = res
        .headers
        .iter()
        .filter(|h| h.0 == name)
        .map(|h| &h.1)
        .collect();
    assert_eq!(values.len(), 1, "Header {} should have 1 value", name);
    assert_eq!(values[0], value);
}

#[test]
fn ok() {
    let mut handler = make_handler();

    let req = request_upper();
    let res = run(&mut handler, req).unwrap();

    assert_eq!(res.status, 200);
    assert_header(&res, "content-type", "text/plain; charset=utf-8");
    assert_eq!(res.body, Body::Text("ONE, TWO, THREE".to_string()));
}

#[test]
fn ok_binary_default() {
    let mut handler: RocketHandler<(), ()> = RocketHandlerBuilder::new(())
        .default_response_type(ResponseType::Binary)
        .into_handler();

    let req = request_upper();
    let res = run(&mut handler, req).unwrap();

    assert_eq!(res.status, 200);
    assert_header(&res, "content-type", "text/plain; charset=utf-8");
    assert_eq!(
        res.body,
        Body::Binary("ONE, TWO, THREE".to_owned().into_bytes())
    );
    assert!(res.is_base64_encoded());
}

#[test]
fn ok_binary() {
    let mut handler: RocketHandler<(), ()> = RocketHandlerBuilder::new(())
        .response_type("TEXT/PLAIN", ResponseType::Binary)
        .into_handler();

    let req = request_upper();
    let res = run(&mut handler, req).unwrap();

    assert_eq!(res.status, 200);
    assert_header(&res, "content-type", "text/plain; charset=utf-8");
    assert_eq!(
        res.body,
        Body::Binary("ONE, TWO, THREE".to_owned().into_bytes())
    );
}

#[test]
fn not_found() {
    let mut handler = make_handler();

    let req = request_not_found();
    let res = run(&mut handler, req).unwrap();

    assert_eq!(res.status, 404);
    assert!(!res.headers.iter().any(|h| h.0 == "content-type"));
    assert!(res.body.is_empty(), "Response body should be empty");
}
