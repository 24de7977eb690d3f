use rocket_lamb::{
    Body, LocalResponse, Method, ProxyRequest, RequestContext, ResponseType, RocketHandler,
    RocketHandlerBuilder, RocketLambError, is_default_api_gateway_url, populate_resource_path,
    to_rocket_method,
};

fn plain_handler() -> RocketHandler<(), ()> {
    RocketHandlerBuilder::new(()).into_handler()
}

fn custom_domain_request(path: &str, query: Vec<(String, Vec<String>)>) -> ProxyRequest {
    ProxyRequest {
        method: "GET".to_string(),
        path: path.to_string(),
        query,
        headers: vec![("host".to_string(), b"api.example.com".to_vec())],
        body: Body::Empty,
        context: RequestContext::ApiGateway {
            stage: "Prod".to_string(),
            resource_path: path.to_string(),
            path_parameters: vec![],
        },
    }
}

#[test]
fn default_encoding_is_text() {
    let builder = RocketHandlerBuilder::new(());
    assert_eq!(builder.get_default_response_type(), ResponseType::Text);
    assert_eq!(builder.get_response_type("text/plain"), ResponseType::Text);
    assert_eq!(builder.get_response_type("application/octet-stream"), ResponseType::Text);
    assert_eq!(builder.get_response_type(""), ResponseType::Text);

    // A response with no content-type header resolves to text too.
    let handler = plain_handler();
    let res = LocalResponse {
        status: 200,
        headers: vec![],
        body: Some(b"hi".to_vec()),
    };
    let wire = handler.create_lambda_response(res).unwrap();
    assert_eq!(wire.body, Body::Text("hi".to_string()));
    assert!(!wire.is_base64_encoded());
}

#[test]
fn override_is_case_insensitive() {
    let builder =
        RocketHandlerBuilder::new(()).response_type("TEXT/PLAIN", ResponseType::Binary);
    assert_eq!(builder.get_response_type("text/plain"), ResponseType::Binary);
    assert_eq!(builder.get_response_type("Text/Plain"), ResponseType::Binary);
    assert_eq!(builder.get_response_type("application/json"), ResponseType::Text);
    assert_eq!(builder.get_default_response_type(), ResponseType::Text);
}

#[test]
fn later_override_wins() {
    let builder = RocketHandlerBuilder::new(())
        .response_type("text/plain", ResponseType::Binary)
        .response_type("Text/Plain", ResponseType::Text);
    assert_eq!(builder.get_response_type("text/plain"), ResponseType::Text);
}

#[test]
fn method_round_trip() {
    assert_eq!(to_rocket_method("GET"), Ok(Method::Get));
    assert_eq!(to_rocket_method("PUT"), Ok(Method::Put));
    assert_eq!(to_rocket_method("POST"), Ok(Method::Post));
    assert_eq!(to_rocket_method("DELETE"), Ok(Method::Delete));
    assert_eq!(to_rocket_method("OPTIONS"), Ok(Method::Options));
    assert_eq!(to_rocket_method("HEAD"), Ok(Method::Head));
    assert_eq!(to_rocket_method("TRACE"), Ok(Method::Trace));
    assert_eq!(to_rocket_method("CONNECT"), Ok(Method::Connect));
    assert_eq!(to_rocket_method("PATCH"), Ok(Method::Patch));
    assert_eq!(
        to_rocket_method("FOOBAR"),
        Err(RocketLambError::InvalidRequest(
            "unknown method 'FOOBAR'".to_string()
        ))
    );
}

#[test]
fn error_description_carries_the_kind() {
    let e = RocketLambError::InvalidRequest("unknown method 'FOOBAR'".to_string());
    assert_eq!(
        e.describe(),
        "could not transform request: unknown method 'FOOBAR'"
    );
    let e = RocketLambError::InvalidResponse("response body was not text".to_string());
    assert_eq!(
        e.describe(),
        "could not transform response: response body was not text"
    );
}

#[test]
fn query_multi_value_order_preserved() {
    let handler = plain_handler();
    let req = custom_domain_request(
        "/p",
        vec![(
            "k".to_string(),
            vec!["v 1".to_string(), "v&2".to_string()],
        )],
    );
    assert_eq!(handler.get_path_and_query(&req), "/p?k=v%201&k=v%262");
}

#[test]
fn query_percent_encoding_matches_uri_encoder() {
    let handler = plain_handler();
    let req = custom_domain_request(
        "/p",
        vec![("q".to_string(), vec!["hello?a=<b>hi</b>".to_string()])],
    );
    assert_eq!(
        handler.get_path_and_query(&req),
        "/p?q=hello%3Fa%3D%3Cb%3Ehi%3C%2Fb%3E"
    );
}

#[test]
fn query_without_parameters_appends_nothing() {
    let handler = plain_handler();
    let req = custom_domain_request("/p", vec![]);
    assert_eq!(handler.get_path_and_query(&req), "/p");
    let req = custom_domain_request("/p", vec![("k".to_string(), vec![])]);
    assert_eq!(handler.get_path_and_query(&req), "/p");
}

#[test]
fn lazy_initialization_runs_once() {
    let mut handler: RocketHandler<(), u32> = RocketHandlerBuilder::new(()).into_handler();
    let req = custom_domain_request("/p", vec![]);
    let mut count = 0u32;
    assert!(!handler.is_ready());
    handler.ensure_client_ready(&req, |_app, _base| {
        count += 1;
        7
    });
    assert!(handler.is_ready());
    assert_eq!(*handler.client(), 7);
    handler.ensure_client_ready(&req, |_app, _base| {
        count += 1;
        9
    });
    assert_eq!(count, 1, "initialization must run exactly once");
    assert_eq!(*handler.client(), 7);

    let answer = |lr: rocket_lamb::LocalRequest| LocalResponse {
        status: 200,
        headers: vec![("Content-Type".to_string(), "text/plain".to_string())],
        body: Some(lr.uri.into_bytes()),
    };
    let r1 = handler
        .process_request(custom_domain_request("/p", vec![]), answer)
        .unwrap();
    let r2 = handler
        .process_request(custom_domain_request("/p", vec![]), answer)
        .unwrap();
    assert_eq!(r1.status, r2.status);
    assert_eq!(r1.headers, r2.headers);
    assert_eq!(r1.body, r2.body);
}

#[test]
fn populate_substitutes_placeholders() {
    let req = ProxyRequest {
        method: "GET".to_string(),
        path: "/items/42".to_string(),
        query: vec![],
        headers: vec![],
        body: Body::Empty,
        context: RequestContext::ApiGateway {
            stage: "Prod".to_string(),
            resource_path: "/items/{id}".to_string(),
            path_parameters: vec![("id".to_string(), "42".to_string())],
        },
    };
    assert_eq!(
        populate_resource_path(&req, "/items/{id}"),
        Some("/items/42".to_string())
    );
}

#[test]
fn populate_substitutes_greedy_placeholders() {
    let req = ProxyRequest {
        method: "GET".to_string(),
        path: "/a/b/c".to_string(),
        query: vec![],
        headers: vec![],
        body: Body::Empty,
        context: RequestContext::ApiGateway {
            stage: "Prod".to_string(),
            resource_path: "/{proxy+}".to_string(),
            path_parameters: vec![("proxy".to_string(), "a/b/c".to_string())],
        },
    };
    assert_eq!(
        populate_resource_path(&req, "/{proxy+}"),
        Some("/a/b/c".to_string())
    );
}

#[test]
fn populate_fails_on_missing_parameter() {
    let req = ProxyRequest {
        method: "GET".to_string(),
        path: "/items/42".to_string(),
        query: vec![],
        headers: vec![],
        body: Body::Empty,
        context: RequestContext::ApiGateway {
            stage: "Prod".to_string(),
            resource_path: "/items/{id}".to_string(),
            path_parameters: vec![],
        },
    };
    assert_eq!(populate_resource_path(&req, "/items/{id}"), None);
    assert!(!req.base_path_locatable());
}

#[test]
fn base_path_on_default_domain_is_the_stage() {
    let req = ProxyRequest {
        method: "GET".to_string(),
        path: "/path/".to_string(),
        query: vec![],
        headers: vec![(
            "host".to_string(),
            b"x1234abcd.execute-api.eu-west-1.amazonaws.com".to_vec(),
        )],
        body: Body::Empty,
        context: RequestContext::ApiGateway {
            stage: "Prod".to_string(),
            resource_path: "/path".to_string(),
            path_parameters: vec![],
        },
    };
    assert!(is_default_api_gateway_url(&req));
    assert!(req.base_path_locatable());
    assert_eq!(req.base_path(), "/Prod");
    assert_eq!(req.full_path(), "/Prod/path/");
    assert_eq!(req.api_path(), "/path/");
}

#[test]
fn default_domain_detection_is_strict() {
    let mut req = custom_domain_request("/p", vec![]);
    req.headers = vec![(
        "host".to_string(),
        b"lb-1234.eu-west-1.elb.amazonaws.com".to_vec(),
    )];
    assert!(!is_default_api_gateway_url(&req));
    req.headers = vec![(
        "host".to_string(),
        b"x.execute-api.eu-west-1.amazonaws.com.evil.example".to_vec(),
    )];
    assert!(!is_default_api_gateway_url(&req));
    req.headers = vec![];
    assert!(!is_default_api_gateway_url(&req));
}

#[test]
fn unlocatable_base_path_is_a_defect() {
    let mut req = custom_domain_request("/path/", vec![]);
    req.context = RequestContext::ApiGateway {
        stage: "Prod".to_string(),
        resource_path: "/other".to_string(),
        path_parameters: vec![],
    };
    assert!(!req.base_path_locatable());
}

#[test]
fn invalid_header_value_fails_the_request() {
    let handler = plain_handler();
    let mut req = custom_domain_request("/p", vec![]);
    req.headers.push(("x-bin".to_string(), vec![0x00]));
    let out = handler.create_rocket_request(req);
    assert_eq!(
        out.err(),
        Some(RocketLambError::InvalidRequest(
            "invalid value for header 'x-bin'".to_string()
        ))
    );
}

#[test]
fn header_values_with_tabs_are_text() {
    let handler = plain_handler();
    let mut req = custom_domain_request("/p", vec![]);
    req.headers.push(("x-tab".to_string(), b"a\tb".to_vec()));
    req.method = "POST".to_string();
    let lr = handler.create_rocket_request(req).unwrap();
    assert_eq!(lr.method, Method::Post);
    assert_eq!(lr.uri, "/p");
    assert!(lr
        .headers
        .iter()
        .any(|h| h.0 == "x-tab" && h.1 == "a\tb"));
}

#[test]
fn text_mode_rejects_non_utf8_bodies() {
    let handler = plain_handler();
    let res = LocalResponse {
        status: 200,
        headers: vec![],
        body: Some(vec![0xff, 0xfe]),
    };
    assert_eq!(
        handler.create_lambda_response(res).err(),
        Some(RocketLambError::InvalidResponse(
            "response body was not text".to_string()
        ))
    );
}

#[test]
fn binary_mode_accepts_any_bytes() {
    let handler: RocketHandler<(), ()> = RocketHandlerBuilder::new(())
        .default_response_type(ResponseType::Binary)
        .into_handler();
    let res = LocalResponse {
        status: 200,
        headers: vec![],
        body: Some(vec![0xff, 0xfe]),
    };
    let wire = handler.create_lambda_response(res).unwrap();
    assert_eq!(wire.body, Body::Binary(vec![0xff, 0xfe]));
    assert!(wire.is_base64_encoded());
}

#[test]
fn wire_response_rejects_bad_status() {
    let handler = plain_handler();
    let res = LocalResponse {
        status: 99,
        headers: vec![],
        body: None,
    };
    assert_eq!(
        handler.create_lambda_response(res).err(),
        Some(RocketLambError::InvalidResponse(
            "invalid status code".to_string()
        ))
    );
}

#[test]
fn wire_response_rejects_bad_header_name() {
    let handler = plain_handler();
    let res = LocalResponse {
        status: 200,
        headers: vec![("bad name".to_string(), "v".to_string())],
        body: None,
    };
    assert_eq!(
        handler.create_lambda_response(res).err(),
        Some(RocketLambError::InvalidResponse(
            "invalid HTTP header name".to_string()
        ))
    );
}

#[test]
fn wire_response_rejects_bad_header_value() {
    let handler = plain_handler();
    let res = LocalResponse {
        status: 200,
        headers: vec![("x-a".to_string(), "a\u{7f}b".to_string())],
        body: None,
    };
    assert_eq!(
        handler.create_lambda_response(res).err(),
        Some(RocketLambError::InvalidResponse(
            "failed to parse header value".to_string()
        ))
    );
}

#[test]
fn wire_header_names_are_lower_cased() {
    let handler = plain_handler();
    let res = LocalResponse {
        status: 204,
        headers: vec![("X-My-Header".to_string(), "Value".to_string())],
        body: None,
    };
    let wire = handler.create_lambda_response(res).unwrap();
    assert_eq!(wire.status, 204);
    assert_eq!(
        wire.headers,
        vec![("x-my-header".to_string(), "Value".to_string())]
    );
    assert_eq!(wire.body, Body::Empty);
}

#[test]
fn content_type_parameters_are_stripped_for_lookup() {
    let handler: RocketHandler<(), ()> = RocketHandlerBuilder::new(())
        .response_type("text/html", ResponseType::Binary)
        .into_handler();
    let res = LocalResponse {
        status: 200,
        headers: vec![(
            "Content-Type".to_string(),
            "Text/HTML; charset=utf-8".to_string(),
        )],
        body: Some(b"<p>hi</p>".to_vec()),
    };
    let wire = handler.create_lambda_response(res).unwrap();
    assert_eq!(wire.body, Body::Binary(b"<p>hi</p>".to_vec()));
}
