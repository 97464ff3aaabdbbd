use papi::{AppState, Handler, Method, Request};

fn get(path: &str, host: Option<&str>) -> Request {
    Request {
        method: Method::Get,
        path: String::from(path),
        host: host.map(String::from),
    }
}

#[test]
fn root_is_open_to_any_host() {
    let routes = papi::route_table();
    assert_eq!(papi::dispatch(&routes, &get("/", None)), Some(Handler::Index));
    assert_eq!(
        papi::dispatch(&routes, &get("/", Some("example.com"))),
        Some(Handler::Index)
    );
}

#[test]
fn api_scope_rejects_mismatched_host() {
    let routes = papi::route_table();
    assert_eq!(papi::dispatch(&routes, &get("/api", Some("example.com"))), None);
    assert_eq!(papi::dispatch(&routes, &get("/api", None)), None);
    assert_eq!(papi::dispatch(&routes, &get("/api/count", Some("localhost:8088"))), None);
}

#[test]
fn api_scope_accepts_matching_host() {
    let routes = papi::route_table();
    let host = Some("localhost:3000");
    assert_eq!(papi::dispatch(&routes, &get("/api", host)), Some(Handler::ApiIndex));
    assert_eq!(papi::dispatch(&routes, &get("/api/count", host)), Some(Handler::Count));
    assert_eq!(papi::dispatch(&routes, &get("/api/hello", host)), Some(Handler::Hello));
    assert_eq!(papi::dispatch(&routes, &get("/api/user", host)), Some(Handler::User));
}

#[test]
fn user_route_is_unguarded() {
    let routes = papi::route_table();
    assert_eq!(papi::dispatch(&routes, &get("/api/user", None)), Some(Handler::User));
    assert_eq!(
        papi::dispatch(&routes, &get("/api/user", Some("example.com"))),
        Some(Handler::User)
    );
    let mut state = AppState::new(String::from("papi"), 8, 4);
    let reply = papi::handle_request(&routes, &get("/api/user", None), &mut state).unwrap();
    assert_eq!(reply.status, 200);
    assert_eq!(reply.content_type, "application/json");
    assert_eq!(reply.body, "{\"name\":\"chenxi\"}");
}

#[test]
fn unknown_path_falls_through() {
    let routes = papi::route_table();
    assert_eq!(papi::dispatch(&routes, &get("/nope", Some("localhost:3000"))), None);
}

#[test]
fn non_get_method_falls_through() {
    let routes = papi::route_table();
    let req = Request {
        method: Method::Other,
        path: String::from("/"),
        host: None,
    };
    assert_eq!(papi::dispatch(&routes, &req), None);
}

#[test]
fn api_index_reply_text() {
    let mut state = AppState::new(String::from("papi"), 8, 4);
    let reply = papi::handle(Handler::ApiIndex, &mut state);
    assert_eq!(reply.status, 200);
    assert_eq!(reply.content_type, "text/plain; charset=utf-8");
    assert_eq!(reply.body, "API index here!");
    assert_eq!(state.counter, 0);
}

#[test]
fn count_reply_increments_counter() {
    let mut state = AppState::new(String::from("papi"), 8, 4);
    let first = papi::handle(Handler::Count, &mut state);
    assert_eq!(first.status, 200);
    assert_eq!(first.body, "mutex counter: 1");
    let second = papi::handle(Handler::Count, &mut state);
    assert_eq!(second.body, "mutex counter: 2");
    assert_eq!(state.counter, 2);
}

#[test]
fn index_reply_ignores_counter() {
    let mut state = AppState::new(String::from("papi"), 8, 4);
    state.increment_counter();
    state.increment_counter();
    let reply = papi::handle(Handler::Index, &mut state);
    assert_eq!(reply.status, 200);
    assert_eq!(reply.body, "Hello papi! I have 8 logical cpus, 4 cpus");
    assert_eq!(state.counter, 2);
}

#[test]
fn user_reply_is_json_record() {
    let mut state = AppState::new(String::from("papi"), 8, 4);
    let reply = papi::handle(Handler::User, &mut state);
    assert_eq!(reply.status, 200);
    assert_eq!(reply.content_type, "application/json");
    assert_eq!(reply.body, "{\"name\":\"chenxi\"}");
}

#[test]
fn handle_request_serves_matches_only() {
    let routes = papi::route_table();
    let mut state = AppState::new(String::from("papi"), 8, 4);
    let missed = papi::handle_request(&routes, &get("/api", Some("wrong")), &mut state);
    assert!(missed.is_none());
    assert_eq!(state.counter, 0);
    let served = papi::handle_request(
        &routes,
        &get("/api/count", Some("localhost:3000")),
        &mut state,
    );
    let reply = served.unwrap();
    assert_eq!(reply.body, "mutex counter: 1");
    assert_eq!(state.counter, 1);
}

#[test]
fn user_json_body_exact() {
    assert_eq!(papi::user_json_body(), "{\"name\":\"chenxi\"}");
}

#[test]
fn json_encoding_matches_outside_encoder() {
    let samples = [
        "chenxi",
        "",
        "a\"b\\c",
        "line\nbreak\ttab\rreturn",
        "\u{1}\u{8}\u{b}\u{c}\u{1f}",
        "h\u{e9}llo \u{2603}",
    ];
    let mut i: usize = 0;
    while i < samples.len() {
        let ours = papi::json_string(samples[i]);
        let theirs = serde_json::to_string(samples[i]).unwrap();
        assert_eq!(ours, theirs);
        i += 1;
    }
}

#[test]
fn json_object_encodes_key_and_value() {
    assert_eq!(
        papi::json_one_field_object("name", "with \"quote\""),
        "{\"name\":\"with \\\"quote\\\"\"}"
    );
    assert_eq!(papi::json_escape("tab\there"), "tab\\there");
}
