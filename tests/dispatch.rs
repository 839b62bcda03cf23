use htmx2::dispatch::{bad_request, not_found, prepare_request, respond, route_request};
use htmx2::response::{proceed, respond_early};
use htmx2::{ContentKind, Failure, Htmx, HtmxReq, HtmxResponse, HtmxResult, Registry};

fn registry() -> Registry<u32> {
    let mut reg = Registry::new();
    reg.register("/", 1);
    reg.register("/sign-in", 2);
    reg.register("/api/sign_in", 3);
    reg
}

#[test]
fn registered_paths_resolve_to_their_handler() {
    let reg = registry();
    assert_eq!(reg.resolve("/").map(|i| *reg.entry(i)), Some(1));
    assert_eq!(reg.resolve("/sign-in").map(|i| *reg.entry(i)), Some(2));
    assert_eq!(reg.resolve("/api/sign_in").map(|i| *reg.entry(i)), Some(3));
}

#[test]
fn other_paths_are_not_found() {
    let reg = registry();
    assert_eq!(reg.resolve("/sign"), None);
    assert_eq!(reg.resolve("/sign-in/"), None);
    assert_eq!(reg.resolve("/Sign-In"), None);
    assert_eq!(reg.resolve(""), None);
    let reply = not_found();
    assert_eq!(reply.status, 404);
    assert_eq!(reply.body, "404 Not Found");
    assert_eq!(reply.kind, ContentKind::Text);
}

#[test]
fn first_registration_wins_and_lookup_repeats() {
    let mut reg = registry();
    reg.register("/", 9);
    assert_eq!(reg.len(), 4);
    let first = reg.resolve("/");
    let second = reg.resolve("/");
    assert_eq!(first, Some(0));
    assert_eq!(first, second);
}

fn context() -> Htmx {
    Htmx::new(HtmxReq::new(vec![], vec![]))
}

#[test]
fn html_outcome_becomes_html_body() {
    let mut htmx = context();
    htmx.res.set_status_code(201);
    htmx.res.set_header("X-Test", "1");
    let reply = respond(htmx.res, proceed(HtmxResponse::html("<p>hi</p>".to_string())));
    assert_eq!(reply.status, 201);
    assert_eq!(reply.headers, vec![("X-Test".to_string(), "1".to_string())]);
    assert_eq!(reply.kind, ContentKind::Html);
    assert_eq!(reply.body, "<p>hi</p>");
}

#[test]
fn json_and_empty_outcomes() {
    let reply = respond(context().res, Ok(HtmxResponse::Json("{\"a\":1}".to_string())));
    assert_eq!(reply.kind, ContentKind::Json);
    assert_eq!(reply.body, "{\"a\":1}");
    let reply = respond(context().res, Ok(HtmxResponse::Empty));
    assert_eq!(reply.kind, ContentKind::Html);
    assert_eq!(reply.body, "");
    assert_eq!(reply.status, 200);
}

#[test]
fn guard_exit_is_sent_like_a_result() {
    let mut htmx = context();
    let r = htmx.res.redirect("/sign-in");
    let out: HtmxResult = respond_early(r);
    let reply = respond(htmx.res, out);
    assert_eq!(reply.status, 302);
    assert_eq!(reply.headers, vec![("Location".to_string(), "/sign-in".to_string())]);
    assert_eq!(reply.body, "");
}

#[test]
fn diagnostic_keeps_status_and_is_plain_text() {
    let reply = respond(context().res, Err(Failure::Diagnostic("boom".to_string())));
    assert_eq!(reply.status, 200);
    assert_eq!(reply.kind, ContentKind::Text);
    assert_eq!(reply.body, "boom");
    let reply = bad_request("bad body".to_string());
    assert_eq!(reply.status, 400);
    assert_eq!(reply.body, "bad body");
}

#[test]
fn describe_names_the_variant() {
    assert_eq!(HtmxResponse::Html("x".to_string()).describe(), "HtmxResponse::String()");
    assert_eq!(HtmxResponse::Json("x".to_string()).describe(), "HtmxResponse::Json()");
    assert_eq!(HtmxResponse::Empty.describe(), "HtmxResponse::Empty()");
}

#[test]
fn route_request_runs_or_replies_not_found() {
    let reg = registry();
    assert_eq!(route_request(&reg, "/sign-in").ok(), Some(1));
    let reply = route_request(&reg, "/api/sign_in/x").err().unwrap();
    assert_eq!(reply.status, 404);
    assert_eq!(reply.body, "404 Not Found");
}

#[test]
fn prepare_request_binds_or_replies() {
    let reg = registry();
    let (i, args) = prepare_request(&reg, "/api/sign_in", b"username=alice").ok().unwrap();
    assert_eq!(i, 2);
    assert_eq!(args.text("username"), "alice");
    let reply = prepare_request(&reg, "/nope", b"x=1").err().unwrap();
    assert_eq!(reply.status, 404);
}
