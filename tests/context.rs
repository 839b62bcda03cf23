use htmx2::{CookieBuilder, Expiration, Htmx, HtmxReq, HtmxResponse, SameSite};

fn with_headers(headers: Vec<(&str, &str)>) -> Htmx {
    let hs = headers.into_iter().map(|(n, v)| (n.to_string(), v.to_string())).collect();
    Htmx::new(HtmxReq::new(hs, vec![]))
}

#[test]
fn header_names_ignore_case() {
    let htmx = with_headers(vec![("content-type", "text/html"), ("Content-Type", "x")]);
    assert_eq!(htmx.req.get_header("Content-Type"), Some("text/html".to_string()));
    assert_eq!(htmx.req.get_header("CONTENT-TYPE"), Some("text/html".to_string()));
    assert_eq!(htmx.req.get_header("Accept"), None);
}

#[test]
fn response_headers_append_in_order() {
    let mut htmx = with_headers(vec![]);
    htmx.res.set_header("Set-Cookie", "a=1");
    htmx.res.set_header("Set-Cookie", "b=2");
    assert_eq!(htmx.res.get_header("set-cookie"), Some("a=1".to_string()));
    assert_eq!(htmx.res.headers().len(), 2);
    assert_eq!(htmx.res.status_code(), 200);
}

#[test]
fn navigate_sets_hx_redirect() {
    let mut htmx = with_headers(vec![]);
    let r = htmx.navigate("/");
    assert!(matches!(r, HtmxResponse::Empty));
    assert_eq!(htmx.res.get_header("HX-Redirect"), Some("/".to_string()));
    assert_eq!(htmx.res.status_code(), 200);
}

#[test]
fn cookie_round_trip() {
    let mut htmx = with_headers(vec![]);
    let c = htmx.cookie("user_id").value("alice");
    assert!(c.set(&mut htmx));
    let line = htmx.res.get_header("Set-Cookie").unwrap();
    assert_eq!(line, "user_id=alice; SameSite=Strict; Secure; Path=/");
    let back = with_headers(vec![("Cookie", line.as_str())]);
    assert_eq!(back.cookie("user_id").get(&back), Some("alice".to_string()));
}

#[test]
fn cookie_lookup_takes_first_match_by_exact_name() {
    let htmx = with_headers(vec![("cookie", "theme=dark; user_id=bob; user_id=eve")]);
    assert_eq!(htmx.cookie("user_id").get(&htmx), Some("bob".to_string()));
    assert_eq!(htmx.cookie("theme").get(&htmx), Some("dark".to_string()));
    assert_eq!(htmx.cookie("User_id").get(&htmx), None);
    let none = with_headers(vec![]);
    assert_eq!(none.cookie("user_id").get(&none), None);
}

#[test]
fn cookie_attributes() {
    let mut htmx = with_headers(vec![]);
    let c = CookieBuilder::new("s").value("v").secure(false).expires(Expiration::DateTime(0));
    assert!(c.set(&mut htmx));
    assert_eq!(
        htmx.res.get_header("Set-Cookie"),
        Some("s=v; SameSite=Strict; Path=/; Expires=Thu, 01 Jan 1970 00:00:00 GMT".to_string())
    );
    let mut htmx = with_headers(vec![]);
    let c = CookieBuilder::new("s").value("v").expire_in_one_day();
    assert!(c.set(&mut htmx));
    assert!(htmx.res.get_header("Set-Cookie").unwrap().contains("; Expires="));
}

#[test]
fn cookie_expiry_offsets() {
    let c = CookieBuilder::new("s").value("v").expire_after(1000, 3600);
    assert_eq!(c.cookie.unwrap().expires, Some(4600));
    let c = CookieBuilder::new("s").value("v").expire_after(i64::MAX - 1, 604800);
    assert_eq!(c.cookie.unwrap().expires, Some(i64::MAX));
    let c = CookieBuilder::new("s").value("v").expire_in_one_hour().expires(Expiration::Session);
    assert_eq!(c.cookie.unwrap().expires, None);
}

#[test]
fn cookie_expiry_must_be_writable() {
    let mut htmx = with_headers(vec![]);
    let c = CookieBuilder::new("s").value("v").expires(Expiration::DateTime(253402300799));
    assert!(c.set(&mut htmx));
    let c = CookieBuilder::new("s").value("v").expires(Expiration::DateTime(i64::MAX));
    assert!(!c.set(&mut htmx));
    assert_eq!(htmx.res.headers().len(), 1);
}

#[test]
fn cookie_defaults_and_pieces_with_spaces() {
    let c = CookieBuilder::new("s").value("v");
    let v = c.cookie.unwrap();
    assert_eq!(v.same_site, SameSite::Strict);
    assert!(v.secure);
    assert_eq!(v.path, "/");
    let htmx = with_headers(vec![("Cookie", " a = 1 ;b=two words ; =x; c")]);
    assert_eq!(htmx.cookie("a").get(&htmx), Some("1".to_string()));
    assert_eq!(htmx.cookie("b").get(&htmx), Some("two words".to_string()));
    assert_eq!(htmx.cookie("c").get(&htmx), None);
}
