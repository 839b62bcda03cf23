use htmx2::dispatch::respond;
use htmx2::{Failure, FormArgs, Htmx, HtmxReq, HtmxResponse, HtmxResult, Registry, Reply};

fn auth_guard(htmx: &mut Htmx) -> Result<(), HtmxResponse> {
    if htmx.cookie("user_id").get(htmx).is_none() {
        return Err(htmx.res.redirect("/sign-in"));
    }
    Ok(())
}

fn home_page(htmx: &mut Htmx, _args: &FormArgs) -> HtmxResult {
    if let Err(r) = auth_guard(htmx) {
        return Err(Failure::Respond(r));
    }
    let name = htmx.cookie("user_id").get(htmx).unwrap();
    Ok(HtmxResponse::html(format!("<p>Hello {}</p>", name)))
}

fn sign_in(htmx: &mut Htmx, args: &FormArgs) -> HtmxResult {
    let username = args.text("username");
    if args.text("password") == "foo123" {
        htmx.cookie("user_id").value(&username).set(htmx);
        return Ok(htmx.navigate("/"));
    }
    Ok(HtmxResponse::html("<p>Wrong username/password</p>".to_string()))
}

type Handler = fn(&mut Htmx, &FormArgs) -> HtmxResult;

fn serve(path: &str, headers: Vec<(String, String)>, body: &[u8]) -> Reply {
    let mut reg: Registry<Handler> = Registry::new();
    reg.register("/", home_page);
    reg.register("/api/sign_in", sign_in);
    let i = reg.resolve(path).unwrap();
    let mut htmx = Htmx::new(HtmxReq::new(headers, body.to_vec()));
    let args = FormArgs::decode(body).ok().unwrap();
    let out = (reg.entry(i))(&mut htmx, &args);
    respond(htmx.res, out)
}

#[test]
fn guarded_page_redirects_without_session() {
    let reply = serve("/", vec![], b"");
    assert_eq!(reply.status, 302);
    assert_eq!(reply.headers, vec![("Location".to_string(), "/sign-in".to_string())]);
}

#[test]
fn guarded_page_greets_with_session() {
    let reply = serve("/", vec![("Cookie".to_string(), "user_id=alice".to_string())], b"");
    assert_eq!(reply.status, 200);
    assert_eq!(reply.body, "<p>Hello alice</p>");
}

#[test]
fn sign_in_with_correct_credentials() {
    let reply = serve("/api/sign_in", vec![], b"username=alice&password=foo123");
    assert_eq!(reply.status, 200);
    assert_eq!(
        reply.headers,
        vec![
            (
                "Set-Cookie".to_string(),
                "user_id=alice; SameSite=Strict; Secure; Path=/".to_string()
            ),
            ("HX-Redirect".to_string(), "/".to_string()),
        ]
    );
    assert_eq!(reply.body, "");
}

#[test]
fn sign_in_with_wrong_credentials() {
    let reply = serve("/api/sign_in", vec![], b"username=alice&password=nope");
    assert_eq!(reply.status, 200);
    assert!(reply.body.contains("Wrong username/password"));
    assert!(reply.headers.is_empty());
}
