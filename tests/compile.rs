use htmx2::{htmx, htmx_api, htmx_page, wrap_returns, Expr, MaybeWrapReturns, PathArg, RouteError};

#[test]
fn page_paths_are_required() {
    assert_eq!(htmx("home_page", PathArg::Absent), Err(RouteError::NoPath));
    assert_eq!(htmx_page("home", PathArg::Absent), Err(RouteError::NoPath));
    assert_eq!(htmx("home_page", PathArg::Literal("/".to_string())), Ok("/".to_string()));
}

#[test]
fn api_paths_default_to_the_name() {
    assert_eq!(htmx("sign_in", PathArg::Absent), Ok("/api/sign_in".to_string()));
    assert_eq!(htmx_api("sign_in_page", PathArg::Absent), Ok("/api/sign_in_page".to_string()));
    assert_eq!(htmx_api("x", PathArg::Literal("/x".to_string())), Ok("/x".to_string()));
}

#[test]
fn computed_paths_are_refused() {
    assert_eq!(htmx("sign_in", PathArg::Computed), Err(RouteError::InvalidPath));
    assert_eq!(htmx_api("sign_in", PathArg::Computed), Err(RouteError::InvalidPath));
    assert_eq!(htmx_page("home_page", PathArg::Computed), Err(RouteError::InvalidPath));
}

#[test]
fn trailing_value_is_wrapped() {
    let out = wrap_returns(&vec![Expr::Other("let a = 1".to_string()), Expr::Other("a".to_string())]);
    assert_eq!(out.len(), 2);
    assert!(matches!(&out[0], Expr::Other(s) if s == "let a = 1"));
    match &out[1] {
        Expr::Return(Some(x)) => match &**x {
            Expr::Wrapped(y) => assert!(matches!(&**y, Expr::Other(s) if s == "a")),
            _ => panic!("not wrapped"),
        },
        _ => panic!("not a return"),
    }
}

#[test]
fn calls_are_left_alone() {
    let body = vec![
        Expr::Return(Some(Box::new(Expr::Call("guard()".to_string())))),
        Expr::Call("page()".to_string()),
    ];
    let out = wrap_returns(&body);
    assert!(matches!(&out[0], Expr::Return(Some(x)) if matches!(&**x, Expr::Call(_))));
    assert!(matches!(&out[1], Expr::Call(s) if s == "page()"));
}

#[test]
fn nested_returns_are_wrapped_but_not_nested_tails() {
    let inner = Expr::Block(vec![
        Expr::Return(Some(Box::new(Expr::Other("x".to_string())))),
        Expr::Other("y".to_string()),
    ]);
    let out = wrap_returns(&vec![inner, Expr::Call("f()".to_string())]);
    match &out[0] {
        Expr::Block(v) => {
            assert!(matches!(&v[0], Expr::Return(Some(x)) if matches!(&**x, Expr::Wrapped(_))));
            assert!(matches!(&v[1], Expr::Other(s) if s == "y"));
        }
        _ => panic!("not a block"),
    }
}

#[test]
fn visitor_wraps_trailing_only_on_first_block() {
    let mut v = MaybeWrapReturns::default();
    assert!(v.first_block_visit);
    let first = v.visit_block(&vec![Expr::Other("a".to_string())]);
    assert!(matches!(&first[0], Expr::Return(Some(_))));
    let second = v.visit_block(&vec![Expr::Other("a".to_string())]);
    assert!(matches!(&second[0], Expr::Other(_)));
}

#[test]
fn returned_calls_are_never_wrapped() {
    let body = vec![Expr::Block(vec![Expr::Return(Some(Box::new(Expr::Call("g()".to_string()))))]), Expr::Other("v".to_string())];
    let out = wrap_returns(&body);
    match &out[0] {
        Expr::Block(v) => assert!(matches!(&v[0], Expr::Return(Some(x)) if matches!(&**x, Expr::Call(s) if s == "g()"))),
        _ => panic!("not a block"),
    }
}
