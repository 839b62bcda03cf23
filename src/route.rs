use vstd::prelude::*;
use vstd::string::*;
use crate::text::{ends_with, text_ends_with};

verus! {

/// The path argument a handler was declared with.
pub enum PathArg {
    /// No path was given.
    Absent,
    /// A string literal.
    Literal(String),
    /// Any expression other than a string literal.
    Computed,
}

/// Why a handler's route path is refused.
#[derive(PartialEq, Eq, Structural, Clone, Copy, Debug)]
pub enum RouteError {
    /// A page handler declared without a path.
    NoPath,
    /// A path that is not a string literal.
    InvalidPath,
}

/// The path an API handler named `name` gets when none is given.
pub open spec fn default_api_path(name: Seq<char>) -> Seq<char> {
    "/api/"@ + name
}

/// Handlers whose names end in `_page` are pages.
pub open spec fn is_page_name(name: Seq<char>) -> bool {
    ends_with(name, "_page"@)
}

/// The route path of a handler: a literal is taken as it is, anything else
/// given is refused; with none given a page is refused and an API handler
/// gets its default path.
pub open spec fn route_spec(page: bool, name: Seq<char>, arg: PathArg) -> Result<Seq<char>, RouteError> {
    match arg {
        PathArg::Literal(p) => Ok(p@),
        PathArg::Computed => Err(RouteError::InvalidPath),
        PathArg::Absent => if page {
            Err(RouteError::NoPath)
        } else {
            Ok(default_api_path(name))
        },
    }
}

pub open spec fn route_view(r: Result<String, RouteError>) -> Result<Seq<char>, RouteError> {
    match r {
        Ok(p) => Ok(p@),
        Err(e) => Err(e),
    }
}

fn route_path(page: bool, name: &str, arg: PathArg) -> (r: Result<String, RouteError>)
    ensures
        route_view(r) == route_spec(page, name@, arg),
{
    match arg {
        PathArg::Literal(p) => Ok(p),
        PathArg::Computed => Err(RouteError::InvalidPath),
        PathArg::Absent => {
            if page {
                Err(RouteError::NoPath)
            } else {
                Ok(String::from_str("/api/").concat(name))
            }
        },
    }
}

/// The route path of a handler whose kind follows from its name: a page
/// when the name ends in `_page`, an API handler otherwise.
pub fn htmx(name: &str, arg: PathArg) -> (r: Result<String, RouteError>)
    ensures
        route_view(r) == route_spec(is_page_name(name@), name@, arg),
{
    let page = text_ends_with(name, "_page");
    route_path(page, name, arg)
}

/// The route path of an API handler.
pub fn htmx_api(name: &str, arg: PathArg) -> (r: Result<String, RouteError>)
    ensures
        route_view(r) == route_spec(false, name@, arg),
{
    route_path(false, name, arg)
}

/// The route path of a page handler.
pub fn htmx_page(name: &str, arg: PathArg) -> (r: Result<String, RouteError>)
    ensures
        route_view(r) == route_spec(true, name@, arg),
{
    route_path(true, name, arg)
}

} // verus!
