//! Handler registry, request context, cookies, form binding and dispatch
//! for HTML-over-the-wire applications.

pub mod text;
pub mod response;
pub mod utils;
pub mod context;
pub mod registry;
pub mod dispatch;
pub mod cookie;
pub mod form;
pub mod route;
pub mod rewrite;

pub use response::{Failure, HtmxResponse, HtmxResult};
pub use utils::Checkbox;
pub use context::{Htmx, HtmxReq, HtmxRes};
pub use registry::Registry;
pub use dispatch::{ContentKind, Reply};
pub use cookie::{CookieBuilder, Expiration, SameSite};
pub use form::{DecodeError, FormArgs};
pub use route::{htmx, htmx_api, htmx_page, PathArg, RouteError};
pub use rewrite::{wrap_returns, Expr, MaybeWrapReturns};
