//! Request routing for HTTP-style handlers: route templates with constant and
//! dynamic segments, matching against incoming paths, parameter bindings,
//! guard decisions and the ordered dispatch of a request over a route table.
pub mod text;
pub mod http_syntax;
pub mod error;
pub mod incoming;
pub mod route_uri;
pub mod bindings;
pub mod route;
pub mod query;
pub mod response;
pub mod guards;
pub mod state;
pub mod dispatch;
pub mod request;

pub use bindings::ParameterBindings;
pub use dispatch::{DispatchState, Outcome, RouteTable};
pub use error::RouteError;
pub use guards::{Binary, GuardOutcome, Json, Path, Text};
pub use incoming::{IncomingRoute, IncomingRouteUri};
pub use query::QueryParameters;
pub use request::RequestView;
pub use response::{method_not_found, Body, JsonResponse, Response};
pub use route::Route;
pub use route_uri::{RouteSegment, RouteUri};
pub use state::State;
