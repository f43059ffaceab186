use vstd::prelude::*;

verus! {

/// Errors raised while a route is declared: its method or its template is malformed.
#[derive(Debug)]
pub enum RouteError {
    InvalidMethod,
    InvalidRoute { route: String },
    InvalidSegmentParameter { segment: String },
}

impl RouteError {
    /// The error for a template that does not parse as a URI.
    pub fn invalid_uri(uri: &str) -> (r: Self)
        ensures
            r is InvalidRoute,
            r->route@ == uri@,
    {
        RouteError::InvalidRoute { route: uri.to_owned() }
    }

    /// A human readable description of the error.
    pub fn describe(&self) -> (r: String)
        ensures
            self is InvalidMethod ==> r@ == "InvalidMethod"@,
            self is InvalidRoute ==> r@ == "InvalidRoute `"@ + self->route@ + "`"@,
            self is InvalidSegmentParameter ==> r@ == "InvalidSegmentParameter `"@
                + self->segment@ + "`"@,
    {
        match self {
            RouteError::InvalidMethod => "InvalidMethod".to_owned(),
            RouteError::InvalidRoute { route } => {
                let r = "InvalidRoute `".to_owned().concat(route.as_str());
                r.concat("`")
            },
            RouteError::InvalidSegmentParameter { segment } => {
                let r = "InvalidSegmentParameter `".to_owned().concat(segment.as_str());
                r.concat("`")
            },
        }
    }
}

} // verus!
