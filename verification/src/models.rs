//! The engine's data model: HTTP methods, route definitions, collections,
//! response headers, and the typed errors the registry reports.

use vstd::prelude::*;
use vstd::string::StringExecFns;

verus! {

/// The closed set of HTTP methods a route may be configured with.
#[derive(Debug, Clone, Copy, PartialEq, Eq, Structural)]
pub enum HttpMethod {
    Get,
    Post,
    Put,
    Delete,
    Patch,
    Head,
    Options,
}

/// The canonical upper-case wire name of a method.
pub open spec fn method_name(m: HttpMethod) -> Seq<char> {
    match m {
        HttpMethod::Get => "GET"@,
        HttpMethod::Post => "POST"@,
        HttpMethod::Put => "PUT"@,
        HttpMethod::Delete => "DELETE"@,
        HttpMethod::Patch => "PATCH"@,
        HttpMethod::Head => "HEAD"@,
        HttpMethod::Options => "OPTIONS"@,
    }
}

impl HttpMethod {
    /// The upper-case wire name of this method.
    pub fn as_str(&self) -> (r: &'static str)
        ensures
            r@ == method_name(*self),
    {
        match self {
            HttpMethod::Get => "GET",
            HttpMethod::Post => "POST",
            HttpMethod::Put => "PUT",
            HttpMethod::Delete => "DELETE",
            HttpMethod::Patch => "PATCH",
            HttpMethod::Head => "HEAD",
            HttpMethod::Options => "OPTIONS",
        }
    }

    /// Reads a stored method name back into the enum: the inverse of
    /// `as_str`. Any string that is not one of the seven canonical names
    /// yields `None`.
    pub fn parse(s: &str) -> (r: Option<HttpMethod>)
        ensures
            match r {
                Some(m) => s@ == method_name(m),
                None => forall|m: HttpMethod| s@ != method_name(m),
            },
    {
        proof {
            reveal_strlit("GET");
            reveal_strlit("POST");
            reveal_strlit("PUT");
            reveal_strlit("DELETE");
            reveal_strlit("PATCH");
            reveal_strlit("HEAD");
            reveal_strlit("OPTIONS");
        }
        let owned = s.to_owned();
        if owned == String::from_str("GET") {
            Some(HttpMethod::Get)
        } else if owned == String::from_str("POST") {
            Some(HttpMethod::Post)
        } else if owned == String::from_str("PUT") {
            Some(HttpMethod::Put)
        } else if owned == String::from_str("DELETE") {
            Some(HttpMethod::Delete)
        } else if owned == String::from_str("PATCH") {
            Some(HttpMethod::Patch)
        } else if owned == String::from_str("HEAD") {
            Some(HttpMethod::Head)
        } else if owned == String::from_str("OPTIONS") {
            Some(HttpMethod::Options)
        } else {
            None
        }
    }
}

/// One response header a route is configured with: a name and a value,
/// kept in the order the user entered them.
#[derive(Debug, Clone)]
pub struct Header {
    pub name: String,
    pub value: String,
}

/// One (method, path) -> response mapping within a collection.
///
/// Dates are carried as Unix-epoch milliseconds; header sets as an ordered
/// list of name/value pairs. The store guarantees that within one collection
/// no two routes share a (method, path) pair.
#[derive(Debug, Clone)]
pub struct Route {
    pub id: String,
    pub collection_id: String,
    pub name: String,
    pub method: HttpMethod,
    pub path: String,
    pub status_code: u16,
    pub response_body: Option<String>,
    pub response_headers: Option<Vec<Header>>,
    pub delay_ms: Option<u32>,
    pub created_at: i64,
    pub updated_at: i64,
}

/// A named set of route definitions bound to one port.
#[derive(Debug, Clone)]
pub struct Collection {
    pub id: String,
    pub name: String,
    pub description: Option<String>,
    pub port: u16,
    pub base_path: Option<String>,
    pub created_at: i64,
    pub updated_at: i64,
}

/// What a caller supplies to create a collection.
#[derive(Debug)]
pub struct CreateCollectionRequest {
    pub name: String,
    pub description: Option<String>,
    pub port: u16,
    pub base_path: Option<String>,
}

/// A partial update of a collection: absent fields keep their stored value.
#[derive(Debug)]
pub struct UpdateCollectionRequest {
    pub id: String,
    pub name: Option<String>,
    pub description: Option<String>,
    pub port: Option<u16>,
    pub base_path: Option<String>,
}

/// What a caller supplies to create a route.
#[derive(Debug)]
pub struct CreateRouteRequest {
    pub collection_id: String,
    pub name: String,
    pub method: HttpMethod,
    pub path: String,
    pub status_code: u16,
    pub response_body: Option<String>,
    pub response_headers: Option<Vec<Header>>,
    pub delay_ms: Option<u32>,
}

/// A partial update of a route: absent fields keep their stored value.
#[derive(Debug)]
pub struct UpdateRouteRequest {
    pub id: String,
    pub name: Option<String>,
    pub method: Option<HttpMethod>,
    pub path: Option<String>,
    pub status_code: Option<u16>,
    pub response_body: Option<String>,
    pub response_headers: Option<Vec<Header>>,
    pub delay_ms: Option<u32>,
}

/// One row of the running-servers snapshot handed to administrative callers.
#[derive(Debug, Clone)]
pub struct ServerStatus {
    pub port: u16,
    pub collection_id: String,
    pub collection_name: String,
    pub is_running: bool,
    pub base_url: String,
}

/// Names a stored route whose live endpoint the caller wants probed.
#[derive(Debug)]
pub struct TestRouteRequest {
    pub route_id: String,
}

/// The typed failures the engine reports, each carrying the port or
/// collection it is about so callers can react programmatically.
#[derive(Debug, Clone)]
pub enum MockServerError {
    /// This engine already runs a listener on the port.
    AlreadyRunning { port: u16 },
    /// The operating system refused to bind the port.
    BindError { port: u16 },
    /// No listener of this engine runs on the port.
    NotRunning { port: u16 },
    /// The named collection does not exist in the store.
    CollectionNotFound { collection_id: String },
}

} // verus!
