//! The computing half of the administrative CRUD operations: building a
//! fresh record from a creation request, and merging a partial update
//! into a stored record.
//!
//! The store itself — identifier generation, clocks, persistence — lives
//! with the host program, which hands these functions the fresh
//! identifier and the current time as plain values.

use vstd::prelude::*;
use crate::models::{
    Collection,
    CreateCollectionRequest,
    CreateRouteRequest,
    Route,
    UpdateCollectionRequest,
    UpdateRouteRequest,
};

verus! {

/// A new collection record: the request's fields verbatim, under the
/// given identifier, with both timestamps set to the creation time.
pub fn build_collection(req: CreateCollectionRequest, id: String, now: i64) -> (c: Collection)
    ensures
        c.id == id,
        c.name == req.name,
        c.description == req.description,
        c.port == req.port,
        c.base_path == req.base_path,
        c.created_at == now,
        c.updated_at == now,
{
    Collection {
        id,
        name: req.name,
        description: req.description,
        port: req.port,
        base_path: req.base_path,
        created_at: now,
        updated_at: now,
    }
}

/// A new route record: the request's fields verbatim, under the given
/// identifier, with both timestamps set to the creation time.
pub fn build_route(req: CreateRouteRequest, id: String, now: i64) -> (rt: Route)
    ensures
        rt.id == id,
        rt.collection_id == req.collection_id,
        rt.name == req.name,
        rt.method == req.method,
        rt.path == req.path,
        rt.status_code == req.status_code,
        rt.response_body == req.response_body,
        rt.response_headers == req.response_headers,
        rt.delay_ms == req.delay_ms,
        rt.created_at == now,
        rt.updated_at == now,
{
    Route {
        id,
        collection_id: req.collection_id,
        name: req.name,
        method: req.method,
        path: req.path,
        status_code: req.status_code,
        response_body: req.response_body,
        response_headers: req.response_headers,
        delay_ms: req.delay_ms,
        created_at: now,
        updated_at: now,
    }
}

/// Merges a partial update into a stored collection: each field given in
/// the request replaces the stored one, each absent field keeps it; the
/// identifier and creation time never change, and the update time is set
/// to now.
pub fn apply_collection_update(c: Collection, req: UpdateCollectionRequest, now: i64) -> (r:
    Collection)
    ensures
        r.id == c.id,
        r.name == match req.name {
            Some(n) => n,
            None => c.name,
        },
        r.description == match req.description {
            Some(d) => Some(d),
            None => c.description,
        },
        r.port == match req.port {
            Some(p) => p,
            None => c.port,
        },
        r.base_path == match req.base_path {
            Some(b) => Some(b),
            None => c.base_path,
        },
        r.created_at == c.created_at,
        r.updated_at == now,
{
    let mut out = c;
    match req.name {
        Some(n) => {
            out.name = n;
        },
        None => {},
    }
    match req.description {
        Some(d) => {
            out.description = Some(d);
        },
        None => {},
    }
    match req.port {
        Some(p) => {
            out.port = p;
        },
        None => {},
    }
    match req.base_path {
        Some(b) => {
            out.base_path = Some(b);
        },
        None => {},
    }
    out.updated_at = now;
    out
}

/// Merges a partial update into a stored route: each field given in the
/// request replaces the stored one, each absent field keeps it; the
/// identifier, owning collection and creation time never change, and the
/// update time is set to now.
pub fn apply_route_update(rt: Route, req: UpdateRouteRequest, now: i64) -> (r: Route)
    ensures
        r.id == rt.id,
        r.collection_id == rt.collection_id,
        r.name == match req.name {
            Some(n) => n,
            None => rt.name,
        },
        r.method == match req.method {
            Some(m) => m,
            None => rt.method,
        },
        r.path == match req.path {
            Some(p) => p,
            None => rt.path,
        },
        r.status_code == match req.status_code {
            Some(s) => s,
            None => rt.status_code,
        },
        r.response_body == match req.response_body {
            Some(b) => Some(b),
            None => rt.response_body,
        },
        r.response_headers == match req.response_headers {
            Some(h) => Some(h),
            None => rt.response_headers,
        },
        r.delay_ms == match req.delay_ms {
            Some(d) => Some(d),
            None => rt.delay_ms,
        },
        r.created_at == rt.created_at,
        r.updated_at == now,
{
    let mut out = rt;
    match req.name {
        Some(n) => {
            out.name = n;
        },
        None => {},
    }
    match req.method {
        Some(m) => {
            out.method = m;
        },
        None => {},
    }
    match req.path {
        Some(p) => {
            out.path = p;
        },
        None => {},
    }
    match req.status_code {
        Some(s) => {
            out.status_code = s;
        },
        None => {},
    }
    match req.response_body {
        Some(b) => {
            out.response_body = Some(b);
        },
        None => {},
    }
    match req.response_headers {
        Some(h) => {
            out.response_headers = Some(h);
        },
        None => {},
    }
    match req.delay_ms {
        Some(d) => {
            out.delay_ms = Some(d);
        },
        None => {},
    }
    out.updated_at = now;
    out
}

} // verus!
