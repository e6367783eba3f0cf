//! The request-handling protocol: the update handler's
//! backup-then-promote sequence, the dispatcher over it, and the
//! properties the protocol guarantees.
//!
//! The update handler runs in steps so that the caller can perform each
//! store operation between them: first the buffered request body yields a
//! snapshot path and content, then a successful snapshot write yields the
//! promotion, and the promotion's outcome yields the response. Each
//! failure is surfaced at once as a 500 response carrying the error text.

use vstd::prelude::*;

use crate::http::{
    error_response, get_response, handle_get, handle_not_allowed, handle_options,
    not_allowed_response, ok_empty_response, ok_html_response, options_response, read_view,
    Method, RespBody, RespView, Response,
};
use crate::naming::{backup_name, gen_backup_filename};
use crate::store::{
    missing_file_msg, promote_ok, read_spec, write_snapshot_ok, MemStore, StoreView,
};

verus! {

/// The process configuration: read once at startup, immutable afterwards,
/// shared by every request.
#[derive(Clone, Debug)]
pub struct Config {
    pub wiki_file: String,
    pub backup_dir: String,
    pub address: String,
    pub port: u16,
}

/// The error text when the request body could not be buffered.
pub open spec fn body_read_err(e: Seq<char>) -> Seq<char> {
    "failed to read request body: "@ + e
}

/// The error text when the snapshot write failed.
pub open spec fn snapshot_write_err(path: Seq<char>, e: Seq<char>) -> Seq<char> {
    "failed to write backup wiki file ("@ + path + "): "@ + e
}

/// The error text when promoting the snapshot onto the document failed.
pub open spec fn promote_err(wiki_file: Seq<char>, e: Seq<char>) -> Seq<char> {
    "failed to overwrite wiki file ("@ + wiki_file + "): "@ + e
}

/// First update step: with the request body buffered at `now_millis`,
/// either the snapshot write to perform next, or the failure response.
pub fn update_on_body(backup_dir: &str, now_millis: u64, body: Result<Vec<u8>, String>) -> (s:
    Result<(String, Vec<u8>), Response>)
    ensures
        body matches Ok(b) ==> (s matches Ok(pc) && pc.0@ == backup_name(
            backup_dir@,
            now_millis as nat,
        ) && pc.1@ == b@),
        body matches Err(e) ==> (s matches Err(r) && r@ == error_response(body_read_err(e@))),
{
    match body {
        Ok(content) => Ok((gen_backup_filename(backup_dir, now_millis), content)),
        Err(e) => {
            let msg = String::from_str("failed to read request body: ").concat(e.as_str());
            Err(Response { status: 500, content_type: None, dav: None, body: RespBody::Text(msg) })
        },
    }
}

/// Second update step: after the snapshot write at `path`, either the
/// path to promote next, or the failure response; on failure the
/// document was left untouched.
pub fn update_on_snapshot_written(path: String, write_result: Result<(), String>) -> (s: Result<
    String,
    Response,
>)
    ensures
        write_result is Ok ==> (s matches Ok(p) && p@ == path@),
        write_result matches Err(e) ==> (s matches Err(r) && r@ == error_response(
            snapshot_write_err(path@, e@),
        )),
{
    match write_result {
        Ok(()) => Ok(path),
        Err(e) => {
            let msg = String::from_str("failed to write backup wiki file (").concat(
                path.as_str(),
            ).concat("): ").concat(e.as_str());
            proof {
                assert(msg@ =~= snapshot_write_err(path@, e@));
            }
            Err(Response { status: 500, content_type: None, dav: None, body: RespBody::Text(msg) })
        },
    }
}

/// Last update step: the response for the promotion's outcome.
pub fn update_on_promoted(wiki_file: &str, copy_result: Result<(), String>) -> (r: Response)
    ensures
        copy_result is Ok ==> r@ == ok_empty_response(),
        copy_result matches Err(e) ==> r@ == error_response(promote_err(wiki_file@, e@)),
{
    match copy_result {
        Ok(()) => Response {
            status: 200,
            content_type: None,
            dav: None,
            body: RespBody::Empty,
        },
        Err(e) => {
            let msg = String::from_str("failed to overwrite wiki file (").concat(
                wiki_file,
            ).concat("): ").concat(e.as_str());
            proof {
                assert(msg@ =~= promote_err(wiki_file@, e@));
            }
            Response { status: 500, content_type: None, dav: None, body: RespBody::Text(msg) }
        },
    }
}

/// What a PUT does to the store, and what it replies: on a buffered body
/// and an existing backup directory, the snapshot named for the request's
/// time is written and then promoted; otherwise the store is untouched
/// and the failure is reported.
pub open spec fn put_spec(
    s: StoreView,
    body: Result<Seq<u8>, Seq<char>>,
    now: nat,
    dir: Seq<char>,
) -> (StoreView, RespView) {
    match body {
        Err(e) => (s, error_response(body_read_err(e))),
        Ok(b) => {
            let name = backup_name(dir, now);
            if s.dir_exists {
                (promote_ok(write_snapshot_ok(s, name, b), name), ok_empty_response())
            } else {
                (s, error_response(snapshot_write_err(name, missing_file_msg())))
            }
        },
    }
}

/// What a request does to the store, and what it replies, as a function
/// of method, buffered body, wall-clock time and configuration. The
/// request path plays no part beyond routing, and routing ignores it.
pub open spec fn serve_spec(
    s: StoreView,
    method: Method,
    body: Result<Seq<u8>, Seq<char>>,
    now: nat,
    dir: Seq<char>,
) -> (StoreView, RespView) {
    match method {
        Method::Get => (s, get_response(read_spec(s))),
        Method::Put => put_spec(s, body, now, dir),
        Method::Options => (s, options_response()),
        Method::Other => (s, not_allowed_response()),
    }
}

/// Update handler: buffered body in, snapshot written, snapshot promoted,
/// response out; every failure aborts the sequence and reports as a 500.
pub fn update_wiki(
    store: &mut MemStore,
    body: Result<Vec<u8>, String>,
    now_millis: u64,
    config: &Config,
) -> (r: Response)
    ensures
        final(store)@ == put_spec(
            old(store)@,
            read_view(body),
            now_millis as nat,
            config.backup_dir@,
        ).0,
        r@ == put_spec(old(store)@, read_view(body), now_millis as nat, config.backup_dir@).1,
{
    match update_on_body(config.backup_dir.as_str(), now_millis, body) {
        Err(resp) => resp,
        Ok((path, content)) => {
            let write_result = store.write_snapshot(path.as_str(), content);
            match update_on_snapshot_written(path, write_result) {
                Err(resp) => resp,
                Ok(path) => {
                    let copy_result = store.promote(path.as_str());
                    update_on_promoted(config.wiki_file.as_str(), copy_result)
                },
            }
        },
    }
}

/// Request dispatcher: stateless, maps the method to the read, update or
/// capability handler, and everything else to the 405 reply. The path is
/// accepted and ignored: this server exposes exactly one document.
pub fn handle(
    store: &mut MemStore,
    method: Method,
    path: &str,
    body: Result<Vec<u8>, String>,
    now_millis: u64,
    config: &Config,
) -> (r: Response)
    ensures
        final(store)@ == serve_spec(
            old(store)@,
            method,
            read_view(body),
            now_millis as nat,
            config.backup_dir@,
        ).0,
        r@ == serve_spec(
            old(store)@,
            method,
            read_view(body),
            now_millis as nat,
            config.backup_dir@,
        ).1,
{
    match method {
        Method::Get => handle_get(store.read()),
        Method::Put => update_wiki(store, body, now_millis, config),
        Method::Options => handle_options(),
        Method::Other => handle_not_allowed(),
    }
}

/// A GET performed immediately after a successful PUT with body `b`, with
/// no intervening PUT, returns exactly `b`.
pub proof fn lemma_round_trip(
    s: StoreView,
    b: Seq<u8>,
    now: nat,
    dir: Seq<char>,
    body2: Result<Seq<u8>, Seq<char>>,
    now2: nat,
)
    requires
        s.dir_exists,
    ensures
        ({
            let put = serve_spec(s, Method::Put, Ok(b), now, dir);
            let get = serve_spec(put.0, Method::Get, body2, now2, dir);
            &&& put.1 == ok_empty_response()
            &&& get.1 == ok_html_response(b)
            &&& get.0 == put.0
        }),
{
}

/// For every successful PUT, the snapshot named with the request's
/// timestamp exists with content equal to the request body before the
/// document changes: the snapshot write leaves the document as it was,
/// the promotion then changes the document alone, to that content, and a
/// successful PUT is exactly those two steps in that order.
pub proof fn lemma_snapshot_precedes_promotion(s: StoreView, b: Seq<u8>, now: nat, dir: Seq<char>)
    ensures
        ({
            let name = backup_name(dir, now);
            let written = write_snapshot_ok(s, name, b);
            let promoted = promote_ok(written, name);
            &&& written.snapshots.contains_key(name)
            &&& written.snapshots[name] == b
            &&& written.document == s.document
            &&& written.dir_exists == s.dir_exists
            &&& promoted.document == Some(b)
            &&& promoted.snapshots == written.snapshots
            &&& s.dir_exists ==> put_spec(s, Ok(b), now, dir) == (promoted, ok_empty_response())
        }),
{
}

/// Repeated GETs with no intervening PUT return byte-identical content:
/// a GET leaves the store untouched, and a second GET replies exactly as
/// the first did.
pub proof fn lemma_idempotent_reread(
    s: StoreView,
    body1: Result<Seq<u8>, Seq<char>>,
    now1: nat,
    body2: Result<Seq<u8>, Seq<char>>,
    now2: nat,
    dir: Seq<char>,
)
    ensures
        ({
            let first = serve_spec(s, Method::Get, body1, now1, dir);
            let second = serve_spec(first.0, Method::Get, body2, now2, dir);
            &&& first.0 == s
            &&& second.0 == s
            &&& second.1 == first.1
        }),
{
}

/// Any method other than GET, PUT and OPTIONS gets a 405 with an empty
/// plain-text body, whatever the store, path, body or time.
pub proof fn lemma_method_restriction(
    s: StoreView,
    body: Result<Seq<u8>, Seq<char>>,
    now: nat,
    dir: Seq<char>,
)
    ensures
        serve_spec(s, Method::Other, body, now, dir) == (s, not_allowed_response()),
{
}

/// OPTIONS always answers 200 with the `dav: tw5/put` header and an empty
/// body, whatever the store, path, body or time.
pub proof fn lemma_capability_advertisement(
    s: StoreView,
    body: Result<Seq<u8>, Seq<char>>,
    now: nat,
    dir: Seq<char>,
)
    ensures
        serve_spec(s, Method::Options, body, now, dir) == (s, options_response()),
{
}

} // verus!
