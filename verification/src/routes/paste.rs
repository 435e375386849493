//! The three paste operations. Each has the same two-stage shape: validate
//! the raw input, then delegate to the repository and map its outcome to a
//! status and a body. The server around the library owns the transport; it
//! hands raw values in and writes the returned response out.

use crate::dao::repository::Repository;
use crate::domain::paste_content::{content_error_message, content_ok, encoding_error_message};
use crate::domain::paste_id::{id_error_message, id_ok};
use crate::domain::{NewPaste, PasteContent, PasteId};
use vstd::prelude::*;
use vstd::utf8::{decode_utf8, valid_utf8};

verus! {

/// A wire-level outcome: a status code and the exact response body.
pub struct Response {
    pub status: u16,
    pub body: String,
}

/// What storing under a client-chosen identifier must produce. `pre` and
/// `post` are the repository's mapping before and after the call.
pub open spec fn create_paste_post(
    pre: Map<Seq<char>, Seq<char>>,
    post: Map<Seq<char>, Seq<char>>,
    raw_id: Seq<char>,
    body: Seq<u8>,
    resp: Response,
) -> bool {
    if !id_ok(raw_id) {
        post == pre && resp.status == 400 && resp.body@ == id_error_message(raw_id)
    } else if !valid_utf8(body) {
        post == pre && resp.status == 400 && resp.body@ == encoding_error_message()
    } else if !content_ok(decode_utf8(body)) {
        post == pre && resp.status == 400 && resp.body@ == content_error_message(
            decode_utf8(body),
        )
    } else {
        ||| (resp.status == 200 && resp.body@ == raw_id && post == pre.insert(
            raw_id,
            decode_utf8(body),
        ))
        ||| (resp.status == 400 && post == pre && exists|why: Seq<char>|
            resp.body@ == "Failed to write: "@ + why)
    }
}

/// What storing under a generated identifier must produce: as above, except
/// that the identifier stage cannot fail, and on success the body carries
/// the fresh 36-character identifier itself.
pub open spec fn create_paste_random_id_post(
    pre: Map<Seq<char>, Seq<char>>,
    post: Map<Seq<char>, Seq<char>>,
    body: Seq<u8>,
    resp: Response,
) -> bool {
    if !valid_utf8(body) {
        post == pre && resp.status == 400 && resp.body@ == encoding_error_message()
    } else if !content_ok(decode_utf8(body)) {
        post == pre && resp.status == 400 && resp.body@ == content_error_message(
            decode_utf8(body),
        )
    } else {
        ||| (resp.status == 200 && resp.body@.len() == 36 && id_ok(resp.body@) && post
            == pre.insert(resp.body@, decode_utf8(body)))
        ||| (resp.status == 400 && post == pre && exists|why: Seq<char>|
            resp.body@ == "Failed to write: "@ + why)
    }
}

/// What a read must produce against the repository's mapping `m`.
pub open spec fn get_paste_post(m: Map<Seq<char>, Seq<char>>, raw_id: Seq<char>, resp: Response) -> bool {
    if !id_ok(raw_id) {
        resp.status == 400 && resp.body@ == id_error_message(raw_id)
    } else if m.contains_key(raw_id) {
        resp.status == 200 && resp.body@ == m[raw_id]
    } else {
        resp.status == 404 && resp.body@ == "Not found: "@ + raw_id
    }
}

/// Stores a paste under a client-chosen identifier. On success the body
/// echoes the identifier; any validation failure is a 400 carrying the
/// validation message, and a failed write is a 400 carrying the backend's
/// message.
pub fn create_paste<R: Repository>(raw_id: String, body: Vec<u8>, repo: &mut R) -> (resp: Response)
    requires
        old(repo).wf(),
    ensures
        final(repo).wf(),
        create_paste_post(old(repo).model(), final(repo).model(), raw_id@, body@, resp),
{
    let id = match PasteId::parse(raw_id) {
        Ok(id) => id,
        Err(m) => {
            return Response { status: 400, body: m };
        },
    };
    let content = match PasteContent::parse_from_bytes(body) {
        Ok(c) => c,
        Err(m) => {
            return Response { status: 400, body: m };
        },
    };
    let echoed = id.as_str().to_owned();
    match repo.insert(NewPaste { id, content }) {
        Ok(_) => Response { status: 200, body: echoed },
        Err(e) => Response { status: 400, body: e.message() },
    }
}

/// Stores a paste under a freshly generated identifier and returns that
/// identifier as the body on success.
pub fn create_paste_random_id<R: Repository>(body: Vec<u8>, repo: &mut R) -> (resp: Response)
    requires
        old(repo).wf(),
    ensures
        final(repo).wf(),
        create_paste_random_id_post(old(repo).model(), final(repo).model(), body@, resp),
{
    let id = PasteId::random();
    let content = match PasteContent::parse_from_bytes(body) {
        Ok(c) => c,
        Err(m) => {
            return Response { status: 400, body: m };
        },
    };
    let echoed = id.as_str().to_owned();
    match repo.insert(NewPaste { id, content }) {
        Ok(_) => Response { status: 200, body: echoed },
        Err(e) => Response { status: 400, body: e.message() },
    }
}

/// Retrieves a paste. The stored content is the body on success; an absent
/// identifier is a 404 whose body names it.
pub fn get_paste<R: Repository>(raw_id: String, repo: &R) -> (resp: Response)
    requires
        repo.wf(),
    ensures
        get_paste_post(repo.model(), raw_id@, resp),
{
    let id = match PasteId::parse(raw_id) {
        Ok(id) => id,
        Err(m) => {
            return Response { status: 400, body: m };
        },
    };
    match repo.find_one(id) {
        Ok(content) => Response { status: 200, body: content.as_str().to_owned() },
        Err(e) => Response { status: e.status(), body: e.message() },
    }
}

} // verus!
