//! Server-side pieces around the store: startup options and their defaults,
//! bounded reading of a request body, and the redirect outcome for a lookup.
//! The HTTP framework itself is a caller that decodes requests into these
//! operations and encodes the results into responses.

use crate::store::Database;
use vstd::prelude::*;
use vstd::string::*;
use vstd::utf8::{decode_utf8, valid_utf8};

verus! {

/// Maximum accepted size, in bytes, of a request body carrying a target URL.
pub const MAX_SIZE: usize = 256;

/// Startup options of the server.
pub struct Cli {
    /// Directory where the front-end files are located.
    pub front_dist_directory: Option<String>,
    /// Address to run the application on.
    pub addr: Option<String>,
    /// Database file to persist the shortened URLs; absent means the
    /// shortened URLs are not persisted.
    pub database: Option<String>,
}

impl Cli {
    /// The front-end directory to serve, with its default.
    pub fn get_front_dir(&self) -> (r: String)
        ensures
            r@ == match self.front_dist_directory {
                Some(dir) => dir@,
                None => "front/dist/"@,
            },
    {
        match &self.front_dist_directory {
            Some(dir) => dir.clone(),
            None => "front/dist/".to_owned(),
        }
    }

    /// The address to listen on, with its default.
    pub fn get_addr(&self) -> (r: String)
        ensures
            r@ == match self.addr {
                Some(addr) => addr@,
                None => "127.0.0.1:8080"@,
            },
    {
        match &self.addr {
            Some(addr) => addr.clone(),
            None => "127.0.0.1:8080".to_owned(),
        }
    }
}

/// Appends one payload chunk to the body read so far, refusing to let the
/// body grow beyond `MAX_SIZE` bytes.
pub fn append_chunk(body: &mut Vec<u8>, chunk: &[u8]) -> (r: Result<(), String>)
    requires
        old(body)@.len() <= MAX_SIZE,
    ensures
        match r {
            Ok(_) => old(body)@.len() + chunk@.len() <= MAX_SIZE && final(body)@ == old(body)@
                + chunk@,
            Err(m) => old(body)@.len() + chunk@.len() > MAX_SIZE && m@ == "overflow"@
                && final(body)@ == old(body)@,
        },
{
    if chunk.len() > MAX_SIZE - body.len() {
        Err("overflow".to_owned())
    } else {
        body.extend_from_slice(chunk);
        Ok(())
    }
}

/// Relies on `String::from_utf8` of std: it succeeds exactly on valid UTF-8
/// and decodes the bytes. The error's text is not pinned down.
#[verifier::external_body]
pub(crate) fn utf8_string(bytes: Vec<u8>) -> (r: Result<String, String>)
    ensures
        r is Ok <==> valid_utf8(bytes@),
        r matches Ok(s) ==> s@ == decode_utf8(bytes@),
{
    match String::from_utf8(bytes) {
        Ok(s) => Ok(s),
        Err(e) => Err(e.to_string()),
    }
}

/// Turns a fully read request body into the target string, refusing bytes
/// that are not UTF-8.
pub fn body_to_target(body: Vec<u8>) -> (r: Result<String, String>)
    ensures
        valid_utf8(body@) ==> (r matches Ok(s) && s@ == decode_utf8(body@)),
        !valid_utf8(body@) ==> (r matches Err(m) && (exists|reason: Seq<char>|
            m@ == "invalid request body: "@ + reason)),
{
    match utf8_string(body) {
        Ok(s) => Ok(s),
        Err(reason) => {
            let mut m = "invalid request body: ".to_owned();
            m.append(reason.as_str());
            Err(m)
        },
    }
}

/// The body sent along with a redirect.
pub open spec fn redirect_body_spec(target: Seq<char>) -> Seq<char> {
    "redirecting to "@ + target + " ..."@
}

/// Renders the body sent along with a redirect to `target`.
pub fn redirect_body(target: &str) -> (r: String)
    ensures
        r@ == redirect_body_spec(target@),
{
    let mut m = "redirecting to ".to_owned();
    m.append(target);
    m.append(" ...");
    m
}

/// browse resolves a short URL: the redirect location and response body for
/// a known identifier, or nothing when it is unknown. No mutation.
pub fn browse(db: &Database, id: &str) -> (r: Option<(String, String)>)
    requires
        db.wf(),
    ensures
        match r {
            Some(found) => db.map().contains_key(id@) && found.0@ == db.map()[id@] && found.1@
                == redirect_body_spec(db.map()[id@]),
            None => !db.map().contains_key(id@),
        },
{
    match db.get(id) {
        Some(url) => {
            let location = url.clone();
            let body = redirect_body(location.as_str());
            Some((location, body))
        },
        None => None,
    }
}

} // verus!
