//! The append-only persistence format and its bootstrap parser.
//!
//! Accepted mappings are recorded one line at a time as
//! `<identifier>: "<target>"`. The whole file, when non-empty, is also one
//! key/value document, so a store can be rehydrated from it with a generic
//! mapping parser.

use crate::store::{pairs_map, Database};
use vstd::prelude::*;
use vstd::string::*;

verus! {

/// One serialised log line: `<key>: "<value>"` and a newline.
pub open spec fn entry_line(key: Seq<char>, value: Seq<char>) -> Seq<char> {
    key + ": \""@ + value + "\"\n"@
}

/// serialise_entry serialises a new database entry into a new line that can
/// be appended to an existing log document.
pub fn serialise_entry(key: String, value: String) -> (r: String)
    ensures
        r@ == entry_line(key@, value@),
{
    let mut r = key;
    r.append(": \"");
    r.append(value.as_str());
    r.append("\"\n");
    r
}

/// The key/value document a piece of text parses as, if it parses as a
/// mapping from strings to strings.
pub uninterp spec fn yaml_string_map_of(s: Seq<char>) -> Option<Map<Seq<char>, Seq<char>>>;

/// Relies on `serde_yaml::from_str`: whether text parses as a string-to-string
/// mapping depends on the text alone; a `BTreeMap` holds each key once.
#[verifier::external_body]
fn parse_string_map(contents: &str) -> (r: Result<Vec<(String, String)>, String>)
    ensures
        r is Ok <==> yaml_string_map_of(contents@) is Some,
        r matches Ok(pairs) ==> {
            &&& yaml_string_map_of(contents@) matches Some(m) && pairs_map(pairs@) == m
            &&& forall|i: int, j: int|
                0 <= i < j < pairs@.len() ==> pairs@[i].0@ != pairs@[j].0@
        },
{
    match serde_yaml::from_str::<std::collections::BTreeMap<String, String>>(contents) {
        Ok(m) => Ok(m.into_iter().collect()),
        Err(e) => Err(e.to_string()),
    }
}

/// Builds a store from the full contents of a log file: an empty file yields
/// an empty store ready for appends; non-empty contents must parse as one
/// key/value document, which seeds the table. Either way the store comes
/// with persistence attached. Unparseable contents are rejected.
pub fn load_database(contents: &str) -> (r: Result<Database, String>)
    ensures
        contents@.len() == 0 ==> (r matches Ok(db) && db.wf() && db.map() == Map::<
            Seq<char>,
            Seq<char>,
        >::empty() && db.persistent() && db.pending() == Seq::<char>::empty()),
        contents@.len() > 0 ==> match r {
            Ok(db) => {
                &&& yaml_string_map_of(contents@) matches Some(m) && db.map() == m
                &&& db.wf()
                &&& db.persistent()
                &&& db.pending() == Seq::<char>::empty()
            },
            Err(m) => yaml_string_map_of(contents@) is None && (exists|reason: Seq<char>|
                m@ == "parse data: "@ + reason),
        },
{
    if contents.is_empty() {
        Ok(Database::new().with_persistence())
    } else {
        match parse_string_map(contents) {
            Ok(pairs) => Ok(Database::from_entries(&pairs).with_persistence()),
            Err(reason) => {
                let mut message = "parse data: ".to_owned();
                message.append(reason.as_str());
                Err(message)
            },
        }
    }
}

} // verus!
