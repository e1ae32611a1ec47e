//! The upsert protocol: validate the target, resolve the identifier,
//! apply create-only or update-only semantics under exclusive access.

use crate::hasher::{derived_id, hash};
use crate::persistence::entry_line;
use crate::store::Database;
use vstd::prelude::*;
use vstd::string::*;

verus! {

/// Whether a string parses as an absolute URL.
pub uninterp spec fn is_valid_url(s: Seq<char>) -> bool;

/// Relies on `url::Url::parse`: whether a string parses as an absolute URL
/// depends on the string alone. The reason text of a failure is not pinned.
#[verifier::external_body]
fn check_url(target: &str) -> (r: Result<(), String>)
    ensures
        r is Ok <==> is_valid_url(target@),
{
    match url::Url::parse(target) {
        Ok(_) => Ok(()),
        Err(e) => Err(e.to_string()),
    }
}

/// What an upsert was asked to do: create a short URL under an explicit or
/// hash-derived identifier, or update (or create) one under an explicit
/// identifier.
#[allow(inconsistent_fields)]
pub enum UpsertShortUrlCommand {
    CreateShortUrl { id: Option<String> },
    UpdateShortUrl { id: String },
}

/// The identifier a command resolves to for a given target: the explicit
/// one when given, otherwise the hash-derived one.
pub open spec fn command_id(command: UpsertShortUrlCommand, target: Seq<char>) -> Seq<char> {
    match command {
        UpsertShortUrlCommand::CreateShortUrl { id: Some(id) } => id@,
        UpsertShortUrlCommand::CreateShortUrl { id: None } => derived_id(target),
        UpsertShortUrlCommand::UpdateShortUrl { id } => id@,
    }
}

/// Whether a command demands create-only semantics.
pub open spec fn is_create(command: UpsertShortUrlCommand) -> bool {
    command is CreateShortUrl
}

/// Why an upsert was refused.
#[derive(Debug)]
pub enum UpsertError {
    /// The target does not parse as an absolute URL; holds the parser's reason.
    MalformedTarget(String),
    /// A create-only upsert named an identifier that is already registered.
    AlreadyRegistered,
    /// Appending to the persistence log failed; holds the reason.
    IoFailure(String),
    /// The exclusion primitive guarding the table reported corruption after
    /// an earlier failure; fatal for the request.
    LockFailure,
}

impl UpsertError {
    /// The caller-facing text of each refusal.
    pub open spec fn message_spec(self) -> Seq<char> {
        match self {
            UpsertError::MalformedTarget(reason) => "malformed URL: "@ + reason@,
            UpsertError::AlreadyRegistered => "already registered"@,
            UpsertError::IoFailure(reason) => reason@,
            UpsertError::LockFailure => "poisoned lock: another task failed inside"@,
        }
    }

    /// Renders the refusal as its caller-facing text.
    pub fn message(&self) -> (r: String)
        ensures
            r@ == self.message_spec(),
    {
        match self {
            UpsertError::MalformedTarget(reason) => {
                let mut m = "malformed URL: ".to_owned();
                m.append(reason.as_str());
                m
            },
            UpsertError::AlreadyRegistered => "already registered".to_owned(),
            UpsertError::IoFailure(reason) => reason.clone(),
            UpsertError::LockFailure => "poisoned lock: another task failed inside".to_owned(),
        }
    }
}

/// The abstract outcome of one create-only upsert of a valid target: the
/// mapping afterwards, and whether the create succeeded. A create never
/// overwrites: an already-registered identifier leaves the mapping as it
/// was.
pub open spec fn apply_create(
    m: Map<Seq<char>, Seq<char>>,
    id: Seq<char>,
    target: Seq<char>,
) -> (Map<Seq<char>, Seq<char>>, bool) {
    if m.contains_key(id) {
        (m, false)
    } else {
        (m.insert(id, target), true)
    }
}

/// What a successful upsert did: the identifier it resolved to and the
/// previous target it replaced, if one existed.
pub struct UpsertEffect {
    pub id: String,
    pub previous: Option<String>,
}

impl Database {
    /// Applies one upsert: rejects a malformed target before any mutation;
    /// resolves the identifier; under create-only semantics refuses an
    /// already-registered identifier without mutating; otherwise inserts or
    /// overwrites the mapping and reports the previous target, if any.
    pub fn upsert(&mut self, target: &str, command: UpsertShortUrlCommand) -> (r: Result<
        UpsertEffect,
        UpsertError,
    >)
        requires
            old(self).wf(),
        ensures
            final(self).wf(),
            final(self).persistent() == old(self).persistent(),
            !is_valid_url(target@) ==> (r matches Err(e) && e is MalformedTarget && *final(self)
                == *old(self)),
            is_valid_url(target@) ==> ({
                let id = command_id(command, target@);
                if is_create(command) && old(self).map().contains_key(id) {
                    r matches Err(e) && e is AlreadyRegistered && *final(self) == *old(self)
                } else {
                    r matches Ok(effect) && effect.id@ == id && final(self).map() == old(
                        self,
                    ).map().insert(id, target@) && (match effect.previous {
                        Some(prev) => old(self).map().contains_key(id) && prev@ == old(
                            self,
                        ).map()[id] && final(self).pending() == old(self).pending(),
                        None => !old(self).map().contains_key(id) && final(self).pending() == old(
                            self,
                        ).pending() + (if old(self).persistent() {
                            entry_line(id, target@)
                        } else {
                            Seq::<char>::empty()
                        }),
                    })
                }
            }),
            is_valid_url(target@) && is_create(command) ==> ({
                let outcome = apply_create(old(self).map(), command_id(command, target@), target@);
                final(self).map() == outcome.0 && (r is Ok <==> outcome.1)
            }),
    {
        if let Err(reason) = check_url(target) {
            return Err(UpsertError::MalformedTarget(reason));
        }
        let (id, create_only): (String, bool) = match &command {
            UpsertShortUrlCommand::CreateShortUrl { id: Some(id) } => (id.clone(), true),
            UpsertShortUrlCommand::CreateShortUrl { id: None } => (hash(target), true),
            UpsertShortUrlCommand::UpdateShortUrl { id } => (id.clone(), false),
        };
        if create_only && self.get(id.as_str()).is_some() {
            return Err(UpsertError::AlreadyRegistered);
        }
        let previous = self.insert(id.as_str(), target);
        Ok(UpsertEffect { id, previous })
    }
}

/// The success text for a first registration of an identifier.
pub open spec fn created_message(id: Seq<char>, target: Seq<char>) -> Seq<char> {
    "/"@ + id + " now redirects to "@ + target
}

/// The success text for an overwrite, reporting the previous target.
pub open spec fn updated_message(id: Seq<char>, target: Seq<char>, previous: Seq<char>) -> Seq<
    char,
> {
    created_message(id, target) + " (was "@ + previous + ")"@
}

/// Renders a successful upsert's effect as its caller-facing text.
fn success_message(effect: &UpsertEffect, target: &str) -> (r: String)
    ensures
        r@ == match effect.previous {
            Some(prev) => updated_message(effect.id@, target@, prev@),
            None => created_message(effect.id@, target@),
        },
{
    let mut m = "/".to_owned();
    m.append(effect.id.as_str());
    m.append(" now redirects to ");
    m.append(target);
    if let Some(prev) = &effect.previous {
        m.append(" (was ");
        m.append(prev.as_str());
        m.append(")");
    }
    m
}

/// Create a short URL redirecting to a long URL, or update an existing one,
/// reporting the outcome as text.
///
/// A malformed target is rejected before any mutation; a create-only upsert
/// of a registered identifier is refused without mutating; otherwise the
/// mapping is inserted or overwritten and the returned text names the
/// resolved identifier, the target, and the previous target if one existed.
pub fn upsert_short_url(db: &mut Database, target: &str, command: UpsertShortUrlCommand) -> (r:
    Result<String, String>)
    requires
        old(db).wf(),
    ensures
        final(db).wf(),
        final(db).persistent() == old(db).persistent(),
        !is_valid_url(target@) ==> (r matches Err(m) && (exists|reason: Seq<char>|
            m@ == "malformed URL: "@ + reason) && *final(db) == *old(db)),
        is_valid_url(target@) ==> ({
            let id = command_id(command, target@);
            if is_create(command) && old(db).map().contains_key(id) {
                r matches Err(m) && m@ == "already registered"@ && *final(db) == *old(db)
            } else {
                r matches Ok(m) && final(db).map() == old(db).map().insert(id, target@) && m@ == (
                if old(db).map().contains_key(id) {
                    updated_message(id, target@, old(db).map()[id])
                } else {
                    created_message(id, target@)
                }) && (old(db).map().contains_key(id) ==> final(db).pending() == old(db).pending())
                    && (!old(db).map().contains_key(id) ==> final(db).pending() == old(db).pending()
                    + (if old(db).persistent() {
                    entry_line(id, target@)
                } else {
                    Seq::<char>::empty()
                }))
            }
        }),
{
    match db.upsert(target, command) {
        Ok(effect) => Ok(success_message(&effect, target)),
        Err(e) => {
            let m = e.message();
            proof {
                if e is MalformedTarget {
                    let reason = e->MalformedTarget_0;
                    assert(m@ == "malformed URL: "@ + reason@);
                }
            }
            Err(m)
        },
    }
}

} // verus!
