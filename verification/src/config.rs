//! The client configuration document.
//!
//! The configuration file is a small key/value document with four known
//! fields. A generic mapping parse (through serde_yaml) is trusted; the
//! interpretation of the parsed scalars into a `Config` is verified.

use vstd::prelude::*;
use vstd::string::*;

verus! {

/// Client configuration, every field optional.
#[derive(Debug, PartialEq)]
pub struct Config {
    /// Base URL of the goto API.
    pub api_url: Option<String>,
    /// Update a short URL when it already exists instead of failing.
    pub force_replace: Option<bool>,
    /// Do not print redirections.
    pub silent: Option<bool>,
    /// Do not open the browser.
    pub no_browser: Option<bool>,
}

/// The view of an optional string.
pub open spec fn option_view(o: Option<String>) -> Option<Seq<char>> {
    match o {
        Some(s) => Some(s@),
        None => None,
    }
}

/// A scalar value of the configuration document: a boolean, a string, or
/// a value of any other kind.
pub enum YamlScalar {
    Bool(bool),
    Text(String),
    Other,
}

/// The abstract shape of one scalar: its boolean content and its text
/// content, each absent when the scalar is not of that kind.
pub open spec fn scalar_model(v: YamlScalar) -> (Option<bool>, Option<Seq<char>>) {
    match v {
        YamlScalar::Bool(b) => (Some(b), None),
        YamlScalar::Text(t) => (None, Some(t@)),
        YamlScalar::Other => (None, None),
    }
}

/// No two pairs share a key.
pub open spec fn distinct_scalar_keys(pairs: Seq<(String, YamlScalar)>) -> bool {
    forall|i: int, j: int| 0 <= i < j < pairs.len() ==> pairs[i].0@ != pairs[j].0@
}

/// The abstract contents of a sequence of key/scalar pairs, later pairs
/// winning.
pub open spec fn scalar_entries_model(pairs: Seq<(String, YamlScalar)>) -> Map<
    Seq<char>,
    (Option<bool>, Option<Seq<char>>),
>
    decreases pairs.len(),
{
    if pairs.len() == 0 {
        Map::empty()
    } else {
        scalar_entries_model(pairs.drop_last()).insert(
            pairs.last().0@,
            scalar_model(pairs.last().1),
        )
    }
}

/// With distinct keys, each pair's scalar is what the model associates
/// with its key.
pub proof fn lemma_scalar_index(pairs: Seq<(String, YamlScalar)>, i: int)
    requires
        distinct_scalar_keys(pairs),
        0 <= i < pairs.len(),
    ensures
        scalar_entries_model(pairs).contains_key(pairs[i].0@),
        scalar_entries_model(pairs)[pairs[i].0@] == scalar_model(pairs[i].1),
    decreases pairs.len(),
{
    if i == pairs.len() - 1 {
    } else {
        assert(distinct_scalar_keys(pairs.drop_last()));
        assert(pairs.drop_last()[i] == pairs[i]);
        lemma_scalar_index(pairs.drop_last(), i);
        assert(pairs.last().0@ != pairs[i].0@);
    }
}

/// The key/scalar document a piece of text parses as, if it parses as a
/// mapping from strings to scalars. Each scalar is abstracted as its
/// boolean and text content.
pub uninterp spec fn yaml_config_doc_of(s: Seq<char>) -> Option<
    Map<Seq<char>, (Option<bool>, Option<Seq<char>>)>,
>;

/// Relies on `serde_yaml::from_str`: whether text parses as a mapping with
/// string keys depends on the text alone; a `BTreeMap` holds each key once.
/// Boolean and string values are kept; values of any other kind are
/// abstracted as `Other`.
#[verifier::external_body]
fn parse_scalar_map(contents: &str) -> (r: Result<Vec<(String, YamlScalar)>, String>)
    ensures
        r is Ok <==> yaml_config_doc_of(contents@) is Some,
        r matches Ok(pairs) ==> {
            &&& yaml_config_doc_of(contents@) matches Some(m) && scalar_entries_model(pairs@) == m
            &&& distinct_scalar_keys(pairs@)
        },
{
    match serde_yaml::from_str::<std::collections::BTreeMap<String, serde_yaml::Value>>(contents) {
        Ok(m) => Ok(m.into_iter().map(|(k, v)| {
            let scalar = match v {
                serde_yaml::Value::Bool(b) => YamlScalar::Bool(b),
                serde_yaml::Value::String(t) => YamlScalar::Text(t),
                _ => YamlScalar::Other,
            };
            (k, scalar)
        }).collect()),
        Err(e) => Err(e.to_string()),
    }
}

/// Every known field of the document carries a value of its type: `api_url`
/// a string, the three switches booleans.
pub open spec fn doc_ok(m: Map<Seq<char>, (Option<bool>, Option<Seq<char>>)>) -> bool {
    &&& m.contains_key("api_url"@) ==> m["api_url"@].1 is Some
    &&& m.contains_key("force_replace"@) ==> m["force_replace"@].0 is Some
    &&& m.contains_key("silent"@) ==> m["silent"@].0 is Some
    &&& m.contains_key("no_browser"@) ==> m["no_browser"@].0 is Some
}

/// The text of the document's `api_url` field, if present.
pub open spec fn doc_api_url(m: Map<Seq<char>, (Option<bool>, Option<Seq<char>>)>) -> Option<
    Seq<char>,
> {
    if m.contains_key("api_url"@) {
        m["api_url"@].1
    } else {
        None
    }
}

/// The boolean of a document field, if present.
pub open spec fn doc_bool(
    m: Map<Seq<char>, (Option<bool>, Option<Seq<char>>)>,
    key: Seq<char>,
) -> Option<bool> {
    if m.contains_key(key) {
        m[key].0
    } else {
        None
    }
}

/// Interprets the parsed pairs of a configuration document: each known
/// field must carry a value of its type; unknown fields are ignored.
pub fn config_from_entries(entries: &Vec<(String, YamlScalar)>) -> (r: Result<Config, String>)
    requires
        distinct_scalar_keys(entries@),
    ensures
        ({
            let m = scalar_entries_model(entries@);
            if doc_ok(m) {
                r matches Ok(c) && option_view(c.api_url) == doc_api_url(m) && c.force_replace
                    == doc_bool(m, "force_replace"@) && c.silent == doc_bool(m, "silent"@)
                    && c.no_browser == doc_bool(m, "no_browser"@)
            } else {
                r matches Err(reason) && reason@ == "invalid type"@
            }
        }),
{
    proof {
        reveal_strlit("api_url");
        reveal_strlit("force_replace");
        reveal_strlit("silent");
        reveal_strlit("no_browser");
    }
    let key_api = "api_url".to_owned();
    let key_force = "force_replace".to_owned();
    let key_silent = "silent".to_owned();
    let key_browser = "no_browser".to_owned();
    let mut config = Config { api_url: None, force_replace: None, silent: None, no_browser: None };
    let mut i: usize = 0;
    while i < entries.len()
        invariant
            distinct_scalar_keys(entries@),
            i <= entries@.len(),
            key_api@ == "api_url"@,
            key_force@ == "force_replace"@,
            key_silent@ == "silent"@,
            key_browser@ == "no_browser"@,
            "api_url"@.len() != "force_replace"@.len(),
            "api_url"@.len() != "silent"@.len(),
            "api_url"@.len() != "no_browser"@.len(),
            "force_replace"@.len() != "silent"@.len(),
            "force_replace"@.len() != "no_browser"@.len(),
            "silent"@.len() != "no_browser"@.len(),
            doc_ok(scalar_entries_model(entries@.take(i as int))),
            option_view(config.api_url) == doc_api_url(scalar_entries_model(entries@.take(i as int))),
            config.force_replace == doc_bool(
                scalar_entries_model(entries@.take(i as int)),
                "force_replace"@,
            ),
            config.silent == doc_bool(scalar_entries_model(entries@.take(i as int)), "silent"@),
            config.no_browser == doc_bool(
                scalar_entries_model(entries@.take(i as int)),
                "no_browser"@,
            ),
        decreases entries@.len() - i,
    {
        let ghost prefix = entries@.take(i as int);
        proof {
            assert(entries@.take(i + 1 as int).drop_last() =~= prefix);
            assert(entries@.take(i + 1 as int).last() == entries@[i as int]);
        }
        let pair = &entries[i];
        if pair.0 == key_api {
            match &pair.1 {
                YamlScalar::Text(t) => {
                    config.api_url = Some(t.clone());
                },
                _ => {
                    proof {
                        lemma_scalar_index(entries@, i as int);
                    }
                    return Err("invalid type".to_owned());
                },
            }
        } else if pair.0 == key_force {
            match &pair.1 {
                YamlScalar::Bool(b) => {
                    config.force_replace = Some(*b);
                },
                _ => {
                    proof {
                        lemma_scalar_index(entries@, i as int);
                    }
                    return Err("invalid type".to_owned());
                },
            }
        } else if pair.0 == key_silent {
            match &pair.1 {
                YamlScalar::Bool(b) => {
                    config.silent = Some(*b);
                },
                _ => {
                    proof {
                        lemma_scalar_index(entries@, i as int);
                    }
                    return Err("invalid type".to_owned());
                },
            }
        } else if pair.0 == key_browser {
            match &pair.1 {
                YamlScalar::Bool(b) => {
                    config.no_browser = Some(*b);
                },
                _ => {
                    proof {
                        lemma_scalar_index(entries@, i as int);
                    }
                    return Err("invalid type".to_owned());
                },
            }
        }
        i = i + 1;
    }
    proof {
        assert(entries@.take(entries@.len() as int) =~= entries@);
    }
    Ok(config)
}

/// Parses a configuration document: a generic mapping parse, then the
/// verified interpretation of its fields.
pub fn parse_config(contents: &str) -> (r: Result<Config, String>)
    ensures
        yaml_config_doc_of(contents@) is None ==> (r matches Err(m) && (exists|reason: Seq<char>|
            m@ == "parse config data: "@ + reason)),
        yaml_config_doc_of(contents@) matches Some(m) ==> (if doc_ok(m) {
            r matches Ok(c) && option_view(c.api_url) == doc_api_url(m) && c.force_replace
                == doc_bool(m, "force_replace"@) && c.silent == doc_bool(m, "silent"@)
                && c.no_browser == doc_bool(m, "no_browser"@)
        } else {
            r matches Err(t) && (exists|reason: Seq<char>| t@ == "parse config data: "@ + reason)
        }),
{
    match parse_scalar_map(contents) {
        Err(reason) => {
            let mut m = "parse config data: ".to_owned();
            m.append(reason.as_str());
            Err(m)
        },
        Ok(entries) => match config_from_entries(&entries) {
            Ok(c) => Ok(c),
            Err(reason) => {
                let mut m = "parse config data: ".to_owned();
                m.append(reason.as_str());
                Err(m)
            },
        },
    }
}

/// What to do after reading the configuration file: use the configuration
/// as stored, or — when the file was empty — use the default one after
/// writing its serialised form out.
pub enum ConfigOutcome {
    Ready(Config),
    WriteDefault { config: Config, text: String },
}

/// The decision core of reading-or-initialising the configuration: an
/// unreadable file is an error; an empty file yields the default
/// configuration together with the text to store; anything else is parsed
/// and interpreted.
pub fn read_or_write_config(read_result: Result<String, String>) -> (r: Result<
    ConfigOutcome,
    crate::cli::GoToError,
>)
    ensures
        match read_result {
            Err(e) => r matches Err(g) && g matches crate::cli::GoToError::CliError(m) && m@
                == "read config file: "@ + e@,
            Ok(c) => if c@.len() == 0 {
                r matches Ok(outcome) && outcome matches ConfigOutcome::WriteDefault {
                    config,
                    text,
                } && option_view(config.api_url) == Some("http://127.0.0.1:8080"@)
                    && config.force_replace == Some(false) && config.silent == Some(false)
                    && config.no_browser == Some(false) && text@
                    == "---\napi_url: \"http://127.0.0.1:8080\"\nforce_replace: false\nsilent: false\nno_browser: false\n"@
            } else {
                match yaml_config_doc_of(c@) {
                    Some(m) => if doc_ok(m) {
                        r matches Ok(outcome) && outcome matches ConfigOutcome::Ready(cfg)
                            && option_view(cfg.api_url) == doc_api_url(m) && cfg.force_replace
                            == doc_bool(m, "force_replace"@) && cfg.silent == doc_bool(
                            m,
                            "silent"@,
                        ) && cfg.no_browser == doc_bool(m, "no_browser"@)
                    } else {
                        r matches Err(g) && g matches crate::cli::GoToError::CliError(t) && (exists|
                            reason: Seq<char>,
                        |
                            t@ == "parse config data: "@ + reason)
                    },
                    None => r matches Err(g) && g matches crate::cli::GoToError::CliError(t) && (
                    exists|reason: Seq<char>| t@ == "parse config data: "@ + reason),
                }
            },
        },
{
    match read_result {
        Err(e) => {
            let mut m = "read config file: ".to_owned();
            m.append(e.as_str());
            Err(crate::cli::GoToError::CliError(m))
        },
        Ok(contents) => {
            if contents.as_str().is_empty() {
                Ok(
                    ConfigOutcome::WriteDefault {
                        config: default_config(),
                        text: default_config_text(),
                    },
                )
            } else {
                match parse_config(contents.as_str()) {
                    Ok(cfg) => Ok(ConfigOutcome::Ready(cfg)),
                    Err(m) => Err(crate::cli::GoToError::CliError(m)),
                }
            }
        },
    }
}

/// The error reported when the freshly serialised default configuration
/// cannot be written out.
pub fn config_write_failed(reason: &str) -> (r: crate::cli::GoToError)
    ensures
        r matches crate::cli::GoToError::CliError(m) && m@ == "write default config: "@ + reason@,
{
    let mut m = "write default config: ".to_owned();
    m.append(reason);
    crate::cli::GoToError::CliError(m)
}

/// The error reported when the configuration file cannot be opened.
pub fn config_open_failed(reason: &str) -> (r: crate::cli::GoToError)
    ensures
        r matches crate::cli::GoToError::CliError(m) && m@ == "open config file: "@ + reason@,
{
    let mut m = "open config file: ".to_owned();
    m.append(reason);
    crate::cli::GoToError::CliError(m)
}

/// The configuration used when none is stored yet.
pub fn default_config() -> (r: Config)
    ensures
        option_view(r.api_url) == Some("http://127.0.0.1:8080"@),
        r.force_replace == Some(false),
        r.silent == Some(false),
        r.no_browser == Some(false),
{
    Config {
        api_url: Some("http://127.0.0.1:8080".to_owned()),
        force_replace: Some(false),
        silent: Some(false),
        no_browser: Some(false),
    }
}

/// The serialised form of the default configuration, written out when the
/// configuration file is found empty.
pub fn default_config_text() -> (r: String)
    ensures
        r@ == "---\napi_url: \"http://127.0.0.1:8080\"\nforce_replace: false\nsilent: false\nno_browser: false\n"@,
{
    "---\napi_url: \"http://127.0.0.1:8080\"\nforce_replace: false\nsilent: false\nno_browser: false\n".to_owned()
}

} // verus!
