//! The command-line client's decision logic: merging arguments with the
//! stored configuration, choosing the call to make, and classifying the
//! responses that come back. The transport itself (HTTP, the browser, the
//! console) is a caller of these functions.

use crate::config::Config;
use vstd::prelude::*;
use vstd::string::*;
use vstd::utf8::{decode_utf8, valid_utf8};

verus! {

/// The command-line arguments of the client.
pub struct Args {
    /// Shortened URL.
    pub shorturl: String,
    /// URL to shorten; fetch the existing redirection when absent.
    pub target: Option<String>,
    /// Create the short URL, or if it already exists, update it instead.
    pub force_replace: bool,
    /// Base URL of the goto API.
    pub api_url: Option<String>,
    /// Do not print redirections.
    pub silent: bool,
    /// Do not open the browser.
    pub no_browser: bool,
}

/// What a client run has failed with.
#[derive(Debug, PartialEq)]
pub enum GoToError {
    /// The response to a fetch was not a redirection.
    NoRedirection,
    /// The caller's own mistake, with its description.
    CliError(String),
    /// A failure on the API's side, with its description.
    ApiError(String),
}

/// The effective options of one client run: arguments take precedence,
/// then the stored configuration, then the defaults.
pub struct CliOptions {
    pub shorturl: String,
    pub target: Option<String>,
    pub always_replace: bool,
    pub verbose: bool,
    pub open_browser: bool,
}

impl CliOptions {
    /// Merges arguments and configuration: each switch is on when either
    /// side turns it on.
    pub fn new(args: &Args, config: &Config) -> (r: CliOptions)
        ensures
            r.shorturl@ == args.shorturl@,
            (match args.target {
                Some(t) => r.target matches Some(u) && u@ == t@,
                None => r.target is None,
            }),
            r.always_replace == (args.force_replace || config.force_replace == Some(true)),
            r.verbose == !(args.silent || config.silent == Some(true)),
            r.open_browser == !(args.no_browser || config.no_browser == Some(true)),
    {
        let always_replace = args.force_replace || matches!(config.force_replace, Some(true));
        let silent = args.silent || matches!(config.silent, Some(true));
        let no_browser = args.no_browser || matches!(config.no_browser, Some(true));
        let target = match &args.target {
            Some(t) => Some(t.clone()),
            None => None,
        };
        CliOptions {
            shorturl: args.shorturl.clone(),
            target,
            always_replace,
            verbose: !silent,
            open_browser: !no_browser,
        }
    }

    /// The call a client run makes for these options: update when a target
    /// is given and replacement is forced, create when a target is given,
    /// and fetch the stored redirection otherwise.
    pub fn action(&self) -> (r: ClientAction)
        ensures
            match self.target {
                Some(t) => if self.always_replace {
                    r matches ClientAction::UpdateUrl { shorturl, target } && shorturl@
                        == self.shorturl@ && target@ == t@
                } else {
                    r matches ClientAction::CreateNew { shorturl, target } && shorturl@
                        == self.shorturl@ && target@ == t@
                },
                None => r matches ClientAction::GetLongUrl { shorturl } && shorturl@
                    == self.shorturl@,
            },
    {
        match &self.target {
            Some(target) => {
                if self.always_replace {
                    ClientAction::UpdateUrl {
                        shorturl: self.shorturl.clone(),
                        target: target.clone(),
                    }
                } else {
                    ClientAction::CreateNew {
                        shorturl: self.shorturl.clone(),
                        target: target.clone(),
                    }
                }
            },
            None => ClientAction::GetLongUrl { shorturl: self.shorturl.clone() },
        }
    }
}

/// One call against the API.
pub enum ClientAction {
    /// Register a new short URL.
    CreateNew { shorturl: String, target: String },
    /// Replace the target of a short URL, creating it if missing.
    UpdateUrl { shorturl: String, target: String },
    /// Fetch the target a short URL redirects to.
    GetLongUrl { shorturl: String },
}

/// The base URL the client talks to: arguments first, then the
/// configuration, then the default.
pub fn get_api_url(args: &Args, config: &Config) -> (r: String)
    ensures
        r@ == match args.api_url {
            Some(u) => u@,
            None => match config.api_url {
                Some(u) => u@,
                None => "http://127.0.0.1:8080"@,
            },
        },
{
    match &args.api_url {
        Some(api_url) => api_url.clone(),
        None => match &config.api_url {
            Some(api_url) => api_url.clone(),
            None => "http://127.0.0.1:8080".to_owned(),
        },
    }
}

/// display_location appends the redirection notice to the writer, unless
/// the run is silent.
pub fn display_location(loc: &str, verbose: bool, out: &mut String)
    ensures
        final(out)@ == old(out)@ + (if verbose {
            "redirecting to "@ + loc@ + "\n"@
        } else {
            Seq::<char>::empty()
        }),
{
    if verbose {
        let ghost start = out@;
        out.append("redirecting to ");
        out.append(loc);
        out.append("\n");
        proof {
            assert(out@ =~= start + ("redirecting to "@ + loc@ + "\n"@));
        }
    }
}

/// An HTTP client of the goto API.
pub struct HttpClient {
    /// The API's base URL.
    pub base_url: String,
}

/// Whether a response status reports a failure on the server's side.
pub open spec fn is_server_error(status: u16) -> bool {
    500 <= status < 600
}

/// Whether a response status reports a mistake of the caller.
pub open spec fn is_client_error(status: u16) -> bool {
    400 <= status < 500
}

/// Whether a response status is a redirection.
pub open spec fn is_redirection(status: u16) -> bool {
    300 <= status < 400
}

impl HttpClient {
    /// A client of the API at `base_url`.
    pub fn new(base_url: String) -> (r: Self)
        ensures
            r.base_url@ == base_url@,
    {
        Self { base_url }
    }

    /// The request URI for a short URL under this client's base URL.
    pub fn request_uri(&self, shorturl: &str) -> (r: String)
        ensures
            r@ == self.base_url@ + "/"@ + shorturl@,
    {
        let mut uri = self.base_url.clone();
        uri.append("/");
        uri.append(shorturl);
        uri
    }
}

/// Classifies the error body of a response: a server error becomes an API
/// error carrying the body, a client error a caller error carrying it; a
/// body that is not UTF-8 is an API error either way.
fn error_body_outcome(server_error: bool, body: Vec<u8>) -> (r: GoToError)
    ensures
        !valid_utf8(body@) ==> (r matches GoToError::ApiError(m) && (exists|reason: Seq<char>|
            m@ == "expected utf8: "@ + reason)),
        valid_utf8(body@) ==> if server_error {
            r matches GoToError::ApiError(m) && m@ == decode_utf8(body@)
        } else {
            r matches GoToError::CliError(m) && m@ == decode_utf8(body@)
        },
{
    match crate::server::utf8_string(body) {
        Ok(text) => {
            if server_error {
                GoToError::ApiError(text)
            } else {
                GoToError::CliError(text)
            }
        },
        Err(reason) => {
            let mut m = "expected utf8: ".to_owned();
            m.append(reason.as_str());
            GoToError::ApiError(m)
        },
    }
}

/// The outcome of a create or update request, from its response status and
/// body: an error status carries the body back as the failure's text; any
/// other status is success.
pub fn create_short_url_outcome(status: u16, body: Vec<u8>) -> (r: Result<(), GoToError>)
    ensures
        !is_server_error(status) && !is_client_error(status) ==> r is Ok,
        (is_server_error(status) || is_client_error(status)) ==> (r matches Err(e) && {
            if !valid_utf8(body@) {
                e matches GoToError::ApiError(m) && (exists|reason: Seq<char>|
                    m@ == "expected utf8: "@ + reason)
            } else if is_server_error(status) {
                e matches GoToError::ApiError(m) && m@ == decode_utf8(body@)
            } else {
                e matches GoToError::CliError(m) && m@ == decode_utf8(body@)
            }
        }),
{
    let server_error = 500 <= status && status < 600;
    let client_error = 400 <= status && status < 500;
    if server_error || client_error {
        Err(error_body_outcome(server_error, body))
    } else {
        Ok(())
    }
}

/// The outcome of fetching a short URL, from its response status, its
/// `location` header (already read as text, or the reason it could not be)
/// and its body: a redirection hands back the location; an error status
/// carries the body back as the failure's text; anything else reports that
/// nothing redirects.
pub fn get_long_url_outcome(
    status: u16,
    location: Option<Result<String, String>>,
    body: Vec<u8>,
) -> (r: Result<String, GoToError>)
    ensures
        is_redirection(status) ==> match location {
            Some(Ok(loc)) => r matches Ok(l) && l@ == loc@,
            Some(Err(reason)) => r matches Err(e) && e matches GoToError::ApiError(m) && m@
                == reason@,
            None => r matches Err(e) && e is NoRedirection,
        },
        !is_redirection(status) && (is_server_error(status) || is_client_error(status)) ==> (
        r matches Err(e) && {
            if !valid_utf8(body@) {
                e matches GoToError::ApiError(m) && (exists|reason: Seq<char>|
                    m@ == "expected utf8: "@ + reason)
            } else if is_server_error(status) {
                e matches GoToError::ApiError(m) && m@ == decode_utf8(body@)
            } else {
                e matches GoToError::CliError(m) && m@ == decode_utf8(body@)
            }
        }),
        !is_redirection(status) && !is_server_error(status) && !is_client_error(status) ==> (
        r matches Err(e) && e is NoRedirection),
{
    let redirection = 300 <= status && status < 400;
    if !redirection {
        let server_error = 500 <= status && status < 600;
        let client_error = 400 <= status && status < 500;
        if server_error || client_error {
            return Err(error_body_outcome(server_error, body));
        }
        return Err(GoToError::NoRedirection);
    }
    match location {
        Some(Ok(loc)) => Ok(loc),
        Some(Err(reason)) => Err(GoToError::ApiError(reason)),
        None => Err(GoToError::NoRedirection),
    }
}

} // verus!
