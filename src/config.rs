//! Client configuration, the subscription request, and the address of the
//! event feed that they make.
use vstd::prelude::*;

use crate::json::same_text;

verus! {

/// Where the server is, and the credentials to use with it.
#[derive(Clone, Debug, PartialEq)]
pub struct Config {
    /// The base URL of the REST interface (`http://host:8088/ari`).
    pub api_base: String,
    /// The user name for authentication.
    pub username: String,
    /// The password for authentication.
    pub password: String,
}

impl Config {
    /// A configuration with the given base URL and credentials.
    pub fn new(api_base: &str, username: &str, password: &str) -> (r: Config)
        ensures
            r.api_base@ == api_base@,
            r.username@ == username@,
            r.password@ == password@,
    {
        Config {
            api_base: String::from_str(api_base),
            username: String::from_str(username),
            password: String::from_str(password),
        }
    }
}

impl Default for Config {
    /// A local server on the default port, with empty credentials.
    fn default() -> (r: Config)
        ensures
            r.api_base@ == "http://localhost:8088/ari"@,
            r.username@ == Seq::<char>::empty(),
            r.password@ == Seq::<char>::empty(),
    {
        Config {
            api_base: String::from_str("http://localhost:8088/ari"),
            username: String::new(),
            password: String::new(),
        }
    }
}

/// A request to receive the events of one application.
#[derive(Clone, Debug, PartialEq)]
pub struct ListenRequest {
    /// The application whose events are wanted; not empty.
    pub app: String,
    /// Subscribe to all events of the server; `None` means yes.
    pub subscribe_all: Option<bool>,
}

impl ListenRequest {
    /// A request for the events of `app`, with the default subscription.
    pub fn new(app: &str) -> (r: ListenRequest)
        ensures
            r.app@ == app@,
            r.subscribe_all is None,
    {
        ListenRequest { app: String::from_str(app), subscribe_all: None }
    }

    /// The same request, with the subscription to all events set.
    pub fn with_subscribe_all(self, subscribe_all: bool) -> (r: ListenRequest)
        ensures
            r.app == self.app,
            r.subscribe_all == Some(subscribe_all),
    {
        ListenRequest { app: self.app, subscribe_all: Some(subscribe_all) }
    }

    /// Whether all events are subscribed to: the flag, `true` by default.
    pub fn subscribes_all(&self) -> (r: bool)
        ensures
            r == match self.subscribe_all {
                Some(b) => b,
                None => true,
            },
    {
        match self.subscribe_all {
            Some(b) => b,
            None => true,
        }
    }
}

/// The errors of the client.
#[derive(Clone, Debug, PartialEq)]
pub enum AriError {
    /// The base URL does not parse; the parser's message.
    UrlParse(String),
    /// The base URL's scheme cannot be turned into a socket scheme.
    UnsupportedScheme(String),
    /// The socket failed; its message.
    Websocket(String),
    /// Something else failed; its message.
    Internal(String),
}

/// The path of the event feed on the server.
pub const EVENTS_PATH: &'static str = "/ari/events";

/// The scheme of a URL as the url crate parses it; `None` where it does not
/// parse.
pub uninterp spec fn url_scheme_of(text: Seq<char>) -> Option<Seq<char>>;

/// The URL that the url crate makes from `base` with the scheme and the path
/// replaced and the query pairs appended, form-encoded; `None` where the url
/// crate refuses the base or the change of scheme.
pub uninterp spec fn url_with(
    base: Seq<char>,
    scheme: Seq<char>,
    path: Seq<char>,
    query: Seq<(Seq<char>, Seq<char>)>,
) -> Option<Seq<char>>;

/// The model of a list of query pairs.
pub open spec fn pairs_view(q: Seq<(String, String)>) -> Seq<(Seq<char>, Seq<char>)> {
    q.map_values(|p: (String, String)| (p.0@, p.1@))
}

/// Relies on `url::Url::parse` and `Url::scheme`: the scheme of a parsed URL,
/// or the parser's message.
#[verifier::external_body]
fn parse_scheme(text: &str) -> (r: Result<String, String>)
    ensures
        r is Ok <==> url_scheme_of(text@) is Some,
        r matches Ok(s) ==> url_scheme_of(text@) == Some(s@),
{
    url::Url::parse(text).map(|u| u.scheme().to_string()).map_err(|e| e.to_string())
}

/// Relies on `url::Url::parse`, `Url::set_scheme` (which refuses some
/// changes of scheme), `Url::set_path`, `Url::query_pairs_mut` with
/// `extend_pairs`, and the URL's serialization.
#[verifier::external_body]
fn compose_url(base: &str, scheme: &str, path: &str, query: &Vec<(String, String)>) -> (r: Option<
    String,
>)
    ensures
        r is Some <==> url_with(base@, scheme@, path@, pairs_view(query@)) is Some,
        r matches Some(u) ==> url_with(base@, scheme@, path@, pairs_view(query@)) == Some(u@),
{
    let mut url = url::Url::parse(base).ok()?;
    url.set_scheme(scheme).ok()?;
    url.set_path(path);
    url.query_pairs_mut().extend_pairs(query.iter().map(|(k, v)| (k.as_str(), v.as_str())));
    Some(url.to_string())
}

/// The socket scheme for a base URL's scheme.
pub open spec fn socket_scheme(scheme: Seq<char>) -> Seq<char> {
    if "https"@.is_prefix_of(scheme) {
        "wss"@
    } else {
        "ws"@
    }
}

/// `wss` for a scheme that starts with `https`, `ws` for any other.
pub fn event_scheme(scheme: &str) -> (r: &'static str)
    ensures
        r@ == socket_scheme(scheme@),
{
    let n = scheme.unicode_len();
    if n >= 5 && same_text(scheme.substring_char(0, 5), "https") {
        proof {
            reveal_strlit("https");
        }
        "wss"
    } else {
        proof {
            reveal_strlit("https");
            if "https"@.is_prefix_of(scheme@) {
                assert(scheme@.subrange(0, "https"@.len() as int) =~= "https"@);
            }
        }
        "ws"
    }
}

/// The query of the event feed, in order: `api_key` (the user name and the
/// password joined by `:`), `app`, and `subscribeAll` (`true` or `false`).
pub open spec fn listen_query_spec(config: Config, request: ListenRequest) -> Seq<
    (Seq<char>, Seq<char>),
> {
    seq![
        ("api_key"@, config.username@ + ":"@ + config.password@),
        ("app"@, request.app@),
        ("subscribeAll"@, if request.subscribe_all != Some(false) { "true"@ } else { "false"@ }),
    ]
}

/// The query pairs of the event feed for a configuration and a request.
pub fn listen_query(config: &Config, request: &ListenRequest) -> (r: Vec<(String, String)>)
    ensures
        pairs_view(r@) == listen_query_spec(*config, *request),
{
    let mut key = config.username.clone();
    key.append(":");
    key.append(config.password.as_str());
    let flag = if request.subscribes_all() {
        String::from_str("true")
    } else {
        String::from_str("false")
    };
    let r = vec![
        (String::from_str("api_key"), key),
        (String::from_str("app"), request.app.clone()),
        (String::from_str("subscribeAll"), flag),
    ];
    assert(pairs_view(r@) =~= listen_query_spec(*config, *request));
    r
}

/// The address of the event feed: the base URL with its scheme mapped to
/// `ws` / `wss`, the events path, and the query of [`listen_query`].
pub fn events_url(config: &Config, request: &ListenRequest) -> (r: Result<String, AriError>)
    ensures
        match url_scheme_of(config.api_base@) {
            None => r matches Err(AriError::UrlParse(_)),
            Some(s) => match url_with(
                config.api_base@,
                socket_scheme(s),
                EVENTS_PATH@,
                listen_query_spec(*config, *request),
            ) {
                Some(u) => r matches Ok(t) && t@ == u,
                None => r matches Err(AriError::UnsupportedScheme(e)) && e@ == s,
            },
        },
{
    let scheme = match parse_scheme(config.api_base.as_str()) {
        Ok(s) => s,
        Err(e) => return Err(AriError::UrlParse(e)),
    };
    let ws = event_scheme(scheme.as_str());
    let query = listen_query(config, request);
    match compose_url(config.api_base.as_str(), ws, EVENTS_PATH, &query) {
        Some(u) => Ok(u),
        None => Err(AriError::UnsupportedScheme(scheme)),
    }
}

} // verus!
