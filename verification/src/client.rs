//! The client configuration: API key, server address, scheme, base path and
//! extra headers, and the endpoint URLs derived from them.

use vstd::prelude::*;
use crate::error::GradiumError;
use crate::text::{opt_view, owned, decimal, digits_value, law_decimal_reads_back, push_decimal, trim_leading_slashes, trim_start_slashes};

verus! {

/// `url::ParseError`, carried through inside [`GradiumError::InvalidBaseUrl`].
#[verifier::external_type_specification]
#[verifier::external_body]
pub struct ExUrlParseError(url::ParseError);

/// A region where the Gradium API is served.
#[derive(Debug, Clone, Copy, PartialEq, Eq, Structural)]
pub enum Location {
    EU,
    US,
}

/// The short name of a location.
pub open spec fn location_name(l: Location) -> Seq<char> {
    match l {
        Location::EU => "eu"@,
        Location::US => "us"@,
    }
}

/// The host name of the API server of a location.
pub open spec fn location_server(l: Location) -> Seq<char> {
    match l {
        Location::EU => "eu.api.gradium.ai"@,
        Location::US => "us.api.gradium.ai"@,
    }
}

impl Location {
    pub fn as_str(&self) -> (s: &'static str)
        ensures
            s@ == location_name(*self),
    {
        match self {
            Location::EU => "eu",
            Location::US => "us",
        }
    }

    pub fn server_addr(&self) -> (s: &'static str)
        ensures
            s@ == location_server(*self),
    {
        match self {
            Location::EU => "eu.api.gradium.ai",
            Location::US => "us.api.gradium.ai",
        }
    }
}

/// Client for the Gradium API: where to connect and how to authenticate.
#[derive(Clone)]
pub struct Client {
    api_key: String,
    server_addr: String,
    use_https: bool,
    path: String,
    additional_headers: Vec<(String, String)>,
}

/// The abstract value of a [`Client`].
pub struct ClientView {
    pub api_key: Seq<char>,
    pub server_addr: Seq<char>,
    pub use_https: bool,
    pub path: Seq<char>,
    pub additional_headers: Seq<(Seq<char>, Seq<char>)>,
}

impl View for Client {
    type V = ClientView;

    closed spec fn view(&self) -> ClientView {
        ClientView {
            api_key: self.api_key@,
            server_addr: self.server_addr@,
            use_https: self.use_https,
            path: self.path@,
            additional_headers: self.additional_headers@.map_values(
                |h: (String, String)| (h.0@, h.1@),
            ),
        }
    }
}

/// A freshly built client for `api_key` talking to `server_addr`: secure
/// transport, base path `api`, no extra headers.
pub open spec fn fresh_client(api_key: Seq<char>, server_addr: Seq<char>) -> ClientView {
    ClientView {
        api_key: api_key,
        server_addr: server_addr,
        use_https: true,
        path: "api"@,
        additional_headers: seq![],
    }
}

/// The server address derived from a parsed base URL: its host (the EU
/// server where it has none), followed by `:port` where it names a port.
pub open spec fn base_server_addr(host: Option<Seq<char>>, port: Option<u16>) -> Seq<char> {
    let h = match host {
        Some(h) => h,
        None => location_server(Location::EU),
    };
    match port {
        Some(p) => h + ":"@ + decimal(p as nat),
        None => h,
    }
}

/// `c` reconfigured from the components of a base URL.
pub open spec fn with_url_parts(
    c: ClientView,
    host: Option<Seq<char>>,
    port: Option<u16>,
    scheme: Seq<char>,
    path: Seq<char>,
) -> ClientView {
    ClientView {
        server_addr: base_server_addr(host, port),
        use_https: scheme == "https"@,
        path: trim_leading_slashes(path),
        ..c
    }
}

/// Whether `url::Url::parse` accepts the text (named; see [`parse_url`]).
pub uninterp spec fn url_parses(text: Seq<char>) -> bool;

/// `host_str()` of the URL that `url::Url::parse` reads from the text.
pub uninterp spec fn url_host(text: Seq<char>) -> Option<Seq<char>>;

/// `port()` of the URL that `url::Url::parse` reads from the text.
pub uninterp spec fn url_port(text: Seq<char>) -> Option<u16>;

/// `scheme()` of the URL that `url::Url::parse` reads from the text.
pub uninterp spec fn url_scheme(text: Seq<char>) -> Seq<char>;

/// `path()` of the URL that `url::Url::parse` reads from the text.
pub uninterp spec fn url_path(text: Seq<char>) -> Seq<char>;

/// `c` reconfigured from the base URL `text`, where it parses.
pub open spec fn with_base_url_view(c: ClientView, text: Seq<char>) -> ClientView {
    with_url_parts(c, url_host(text), url_port(text), url_scheme(text), url_path(text))
}

/// The URL of `endpoint` under the client's server and base path, with the
/// given scheme.
pub open spec fn endpoint_url(scheme: Seq<char>, c: ClientView, endpoint: Seq<char>) -> Seq<char> {
    if c.path.len() == 0 {
        scheme + "://"@ + c.server_addr + "/"@ + endpoint
    } else {
        scheme + "://"@ + c.server_addr + "/"@ + c.path + "/"@ + endpoint
    }
}

/// The WebSocket scheme the client connects with.
pub open spec fn ws_scheme(c: ClientView) -> Seq<char> {
    if c.use_https { "wss"@ } else { "ws"@ }
}

/// The HTTP scheme the client connects with.
pub open spec fn http_scheme(c: ClientView) -> Seq<char> {
    if c.use_https { "https"@ } else { "http"@ }
}

/// The server address taken from a base URL is its host (the EU server
/// where it has none), followed, where the URL names a port, by `:` and
/// decimal digits that read back as that port.
pub proof fn law_base_server_addr(host: Option<Seq<char>>, port: Option<u16>)
    ensures
        ({
            let h = match host {
                Some(h) => h,
                None => "eu.api.gradium.ai"@,
            };
            let a = base_server_addr(host, port);
            &&& port is None ==> a == h
            &&& port matches Some(p) ==> {
                &&& a.take(h.len() as int) == h
                &&& a[h.len() as int] == ':'
                &&& digits_value(a.skip(h.len() as int + 1)) == p
                &&& forall|i: int| h.len() < i < a.len() ==> '0' <= #[trigger] a[i] <= '9'
            }
        }),
{
    reveal_strlit(":");
    let h = match host {
        Some(h) => h,
        None => "eu.api.gradium.ai"@,
    };
    if let Some(p) = port {
        law_decimal_reads_back(p as nat);
        let a = base_server_addr(host, port);
        assert(a == h + ":"@ + decimal(p as nat));
        assert(a.take(h.len() as int) =~= h);
        assert(a.skip(h.len() as int + 1) =~= decimal(p as nat));
        assert forall|i: int| h.len() < i < a.len() implies '0' <= #[trigger] a[i] <= '9' by {
            assert(a[i] == decimal(p as nat)[i - h.len() - 1]);
        }
    }
}

/// The WebSocket and HTTP URLs of an endpoint differ only in their scheme:
/// `wss`/`https` for a secure client, `ws`/`http` otherwise.
pub proof fn law_ws_and_http_urls_agree(c: ClientView, endpoint: Seq<char>)
    ensures
        endpoint_url(ws_scheme(c), c, endpoint).skip(ws_scheme(c).len() as int) == endpoint_url(
            http_scheme(c),
            c,
            endpoint,
        ).skip(http_scheme(c).len() as int),
        ws_scheme(c) == "ws"@ + (if c.use_https { seq!['s'] } else { seq![] }),
        http_scheme(c) == "http"@ + (if c.use_https { seq!['s'] } else { seq![] }),
{
    reveal_strlit("ws");
    reveal_strlit("wss");
    reveal_strlit("http");
    reveal_strlit("https");
    let w = endpoint_url(ws_scheme(c), c, endpoint);
    let h = endpoint_url(http_scheme(c), c, endpoint);
    assert(ws_scheme(c) =~= "ws"@ + (if c.use_https { seq!['s'] } else { seq![] }));
    assert(http_scheme(c) =~= "http"@ + (if c.use_https { seq!['s'] } else { seq![] }));
    assert(w.skip(ws_scheme(c).len() as int) =~= h.skip(http_scheme(c).len() as int));
}

/// The components of a parsed URL that the client reads.
pub struct UrlParts {
    pub host: Option<String>,
    pub port: Option<u16>,
    pub scheme: String,
    pub path: String,
}

/// Parses `text` with `url::Url::parse` and reads the host (`host_str`), port
/// (`port`), scheme (`scheme`) and path (`path`) of the result. The contract
/// claims that success and each component are fixed by the text alone (the
/// names [`url_parses`], [`url_host`], [`url_port`], [`url_scheme`],
/// [`url_path`]); what those functions compute is not stated.
#[verifier::external_body]
fn parse_url(text: &str) -> (r: Result<UrlParts, url::ParseError>)
    ensures
        r is Ok <==> url_parses(text@),
        r matches Ok(p) ==> {
            &&& opt_view(p.host) == url_host(text@)
            &&& p.port == url_port(text@)
            &&& p.scheme@ == url_scheme(text@)
            &&& p.path@ == url_path(text@)
        },
{
    match url::Url::parse(text) {
        Ok(u) => Ok(UrlParts {
            host: u.host_str().map(|h| h.to_string()),
            port: u.port(),
            scheme: u.scheme().to_string(),
            path: u.path().to_string(),
        }),
        Err(e) => Err(e),
    }
}

impl Client {
    /// Creates a new client for the given API location.
    pub fn from_location(api_key: &str, location: Location) -> (c: Client)
        ensures
            c@ == fresh_client(api_key@, location_server(location)),
    {
        let c = Client {
            api_key: owned(api_key),
            server_addr: owned(location.server_addr()),
            use_https: true,
            path: owned("api"),
            additional_headers: Vec::new(),
        };
        assert(c@.additional_headers =~= Seq::<(Seq<char>, Seq<char>)>::empty());
        c
    }

    /// Creates a new client for the production API (EU).
    pub fn new(api_key: &str) -> (c: Client)
        ensures
            c@ == fresh_client(api_key@, location_server(Location::EU)),
    {
        Self::from_location(api_key, Location::EU)
    }

    /// Creates a new client for the US production endpoint.
    pub fn us_prod(api_key: &str) -> (c: Client)
        ensures
            c@ == fresh_client(api_key@, location_server(Location::US)),
    {
        let c = Client {
            api_key: owned(api_key),
            server_addr: owned("us.api.gradium.ai"),
            use_https: true,
            path: owned("api"),
            additional_headers: Vec::new(),
        };
        assert(c@.additional_headers =~= Seq::<(Seq<char>, Seq<char>)>::empty());
        c
    }

    /// Creates a new client for the EU production endpoint.
    pub fn eu_prod(api_key: &str) -> (c: Client)
        ensures
            c@ == fresh_client(api_key@, location_server(Location::EU)),
    {
        let c = Client {
            api_key: owned(api_key),
            server_addr: owned("eu.api.gradium.ai"),
            use_https: true,
            path: owned("api"),
            additional_headers: Vec::new(),
        };
        assert(c@.additional_headers =~= Seq::<(Seq<char>, Seq<char>)>::empty());
        c
    }

    /// Adds an HTTP header to be sent with each request.
    pub fn with_additional_header(self, key: &str, value: &str) -> (c: Client)
        ensures
            c@ == (ClientView {
                additional_headers: self@.additional_headers.push((key@, value@)),
                ..self@
            }),
    {
        let mut c = self;
        c.additional_headers.push((owned(key), owned(value)));
        assert(c@.additional_headers =~= self@.additional_headers.push((key@, value@)));
        c
    }

    /// Sets the API key.
    pub fn with_api_key(self, api_key: &str) -> (c: Client)
        ensures
            c@ == (ClientView { api_key: api_key@, ..self@ }),
    {
        let mut c = self;
        c.api_key = owned(api_key);
        c
    }

    /// Sets the server address (host, optionally followed by `:port`).
    pub fn with_server_addr(self, server_addr: &str) -> (c: Client)
        ensures
            c@ == (ClientView { server_addr: server_addr@, ..self@ }),
    {
        let mut c = self;
        c.server_addr = owned(server_addr);
        c
    }

    /// Sets whether to use secure transport (HTTPS/WSS) or not (HTTP/WS).
    pub fn with_https(self, use_https: bool) -> (c: Client)
        ensures
            c@ == (ClientView { use_https: use_https, ..self@ }),
    {
        let mut c = self;
        c.use_https = use_https;
        c
    }

    /// Sets the base path of the API endpoints.
    pub fn with_path(self, path: &str) -> (c: Client)
        ensures
            c@ == (ClientView { path: path@, ..self@ }),
    {
        let mut c = self;
        c.path = owned(path);
        c
    }

    /// Reconfigures the server address, scheme and base path from the
    /// components of a parsed base URL.
    pub fn apply_base_url(self, parts: UrlParts) -> (c: Client)
        ensures
            c@ == with_url_parts(self@, opt_view(parts.host), parts.port, parts.scheme@, parts.path@),
    {
        let mut c = self;
        let mut addr = match parts.host {
            Some(h) => h,
            None => owned(Location::EU.server_addr()),
        };
        match parts.port {
            Some(p) => {
                addr.append(":");
                push_decimal(&mut addr, p);
            },
            None => {},
        }
        c.server_addr = addr;
        c.use_https = parts.scheme == owned("https");
        c.path = trim_start_slashes(parts.path.as_str());
        c
    }

    /// Sets the server configuration from a complete base URL such as
    /// `https://eu.api.gradium.ai/api`.
    pub fn with_base_url(self, base_url: &str) -> (r: Result<Client, GradiumError>)
        ensures
            r is Ok <==> url_parses(base_url@),
            r matches Ok(c) ==> c@ == with_base_url_view(self@, base_url@),
            r matches Err(e) ==> e is InvalidBaseUrl,
    {
        match parse_url(base_url) {
            Ok(parts) => Ok(self.apply_base_url(parts)),
            Err(e) => Err(GradiumError::InvalidBaseUrl(e)),
        }
    }

    /// Creates a client from explicit settings, falling back on the values
    /// read from the environment (`GRADIUM_BASE_URL`, `GRADIUM_API_KEY`) for
    /// those that are not given.
    pub fn from_env(
        base_url: Option<String>,
        api_key: Option<String>,
        env_base_url: Option<String>,
        env_api_key: Option<String>,
    ) -> (r: Result<Client, GradiumError>)
        ensures
            (api_key is None && env_api_key is None) <==> r == Err::<Client, GradiumError>(GradiumError::MissingApiKey),
            !(api_key is None && env_api_key is None) ==> {
                let key = if api_key is Some { api_key->0@ } else { env_api_key->0@ };
                let fresh = fresh_client(key, location_server(Location::EU));
                if base_url is None && env_base_url is None {
                    r matches Ok(c) && c@ == fresh
                } else {
                    let url = if base_url is Some { base_url->0@ } else { env_base_url->0@ };
                    &&& r is Ok <==> url_parses(url)
                    &&& r matches Ok(c) ==> c@ == with_base_url_view(fresh, url)
                    &&& r matches Err(e) ==> e is InvalidBaseUrl
                }
            },
    {
        let key = match api_key {
            Some(k) => k,
            None => match env_api_key {
                Some(k) => k,
                None => return Err(GradiumError::MissingApiKey),
            },
        };
        let client = Client::new(key.as_str());
        let url = match base_url {
            Some(u) => u,
            None => match env_base_url {
                Some(u) => u,
                None => return Ok(client),
            },
        };
        client.with_base_url(url.as_str())
    }

    /// The URL of a WebSocket endpoint such as `speech/tts`.
    pub fn ws_url(&self, endpoint: &str) -> (r: String)
        ensures
            r@ == endpoint_url(ws_scheme(self@), self@, endpoint@),
    {
        let mut r = if self.use_https { owned("wss") } else { owned("ws") };
        self.append_location(&mut r, endpoint);
        r
    }

    /// The URL of an HTTP endpoint such as `usages/credits`.
    pub fn http_url(&self, endpoint: &str) -> (r: String)
        ensures
            r@ == endpoint_url(http_scheme(self@), self@, endpoint@),
    {
        let mut r = if self.use_https { owned("https") } else { owned("http") };
        self.append_location(&mut r, endpoint);
        r
    }

    fn append_location(&self, r: &mut String, endpoint: &str)
        ensures
            final(r)@ == endpoint_url(old(r)@, self@, endpoint@),
    {
        r.append("://");
        r.append(self.server_addr.as_str());
        r.append("/");
        if !self.path.as_str().is_empty() {
            r.append(self.path.as_str());
            r.append("/");
        }
        r.append(endpoint);
    }

    /// The API key sent with each request.
    pub fn api_key(&self) -> (r: &str)
        ensures
            r@ == self@.api_key,
    {
        self.api_key.as_str()
    }

    /// The extra headers sent with each request, in the order they were added.
    pub fn additional_headers(&self) -> (r: &[(String, String)])
        ensures
            r@.map_values(|h: (String, String)| (h.0@, h.1@)) == self@.additional_headers,
    {
        self.additional_headers.as_slice()
    }
}

} // verus!
