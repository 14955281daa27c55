//! Transports to upstream MCP servers: their kinds and settings, how one is
//! chosen for a URL or a command, and the connection state of a transport.
//! Sockets, processes and HTTP clients belong to the embedding application,
//! which carries out the steps decided here.
use vstd::prelude::*;

use crate::config::{duration_of_secs, secs};
use crate::error::GatewayError;
use crate::table::str_eq;

verus! {

/// Transport types supported by MCP.
#[derive(Debug, Clone, Copy, PartialEq, Eq, Structural)]
pub enum TransportType {
    WebSocket,
    Http,
    Stdio,
    Unix,
    Tcp,
}

/// Settings of a transport.
#[derive(Debug)]
pub struct TransportConfig {
    pub transport_type: TransportType,
    /// The URL, in the serialized form the URL parser gives.
    pub url: Option<String>,
    pub command: Option<String>,
    pub args: Option<Vec<String>>,
    /// Environment variables for a child process: name and value.
    pub env: Option<Vec<(String, String)>>,
    pub working_directory: Option<String>,
    pub timeout: core::time::Duration,
    pub reconnect_attempts: u32,
    pub reconnect_delay: core::time::Duration,
}

/// Settings with the default timeouts: 30 s per request, three reconnection
/// attempts 5 s apart, and nothing else set.
pub open spec fn default_settings(c: TransportConfig, t: TransportType) -> bool {
    &&& c.transport_type == t
    &&& c.env is None
    &&& c.working_directory is None
    &&& c.timeout == duration_of_secs(30)
    &&& c.reconnect_attempts == 3
    &&& c.reconnect_delay == duration_of_secs(5)
}

impl Default for TransportConfig {
    fn default() -> (r: Self)
        ensures
            default_settings(r, TransportType::WebSocket),
            r.url is None,
            r.command is None,
            r.args is None,
    {
        TransportConfig {
            transport_type: TransportType::WebSocket,
            url: None,
            command: None,
            args: None,
            env: None,
            working_directory: None,
            timeout: secs(30),
            reconnect_attempts: 3,
            reconnect_delay: secs(5),
        }
    }
}

/// What `url::Url::parse` gives for a text: the URL's serialization and its
/// scheme, or the message of the parse error.
pub uninterp spec fn url_parse(text: Seq<char>) -> Result<(Seq<char>, Seq<char>), Seq<char>>;

/// `url::Url::parse`, giving the parsed URL's serialization (`as_str`) and
/// `scheme`, or the error's message.
#[verifier::external_body]
pub(crate) fn parse_url(text: &str) -> (r: Result<(String, String), String>)
    ensures
        match url_parse(text@) {
            Ok((h, s)) => r matches Ok((a, b)) && a@ == h && b@ == s,
            Err(e) => r matches Err(m) && m@ == e,
        },
{
    match url::Url::parse(text) {
        Ok(u) => Ok((u.as_str().to_string(), u.scheme().to_string())),
        Err(e) => Err(e.to_string()),
    }
}

/// What `url::Url::parse` followed by `Url::to_file_path` gives for a text:
/// the bytes of the file path the URL names, or `None` when the text is no
/// URL or the URL names no local file path.
pub uninterp spec fn url_file_path(text: Seq<char>) -> Option<Seq<u8>>;

/// `url::Url::parse`, then `Url::to_file_path` on the parsed URL (the path
/// of a URL whose host is empty or `localhost`, percent-decoded), given as
/// the bytes of the path (`OsString::into_encoded_bytes`; on Unix, the
/// path's own bytes, which need not be UTF-8).
#[verifier::external_body]
pub(crate) fn file_path_of(text: &str) -> (r: Option<Vec<u8>>)
    ensures
        match url_file_path(text@) {
            Some(p) => r matches Some(x) && x@ == p,
            None => r is None,
        },
{
    match url::Url::parse(text) {
        Ok(u) => match u.to_file_path() {
            Ok(p) => Some(p.into_os_string().into_encoded_bytes()),
            Err(_) => None,
        },
        Err(_) => None,
    }
}

/// The transport for a URL scheme.
pub open spec fn scheme_transport(scheme: Seq<char>) -> Option<TransportType> {
    if scheme == "ws"@ || scheme == "wss"@ {
        Some(TransportType::WebSocket)
    } else if scheme == "http"@ || scheme == "https"@ {
        Some(TransportType::Http)
    } else if scheme == "unix"@ {
        Some(TransportType::Unix)
    } else {
        None
    }
}

/// The kind of transport built for settings: TCP is carried over WebSocket.
pub open spec fn built_kind(t: TransportType) -> TransportType {
    if t == TransportType::Tcp {
        TransportType::WebSocket
    } else {
        t
    }
}

/// The file path of the Unix socket a transport with URL `url` connects to.
pub open spec fn unix_socket_path(url: Option<String>) -> Option<Seq<u8>> {
    match url {
        Some(u) => url_file_path(u@),
        None => None,
    }
}

/// The step that connects a Unix transport, given the bytes of the file
/// path its URL names (`None` when it names none).
pub fn unix_connect_step(path: Option<Vec<u8>>) -> (r: Result<ConnectStep, GatewayError>)
    ensures
        match path {
            Some(p) => r matches Ok(ConnectStep::OpenUnixSocket(x)) && x@ == p@,
            None => r matches Err(GatewayError::McpProtocol(m))
                && m@ == "Valid file path required for Unix transport"@,
        },
{
    match path {
        Some(p) => Ok(ConnectStep::OpenUnixSocket(p)),
        None => Err(GatewayError::McpProtocol(String::from_str("Valid file path required for Unix transport"))),
    }
}

/// A transport: its settings, its kind and whether it is connected.
pub struct Transport {
    pub config: TransportConfig,
    pub kind: TransportType,
    pub connected: bool,
}

/// The step that connecting a transport takes.
#[derive(Debug, Clone)]
pub enum ConnectStep {
    /// The transport is connected already.
    AlreadyConnected,
    /// Open a WebSocket to this URL.
    OpenWebSocket(String),
    /// Nothing to open: HTTP requests are sent one by one.
    Ready,
    /// Start this command, with these arguments, as a child process whose
    /// standard input and output carry the messages.
    SpawnProcess(String),
    /// Connect to the Unix socket at the file path with these bytes.
    OpenUnixSocket(Vec<u8>),
}

impl Transport {
    /// The kind of this transport.
    pub fn transport_type(&self) -> (r: TransportType)
        ensures
            r == self.kind,
    {
        self.kind
    }

    /// Whether the transport is connected.
    pub fn is_connected(&self) -> (r: bool)
        ensures
            r == self.connected,
    {
        self.connected
    }

    /// The step that connects this transport, or why it cannot be taken.
    pub fn connect_step(&self) -> (r: Result<ConnectStep, GatewayError>)
        ensures
            self.connected ==> r matches Ok(ConnectStep::AlreadyConnected),
            !self.connected ==> match self.kind {
                TransportType::Http => r matches Ok(ConnectStep::Ready),
                TransportType::Stdio => match self.config.command {
                    Some(c) => r matches Ok(ConnectStep::SpawnProcess(x)) && x@ == c@,
                    None => r matches Err(GatewayError::McpProtocol(m))
                        && m@ == "Command required for stdio transport"@,
                },
                TransportType::Unix => match unix_socket_path(self.config.url) {
                    Some(p) => r matches Ok(ConnectStep::OpenUnixSocket(x)) && x@ == p,
                    None => r matches Err(GatewayError::McpProtocol(m))
                        && m@ == "Valid file path required for Unix transport"@,
                },
                _ => match self.config.url {
                    Some(u) => r matches Ok(ConnectStep::OpenWebSocket(x)) && x@ == u@,
                    None => r matches Err(GatewayError::McpProtocol(m))
                        && m@ == "URL required for WebSocket transport"@,
                },
            },
    {
        if self.connected {
            return Ok(ConnectStep::AlreadyConnected);
        }
        match self.kind {
            TransportType::Http => Ok(ConnectStep::Ready),
            TransportType::Stdio => match &self.config.command {
                Some(c) => Ok(ConnectStep::SpawnProcess(c.clone())),
                None => Err(
                    GatewayError::McpProtocol(String::from_str("Command required for stdio transport")),
                ),
            },
            TransportType::Unix => {
                let path = match &self.config.url {
                    Some(u) => file_path_of(u.as_str()),
                    None => None,
                };
                unix_connect_step(path)
            },
            _ => match &self.config.url {
                Some(u) => Ok(ConnectStep::OpenWebSocket(u.clone())),
                None => Err(
                    GatewayError::McpProtocol(String::from_str("URL required for WebSocket transport")),
                ),
            },
        }
    }

    /// Records that the connection is open.
    pub fn mark_connected(&mut self)
        ensures
            final(self).connected,
            final(self).kind == old(self).kind,
    {
        self.connected = true;
    }

    /// Records that the connection is closed (disconnected, failed or ended).
    pub fn mark_disconnected(&mut self)
        ensures
            !final(self).connected,
            final(self).kind == old(self).kind,
    {
        self.connected = false;
    }

    /// Messages can be sent or received only while connected.
    pub fn check_connected(&self) -> (r: Result<(), GatewayError>)
        ensures
            self.connected ==> r is Ok,
            !self.connected ==> (r matches Err(GatewayError::McpProtocol(m)) && m@ == "Not connected"@),
    {
        if !self.connected {
            return Err(GatewayError::McpProtocol(String::from_str("Not connected")));
        }
        Ok(())
    }

    /// Where an HTTP transport posts its messages.
    pub fn http_target(&self) -> (r: Result<String, GatewayError>)
        ensures
            match self.config.url {
                Some(u) => r matches Ok(x) && x@ == u@,
                None => r matches Err(GatewayError::McpProtocol(m)) && m@ == "URL required for HTTP transport"@,
            },
    {
        match &self.config.url {
            Some(u) => Ok(u.clone()),
            None => Err(GatewayError::McpProtocol(String::from_str("URL required for HTTP transport"))),
        }
    }
}

/// Whether `c` is white space, as `char::is_whitespace` defines it (the
/// Unicode `White_Space` property).
pub open spec fn is_white_space(c: char) -> bool {
    ||| '\u{9}' <= c <= '\u{d}'
    ||| c == ' '
    ||| c == '\u{85}'
    ||| c == '\u{a0}'
    ||| c == '\u{1680}'
    ||| '\u{2000}' <= c <= '\u{200a}'
    ||| c == '\u{2028}'
    ||| c == '\u{2029}'
    ||| c == '\u{202f}'
    ||| c == '\u{205f}'
    ||| c == '\u{3000}'
}

/// `s` without its leading and trailing white space, from position `lo`
/// up to `hi`: the bounds move inwards past white space.
pub open spec fn trimmed_from(s: Seq<char>, lo: int, hi: int) -> Seq<char>
    decreases hi - lo,
{
    if lo >= hi {
        Seq::empty()
    } else if is_white_space(s[lo]) {
        trimmed_from(s, lo + 1, hi)
    } else if is_white_space(s[hi - 1]) {
        trimmed_from(s, lo, hi - 1)
    } else {
        s.subrange(lo, hi)
    }
}

/// `s` without leading and trailing white space.
pub open spec fn trimmed(s: Seq<char>) -> Seq<char> {
    trimmed_from(s, 0, s.len() as int)
}

fn is_white_space_exec(c: char) -> (r: bool)
    ensures
        r == is_white_space(c),
{
    ('\u{9}' <= c && c <= '\u{d}') || c == ' ' || c == '\u{85}' || c == '\u{a0}' || c == '\u{1680}'
        || ('\u{2000}' <= c && c <= '\u{200a}') || c == '\u{2028}' || c == '\u{2029}' || c
        == '\u{202f}' || c == '\u{205f}' || c == '\u{3000}'
}

/// `line` without leading and trailing white space.
pub fn trim(line: &str) -> (r: String)
    ensures
        r@ == trimmed(line@),
{
    let n = line.unicode_len();
    let mut lo: usize = 0;
    let mut hi: usize = n;
    let mut done = false;
    while !done && lo < hi
        invariant
            n == line@.len(),
            lo <= hi <= n,
            trimmed(line@) == trimmed_from(line@, lo as int, hi as int),
            done ==> lo < hi && trimmed(line@) == line@.subrange(lo as int, hi as int),
        decreases hi - lo + (if done { 0int } else { 1int }),
    {
        if is_white_space_exec(line.get_char(lo)) {
            lo = lo + 1;
        } else if is_white_space_exec(line.get_char(hi - 1)) {
            hi = hi - 1;
        } else {
            done = true;
        }
    }
    String::from_str(line.substring_char(lo, hi))
}

/// A line as a line-based transport (stdio, Unix socket) writes it.
pub fn frame_line(json: &str) -> (r: String)
    ensures
        r@ == json@ + "\n"@,
{
    String::from_str(json).concat("\n")
}

/// The message text a line read from a line-based transport holds: the
/// line without surrounding white space, or `None` when nothing is left.
pub fn received_line(line: &str) -> (r: Option<String>)
    ensures
        trimmed(line@).len() == 0 ==> r is None,
        trimmed(line@).len() > 0 ==> (r matches Some(t) && t@ == trimmed(line@)),
{
    let t = trim(line);
    if t.as_str().is_empty() {
        None
    } else {
        Some(t)
    }
}

/// Chooses and builds transports.
pub struct TransportFactory;

impl TransportFactory {
    /// The transport for settings; TCP is carried over WebSocket.
    pub fn create_transport(config: TransportConfig) -> (r: Transport)
        ensures
            r.kind == built_kind(config.transport_type),
            !r.connected,
            r.config == config,
    {
        let kind = match config.transport_type {
            TransportType::Tcp => TransportType::WebSocket,
            t => t,
        };
        Transport { config, kind, connected: false }
    }

    /// The transport for a parsed URL, given its serialization `href` and
    /// its `scheme`: WebSocket for `ws` and `wss`, HTTP for `http` and
    /// `https`, a Unix socket for `unix`; other schemes are refused.
    pub fn from_parsed_url(href: String, scheme: &str) -> (r: Result<Transport, GatewayError>)
        ensures
            match scheme_transport(scheme@) {
                Some(t) => r matches Ok(tr) && {
                    &&& tr.kind == t
                    &&& !tr.connected
                    &&& default_settings(tr.config, t)
                    &&& tr.config.url matches Some(u) && u@ == href@
                    &&& tr.config.command is None
                    &&& tr.config.args is None
                },
                None => r matches Err(GatewayError::McpProtocol(m)) && m@ == "Unsupported URL scheme: "@
                    + scheme@,
            },
    {
        let transport_type = if str_eq(scheme, "ws") || str_eq(scheme, "wss") {
            TransportType::WebSocket
        } else if str_eq(scheme, "http") || str_eq(scheme, "https") {
            TransportType::Http
        } else if str_eq(scheme, "unix") {
            TransportType::Unix
        } else {
            let msg = String::from_str("Unsupported URL scheme: ").concat(scheme);
            return Err(GatewayError::McpProtocol(msg));
        };
        let config = TransportConfig {
            transport_type,
            url: Some(href),
            command: None,
            args: None,
            env: None,
            working_directory: None,
            timeout: secs(30),
            reconnect_attempts: 3,
            reconnect_delay: secs(5),
        };
        Ok(Self::create_transport(config))
    }

    /// The transport for a URL (see `from_parsed_url`); texts that are no
    /// URL are refused with the parser's message.
    pub fn from_url(url: &str) -> (r: Result<Transport, GatewayError>)
        ensures
            match url_parse(url@) {
                Err(e) => r matches Err(GatewayError::McpProtocol(m)) && m@ == "Invalid URL: "@ + e,
                Ok((href, scheme)) => match scheme_transport(scheme) {
                    Some(t) => r matches Ok(tr) && {
                        &&& tr.kind == t
                        &&& !tr.connected
                        &&& default_settings(tr.config, t)
                        &&& tr.config.url matches Some(u) && u@ == href
                        &&& tr.config.command is None
                        &&& tr.config.args is None
                    },
                    None => r matches Err(GatewayError::McpProtocol(m)) && m@
                        == "Unsupported URL scheme: "@ + scheme,
                },
            },
    {
        match parse_url(url) {
            Ok((href, scheme)) => Self::from_parsed_url(href, scheme.as_str()),
            Err(e) => {
                let msg = String::from_str("Invalid URL: ").concat(e.as_str());
                Err(GatewayError::McpProtocol(msg))
            },
        }
    }

    /// The stdio transport that runs `command` with `args`.
    pub fn from_command(command: &str, args: Option<Vec<String>>) -> (r: Transport)
        ensures
            r.kind == TransportType::Stdio,
            !r.connected,
            default_settings(r.config, TransportType::Stdio),
            r.config.url is None,
            r.config.command matches Some(c) && c@ == command@,
            r.config.args == args,
    {
        let config = TransportConfig {
            transport_type: TransportType::Stdio,
            url: None,
            command: Some(String::from_str(command)),
            args,
            env: None,
            working_directory: None,
            timeout: secs(30),
            reconnect_attempts: 3,
            reconnect_delay: secs(5),
        };
        Self::create_transport(config)
    }
}

/// A parsed URL: its serialization and its scheme.
#[derive(Debug, Clone)]
pub struct ParsedUrl {
    pub href: String,
    pub scheme: String,
}

impl ParsedUrl {
    /// Parses a URL, or gives the parser's message.
    pub fn parse(text: &str) -> (r: Result<ParsedUrl, String>)
        ensures
            match url_parse(text@) {
                Ok((h, s)) => r matches Ok(u) && u.href@ == h && u.scheme@ == s,
                Err(e) => r matches Err(m) && m@ == e,
            },
    {
        match parse_url(text) {
            Ok((href, scheme)) => Ok(ParsedUrl { href, scheme }),
            Err(e) => Err(e),
        }
    }
}

proof fn lemma_trimmed_ends(s: Seq<char>, lo: int, hi: int)
    requires
        0 <= lo,
        hi <= s.len(),
    ensures
        trimmed_from(s, lo, hi).len() > 0 ==> !is_white_space(trimmed_from(s, lo, hi)[0])
            && !is_white_space(trimmed_from(s, lo, hi).last()),
    decreases hi - lo,
{
    if lo < hi {
        if is_white_space(s[lo]) {
            lemma_trimmed_ends(s, lo + 1, hi);
        } else if is_white_space(s[hi - 1]) {
            lemma_trimmed_ends(s, lo, hi - 1);
        }
    }
}

/// Trimming leaves no white space at either end, so trimming again changes
/// nothing.
pub proof fn law_trim_is_idempotent(s: Seq<char>)
    ensures
        trimmed(s).len() > 0 ==> !is_white_space(trimmed(s)[0]) && !is_white_space(trimmed(s).last()),
        trimmed(trimmed(s)) == trimmed(s),
{
    lemma_trimmed_ends(s, 0, s.len() as int);
    let t = trimmed(s);
    if t.len() > 0 {
        assert(t.subrange(0, t.len() as int) =~= t);
    }
}

/// The transport a URL gets depends on its scheme alone: WebSocket for `ws`
/// and `wss`, HTTP for `http` and `https`, a Unix socket for `unix`, and
/// none for any other scheme.
pub proof fn law_schemes_choose_transports(scheme: Seq<char>)
    ensures
        (scheme_transport(scheme) == Some(TransportType::WebSocket)) == (scheme == "ws"@ || scheme == "wss"@),
        (scheme_transport(scheme) == Some(TransportType::Http)) == (scheme == "http"@ || scheme == "https"@),
        (scheme_transport(scheme) == Some(TransportType::Unix)) == (scheme == "unix"@),
        scheme_transport(scheme) is None == !(scheme == "ws"@ || scheme == "wss"@ || scheme == "http"@
            || scheme == "https"@ || scheme == "unix"@),
        !(scheme_transport(scheme) matches Some(TransportType::Stdio)),
        !(scheme_transport(scheme) matches Some(TransportType::Tcp)),
{
    reveal_strlit("ws");
    reveal_strlit("wss");
    reveal_strlit("http");
    reveal_strlit("https");
    reveal_strlit("unix");
    assert("ws"@ != "http"@) by { assert("ws"@.len() != "http"@.len()); }
    assert("ws"@ != "https"@) by { assert("ws"@.len() != "https"@.len()); }
    assert("ws"@ != "unix"@) by { assert("ws"@.len() != "unix"@.len()); }
    assert("wss"@ != "http"@) by { assert("wss"@.len() != "http"@.len()); }
    assert("wss"@ != "https"@) by { assert("wss"@.len() != "https"@.len()); }
    assert("wss"@ != "unix"@) by { assert("wss"@.len() != "unix"@.len()); }
    assert("http"@ != "unix"@) by { assert("http"@[0] != "unix"@[0]); }
    assert("https"@ != "unix"@) by { assert("https"@.len() != "unix"@.len()); }
}

} // verus!
