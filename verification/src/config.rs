//! What a run is configured with, and the builder that checks it.

use crate::error::{Error, ErrorView};
use crate::method::{method_is_valid, valid_method};
use crate::text::{decimal, push_decimal, split_once, str_eq};
use crate::urlparts::{explicit_port, parse_url, parsed_url, port_in_text, ParsedUrl, UrlView};
use vstd::prelude::*;
use vstd::utf8::encode_utf8;

verus! {

/// The version of HTTP that the connections speak.
#[derive(Clone, Copy, Debug, PartialEq, Eq, Structural)]
pub enum HttpMode {
    Http1,
    Http2,
}

/// How the certificate of a TLS server is checked.
#[derive(Clone, Copy, Debug, PartialEq, Eq, Structural)]
pub enum TlsVerification {
    /// The whole chain, up to a root of the platform's store.
    Full,
    /// Not at all: any certificate is accepted.
    AcceptAny,
}

/// A list of headers with its names and values as sequences of characters.
pub open spec fn headers_view(headers: Seq<(String, String)>) -> Seq<(Seq<char>, Seq<char>)> {
    Seq::new(headers.len(), |i: int| (headers[i].0@, headers[i].1@))
}

/// The configuration of a run. It is built once and never changed.
#[derive(Debug)]
pub struct Config {
    pub host: String,
    pub port: u16,
    /// The value of the `Host` header.
    pub host_hdr: String,
    /// The path of the request, with the query where there is one.
    pub path: String,
    pub method: String,
    pub body: Vec<u8>,
    /// The headers to send after `Host` and `User-Agent`, in this order.
    pub headers: Vec<(String, String)>,
    pub http_mode: HttpMode,
    /// Set where the scheme is `https`, and only there.
    pub tls: Option<TlsVerification>,
    pub verbose: bool,
}

/// A [`Config`] with its texts as sequences.
pub struct ConfigView {
    pub host: Seq<char>,
    pub port: u16,
    pub host_hdr: Seq<char>,
    pub path: Seq<char>,
    pub method: Seq<char>,
    pub body: Seq<u8>,
    pub headers: Seq<(Seq<char>, Seq<char>)>,
    pub http_mode: HttpMode,
    pub tls: Option<TlsVerification>,
    pub verbose: bool,
}

impl View for Config {
    type V = ConfigView;

    open spec fn view(&self) -> ConfigView {
        ConfigView {
            host: self.host@,
            port: self.port,
            host_hdr: self.host_hdr@,
            path: self.path@,
            method: self.method@,
            body: self.body@,
            headers: headers_view(self.headers@),
            http_mode: self.http_mode,
            tls: self.tls,
            verbose: self.verbose,
        }
    }
}

impl ConfigView {
    /// What holds of every configuration that was built: there is a host,
    /// the port is not 0, the method is an HTTP token, and the path begins
    /// with a slash.
    pub open spec fn wf(self) -> bool {
        &&& self.host.len() > 0
        &&& self.port >= 1
        &&& valid_method(self.method)
        &&& self.path.len() > 0
        &&& self.path[0] == '/'
    }
}

/// What the contents of the body file came to, where the builder names
/// one: its bytes, or the text of the failure to read it.
pub open spec fn file_view(file: Option<Result<Vec<u8>, String>>) -> Option<
    Result<Seq<u8>, Seq<char>>,
> {
    match file {
        Some(Ok(bytes)) => Some(Ok(bytes@)),
        Some(Err(text)) => Some(Err(text@)),
        None => None,
    }
}

/// A result and what it is expected to be are the same, the one seen by
/// its view.
pub open spec fn same_outcome(
    result: Result<Config, Error>,
    expected: Result<ConfigView, ErrorView>,
) -> bool {
    match (result, expected) {
        (Ok(config), Ok(view)) => config@ == view,
        (Err(err), Err(view)) => err@ == view,
        _ => false,
    }
}

/// The options that were set on a [`Builder`].
pub struct BuilderView {
    pub url: Option<Seq<char>>,
    pub method: Option<Seq<char>>,
    pub body_text: Option<Seq<char>>,
    pub body_file: Option<Seq<char>>,
    pub headers: Seq<(Seq<char>, Seq<char>)>,
    pub tls_no_verify: bool,
    pub http_mode: HttpMode,
    pub verbose: bool,
}

impl BuilderView {
    /// No option set: HTTP/1.1, full TLS verification, not verbose.
    pub open spec fn empty() -> BuilderView {
        BuilderView {
            url: None,
            method: None,
            body_text: None,
            body_file: None,
            headers: Seq::empty(),
            tls_no_verify: false,
            http_mode: HttpMode::Http1,
            verbose: false,
        }
    }

    /// The body of the request: the contents of the body file where one is
    /// named, else the bytes of the body text, else nothing. A file that
    /// could not be read, or was not read at all, is an I/O error.
    pub open spec fn body(self, file: Option<Result<Seq<u8>, Seq<char>>>) -> Result<
        Seq<u8>,
        ErrorView,
    > {
        match self.body_file {
            Some(name) => match file {
                Some(Ok(bytes)) => Ok(bytes),
                Some(Err(text)) => Err(ErrorView::IO(text)),
                None => Err(ErrorView::IO("Body file "@ + name + " was not read"@)),
            },
            None => match self.body_text {
                Some(text) => Ok(encode_utf8(text)),
                None => Ok(Seq::empty()),
            },
        }
    }

    /// The method of the request: the one that was set, which must be an
    /// HTTP token; else GET without a body and POST with one.
    pub open spec fn method_for(self, body: Seq<u8>) -> Result<Seq<char>, ErrorView> {
        match self.method {
            Some(method) => if valid_method(method) {
                Ok(method)
            } else {
                Err(ErrorView::Configuration("Invalid HTTP method "@ + method))
            },
            None => if body.len() == 0 {
                Ok("GET"@)
            } else {
                Ok("POST"@)
            },
        }
    }

    /// What is wrong with the URL, where something is. The checks come in
    /// this order: a URL must have been set; its scheme must be `http` or
    /// `https`; it must name a host and a port that is not 0; its path must
    /// begin with a slash.
    pub open spec fn url_error(self, url: UrlView) -> Option<ErrorView> {
        if self.url is None {
            Some(ErrorView::Configuration("URL must be set"@))
        } else if url.scheme != "http"@ && url.scheme != "https"@ {
            Some(ErrorView::IO("Invalid HTTP scheme: "@ + url.scheme))
        } else if !has_endpoint(url) {
            Some(ErrorView::Configuration("URL "@ + self.url->0 + " must have host and port"@))
        } else if !(url.path.len() > 0 && url.path[0] == '/') {
            Some(ErrorView::Configuration("URL "@ + self.url->0 + " must have a path"@))
        } else {
            None
        }
    }

    /// The configuration that these options give for a URL with the parts
    /// `url`, or the error that they end in. The URL is checked first; then
    /// the body file, where one is named, must have been read; then the
    /// method, where one was set, must be an HTTP token.
    pub open spec fn assembled(self, url: UrlView, file: Option<Result<Seq<u8>, Seq<char>>>)
        -> Result<ConfigView, ErrorView> {
        match self.url_error(url) {
            Some(err) => Err(err),
            None => match self.body(file) {
                Err(err) => Err(err),
                Ok(body) => match self.method_for(body) {
                    Err(err) => Err(err),
                    Ok(method) => Ok(
                        ConfigView {
                            host: url.host->0,
                            port: url.port_or_known_default->0,
                            host_hdr: host_header(url, self.url->0),
                            path: request_path(url),
                            method,
                            body,
                            headers: self.headers,
                            http_mode: self.http_mode,
                            tls: if url.scheme == "https"@ {
                                if self.tls_no_verify {
                                    Some(TlsVerification::AcceptAny)
                                } else {
                                    Some(TlsVerification::Full)
                                }
                            } else {
                                None
                            },
                            verbose: self.verbose,
                        },
                    ),
                },
            },
        }
    }
}

/// The URL names a host and a port to connect to: a host that is not
/// empty, and a port, its own or its scheme's, that is not 0.
pub open spec fn has_endpoint(url: UrlView) -> bool {
    &&& url.host is Some
    &&& url.host->0.len() > 0
    &&& url.port_or_known_default is Some
    &&& url.port_or_known_default->0 != 0
}

/// The port that the `Host` header shows: the port of the URL where it
/// has one that is not the default of its scheme; else the port that the
/// text of the URL carries, where that is the port of the URL; else none.
/// So a port that was given is shown, also where it is the default.
pub open spec fn shown_port(url: UrlView, text: Seq<char>) -> Option<u16> {
    match url.port {
        Some(port) => Some(port),
        None => if port_in_text(text) is Some && port_in_text(text) == url.port_or_known_default {
            port_in_text(text)
        } else {
            None
        },
    }
}

/// The value of the `Host` header of a URL with the text `text`: the host,
/// and after a colon the port where one was given.
pub open spec fn host_header(url: UrlView, text: Seq<char>) -> Seq<char>
    recommends
        url.host is Some,
{
    match shown_port(url, text) {
        Some(port) => url.host->0 + ":"@ + decimal(port as nat),
        None => url.host->0,
    }
}

/// The path of the request: the path of the URL, and the query after a
/// question mark where the URL has one.
pub open spec fn request_path(url: UrlView) -> Seq<char> {
    match url.query {
        Some(query) => url.path + "?"@ + query,
        None => url.path,
    }
}

/// A header as it is written on one line, the name before the first colon
/// and the value after it, both as they stand. A line without a colon is
/// no header.
pub open spec fn is_header_line(line: Seq<char>, name: Seq<char>, value: Seq<char>) -> bool {
    line == name + seq![':'] + value && !name.contains(':')
}

/// Splits a header line into its name and its value.
pub fn split_header(line: &str) -> (header: Option<(String, String)>)
    ensures
        match header {
            Some((name, value)) => is_header_line(line@, name@, value@),
            None => !line@.contains(':'),
        },
{
    match split_once(line, ':') {
        Some((name, value)) => Some((String::from_str(name), String::from_str(value))),
        None => None,
    }
}

/// Collects the options of a run and checks them in `build`.
#[derive(Debug)]
pub struct Builder {
    url: Option<String>,
    method: Option<String>,
    body_text: Option<String>,
    body_file: Option<String>,
    headers: Vec<(String, String)>,
    tls_no_verify: bool,
    http_mode: HttpMode,
    verbose: bool,
}

impl View for Builder {
    type V = BuilderView;

    closed spec fn view(&self) -> BuilderView {
        BuilderView {
            url: match self.url {
                Some(s) => Some(s@),
                None => None,
            },
            method: match self.method {
                Some(s) => Some(s@),
                None => None,
            },
            body_text: match self.body_text {
                Some(s) => Some(s@),
                None => None,
            },
            body_file: match self.body_file {
                Some(s) => Some(s@),
                None => None,
            },
            headers: headers_view(self.headers@),
            tls_no_verify: self.tls_no_verify,
            http_mode: self.http_mode,
            verbose: self.verbose,
        }
    }
}

impl Builder {
    /// A builder with no option set.
    pub fn new() -> (builder: Builder)
        ensures
            builder@ == BuilderView::empty(),
    {
        let builder = Builder {
            url: None,
            method: None,
            body_text: None,
            body_file: None,
            headers: Vec::new(),
            tls_no_verify: false,
            http_mode: HttpMode::Http1,
            verbose: false,
        };
        assert(builder@.headers =~= Seq::empty());
        builder
    }

    /// Sets the URL to send to.
    pub fn set_url(self, url: &str) -> (builder: Builder)
        ensures
            builder@ == (BuilderView { url: Some(url@), ..self@ }),
    {
        let mut builder = self;
        builder.url = Some(String::from_str(url));
        builder
    }

    /// Sets the method, in place of the one that the body would give.
    pub fn set_method(self, method: &str) -> (builder: Builder)
        ensures
            builder@ == (BuilderView { method: Some(method@), ..self@ }),
    {
        let mut builder = self;
        builder.method = Some(String::from_str(method));
        builder
    }

    /// Sets the text that is the body.
    pub fn set_body_text(self, text: &str) -> (builder: Builder)
        ensures
            builder@ == (BuilderView { body_text: Some(text@), ..self@ }),
    {
        let mut builder = self;
        builder.body_text = Some(String::from_str(text));
        builder
    }

    /// Names the file whose contents are the body.
    pub fn set_body_file(self, f: &str) -> (builder: Builder)
        ensures
            builder@ == (BuilderView { body_file: Some(f@), ..self@ }),
    {
        let mut builder = self;
        builder.body_file = Some(String::from_str(f));
        builder
    }

    /// Adds a header after those added before.
    pub fn add_header(self, name: &str, value: &str) -> (builder: Builder)
        ensures
            builder@ == (BuilderView { headers: self@.headers.push((name@, value@)), ..self@ }),
    {
        let mut builder = self;
        builder.headers.push((String::from_str(name), String::from_str(value)));
        assert(builder@.headers =~= self@.headers.push((name@, value@)));
        builder
    }

    /// Chooses whether the certificate of a TLS server goes unchecked.
    pub fn set_tls_no_verify(self, nv: bool) -> (builder: Builder)
        ensures
            builder@ == (BuilderView { tls_no_verify: nv, ..self@ }),
    {
        let mut builder = self;
        builder.tls_no_verify = nv;
        builder
    }

    /// Chooses HTTP/2, or HTTP/1.1 again.
    pub fn set_http2(self, http2: bool) -> (builder: Builder)
        ensures
            builder@ == (BuilderView {
                http_mode: if http2 {
                    HttpMode::Http2
                } else {
                    HttpMode::Http1
                },
                ..self@
            }),
    {
        let mut builder = self;
        builder.http_mode = if http2 {
            HttpMode::Http2
        } else {
            HttpMode::Http1
        };
        builder
    }

    /// Chooses whether every request and response is shown.
    pub fn set_verbose(self, enabled: bool) -> (builder: Builder)
        ensures
            builder@ == (BuilderView { verbose: enabled, ..self@ }),
    {
        let mut builder = self;
        builder.verbose = enabled;
        builder
    }

    /// The name of the body file, where one was set. Its contents are what
    /// `build` asks for.
    pub fn body_file(&self) -> (name: Option<&String>)
        ensures
            match name {
                Some(f) => self@.body_file == Some(f@),
                None => self@.body_file is None,
            },
    {
        self.body_file.as_ref()
    }

    /// Checks the URL alone, before anything is read for the body: the
    /// error that `build` would end in on account of the URL, if any.
    pub fn check_url(&self) -> (result: Result<(), Error>)
        ensures
            match self@.url {
                None => result matches Err(err) && err@ == ErrorView::Configuration(
                    "URL must be set"@,
                ),
                Some(text) => match parsed_url(text) {
                    None => result matches Err(err) && err@ is InvalidURL,
                    Some(url) => match self@.url_error(url) {
                        Some(expected) => result matches Err(err) && err@ == expected,
                        None => result is Ok,
                    },
                },
            },
    {
        let parsed = match &self.url {
            None => {
                return Err(Error::Configuration(String::from_str("URL must be set")));
            },
            Some(text) => parse_url(text.as_str()),
        };
        match parsed {
            Err(err) => Err(Error::InvalidURL(err.to_string())),
            Ok(url) => match self.check_parts(&url) {
                Some(err) => Err(err),
                None => Ok(()),
            },
        }
    }

    fn check_parts(&self, url: &ParsedUrl) -> (error: Option<Error>)
        ensures
            match error {
                Some(err) => self@.url_error(url@) == Some(err@),
                None => self@.url_error(url@) is None,
            },
    {
        let url_text = match &self.url {
            Some(text) => text,
            None => {
                return Some(Error::Configuration(String::from_str("URL must be set")));
            },
        };
        if !str_eq(url.scheme.as_str(), "http") && !str_eq(url.scheme.as_str(), "https") {
            let mut text = String::from_str("Invalid HTTP scheme: ");
            text.append(url.scheme.as_str());
            return Some(Error::IO(text));
        }
        let named = match (&url.host, url.port_or_known_default) {
            (Some(host), Some(port)) => !host.as_str().is_empty() && port != 0,
            _ => false,
        };
        if !named {
            let mut text = String::from_str("URL ");
            text.append(url_text.as_str());
            text.append(" must have host and port");
            return Some(Error::Configuration(text));
        }
        if url.path.as_str().is_empty() || url.path.as_str().get_char(0) != '/' {
            let mut text = String::from_str("URL ");
            text.append(url_text.as_str());
            text.append(" must have a path");
            return Some(Error::Configuration(text));
        }
        None
    }

    /// Checks the options and makes the configuration. `file` is what
    /// reading the body file came to: its bytes, or the text of the
    /// failure. It is looked at only where the builder names a body file;
    /// where it is missing then, the result is an I/O error.
    ///
    /// Without a URL the result is a configuration error, and a URL that
    /// the parser rejects is an invalid URL. Every other outcome is that of
    /// `assemble` on the parts of the URL, of which the port, where the URL
    /// has none of its own, is the default of the scheme.
    pub fn build(self, file: Option<Result<Vec<u8>, String>>) -> (result: Result<Config, Error>)
        ensures
            match self@.url {
                None => result matches Err(err) && err@ == ErrorView::Configuration(
                    "URL must be set"@,
                ),
                Some(text) => match parsed_url(text) {
                    None => result matches Err(err) && err@ is InvalidURL,
                    Some(url) => same_outcome(result, self@.assembled(url, file_view(file)))
                        && url.port_or_known_default == url.known_port(),
                },
            },
            result matches Ok(config) ==> config@.wf(),
    {
        let parsed = match &self.url {
            None => {
                return Err(Error::Configuration(String::from_str("URL must be set")));
            },
            Some(text) => parse_url(text.as_str()),
        };
        match parsed {
            Err(err) => Err(Error::InvalidURL(err.to_string())),
            Ok(url) => self.assemble(url, file),
        }
    }

    /// Makes the configuration from the options and from the parts `url`
    /// of the URL that was set.
    pub fn assemble(self, url: ParsedUrl, file: Option<Result<Vec<u8>, String>>) -> (result:
        Result<Config, Error>)
        ensures
            same_outcome(result, self@.assembled(url@, file_view(file))),
            result matches Ok(config) ==> config@.wf(),
    {
        match self.check_parts(&url) {
            Some(err) => {
                return Err(err);
            },
            None => {},
        }
        let is_https = str_eq(url.scheme.as_str(), "https");
        let host = url.host.unwrap();
        let port = url.port_or_known_default.unwrap();
        let shown = match url.port {
            Some(p) => Some(p),
            None => match explicit_port(self.url.as_ref().unwrap().as_str()) {
                Some(p) => if p == port {
                    Some(p)
                } else {
                    None
                },
                None => None,
            },
        };
        let host_hdr = match shown {
            Some(p) => {
                let mut hdr = host.clone();
                hdr.append(":");
                push_decimal(&mut hdr, p as u128);
                hdr
            },
            None => host.clone(),
        };
        let path = match url.query {
            Some(query) => {
                let mut path = url.path;
                path.append("?");
                path.append(query.as_str());
                path
            },
            None => url.path,
        };
        let body = match &self.body_file {
            Some(name) => match file {
                Some(Ok(bytes)) => bytes,
                Some(Err(text)) => {
                    return Err(Error::IO(text));
                },
                None => {
                    let mut text = String::from_str("Body file ");
                    text.append(name.as_str());
                    text.append(" was not read");
                    return Err(Error::IO(text));
                },
            },
            None => match &self.body_text {
                Some(text) => text.as_str().as_bytes_vec(),
                None => Vec::new(),
            },
        };
        let method = match self.method {
            Some(method) => {
                if !method_is_valid(method.as_str()) {
                    let mut text = String::from_str("Invalid HTTP method ");
                    text.append(method.as_str());
                    return Err(Error::Configuration(text));
                }
                method
            },
            None => {
                proof {
                    reveal_strlit("GET");
                    reveal_strlit("POST");
                }
                if body.len() == 0 {
                    String::from_str("GET")
                } else {
                    String::from_str("POST")
                }
            },
        };
        let tls = if is_https {
            if self.tls_no_verify {
                Some(TlsVerification::AcceptAny)
            } else {
                Some(TlsVerification::Full)
            }
        } else {
            None
        };
        Ok(
            Config {
                host,
                port,
                host_hdr,
                path,
                method,
                body,
                headers: self.headers,
                http_mode: self.http_mode,
                tls,
                verbose: self.verbose,
            },
        )
    }
}

} // verus!
