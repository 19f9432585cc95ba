//! The target server as it is set up: where it listens, whether over TLS
//! and with which certificate, and the one signal that stops it.

use vstd::prelude::*;

verus! {

/// The days for which a certificate that the target signs itself is valid.
pub const CERTIFICATE_VALID_DAYS: u32 = 7;

/// What can go wrong while the target is set up or run.
#[derive(Clone, Debug, PartialEq, Eq)]
pub enum Error {
    IOError(String),
    TLSError(String),
    CertificateError(String),
    Generic(String),
}

/// An [`Error`] with its text as a sequence of characters.
pub enum ErrorView {
    IOError(Seq<char>),
    TLSError(Seq<char>),
    CertificateError(Seq<char>),
    Generic(Seq<char>),
}

impl View for Error {
    type V = ErrorView;

    open spec fn view(&self) -> ErrorView {
        match self {
            Error::IOError(m) => ErrorView::IOError(m@),
            Error::TLSError(m) => ErrorView::TLSError(m@),
            Error::CertificateError(m) => ErrorView::CertificateError(m@),
            Error::Generic(m) => ErrorView::Generic(m@),
        }
    }
}

impl ErrorView {
    /// The line that reports this error.
    pub open spec fn text(self) -> Seq<char> {
        match self {
            ErrorView::Generic(m) => "I/O Error: "@ + m,
            ErrorView::IOError(m) => "Error: "@ + m,
            ErrorView::CertificateError(m) => "Certificate Error: "@ + m,
            ErrorView::TLSError(m) => "TLS error: "@ + m,
        }
    }
}

impl Error {
    /// The line that reports this error.
    pub fn to_string(&self) -> (line: String)
        ensures
            line@ == self@.text(),
    {
        match self {
            Error::Generic(m) => {
                let mut line = String::from_str("I/O Error: ");
                line.append(m.as_str());
                line
            },
            Error::IOError(m) => {
                let mut line = String::from_str("Error: ");
                line.append(m.as_str());
                line
            },
            Error::CertificateError(m) => {
                let mut line = String::from_str("Certificate Error: ");
                line.append(m.as_str());
                line
            },
            Error::TLSError(m) => {
                let mut line = String::from_str("TLS error: ");
                line.append(m.as_str());
                line
            },
        }
    }
}

/// Where the certificate and the key of a TLS target come from.
#[derive(Debug)]
pub enum TlsSource {
    /// A certificate that the target signs itself, valid for so many days.
    SelfSigned { valid_days: u32 },
    /// The files of a certificate and of its key, in PEM.
    Files { certificate: String, key: String },
}

/// A [`TlsSource`] with its file names as sequences of characters.
pub enum TlsSourceView {
    SelfSigned { valid_days: u32 },
    Files { certificate: Seq<char>, key: Seq<char> },
}

impl View for TlsSource {
    type V = TlsSourceView;

    open spec fn view(&self) -> TlsSourceView {
        match self {
            TlsSource::SelfSigned { valid_days } => TlsSourceView::SelfSigned {
                valid_days: *valid_days,
            },
            TlsSource::Files { certificate, key } => TlsSourceView::Files {
                certificate: certificate@,
                key: key@,
            },
        }
    }
}

/// The options that were set on a [`Builder`].
pub struct BuilderView {
    pub port: u16,
    pub use_localhost: bool,
    pub certificate: Option<Seq<char>>,
    pub key: Option<Seq<char>>,
    pub self_signed: bool,
}

impl BuilderView {
    /// Both a certificate of its own making and one from files were asked
    /// for.
    pub open spec fn conflicting(self) -> bool {
        self.self_signed && (self.certificate is Some || self.key is Some)
    }

    /// Where the certificate comes from: made by the target where that was
    /// asked for, from files where both were named, and else from nowhere,
    /// which leaves the target without TLS.
    pub open spec fn tls(self) -> Option<TlsSourceView> {
        if self.self_signed {
            Some(TlsSourceView::SelfSigned { valid_days: 7 })
        } else if self.certificate is Some && self.key is Some {
            Some(TlsSourceView::Files { certificate: self.certificate->0, key: self.key->0 })
        } else {
            None
        }
    }
}

/// Collects the options of a target and checks them in `build`.
#[derive(Debug)]
pub struct Builder {
    port: u16,
    use_localhost: bool,
    certificate: Option<String>,
    key: Option<String>,
    self_signed: bool,
}

impl View for Builder {
    type V = BuilderView;

    closed spec fn view(&self) -> BuilderView {
        BuilderView {
            port: self.port,
            use_localhost: self.use_localhost,
            certificate: match self.certificate {
                Some(s) => Some(s@),
                None => None,
            },
            key: match self.key {
                Some(s) => Some(s@),
                None => None,
            },
            self_signed: self.self_signed,
        }
    }
}

impl Builder {
    /// A builder for a target on any port and all interfaces, without TLS.
    pub fn new() -> (builder: Builder)
        ensures
            builder@ == (BuilderView {
                port: 0,
                use_localhost: false,
                certificate: None,
                key: None,
                self_signed: false,
            }),
    {
        Builder { port: 0, use_localhost: false, certificate: None, key: None, self_signed: false }
    }

    /// Sets the port to listen on; 0 leaves the choice to the system.
    pub fn port(self, port: u16) -> (builder: Builder)
        ensures
            builder@ == (BuilderView { port, ..self@ }),
    {
        let mut builder = self;
        builder.port = port;
        builder
    }

    /// Chooses to listen on the loopback interface alone.
    pub fn use_localhost(self, lh: bool) -> (builder: Builder)
        ensures
            builder@ == (BuilderView { use_localhost: lh, ..self@ }),
    {
        let mut builder = self;
        builder.use_localhost = lh;
        builder
    }

    /// Names the file of the certificate.
    pub fn certificate(self, cert: &str) -> (builder: Builder)
        ensures
            builder@ == (BuilderView { certificate: Some(cert@), ..self@ }),
    {
        let mut builder = self;
        builder.certificate = Some(String::from_str(cert));
        builder
    }

    /// Names the file of the key.
    pub fn key(self, key: &str) -> (builder: Builder)
        ensures
            builder@ == (BuilderView { key: Some(key@), ..self@ }),
    {
        let mut builder = self;
        builder.key = Some(String::from_str(key));
        builder
    }

    /// Chooses a certificate that the target signs itself.
    pub fn self_signed(self, ss: bool) -> (builder: Builder)
        ensures
            builder@ == (BuilderView { self_signed: ss, ..self@ }),
    {
        let mut builder = self;
        builder.self_signed = ss;
        builder
    }

    /// Checks the options and sets the target up. A certificate of the
    /// target's own making and one from files exclude each other.
    pub fn build(self) -> (result: Result<Target, Error>)
        ensures
            match result {
                Ok(target) => !self@.conflicting() && target@ == (TargetView {
                    port: self@.port,
                    use_localhost: self@.use_localhost,
                    tls: self@.tls(),
                    stoppable: true,
                }),
                Err(err) => self@.conflicting() && err@ == ErrorView::Generic(
                    "Must use custom key and cert or self-signed, but not both"@,
                ),
            },
    {
        if self.self_signed && (self.certificate.is_some() || self.key.is_some()) {
            return Err(
                Error::Generic(
                    String::from_str("Must use custom key and cert or self-signed, but not both"),
                ),
            );
        }
        Ok(Target::new(self))
    }
}

/// The state of a [`Target`].
pub struct TargetView {
    pub port: u16,
    pub use_localhost: bool,
    pub tls: Option<TlsSourceView>,
    /// Whether the signal to stop is still to be given.
    pub stoppable: bool,
}

/// A target that was set up.
#[derive(Debug)]
pub struct Target {
    port: u16,
    use_localhost: bool,
    tls: Option<TlsSource>,
    stoppable: bool,
}

impl View for Target {
    type V = TargetView;

    closed spec fn view(&self) -> TargetView {
        TargetView {
            port: self.port,
            use_localhost: self.use_localhost,
            tls: match self.tls {
                Some(source) => Some(source@),
                None => None,
            },
            stoppable: self.stoppable,
        }
    }
}

impl Target {
    /// Sets up the target that `builder` describes.
    pub fn new(builder: Builder) -> (target: Target)
        ensures
            target@ == (TargetView {
                port: builder@.port,
                use_localhost: builder@.use_localhost,
                tls: builder@.tls(),
                stoppable: true,
            }),
    {
        let tls = if builder.self_signed {
            Some(TlsSource::SelfSigned { valid_days: CERTIFICATE_VALID_DAYS })
        } else {
            match (builder.certificate, builder.key) {
                (Some(certificate), Some(key)) => Some(TlsSource::Files { certificate, key }),
                _ => None,
            }
        };
        Target { port: builder.port, use_localhost: builder.use_localhost, tls, stoppable: true }
    }

    /// The address to listen on: the loopback address or the address of
    /// all interfaces, as four bytes, and the port.
    pub fn address(&self) -> (address: ([u8; 4], u16))
        ensures
            address.0@ == if self@.use_localhost {
                seq![127u8, 0u8, 0u8, 1u8]
            } else {
                seq![0u8, 0u8, 0u8, 0u8]
            },
            address.1 == self@.port,
    {
        let ip: [u8; 4] = if self.use_localhost {
            [127, 0, 0, 1]
        } else {
            [0, 0, 0, 0]
        };
        (ip, self.port)
    }

    /// Where the certificate comes from, where the target speaks TLS.
    pub fn tls(&self) -> (source: &Option<TlsSource>)
        ensures
            match *source {
                Some(s) => self@.tls == Some(s@),
                None => self@.tls is None,
            },
    {
        &self.tls
    }

    /// Stops the target. Returns whether the signal to stop is to be given
    /// now: it is given once, by the first call.
    pub fn stop(&mut self) -> (signal: bool)
        ensures
            signal == old(self)@.stoppable,
            final(self)@ == (TargetView { stoppable: false, ..old(self)@ }),
    {
        let signal = self.stoppable;
        self.stoppable = false;
        signal
    }
}

} // verus!
