//! A connection to the server as the sender sees it: up or down, over
//! HTTP/1.1 or HTTP/2. The two versions share nothing but this.

use crate::config::HttpMode;
use vstd::prelude::*;

verus! {

/// An HTTP/1.1 connection.
pub struct Http1Connection {
    connected: bool,
}

impl Http1Connection {
    /// Whether the handshake was made and the connection not dropped since.
    pub closed spec fn is_connected(&self) -> bool {
        self.connected
    }

    /// A connection that is down.
    pub fn new() -> (connection: Http1Connection)
        ensures
            !connection.is_connected(),
    {
        Http1Connection { connected: false }
    }

    /// Whether the connection is up.
    pub fn connected(&self) -> (up: bool)
        ensures
            up == self.is_connected(),
    {
        self.connected
    }

    /// The handshake was made: the connection is up.
    pub fn connect(&mut self)
        ensures
            final(self).is_connected(),
    {
        self.connected = true;
    }

    /// Drops the connection.
    pub fn disconnect(&mut self)
        ensures
            !final(self).is_connected(),
    {
        self.connected = false;
    }
}

/// An HTTP/2 connection.
pub struct Http2Connection {
    connected: bool,
}

impl Http2Connection {
    /// Whether the handshake was made and the connection not dropped since.
    pub closed spec fn is_connected(&self) -> bool {
        self.connected
    }

    /// A connection that is down.
    pub fn new() -> (connection: Http2Connection)
        ensures
            !connection.is_connected(),
    {
        Http2Connection { connected: false }
    }

    /// Whether the connection is up.
    pub fn connected(&self) -> (up: bool)
        ensures
            up == self.is_connected(),
    {
        self.connected
    }

    /// The handshake was made: the connection is up.
    pub fn connect(&mut self)
        ensures
            final(self).is_connected(),
    {
        self.connected = true;
    }

    /// Drops the connection.
    pub fn disconnect(&mut self)
        ensures
            !final(self).is_connected(),
    {
        self.connected = false;
    }
}

/// A connection of either version, so that a sender can hold the one or
/// the other without a trait object.
pub enum Connection {
    Http1(Http1Connection),
    Http2(Http2Connection),
}

impl Connection {
    /// The version that the connection speaks.
    pub open spec fn mode(&self) -> HttpMode {
        match self {
            Connection::Http1(_) => HttpMode::Http1,
            Connection::Http2(_) => HttpMode::Http2,
        }
    }

    /// Whether the handshake was made and the connection not dropped since.
    pub open spec fn is_connected(&self) -> bool {
        match self {
            Connection::Http1(c) => c.is_connected(),
            Connection::Http2(c) => c.is_connected(),
        }
    }

    /// A connection of the version `mode` that is down.
    pub fn new(mode: HttpMode) -> (connection: Connection)
        ensures
            connection.mode() == mode,
            !connection.is_connected(),
    {
        match mode {
            HttpMode::Http1 => Connection::Http1(Http1Connection::new()),
            HttpMode::Http2 => Connection::Http2(Http2Connection::new()),
        }
    }

    /// The version that the connection speaks.
    pub fn http_mode(&self) -> (mode: HttpMode)
        ensures
            mode == self.mode(),
    {
        match self {
            Connection::Http1(_) => HttpMode::Http1,
            Connection::Http2(_) => HttpMode::Http2,
        }
    }

    /// Whether the connection is up.
    pub fn connected(&self) -> (up: bool)
        ensures
            up == self.is_connected(),
    {
        match self {
            Connection::Http1(c) => c.connected(),
            Connection::Http2(c) => c.connected(),
        }
    }

    /// The handshake was made: the connection is up.
    pub fn connect(&mut self)
        ensures
            final(self).is_connected(),
            final(self).mode() == old(self).mode(),
    {
        match self {
            Connection::Http1(c) => c.connect(),
            Connection::Http2(c) => c.connect(),
        }
    }

    /// Drops the connection.
    pub fn disconnect(&mut self)
        ensures
            !final(self).is_connected(),
            final(self).mode() == old(self).mode(),
    {
        match self {
            Connection::Http1(c) => c.disconnect(),
            Connection::Http2(c) => c.disconnect(),
        }
    }
}

} // verus!
