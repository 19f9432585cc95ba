//! A worker: the cycle of one request over its connection, and the loop
//! that repeats it until the run is over.
//!
//! The worker does no I/O of its own. It says what is to be done next, is
//! told how that went, and decides from there.

use crate::collector::{next_count, Collector, CollectorView, LocalCollector, StatsView};
use crate::config::{headers_view, Config, ConfigView, HttpMode, TlsVerification};
use crate::connector::Connection;
use crate::error::{Error, ErrorView};
use std::sync::Arc;
use vstd::prelude::*;

verus! {

/// A status of the class 2xx.
pub open spec fn status_is_success(status: u16) -> bool {
    200 <= status < 300
}

/// The value `close`, by which a response asks for the connection to be
/// dropped. Only these five bytes do.
pub open spec fn close_value() -> Seq<u8> {
    seq![99u8, 108u8, 111u8, 115u8, 101u8]
}

/// The response has a `close` header whose value is `close`.
pub open spec fn asks_to_close(close: Option<Seq<u8>>) -> bool {
    close == Some(close_value())
}

/// The request that every cycle sends.
#[derive(Debug)]
pub struct Request {
    pub method: String,
    pub uri: String,
    pub headers: Vec<(String, String)>,
    pub body: Vec<u8>,
}

/// A [`Request`] with its texts as sequences.
pub struct RequestView {
    pub method: Seq<char>,
    pub uri: Seq<char>,
    pub headers: Seq<(Seq<char>, Seq<char>)>,
    pub body: Seq<u8>,
}

impl View for Request {
    type V = RequestView;

    open spec fn view(&self) -> RequestView {
        RequestView {
            method: self.method@,
            uri: self.uri@,
            headers: headers_view(self.headers@),
            body: self.body@,
        }
    }
}

/// The request of a configuration: its method, its path as the URI, the
/// headers `Host` and `User-Agent`, then its own headers in their order,
/// and its body.
pub open spec fn request_of(config: ConfigView) -> RequestView {
    RequestView {
        method: config.method,
        uri: config.path,
        headers: seq![("Host"@, config.host_hdr), ("User-Agent"@, "apib"@)] + config.headers,
        body: config.body,
    }
}

/// Where and how to connect.
#[derive(Debug)]
pub struct Endpoint {
    pub host: String,
    pub port: u16,
    /// Whether the socket sends at once, without waiting to fill a
    /// segment. It always does.
    pub nodelay: bool,
    pub tls: Option<TlsVerification>,
    /// The name to ask the TLS server for.
    pub server_name: Option<String>,
}

/// An [`Endpoint`] with its texts as sequences.
pub struct EndpointView {
    pub host: Seq<char>,
    pub port: u16,
    pub nodelay: bool,
    pub tls: Option<TlsVerification>,
    pub server_name: Option<Seq<char>>,
}

impl View for Endpoint {
    type V = EndpointView;

    open spec fn view(&self) -> EndpointView {
        EndpointView {
            host: self.host@,
            port: self.port,
            nodelay: self.nodelay,
            tls: self.tls,
            server_name: match self.server_name {
                Some(name) => Some(name@),
                None => None,
            },
        }
    }
}

/// The endpoint of a configuration: its host and port, without delay, and
/// over TLS where it says so, with the host as it stands for server name.
pub open spec fn endpoint_of(config: ConfigView) -> EndpointView {
    EndpointView {
        host: config.host,
        port: config.port,
        nodelay: true,
        tls: config.tls,
        server_name: if config.tls is Some {
            Some(config.host)
        } else {
            None
        },
    }
}

/// How far a cycle has come.
#[derive(Clone, Copy, Debug, PartialEq, Eq, Structural)]
pub enum Phase {
    /// Between two cycles.
    Idle,
    /// The connection is being brought up.
    Connecting,
    /// The request is on its way, the response not here yet.
    Sending,
    /// The head of the response is here, its body is being read.
    Draining,
}

/// How what the worker asked for went.
#[derive(Debug)]
pub enum Event {
    /// The connection is up: TCP, TLS where configured, and the handshake
    /// of the HTTP version.
    Connected,
    /// The connection could not be brought up.
    ConnectFailed(String),
    /// The head of the response came, with this status, and with this
    /// value of its `close` header where it has one.
    Response { status: u16, close: Option<Vec<u8>> },
    /// The request could not be made out of what the configuration holds,
    /// so nothing was sent.
    RequestInvalid(String),
    /// The request could not be sent, or no response came.
    SendFailed(String),
    /// The body of the response was read to its end.
    Drained,
    /// The body of the response could not be read to its end.
    DrainFailed(String),
}

/// An [`Event`] with its texts as sequences.
pub enum EventView {
    Connected,
    ConnectFailed(Seq<char>),
    Response { status: u16, close: Option<Seq<u8>> },
    RequestInvalid(Seq<char>),
    SendFailed(Seq<char>),
    Drained,
    DrainFailed(Seq<char>),
}

impl View for Event {
    type V = EventView;

    open spec fn view(&self) -> EventView {
        match self {
            Event::Connected => EventView::Connected,
            Event::ConnectFailed(text) => EventView::ConnectFailed(text@),
            Event::Response { status, close } => EventView::Response {
                status: *status,
                close: match close {
                    Some(value) => Some(value@),
                    None => None,
                },
            },
            Event::RequestInvalid(text) => EventView::RequestInvalid(text@),
            Event::SendFailed(text) => EventView::SendFailed(text@),
            Event::Drained => EventView::Drained,
            Event::DrainFailed(text) => EventView::DrainFailed(text@),
        }
    }
}

/// What the worker asks for next.
#[derive(Debug)]
pub enum Action {
    /// Connect to the endpoint.
    Connect,
    /// Send the request over the connection.
    Send,
    /// Read the body of the response to its end, and show the response
    /// where `verbose` is set.
    Drain { verbose: bool },
    /// The cycle is over. It opened a connection or not, or ended in an
    /// error.
    Done(Result<bool, Error>),
}

/// An [`Action`] with its error as text.
pub enum ActionView {
    Connect,
    Send,
    Drain { verbose: bool },
    Done(Result<bool, ErrorView>),
}

impl View for Action {
    type V = ActionView;

    open spec fn view(&self) -> ActionView {
        match self {
            Action::Connect => ActionView::Connect,
            Action::Send => ActionView::Send,
            Action::Drain { verbose } => ActionView::Drain { verbose: *verbose },
            Action::Done(Ok(opened)) => ActionView::Done(Ok(*opened)),
            Action::Done(Err(err)) => ActionView::Done(Err(err@)),
        }
    }
}

/// How a cycle ended, with its error as text.
pub open spec fn outcome_view(outcome: Result<bool, Error>) -> Result<bool, ErrorView> {
    match outcome {
        Ok(opened) => Ok(opened),
        Err(err) => Err(err@),
    }
}

/// The state of a [`Sender`].
pub struct SenderView {
    pub config: ConfigView,
    /// The request that every cycle sends.
    pub request: RequestView,
    pub mode: HttpMode,
    /// Whether every request and response is shown.
    pub verbose: bool,
    /// Whether the connection is up.
    pub connected: bool,
    pub phase: Phase,
    /// Whether the cycle under way opened the connection.
    pub opened: bool,
    /// What the worker counted and has not handed over.
    pub local: StatsView,
    /// Whether the worker was told that the run is over.
    pub finished: bool,
}

impl SenderView {
    /// The first step of a cycle: to connect where the connection is down,
    /// to send where it is up.
    pub open spec fn begun(self) -> (SenderView, ActionView) {
        if self.connected {
            (SenderView { phase: Phase::Sending, opened: false, ..self }, ActionView::Send)
        } else {
            (SenderView { phase: Phase::Connecting, opened: false, ..self }, ActionView::Connect)
        }
    }

    /// The event answers what the worker asked for last.
    pub open spec fn expects(self, event: EventView) -> bool {
        match event {
            EventView::Connected | EventView::ConnectFailed(_) => self.phase == Phase::Connecting,
            EventView::Response { .. } | EventView::RequestInvalid(_) | EventView::SendFailed(_) =>
                self.phase == Phase::Sending,
            EventView::Drained | EventView::DrainFailed(_) => self.phase == Phase::Draining,
        }
    }

    /// The state after an event, and what to do next.
    ///
    /// A connection that came up is sent over at once. A response that
    /// asks to close drops the connection, whatever its status. A status
    /// outside 2xx ends the cycle in an HTTP error, and leaves the
    /// connection as it is; within 2xx the body is read. A failure to
    /// connect, to make the request, to send or to read ends the cycle in
    /// an I/O error; the last two drop the connection, the first two leave
    /// it as it is.
    pub open spec fn advanced(self, event: EventView) -> (SenderView, ActionView)
        recommends
            self.expects(event),
    {
        match event {
            EventView::Connected => (
                SenderView { connected: true, opened: true, phase: Phase::Sending, ..self },
                ActionView::Send,
            ),
            EventView::ConnectFailed(text) => (
                SenderView { phase: Phase::Idle, ..self },
                ActionView::Done(Err(ErrorView::IO(text))),
            ),
            EventView::Response { status, close } => {
                let connected = self.connected && !asks_to_close(close);
                if status_is_success(status) {
                    (
                        SenderView { connected, phase: Phase::Draining, ..self },
                        ActionView::Drain { verbose: self.verbose },
                    )
                } else {
                    (
                        SenderView { connected, phase: Phase::Idle, ..self },
                        ActionView::Done(Err(ErrorView::Http(status))),
                    )
                }
            },
            EventView::RequestInvalid(text) => (
                SenderView { phase: Phase::Idle, ..self },
                ActionView::Done(Err(ErrorView::IO(text))),
            ),
            EventView::SendFailed(text) => (
                SenderView { connected: false, phase: Phase::Idle, ..self },
                ActionView::Done(Err(ErrorView::IO(text))),
            ),
            EventView::Drained => (
                SenderView { phase: Phase::Idle, ..self },
                ActionView::Done(Ok(self.opened)),
            ),
            EventView::DrainFailed(text) => (
                SenderView { connected: false, phase: Phase::Idle, ..self },
                ActionView::Done(Err(ErrorView::IO(text))),
            ),
        }
    }
}

/// What a worker has counted after a cycle that ended in `outcome` and
/// took `latency`. During the warm-up nothing is counted. After it, a
/// success counts as an attempt, a success and a sample, and as a
/// connection where the cycle opened one; an error counts as an attempt
/// and a failure.
pub open spec fn recorded(
    local: StatsView,
    warming_up: bool,
    outcome: Result<bool, ErrorView>,
    latency: u128,
) -> StatsView {
    if warming_up {
        local
    } else {
        match outcome {
            Ok(opened) => if opened {
                local.with_success(latency).with_connection()
            } else {
                local.with_success(latency)
            },
            Err(_) => local.with_failure(),
        }
    }
}

/// What the collector of the run holds after a cycle that ended in
/// `outcome`: one more success or failure in the interval, warm-up or not,
/// and the error, where there is one, as the last error.
pub open spec fn noted(collector: CollectorView, outcome: Result<bool, ErrorView>) -> CollectorView {
    match outcome {
        Ok(_) => CollectorView {
            interval_successes: next_count(collector.interval_successes),
            ..collector
        },
        Err(err) => CollectorView {
            interval_failures: next_count(collector.interval_failures),
            last_error: Some(err),
            ..collector
        },
    }
}

/// A request is sent over a connection that is up, and over no other:
/// whenever the worker asks to send, its connection is up.
pub proof fn lemma_send_needs_connection(state: SenderView, event: EventView)
    requires
        state.expects(event),
    ensures
        state.begun().1 is Send ==> state.begun().0.connected,
        state.advanced(event).1 is Send ==> state.advanced(event).0.connected,
{
}

/// A cycle that is over leaves the worker between two cycles, and only a
/// cycle that is over does. A cycle reports a new connection only where
/// it opened one, and an HTTP error only for a status outside 2xx.
pub proof fn lemma_cycle_ends_idle(state: SenderView, event: EventView)
    requires
        state.expects(event),
    ensures
        state.advanced(event).1 is Done <==> state.advanced(event).0.phase == Phase::Idle,
        state.begun().0.phase != Phase::Idle,
        state.advanced(event).1 == ActionView::Done(Ok(true)) ==> state.opened,
        forall|status: u16|
            state.advanced(event).1 == ActionView::Done(Err(ErrorView::Http(status)))
                ==> !status_is_success(status),
{
}

/// Whatever a worker counts, its counts stay consistent: every attempt is
/// a success or a failure, and no more connections were opened than
/// attempts made. During the warm-up it counts nothing.
pub proof fn lemma_recorded_consistent(
    local: StatsView,
    warming_up: bool,
    outcome: Result<bool, ErrorView>,
    latency: u128,
)
    requires
        local.consistent(),
    ensures
        recorded(local, warming_up, outcome, latency).consistent(),
        warming_up ==> recorded(local, warming_up, outcome, latency) == local,
        StatsView::zero().consistent(),
{
    crate::collector::lemma_sum_push(local.latencies, latency);
}

/// Whether the value of a `close` header is `close`.
pub fn is_close(close: &Option<Vec<u8>>) -> (asked: bool)
    ensures
        asked == asks_to_close(
            match close {
                Some(value) => Some(value@),
                None => None,
            },
        ),
{
    match close {
        Some(value) => {
            let asked = value.len() == 5 && value[0] == 99 && value[1] == 108 && value[2] == 111
                && value[3] == 115 && value[4] == 101;
            assert(asked == (value@ =~= close_value()));
            asked
        },
        None => false,
    }
}

fn clone_headers(headers: &Vec<(String, String)>) -> (copy: Vec<(String, String)>)
    ensures
        headers_view(copy@) == headers_view(headers@),
{
    let mut copy: Vec<(String, String)> = Vec::new();
    let mut i: usize = 0;
    while i < headers.len()
        invariant
            i <= headers.len(),
            copy@.len() == i,
            forall|k: int|
                0 <= k < i ==> copy@[k].0@ == headers@[k].0@ && copy@[k].1@ == headers@[k].1@,
        decreases headers.len() - i,
    {
        copy.push((headers[i].0.clone(), headers[i].1.clone()));
        i = i + 1;
    }
    copy
}

fn clone_bytes(bytes: &Vec<u8>) -> (copy: Vec<u8>)
    ensures
        copy@ == bytes@,
{
    let mut copy: Vec<u8> = Vec::new();
    let mut i: usize = 0;
    while i < bytes.len()
        invariant
            i <= bytes.len(),
            copy@.len() == i,
            forall|k: int| 0 <= k < i ==> copy@[k] == bytes@[k],
        decreases bytes.len() - i,
    {
        copy.push(bytes[i]);
        i = i + 1;
    }
    assert(copy@ =~= bytes@);
    copy
}

/// Makes the request of a configuration.
pub fn build_request(config: &Config) -> (request: Request)
    ensures
        request@ == request_of(config@),
{
    let mut headers: Vec<(String, String)> = Vec::new();
    headers.push((String::from_str("Host"), config.host_hdr.clone()));
    headers.push((String::from_str("User-Agent"), String::from_str("apib")));
    let mut rest = clone_headers(&config.headers);
    headers.append(&mut rest);
    assert(headers_view(headers@) =~= seq![
        ("Host"@, config.host_hdr@),
        ("User-Agent"@, "apib"@),
    ] + headers_view(config.headers@));
    Request {
        method: config.method.clone(),
        uri: config.path.clone(),
        headers,
        body: clone_bytes(&config.body),
    }
}

/// A worker: a configuration, a connection, the request made from the
/// configuration once, and the counts of its own.
pub struct Sender {
    config: Arc<Config>,
    connection: Connection,
    request: Request,
    verbose: bool,
    phase: Phase,
    opened: bool,
    local: LocalCollector,
    finished: bool,
}

impl View for Sender {
    type V = SenderView;

    closed spec fn view(&self) -> SenderView {
        SenderView {
            config: self.config@,
            request: self.request@,
            mode: self.connection.mode(),
            verbose: self.verbose,
            connected: self.connection.is_connected(),
            phase: self.phase,
            opened: self.opened,
            local: self.local@,
            finished: self.finished,
        }
    }
}

impl Sender {
    /// The request is the one of the configuration, and the counts are
    /// consistent and fit their integers.
    pub open spec fn wf(&self) -> bool {
        &&& self@.request == request_of(self@.config)
        &&& self@.local.consistent()
        &&& self@.local.bounded()
    }

    /// A worker that sends what `config` says over `connection`, and has
    /// counted nothing.
    pub fn new(config: Arc<Config>, connection: Connection) -> (sender: Sender)
        ensures
            sender@ == (SenderView {
                config: config@,
                request: request_of(config@),
                mode: connection.mode(),
                verbose: config@.verbose,
                connected: connection.is_connected(),
                phase: Phase::Idle,
                opened: false,
                local: StatsView::zero(),
                finished: false,
            }),
            sender.wf(),
    {
        let request = build_request(&config);
        let verbose = config.verbose;
        Sender {
            config,
            connection,
            request,
            verbose,
            phase: Phase::Idle,
            opened: false,
            local: LocalCollector::new(),
            finished: false,
        }
    }

    /// The configuration.
    pub fn config(&self) -> (config: &Config)
        ensures
            config@ == self@.config,
    {
        &self.config
    }

    /// Chooses whether every request and response is shown, whatever the
    /// configuration says.
    pub fn set_verbose(&mut self, verbose: bool)
        ensures
            final(self)@ == (SenderView { verbose, ..old(self)@ }),
            final(self).wf() == old(self).wf(),
    {
        self.verbose = verbose;
    }

    /// Whether every request and response is shown.
    pub fn verbose(&self) -> (verbose: bool)
        ensures
            verbose == self@.verbose,
    {
        self.verbose
    }

    /// The request that every cycle sends.
    pub fn request(&self) -> (request: &Request)
        ensures
            request@ == self@.request,
    {
        &self.request
    }

    /// The version of HTTP that the connection speaks.
    pub fn http_mode(&self) -> (mode: HttpMode)
        ensures
            mode == self@.mode,
    {
        self.connection.http_mode()
    }

    /// Where and how to connect.
    pub fn endpoint(&self) -> (endpoint: Endpoint)
        ensures
            endpoint@ == endpoint_of(self@.config),
    {
        let server_name = if self.config.tls.is_some() {
            Some(self.config.host.clone())
        } else {
            None
        };
        Endpoint {
            host: self.config.host.clone(),
            port: self.config.port,
            nodelay: true,
            tls: self.config.tls,
            server_name,
        }
    }

    /// Whether the connection is up.
    pub fn connected(&self) -> (up: bool)
        ensures
            up == self@.connected,
    {
        self.connection.connected()
    }

    /// How far the cycle under way has come.
    pub fn phase(&self) -> (phase: Phase)
        ensures
            phase == self@.phase,
    {
        self.phase
    }

    /// Whether the worker was told that the run is over.
    pub fn finished(&self) -> (finished: bool)
        ensures
            finished == self@.finished,
    {
        self.finished
    }

    /// What the worker counted and has not handed over.
    pub fn local(&self) -> (local: &LocalCollector)
        ensures
            local@ == self@.local,
    {
        &self.local
    }

    /// Begins a cycle. A worker that was told that the run is over begins
    /// none.
    pub fn send(&mut self) -> (action: Action)
        requires
            old(self)@.phase == Phase::Idle,
            !old(self)@.finished,
        ensures
            (final(self)@, action@) == old(self)@.begun(),
            final(self).wf() == old(self).wf(),
    {
        self.opened = false;
        if self.connection.connected() {
            self.phase = Phase::Sending;
            Action::Send
        } else {
            self.phase = Phase::Connecting;
            Action::Connect
        }
    }

    /// Whether `event` answers what the worker asked for last.
    pub fn expects(&self, event: &Event) -> (expected: bool)
        ensures
            expected == self@.expects(event@),
    {
        match event {
            Event::Connected => self.phase == Phase::Connecting,
            Event::ConnectFailed(_) => self.phase == Phase::Connecting,
            Event::Response { .. } => self.phase == Phase::Sending,
            Event::RequestInvalid(_) => self.phase == Phase::Sending,
            Event::SendFailed(_) => self.phase == Phase::Sending,
            Event::Drained => self.phase == Phase::Draining,
            Event::DrainFailed(_) => self.phase == Phase::Draining,
        }
    }

    /// Takes the cycle one step further: from how what was asked for went,
    /// to what is asked for next.
    pub fn advance(&mut self, event: Event) -> (action: Action)
        requires
            old(self)@.expects(event@),
        ensures
            (final(self)@, action@) == old(self)@.advanced(event@),
            final(self).wf() == old(self).wf(),
    {
        match event {
            Event::Connected => {
                self.connection.connect();
                self.opened = true;
                self.phase = Phase::Sending;
                Action::Send
            },
            Event::ConnectFailed(text) => {
                self.phase = Phase::Idle;
                Action::Done(Err(Error::IO(text)))
            },
            Event::Response { status, close } => {
                if is_close(&close) {
                    self.connection.disconnect();
                }
                if 200 <= status && status < 300 {
                    self.phase = Phase::Draining;
                    Action::Drain { verbose: self.verbose }
                } else {
                    self.phase = Phase::Idle;
                    Action::Done(Err(Error::Http(status)))
                }
            },
            Event::RequestInvalid(text) => {
                self.phase = Phase::Idle;
                Action::Done(Err(Error::IO(text)))
            },
            Event::SendFailed(text) => {
                self.connection.disconnect();
                self.phase = Phase::Idle;
                Action::Done(Err(Error::IO(text)))
            },
            Event::Drained => {
                self.phase = Phase::Idle;
                Action::Done(Ok(self.opened))
            },
            Event::DrainFailed(text) => {
                self.connection.disconnect();
                self.phase = Phase::Idle;
                Action::Done(Err(Error::IO(text)))
            },
        }
    }
}

/// How a cycle ended and how long it took.
pub struct Turn {
    pub outcome: Result<bool, ErrorView>,
    pub latency: u128,
}

/// What a worker has counted after the cycles `turns`, one after the other,
/// none of them during the warm-up.
pub open spec fn recorded_all(local: StatsView, turns: Seq<Turn>) -> StatsView
    decreases turns.len(),
{
    if turns.len() == 0 {
        local
    } else {
        recorded(
            recorded_all(local, turns.drop_last()),
            false,
            turns.last().outcome,
            turns.last().latency,
        )
    }
}

/// A worker whose cycles all succeed counts no failure: from nothing, after
/// `turns` cycles it has as many attempts and successes as cycles, one
/// sample for each, and no failure.
pub proof fn lemma_run_of_successes(turns: Seq<Turn>)
    requires
        forall|i: int| 0 <= i < turns.len() ==> (#[trigger] turns[i]).outcome is Ok,
    ensures
        recorded_all(StatsView::zero(), turns).failures == 0,
        recorded_all(StatsView::zero(), turns).attempts == turns.len(),
        recorded_all(StatsView::zero(), turns).successes == turns.len(),
        recorded_all(StatsView::zero(), turns).latencies.len() == turns.len(),
        recorded_all(StatsView::zero(), turns).consistent(),
    decreases turns.len(),
{
    if turns.len() > 0 {
        lemma_run_of_successes(turns.drop_last());
        lemma_recorded_consistent(
            recorded_all(StatsView::zero(), turns.drop_last()),
            false,
            turns.last().outcome,
            turns.last().latency,
        );
    }
}

/// A worker whose cycles all end in an error counts no success: from
/// nothing, after `turns` cycles it has as many attempts and failures as
/// cycles, no success, no sample, no latency and no connection.
pub proof fn lemma_run_of_errors(turns: Seq<Turn>)
    requires
        forall|i: int| 0 <= i < turns.len() ==> (#[trigger] turns[i]).outcome is Err,
    ensures
        recorded_all(StatsView::zero(), turns).successes == 0,
        recorded_all(StatsView::zero(), turns).attempts == turns.len(),
        recorded_all(StatsView::zero(), turns).failures == turns.len(),
        recorded_all(StatsView::zero(), turns).latencies.len() == 0,
        recorded_all(StatsView::zero(), turns).total_latency == 0,
        recorded_all(StatsView::zero(), turns).connections_opened == 0,
    decreases turns.len(),
{
    if turns.len() > 0 {
        lemma_run_of_errors(turns.drop_last());
    }
}

/// An error that a cycle ended in is the last error of the collector until
/// the next tick takes it, whatever was there before.
pub proof fn lemma_error_is_noted(collector: CollectorView, err: ErrorView)
    ensures
        noted(collector, Err(err)).last_error == Some(err),
        noted(collector, Err(err)).stopped == collector.stopped,
        noted(collector, Err(err)).stats == collector.stats,
{
}

/// Whether a cycle that ended in `outcome` can be counted: during the
/// warm-up always; after it, where the attempts and, for a success that
/// began at `start` and ended at `end`, the cumulative latency stay within
/// their integers, and the success did not end before it began.
pub open spec fn has_room(
    local: StatsView,
    warming_up: bool,
    outcome: Result<bool, ErrorView>,
    start: u128,
    end: u128,
) -> bool {
    warming_up || match outcome {
        Ok(_) => start <= end && local.attempts < u32::MAX && local.total_latency + (end - start)
            <= u128::MAX,
        Err(_) => local.attempts < u32::MAX,
    }
}

impl Sender {
    /// Whether `do_loop` can count a cycle that ended in `outcome`.
    pub fn can_record(
        &self,
        collector: &Collector,
        outcome: &Result<bool, Error>,
        start: u128,
        end: u128,
    ) -> (room: bool)
        ensures
            room == has_room(
                self@.local,
                collector@.warming_up,
                outcome_view(*outcome),
                start,
                end,
            ),
    {
        if collector.warming_up() {
            return true;
        }
        proof {
            self.local.lemma_bounded();
        }
        match outcome {
            Ok(_) => if start <= end {
                self.local.has_room(end - start)
            } else {
                false
            },
            Err(_) => self.local.has_room(0),
        }
    }

    /// One turn of the loop, after the cycle that began at `start` and
    /// ended at `end` in `outcome`: counts the cycle, notes it in the
    /// collector of the run, and says whether to begin another. There is
    /// no other once the run is over.
    pub fn do_loop(
        &mut self,
        collector: &mut Collector,
        outcome: Result<bool, Error>,
        start: u128,
        end: u128,
    ) -> (again: bool)
        requires
            old(self).wf(),
            old(self)@.phase == Phase::Idle,
            !old(self)@.finished,
            has_room(
                old(self)@.local,
                old(collector)@.warming_up,
                outcome_view(outcome),
                start,
                end,
            ),
        ensures
            final(self)@ == (SenderView {
                local: recorded(
                    old(self)@.local,
                    old(collector)@.warming_up,
                    outcome_view(outcome),
                    (end - start) as u128,
                ),
                finished: old(collector)@.stopped,
                ..old(self)@
            }),
            final(collector)@ == noted(old(collector)@, outcome_view(outcome)),
            again == !old(collector)@.stopped,
            final(self).wf(),
    {
        let counted = !collector.warming_up();
        let stopped = match outcome {
            Ok(connection_opened) => {
                let stopped = collector.success(&mut self.local, start, end);
                if connection_opened && counted {
                    Collector::connection_opened(&mut self.local);
                }
                stopped
            },
            Err(err) => collector.failure(&mut self.local, err),
        };
        self.finished = stopped;
        !stopped
    }

    /// The worker ends: what it counted goes into the collector of the
    /// run. The worker is used up by this, so it happens once.
    pub fn finish(self, collector: &mut Collector)
        requires
            self.wf(),
            old(collector).wf(),
            old(collector)@.stats.merged(self@.local).bounded(),
        ensures
            final(collector)@ == (CollectorView {
                stats: old(collector)@.stats.merged(self@.local),
                ..old(collector)@
            }),
            final(collector).wf(),
    {
        collector.collect(self.local);
    }
}

/// A worker for `config` whose connection, down as yet, is of HTTP/2
/// where `http2` is set and of HTTP/1.1 where not.
pub fn new_sender(config: Arc<Config>, http2: bool) -> (sender: Sender)
    ensures
        sender@ == (SenderView {
            config: config@,
            request: request_of(config@),
            mode: if http2 {
                HttpMode::Http2
            } else {
                HttpMode::Http1
            },
            verbose: config@.verbose,
            connected: false,
            phase: Phase::Idle,
            opened: false,
            local: StatsView::zero(),
            finished: false,
        }),
        sender.wf(),
{
    if http2 {
        Sender::new(config, Connection::new(HttpMode::Http2))
    } else {
        Sender::new(config, Connection::new(HttpMode::Http1))
    }
}

} // verus!
