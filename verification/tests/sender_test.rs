use apib::collector::Collector;
use apib::config::{Builder, Config, HttpMode, TlsVerification};
use apib::connector::{Connection, Http1Connection, Http2Connection};
use apib::counting_connection::CountingConnection;
use apib::error::Error;
use apib::sender::{build_request, is_close, new_sender, Action, Event, Phase, Sender};
use apib::service::handle;
use std::sync::Arc;

const PORT: u16 = 18080;

/// Plays the part of the network and of the target: brings the connection
/// up where asked to, hands the request to the target's routing and the
/// response back, and reads the body to its end. Returns how the cycle
/// ended, with the body that the target sent.
fn exchange(sender: &mut Sender, wire: &mut Vec<CountingConnection>) -> (Result<bool, Error>, Vec<u8>) {
    let mut body = Vec::new();
    let mut action = sender.send();
    loop {
        let event = match action {
            Action::Connect => {
                let endpoint = sender.endpoint();
                assert_eq!(endpoint.host, "127.0.0.1");
                assert_eq!(endpoint.port, PORT);
                assert!(endpoint.nodelay);
                wire.push(CountingConnection::new());
                Event::Connected
            }
            Action::Send => {
                let request = sender.request();
                let counter = wire.last_mut().expect("sent without a connection");
                counter.poll_write(request.method.len() + request.uri.len() + request.body.len());
                let response = handle(&request.method, &request.uri, request.body.clone());
                counter.poll_read(0, 17 + response.body.len());
                body = response.body;
                Event::Response {
                    status: response.status,
                    close: None,
                }
            }
            Action::Drain { verbose } => {
                assert_eq!(verbose, sender.config().verbose);
                Event::Drained
            }
            Action::Done(outcome) => return (outcome, body),
        };
        assert!(sender.expects(&event));
        action = sender.advance(event);
    }
}

fn config_for(url: &str) -> Arc<Config> {
    Arc::new(
        Builder::new()
            .set_url(url)
            .build(None)
            .expect("Error building config"),
    )
}

#[test]
fn sender_test_test_get() {
    let config = config_for(&format!("http://127.0.0.1:{}/hello", PORT));
    let mut sender = new_sender(config, false);
    let mut wire = Vec::new();
    let (outcome, body) = exchange(&mut sender, &mut wire);
    outcome.expect("Expected no error");
    assert_eq!(body, b"Hello, World!".to_vec());
}

#[test]
fn test_get_https() {
    let config = Arc::new(
        Builder::new()
            .set_url(&format!("https://127.0.0.1:{}/hello", PORT))
            .set_tls_no_verify(true)
            .build(None)
            .expect("Error building config"),
    );
    let mut sender = new_sender(config, false);
    let endpoint = sender.endpoint();
    assert_eq!(endpoint.tls, Some(TlsVerification::AcceptAny));
    assert_eq!(endpoint.server_name.as_deref(), Some("127.0.0.1"));
    let mut wire = Vec::new();
    let (outcome, _) = exchange(&mut sender, &mut wire);
    outcome.expect("Expected no error");
}

#[test]
fn test_get_http2_forced() {
    let config = Arc::new(
        Builder::new()
            .set_url(&format!("http://127.0.0.1:{}/hello", PORT))
            .set_http2(true)
            .build(None)
            .expect("Error building config"),
    );
    assert_eq!(config.http_mode, HttpMode::Http2);
    let mut sender = new_sender(config, true);
    let mut wire = Vec::new();
    let (outcome, _) = exchange(&mut sender, &mut wire);
    outcome.expect("Expected no error");
}

#[test]
fn test_post() {
    let config = Arc::new(
        Builder::new()
            .set_url(&format!("http://127.0.0.1:{}/echo", PORT))
            .set_method("POST")
            .set_body_text("Hello, Server!")
            .build(None)
            .expect("Error building config"),
    );
    let mut sender = new_sender(config, false);
    let mut wire = Vec::new();
    let (outcome, body) = exchange(&mut sender, &mut wire);
    outcome.expect("Expected no error");
    assert_eq!(body, b"Hello, Server!".to_vec());
}

#[test]
fn sender_test_test_not_found() {
    let config = config_for(&format!("http://127.0.0.1:{}/NOTFOUND", PORT));
    let mut sender = new_sender(config, false);
    let mut wire = Vec::new();
    let (outcome, _) = exchange(&mut sender, &mut wire);
    assert!(outcome.is_err());
    assert_eq!(outcome, Err(Error::Http(404)));
}

#[test]
fn test_loops() {
    let config = config_for(&format!("http://127.0.0.1:{}/hello", PORT));
    let mut collector = Collector::new();
    let start: u128 = 1_000_000_000;
    let mut now = start;
    let mut wire = Vec::new();

    // Run a small number of workers, turn by turn, and stop the run after
    // a hundred cycles of each.
    let mut senders = Vec::new();
    for _ in 0..4 {
        senders.push(new_sender(Arc::clone(&config), false));
    }
    let mut running = senders.len();
    let mut cycles = 0;
    while running > 0 {
        for sender in senders.iter_mut() {
            if sender.finished() {
                continue;
            }
            let began = now;
            let (outcome, _) = exchange(sender, &mut wire);
            now += 250_000;
            assert!(sender.can_record(&collector, &outcome, began, now));
            if !sender.do_loop(&mut collector, outcome, began, now) {
                running -= 1;
            }
        }
        cycles += 1;
        if cycles == 100 {
            collector.stop();
        }
    }
    for sender in senders {
        assert!(collector.has_room_for(sender.local()));
        sender.finish(&mut collector);
    }
    for counter in wire {
        counter.drop(&mut collector);
    }

    // Expect reasonable results. This will be wrong if everything errors.
    let results = collector.get_results(start, now);
    assert!(results.attempts > 0);
    assert_eq!(results.successes, results.attempts);
    assert_eq!(results.failures, 0);
    assert!(results.throughput > 0);
    assert!(results.latency_avg > 0);
    assert!(results.latency_pct[0] <= results.latency_pct[100]);
    assert!(results.bytes_sent > 0);
    assert!(results.bytes_received > 0);
    assert_eq!(results.attempts, 4 * 101);
    assert_eq!(results.connections_opened, 4);
    assert_eq!(results.latency_avg, 250_000);
}

#[test]
fn request_is_made_from_the_configuration() {
    let config = Builder::new()
        .set_url("http://example.com:8080/echo?loud=1")
        .set_body_text("Hello, Server!")
        .add_header("X-One", "1")
        .add_header("Accept", "*/*")
        .build(None)
        .expect("Error building config");
    let request = build_request(&config);
    assert_eq!(request.method, "POST");
    assert_eq!(request.uri, "/echo?loud=1");
    assert_eq!(
        request.headers,
        vec![
            ("Host".to_string(), "example.com:8080".to_string()),
            ("User-Agent".to_string(), "apib".to_string()),
            ("X-One".to_string(), "1".to_string()),
            ("Accept".to_string(), "*/*".to_string()),
        ]
    );
    assert_eq!(request.body, b"Hello, Server!".to_vec());
    let again = build_request(&config);
    assert_eq!(again.method, request.method);
    assert_eq!(again.uri, request.uri);
    assert_eq!(again.headers, request.headers);
    assert_eq!(again.body, request.body);
    let sender = new_sender(Arc::new(config), false);
    assert_eq!(sender.request().headers, request.headers);
}

#[test]
fn connection_is_kept_between_cycles() {
    let config = config_for("http://127.0.0.1:18080/hello");
    let mut sender = new_sender(config, false);
    assert!(!sender.connected());
    assert_eq!(sender.phase(), Phase::Idle);
    assert!(matches!(sender.send(), Action::Connect));
    assert_eq!(sender.phase(), Phase::Connecting);
    assert!(!sender.expects(&Event::Drained));
    assert!(!sender.expects(&Event::SendFailed("x".to_string())));
    assert!(matches!(sender.advance(Event::Connected), Action::Send));
    assert!(sender.connected());
    assert_eq!(sender.phase(), Phase::Sending);
    let drain = sender.advance(Event::Response {
        status: 204,
        close: None,
    });
    assert!(matches!(drain, Action::Drain { verbose: false }));
    assert_eq!(sender.phase(), Phase::Draining);
    match sender.advance(Event::Drained) {
        Action::Done(Ok(opened)) => assert!(opened),
        other => panic!("unexpected action {:?}", other),
    }
    assert_eq!(sender.phase(), Phase::Idle);
    // The second cycle finds the connection up.
    assert!(matches!(sender.send(), Action::Send));
    sender.advance(Event::Response {
        status: 200,
        close: None,
    });
    match sender.advance(Event::Drained) {
        Action::Done(Ok(opened)) => assert!(!opened),
        other => panic!("unexpected action {:?}", other),
    }
    assert!(sender.connected());
}

#[test]
fn close_header_drops_the_connection() {
    let config = config_for("http://127.0.0.1:18080/hello");
    let mut sender = new_sender(config, false);
    sender.send();
    sender.advance(Event::Connected);
    let action = sender.advance(Event::Response {
        status: 200,
        close: Some(b"close".to_vec()),
    });
    assert!(matches!(action, Action::Drain { .. }));
    assert!(!sender.connected());
    assert!(matches!(
        sender.advance(Event::Drained),
        Action::Done(Ok(true))
    ));
    // The next cycle connects again.
    assert!(matches!(sender.send(), Action::Connect));
    sender.advance(Event::Connected);
    // Only the value `close`, letter for letter, asks for it.
    sender.advance(Event::Response {
        status: 200,
        close: Some(b"Close".to_vec()),
    });
    assert!(sender.connected());
    sender.advance(Event::Drained);
    assert!(is_close(&Some(b"close".to_vec())));
    assert!(!is_close(&Some(b"Close".to_vec())));
    assert!(!is_close(&Some(b"close ".to_vec())));
    assert!(!is_close(&Some(b"clos".to_vec())));
    assert!(!is_close(&Some(Vec::new())));
    assert!(!is_close(&None));
}

#[test]
fn http_error_keeps_the_connection() {
    let config = config_for("http://127.0.0.1:18080/hello");
    let mut sender = new_sender(config, false);
    sender.send();
    sender.advance(Event::Connected);
    for status in [100u16, 199, 300, 301, 404, 500, 599] {
        let action = sender.advance(Event::Response {
            status,
            close: None,
        });
        match action {
            Action::Done(Err(Error::Http(s))) => assert_eq!(s, status),
            other => panic!("unexpected action {:?}", other),
        }
        assert!(sender.connected());
        assert!(matches!(sender.send(), Action::Send));
    }
    for status in [200u16, 201, 299] {
        let action = sender.advance(Event::Response {
            status,
            close: None,
        });
        assert!(matches!(action, Action::Drain { .. }));
        sender.advance(Event::Drained);
        sender.send();
    }
    // An error that also asks to close does drop the connection.
    let action = sender.advance(Event::Response {
        status: 503,
        close: Some(b"close".to_vec()),
    });
    assert!(matches!(action, Action::Done(Err(Error::Http(503)))));
    assert!(!sender.connected());
}

#[test]
fn io_errors_drop_the_connection() {
    let config = config_for("http://127.0.0.1:18080/hello");
    let mut sender = new_sender(config, false);
    sender.send();
    match sender.advance(Event::ConnectFailed("refused".to_string())) {
        Action::Done(Err(err)) => {
            assert_eq!(err, Error::IO("refused".to_string()));
            assert_eq!(err.to_string(), "HTTP error: refused");
        }
        other => panic!("unexpected action {:?}", other),
    }
    assert!(!sender.connected());
    sender.send();
    sender.advance(Event::Connected);
    match sender.advance(Event::SendFailed("reset".to_string())) {
        Action::Done(Err(err)) => assert_eq!(err, Error::IO("reset".to_string())),
        other => panic!("unexpected action {:?}", other),
    }
    assert!(!sender.connected());
    assert!(matches!(sender.send(), Action::Connect));
    sender.advance(Event::Connected);
    sender.advance(Event::Response {
        status: 200,
        close: None,
    });
    match sender.advance(Event::DrainFailed("cut".to_string())) {
        Action::Done(Err(err)) => assert_eq!(err, Error::IO("cut".to_string())),
        other => panic!("unexpected action {:?}", other),
    }
    assert!(!sender.connected());
    assert_eq!(sender.phase(), Phase::Idle);
}

#[test]
fn verbose_is_handed_to_the_drain() {
    let config = Arc::new(
        Builder::new()
            .set_url("http://127.0.0.1:18080/hello")
            .set_verbose(true)
            .build(None)
            .expect("Error building config"),
    );
    let mut sender = new_sender(config, false);
    sender.send();
    sender.advance(Event::Connected);
    let action = sender.advance(Event::Response {
        status: 200,
        close: None,
    });
    assert!(matches!(action, Action::Drain { verbose: true }));
}

#[test]
fn connections_of_both_versions_go_up_and_down() {
    let mut one = Http1Connection::new();
    assert!(!one.connected());
    one.connect();
    assert!(one.connected());
    one.disconnect();
    assert!(!one.connected());
    let mut two = Http2Connection::new();
    assert!(!two.connected());
    two.connect();
    assert!(two.connected());
    two.disconnect();
    assert!(!two.connected());
    let mut either = Connection::new(HttpMode::Http2);
    assert_eq!(either.http_mode(), HttpMode::Http2);
    assert!(!either.connected());
    either.connect();
    assert!(either.connected());
    assert_eq!(either.http_mode(), HttpMode::Http2);
    either.disconnect();
    assert!(!either.connected());
    assert_eq!(Connection::new(HttpMode::Http1).http_mode(), HttpMode::Http1);
    let config = config_for("http://127.0.0.1:18080/hello");
    let mut up = Connection::Http1(Http1Connection::new());
    up.connect();
    let mut sender = Sender::new(config, up);
    assert!(sender.connected());
    assert!(matches!(sender.send(), Action::Send));
}

#[test]
fn bytes_are_counted_in_both_directions() {
    let mut counter = CountingConnection::new();
    assert_eq!(counter.bytes_sent(), 0);
    assert_eq!(counter.bytes_received(), 0);
    counter.poll_write(100);
    counter.poll_write(0);
    counter.poll_write(23);
    counter.poll_read(10, 50);
    counter.poll_read(50, 50);
    counter.poll_read(0, 7);
    assert_eq!(counter.bytes_sent(), 123);
    assert_eq!(counter.bytes_received(), 47);
    let mut collector = Collector::new();
    counter.drop(&mut collector);
    let results = collector.get_results(0, 1_000_000_000);
    assert_eq!(results.bytes_sent, 123);
    assert_eq!(results.bytes_received, 47);
}

#[test]
fn verbose_can_be_set_on_the_sender() {
    let config = config_for("http://127.0.0.1:18080/hello");
    let mut sender = new_sender(config, false);
    assert!(!sender.verbose());
    sender.set_verbose(true);
    assert!(sender.verbose());
    sender.send();
    sender.advance(Event::Connected);
    let action = sender.advance(Event::Response {
        status: 200,
        close: None,
    });
    assert!(matches!(action, Action::Drain { verbose: true }));
}

#[test]
fn counts_need_room() {
    let config = config_for("http://127.0.0.1:18080/hello");
    let sender = new_sender(config, false);
    let mut collector = Collector::new();
    assert!(sender.can_record(&collector, &Ok(true), 5, 5));
    assert!(sender.can_record(&collector, &Ok(false), 0, u128::MAX));
    // A success that ends before it began cannot be counted.
    assert!(!sender.can_record(&collector, &Ok(true), 6, 5));
    assert!(sender.can_record(&collector, &Err(Error::Http(500)), 6, 5));
    // During the warm-up nothing is counted, so anything goes.
    collector.set_warming_up(true);
    assert!(sender.can_record(&collector, &Ok(true), 6, 5));
}

#[test]
fn warm_up_cycle_counts_no_connection() {
    let config = config_for("http://127.0.0.1:18080/hello");
    let mut sender = new_sender(config, false);
    let mut collector = Collector::new();
    collector.set_warming_up(true);
    assert!(sender.do_loop(&mut collector, Ok(true), 0, 10));
    assert!(sender.do_loop(&mut collector, Err(Error::Http(500)), 0, 10));
    collector.set_warming_up(false);
    assert!(sender.do_loop(&mut collector, Ok(true), 0, 30));
    assert!(sender.do_loop(&mut collector, Ok(false), 0, 50));
    assert!(sender.do_loop(&mut collector, Err(Error::IO("reset".to_string())), 0, 70));
    collector.stop();
    assert!(!sender.do_loop(&mut collector, Ok(false), 0, 40));
    assert!(sender.finished());
    let tick = collector.write_tick(1_000_000_000, 0, 0, 1_000_000_000);
    // The interval saw every cycle, warm-up or not.
    assert_eq!(tick.throughput, 4_000);
    assert_eq!(tick.failures, 2);
    assert_eq!(tick.error, Some(Error::IO("reset".to_string())));
    sender.finish(&mut collector);
    let results = collector.get_results(0, 1_000_000_000);
    assert_eq!(results.attempts, 4);
    assert_eq!(results.successes, 3);
    assert_eq!(results.failures, 1);
    assert_eq!(results.connections_opened, 1);
    assert_eq!(results.latency_avg, 40);
    assert_eq!(results.latency_pct[0], 30);
    assert_eq!(results.latency_pct[100], 50);
}

#[test]
fn request_that_cannot_be_made_keeps_the_connection() {
    let config = config_for("http://127.0.0.1:18080/hello");
    let mut sender = new_sender(config, false);
    sender.send();
    sender.advance(Event::Connected);
    assert!(sender.expects(&Event::RequestInvalid("bad header".to_string())));
    match sender.advance(Event::RequestInvalid("bad header".to_string())) {
        Action::Done(Err(err)) => assert_eq!(err, Error::IO("bad header".to_string())),
        other => panic!("unexpected action {:?}", other),
    }
    assert!(sender.connected());
    assert_eq!(sender.phase(), Phase::Idle);
    assert!(!sender.expects(&Event::RequestInvalid("bad header".to_string())));
    // The next cycle sends over the connection that is still up.
    assert!(matches!(sender.send(), Action::Send));
}

#[test]
fn sender_tells_its_version() {
    let config = Arc::new(
        Builder::new()
            .set_url("http://127.0.0.1:18080/hello")
            .set_http2(true)
            .build(None)
            .expect("Error building config"),
    );
    // The flag decides, whatever the configuration says.
    assert_eq!(new_sender(Arc::clone(&config), false).http_mode(), HttpMode::Http1);
    assert_eq!(new_sender(Arc::clone(&config), true).http_mode(), HttpMode::Http2);
    let sender = Sender::new(config, Connection::Http2(Http2Connection::new()));
    assert_eq!(sender.http_mode(), HttpMode::Http2);
}
