use irontray::config::httpconfig::HttpConfig;
use irontray::http::assembler::ReadOutcome;
use irontray::http::connection::{
    ConnectionAction, ConnectionHandler, ConnectionState, FileOutcome,
};
use irontray::http::request::HttpMethod;
use irontray::http::response::HttpStatus;

fn config() -> HttpConfig {
    HttpConfig::new_defaults("/srv/www".to_string()).unwrap()
}

fn read(handler: &mut ConnectionHandler, bytes: &[u8]) -> ConnectionAction {
    handler.on_read(bytes, ReadOutcome::Read(bytes.len()))
}

#[test]
fn a_request_is_served() {
    let config = config();
    let mut handler = ConnectionHandler::new(&config);
    assert_eq!(handler.state(), ConnectionState::AwaitingHeaders);
    assert!(handler.request().is_none());

    assert!(matches!(read(&mut handler, b"GET //docs/a.html/ HT"), ConnectionAction::Read));
    assert_eq!(handler.state(), ConnectionState::AwaitingHeaders);

    match read(&mut handler, b"TP/1.1\r\nHost: a\r\n\r\n") {
        ConnectionAction::Resolve(query) => {
            assert_eq!(query.root_path, "/srv/www");
            assert_eq!(query.path, "docs/a.html");
            assert_eq!(query.index, "index.html");
        }
        _ => panic!("expected a look for the file"),
    }
    assert_eq!(handler.state(), ConnectionState::Parsed);
    let request = handler.request().as_ref().unwrap();
    assert_eq!(request.method, HttpMethod::GET);
    assert_eq!(request.path, "//docs/a.html/");
    assert_eq!(request.host, "a");

    match handler.on_resolved(FileOutcome::Found("<h1>hi</h1>".to_string())) {
        ConnectionAction::Write(response) => {
            assert_eq!(response.status(), HttpStatus::OK);
            assert_eq!(
                response.to_string(),
                "HTTP/1.1 200 OK\r\nContent-Type: text/html\r\nContent-Length: 11\r\n\r\n<h1>hi</h1>"
            );
        }
        _ => panic!("expected a write"),
    }
    assert_eq!(handler.state(), ConnectionState::Responding);

    assert!(matches!(handler.on_written(true), ConnectionAction::Close));
    assert_eq!(handler.state(), ConnectionState::Closed);
}

fn parsed(config: &HttpConfig) -> ConnectionHandler<'_> {
    let mut handler = ConnectionHandler::new(config);
    assert!(matches!(
        read(&mut handler, b"GET / HTTP/1.1\r\n\r\n"),
        ConnectionAction::Resolve(_)
    ));
    handler
}

#[test]
fn the_root_path_is_trimmed_to_nothing() {
    let config = config();
    let mut handler = ConnectionHandler::new(&config);
    match read(&mut handler, b"GET / HTTP/1.1\r\n\r\n") {
        ConnectionAction::Resolve(query) => assert_eq!(query.path, ""),
        _ => panic!("expected a look for the file"),
    }
}

#[test]
fn a_missing_file_is_answered_with_404() {
    let config = config();
    let mut handler = parsed(&config);
    match handler.on_resolved(FileOutcome::NotFound) {
        ConnectionAction::Write(response) => {
            assert_eq!(response.status(), HttpStatus::NOT_FOUND);
            assert_eq!(response.content(), "File not found!");
            assert_eq!(response.length(), 15);
        }
        _ => panic!("expected a write"),
    }
    assert_eq!(handler.state(), ConnectionState::Responding);
}

#[test]
fn an_unreadable_file_is_answered_with_500() {
    let config = config();
    let mut handler = parsed(&config);
    match handler.on_resolved(FileOutcome::IoError) {
        ConnectionAction::Write(response) => {
            assert_eq!(response.status(), HttpStatus::INTERNAL_SERVER_ERROR);
        }
        _ => panic!("expected a write"),
    }
    assert_eq!(handler.state(), ConnectionState::Responding);
}

#[test]
fn a_block_that_is_no_request_is_answered_with_400() {
    for block in [
        &b"GET /\r\n\r\n"[..],
        b"FETCH / HTTP/1.1\r\n\r\n",
        b"GET / HTTP/9\r\n\r\n",
        b"GET / HTTP/1.1\r\nContent-Length: x\r\n\r\n",
        b"\r\n\r\n",
    ] {
        let config = config();
        let mut handler = ConnectionHandler::new(&config);
        match read(&mut handler, block) {
            ConnectionAction::Write(response) => {
                assert_eq!(response.status(), HttpStatus::BAD_REQUEST);
                assert_eq!(
                    response.to_string(),
                    "HTTP/1.1 400 Bad Request\r\nContent-Type: text/html\r\nContent-Length: 12\r\n\r\nBad request!"
                );
            }
            _ => panic!("expected a write"),
        }
        assert_eq!(handler.state(), ConnectionState::Responding);
        assert!(handler.request().is_none());
        assert!(matches!(handler.on_written(false), ConnectionAction::Close));
        assert_eq!(handler.state(), ConnectionState::Closed);
    }
}

#[test]
fn a_block_that_is_not_utf8_is_answered_with_400() {
    let config = config();
    let mut handler = ConnectionHandler::new(&config);
    match read(&mut handler, b"GET /\xff HTTP/1.1\r\n\r\n") {
        ConnectionAction::Write(response) => {
            assert_eq!(response.status(), HttpStatus::BAD_REQUEST)
        }
        _ => panic!("expected a write"),
    }
}

#[test]
fn a_path_that_is_not_ascii_is_decoded() {
    let config = config();
    let mut handler = ConnectionHandler::new(&config);
    match read(&mut handler, "GET /caf\u{e9}/ HTTP/1.1\r\n\r\n".as_bytes()) {
        ConnectionAction::Resolve(query) => assert_eq!(query.path, "caf\u{e9}"),
        _ => panic!("expected a look for the file"),
    }
}

#[test]
fn a_stream_that_ends_early_closes_the_connection() {
    let config = config();
    let mut handler = ConnectionHandler::new(&config);
    assert!(matches!(read(&mut handler, b"GET / HTTP/1.1\r\n"), ConnectionAction::Read));
    assert!(matches!(read(&mut handler, b""), ConnectionAction::Close));
    assert_eq!(handler.state(), ConnectionState::Closed);
    assert!(handler.request().is_none());
}

#[test]
fn a_failed_read_closes_the_connection() {
    let config = config();
    let mut handler = ConnectionHandler::new(&config);
    assert!(matches!(handler.on_read(&[0u8; 4], ReadOutcome::Failed), ConnectionAction::Close));
    assert_eq!(handler.state(), ConnectionState::Closed);
}

#[test]
fn a_report_out_of_turn_closes_the_connection() {
    let config = config();
    let mut handler = ConnectionHandler::new(&config);
    assert!(matches!(handler.on_resolved(FileOutcome::NotFound), ConnectionAction::Close));
    assert_eq!(handler.state(), ConnectionState::Closed);

    let mut handler = parsed(&config);
    assert!(matches!(read(&mut handler, b"GET / HTTP/1.1\r\n\r\n"), ConnectionAction::Close));
    assert_eq!(handler.state(), ConnectionState::Closed);

    let mut handler = ConnectionHandler::new(&config);
    assert!(matches!(handler.on_written(true), ConnectionAction::Close));
    assert_eq!(handler.state(), ConnectionState::Closed);
}

#[test]
fn a_closed_connection_stays_closed() {
    let config = config();
    let mut handler = parsed(&config);
    handler.on_resolved(FileOutcome::NotFound);
    handler.on_written(true);
    assert!(matches!(read(&mut handler, b"GET / HTTP/1.1\r\n\r\n"), ConnectionAction::Close));
    assert!(matches!(handler.on_resolved(FileOutcome::NotFound), ConnectionAction::Close));
    assert!(matches!(handler.on_written(true), ConnectionAction::Close));
    assert_eq!(handler.state(), ConnectionState::Closed);
}
