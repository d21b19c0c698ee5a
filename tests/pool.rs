use bolt_pool::errors::Error;
use bolt_pool::handshake::{HandshakeAction, HandshakeEvent, HandshakeState};
use bolt_pool::messages::{BoltResponse, Field, HelloRequest, Value, Version};
use bolt_pool::pool::{ConnectionManager, ConnectionWrapper, GraphConnectionManager};
use std::sync::Arc;

/// A session to a mock server that accepts `neo`/`secret` at version 4.4.
struct MockSession {
    log: Vec<String>,
}

fn mock_reply(req: &HelloRequest) -> BoltResponse {
    if req.principal == "neo" && req.credentials == "secret" {
        BoltResponse::SuccessMessage(vec![Field { key: "server".to_string(), value: Value::Text("Neo4j/4.4".to_string()) }])
    } else {
        BoltResponse::FailureMessage(vec![
            Field { key: "code".to_string(), value: Value::Text("Neo.ClientError.Security.Unauthorized".to_string()) },
            Field { key: "message".to_string(), value: Value::Text("The client is unauthorized due to authentication failure.".to_string()) },
        ])
    }
}

fn drive_exclusive(m: &ConnectionManager) -> Result<ConnectionWrapper<MockSession>, Error> {
    let (mut state, mut action) = m.start();
    let mut session = None;
    loop {
        let event = match action {
            HandshakeAction::Open { uri } => {
                assert_eq!(uri, "bolt://mock:7687");
                session = Some(MockSession { log: Vec::new() });
                HandshakeEvent::Opened { version: Version { major: 4, minor: 4 } }
            }
            HandshakeAction::SendHello { request } => {
                session.as_mut().unwrap().log.push(format!("HELLO {}", request.user_agent));
                HandshakeEvent::Replied { response: mock_reply(&request) }
            }
            HandshakeAction::Finish => break,
        };
        let next = m.step(state, event);
        state = next.0;
        action = next.1;
    }
    m.finish(state, session)
}

#[test]
fn end_to_end_accepts_and_rejects() {
    let good = ConnectionManager::new("bolt://mock:7687", "neo", "secret");
    let mut conn = drive_exclusive(&good).unwrap();
    assert_eq!(conn.version, Version { major: 4, minor: 4 });
    assert_eq!(conn.log, vec!["HELLO neo4rs".to_string()]);
    conn.log.push("RUN".to_string());
    assert_eq!(conn.get_ref().log.len(), 2);
    assert!(good.is_valid(&mut conn).is_ok());
    assert!(!good.has_broken(&mut conn));

    let bad = ConnectionManager::new("bolt://mock:7687", "neo", "wrong");
    match drive_exclusive(&bad) {
        Err(Error::AuthenticationError { detail }) => {
            assert_eq!(detail, "The client is unauthorized due to authentication failure.")
        }
        _ => panic!("expected an authentication error"),
    }
}

#[test]
fn failure_before_open_has_no_session() {
    let m = ConnectionManager::new("bolt://down:7687", "neo", "secret");
    let (state, _) = m.start();
    let (state, action) = m.step(state, HandshakeEvent::OpenFailed { detail: "connection refused".to_string() });
    assert_eq!(action, HandshakeAction::Finish);
    let r = m.finish::<MockSession>(state, None);
    assert!(matches!(r, Err(Error::ConnectionError { detail }) if detail == "connection refused"));
}

#[test]
fn shared_manager_handshake_and_checks() {
    let m = GraphConnectionManager::new("bolt://mock:7687", "neo", "secret");
    let (state, action) = m.start();
    assert_eq!(state, HandshakeState::Connecting);
    assert_eq!(action, HandshakeAction::Open { uri: "bolt://mock:7687".to_string() });
    let (state, action) = m.step(state, HandshakeEvent::Opened { version: Version { major: 4, minor: 4 } });
    let request = match action {
        HandshakeAction::SendHello { request } => request,
        _ => panic!("expected hello"),
    };
    assert_eq!(request.principal, "neo");
    assert_eq!(request.credentials, "secret");
    let (state, action) = m.step(state, HandshakeEvent::Replied { response: mock_reply(&request) });
    assert_eq!(action, HandshakeAction::Finish);
    let mut conn = m.finish(state, Some(MockSession { log: Vec::new() })).unwrap();
    assert!(m.is_valid(&mut conn).is_ok());
    assert!(!m.has_broken(&mut conn));
    let q = conn.query("MATCH (n) RETURN n");
    assert_eq!(q.text(), "MATCH (n) RETURN n");
}

#[test]
fn shared_manager_reports_unexpected_reply() {
    let m = GraphConnectionManager::new("bolt://mock:7687", "neo", "secret");
    let (state, _) = m.start();
    let (state, _) = m.step(state, HandshakeEvent::Opened { version: Version { major: 4, minor: 1 } });
    let (state, _) = m.step(state, HandshakeEvent::Replied { response: BoltResponse::IgnoredMessage });
    let r = m.finish(state, Some(MockSession { log: Vec::new() }));
    assert!(matches!(r, Err(Error::UnexpectedMessage)));
}

#[test]
fn shared_queries_do_not_interleave() {
    let m = GraphConnectionManager::new("bolt://mock:7687", "neo", "secret");
    let state = HandshakeState::Authenticated { version: Version { major: 4, minor: 4 } };
    let conn = m.finish(state, Some(MockSession { log: Vec::new() })).unwrap();
    let q1 = conn.query("first");
    let q2 = conn.query("second");
    assert!(Arc::ptr_eq(q1.connection(), q2.connection()));
    let rt = tokio::runtime::Builder::new_current_thread().build().unwrap();
    rt.block_on(async {
        let exchange = |q: bolt_pool::pool::Query<MockSession>| async move {
            let mut session = q.connection().lock().await;
            session.log.push(format!("request {}", q.text()));
            tokio::task::yield_now().await;
            session.log.push(format!("response {}", q.text()));
        };
        let a = tokio::spawn(exchange(q1));
        let b = tokio::spawn(exchange(q2));
        a.await.unwrap();
        b.await.unwrap();
    });
    let q = conn.query("check");
    let log = rt.block_on(async { q.connection().lock().await.log.clone() });
    assert_eq!(log.len(), 4);
    for pair in log.chunks(2) {
        let name = pair[0].strip_prefix("request ").unwrap();
        assert_eq!(pair[1], format!("response {}", name));
    }
}
