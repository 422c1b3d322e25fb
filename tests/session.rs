use polyticker::crypto::Crypto;
use polyticker::event::Feed;
use polyticker::json::{Json, Number};
use polyticker::session::{FeedSession, SessionAction, SessionError, SessionEvent, SessionState};
use polyticker::stocks::Stocks;

fn status(s: &str) -> Json {
    Json::Array(vec![Json::Object(vec![
        ("ev".to_string(), Json::Str("status".to_string())),
        ("status".to_string(), Json::Str(s.to_string())),
    ])])
}

fn crypto_trade(source: u64) -> Json {
    Json::Object(vec![
        ("ev".to_string(), Json::Str("XT".to_string())),
        ("pair".to_string(), Json::Str("BTC-USD".to_string())),
        ("p".to_string(), Json::Number(Number::PosInt(5))),
        ("s".to_string(), Json::Number(Number::PosInt(1))),
        ("t".to_string(), Json::Number(Number::PosInt(1690000000000))),
        ("x".to_string(), Json::Number(Number::PosInt(source))),
        ("i".to_string(), Json::Str("abc".to_string())),
        ("c".to_string(), Json::Array(vec![Json::Number(Number::PosInt(1))])),
        ("r".to_string(), Json::Number(Number::PosInt(1690000000500))),
    ])
}

fn started() -> FeedSession {
    let mut s = Crypto::open_session("KEY".to_string(), "XT.*".to_string());
    assert!(matches!(s.step(SessionEvent::Start), SessionAction::Open));
    assert_eq!(s.state(), SessionState::Connecting);
    assert!(matches!(s.step(SessionEvent::Opened), SessionAction::Read));
    assert_eq!(s.state(), SessionState::AwaitingWelcome);
    s
}

fn streaming() -> FeedSession {
    let mut s = started();
    match s.step(SessionEvent::Message(status("connected"))) {
        SessionAction::SendThenRead(t) => assert_eq!(t, r#"{"action":"auth","params":"KEY"}"#),
        other => panic!("unexpected {:?}", other),
    }
    assert_eq!(s.state(), SessionState::Authenticating);
    match s.step(SessionEvent::Message(status("auth_success"))) {
        SessionAction::Send(t) => assert_eq!(t, r#"{"action":"subscribe","params":"XT.*"}"#),
        other => panic!("unexpected {:?}", other),
    }
    assert_eq!(s.state(), SessionState::Subscribing);
    assert!(matches!(s.step(SessionEvent::Sent), SessionAction::Read));
    assert_eq!(s.state(), SessionState::Streaming);
    s
}

#[test]
fn valid_handshake_reaches_streaming() {
    let s = streaming();
    assert_eq!(s.state(), SessionState::Streaming);
}

#[test]
fn wrong_welcome_fails() {
    let mut s = started();
    assert!(matches!(s.step(SessionEvent::Message(status("auth_success"))), SessionAction::Stop));
    assert_eq!(s.state(), SessionState::Failed(SessionError::Protocol));
    assert!(matches!(s.step(SessionEvent::Message(status("connected"))), SessionAction::Stop));
    assert_eq!(s.state(), SessionState::Failed(SessionError::Protocol));
}

#[test]
fn non_array_welcome_fails() {
    let mut s = started();
    let obj = Json::Object(vec![("status".to_string(), Json::Str("connected".to_string()))]);
    s.step(SessionEvent::Message(obj));
    assert_eq!(s.state(), SessionState::Failed(SessionError::Protocol));
    let mut s = started();
    s.step(SessionEvent::Unreadable);
    assert_eq!(s.state(), SessionState::Failed(SessionError::Protocol));
    let mut s = started();
    s.step(SessionEvent::Message(Json::Array(vec![])));
    assert_eq!(s.state(), SessionState::Failed(SessionError::Protocol));
}

#[test]
fn refused_authentication_fails() {
    let mut s = started();
    s.step(SessionEvent::Message(status("connected")));
    assert!(matches!(s.step(SessionEvent::Message(status("auth_failed"))), SessionAction::Stop));
    assert_eq!(s.state(), SessionState::Failed(SessionError::Protocol));
}

#[test]
fn transport_errors_during_handshake_fail() {
    let mut s = Stocks::open_session("K".to_string(), "T.MSFT".to_string());
    s.step(SessionEvent::Start);
    s.step(SessionEvent::OpenFailed);
    assert_eq!(s.state(), SessionState::Failed(SessionError::Connection));

    let mut s = started();
    s.step(SessionEvent::ReadFailed);
    assert_eq!(s.state(), SessionState::Failed(SessionError::Connection));

    let mut s = started();
    s.step(SessionEvent::Message(status("connected")));
    s.step(SessionEvent::Ended);
    assert_eq!(s.state(), SessionState::Failed(SessionError::Connection));

    let mut s = started();
    s.step(SessionEvent::Message(status("connected")));
    s.step(SessionEvent::Message(status("auth_success")));
    s.step(SessionEvent::SendFailed);
    assert_eq!(s.state(), SessionState::Failed(SessionError::Connection));

    let mut s = FeedSession::new(Feed::Crypto, "K".to_string(), "X".to_string());
    s.step(SessionEvent::Opened);
    assert_eq!(s.state(), SessionState::Failed(SessionError::Protocol));
}

#[test]
fn streaming_forwards_decoded_events() {
    let mut s = streaming();
    let bad = Json::Object(vec![("ev".to_string(), Json::Str("XT".to_string()))]);
    let msg = Json::Array(vec![crypto_trade(1), status("x"), bad, crypto_trade(2)]);
    match s.step(SessionEvent::Message(msg)) {
        SessionAction::Forward(events, rejected) => {
            assert_eq!(events.len(), 2);
            assert_eq!(rejected, 1);
        }
        other => panic!("unexpected {:?}", other),
    }
    assert_eq!(s.state(), SessionState::Streaming);
    assert!(matches!(s.step(SessionEvent::Message(Json::Null)), SessionAction::Read));
    assert!(matches!(s.step(SessionEvent::Unreadable), SessionAction::Read));
    assert_eq!(s.state(), SessionState::Streaming);
}

#[test]
fn streaming_ends_closed() {
    let mut s = streaming();
    assert!(matches!(s.step(SessionEvent::ForwardFailed), SessionAction::Stop));
    assert_eq!(s.state(), SessionState::Closed);
    assert!(matches!(s.step(SessionEvent::Message(Json::Array(vec![crypto_trade(1)]))), SessionAction::Stop));
    assert_eq!(s.state(), SessionState::Closed);
    let mut s = streaming();
    s.step(SessionEvent::ReadFailed);
    assert_eq!(s.state(), SessionState::Closed);
    let mut s = streaming();
    s.step(SessionEvent::Ended);
    assert_eq!(s.state(), SessionState::Closed);
}

#[test]
fn stock_session_messages() {
    let s = Stocks::open_session("abc".to_string(), "T.MSFT,T.AAPL".to_string());
    assert_eq!(s.auth_message(), r#"{"action":"auth","params":"abc"}"#);
    assert_eq!(s.subscribe_message(), r#"{"action":"subscribe","params":"T.MSFT,T.AAPL"}"#);
}
