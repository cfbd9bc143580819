use voicetabs::client::PendingRequests;

#[test]
fn response_reaches_the_request_with_its_id() {
    let mut p = PendingRequests::new();
    assert!(p.insert("a".to_string(), 1).is_none());
    assert!(p.insert("b".to_string(), 2).is_none());
    assert_eq!(p.remove("b"), Some(2));
    assert_eq!(p.remove("b"), None);
    assert_eq!(p.remove("zzz"), None);
    assert_eq!(p.remove("a"), Some(1));
}

#[test]
fn reinserting_an_id_replaces_its_responder() {
    let mut p = PendingRequests::new();
    p.insert("a".to_string(), 1);
    assert_eq!(p.insert("a".to_string(), 5), Some(1));
    assert_eq!(p.remove("a"), Some(5));
}

#[test]
fn drain_hands_out_every_waiting_responder() {
    let mut p = PendingRequests::new();
    p.insert("a".to_string(), 1);
    p.insert("b".to_string(), 2);
    p.insert("c".to_string(), 3);
    p.remove("b");
    let mut all = p.drain();
    all.sort();
    assert_eq!(all, vec![1, 3]);
    assert!(p.drain().is_empty());
    assert_eq!(p.remove("a"), None);
}

use voicetabs::client::{accept_ready, handshake_frame, HandshakeFailure};
use voicetabs::protocol::ReadyMessage;

#[test]
fn handshake_needs_a_frame_and_a_ready_worker() {
    assert_eq!(handshake_frame(None), Err(HandshakeFailure::Closed));
    assert_eq!(handshake_frame(Some(vec![1, 2])), Ok(vec![1, 2]));
    let ready = ReadyMessage { ready: true, model_id: "m".into(), backend: "cpu".into() };
    assert_eq!(accept_ready(ready.clone()), Ok(ready));
    let not = ReadyMessage { ready: false, model_id: "m".into(), backend: "cpu".into() };
    assert_eq!(accept_ready(not), Err(HandshakeFailure::NotReady));
    assert_eq!(HandshakeFailure::NotReady.message(), "worker reported not ready");
    assert_eq!(HandshakeFailure::Closed.message(), "worker channel closed before response");
}
