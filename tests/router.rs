use chat_relay::router::{Router, RoutingError};
use chat_relay::server::Client;
use tokio::sync::mpsc::error::TryRecvError;

fn drain(client: &mut Client) -> Vec<String> {
    let mut out = Vec::new();
    while let Ok(line) = client.rx.try_recv() {
        out.push(line);
    }
    out
}

#[test]
fn broadcast_skips_sender_and_reaches_others_once() {
    let mut router = Router::new();
    let mut a = Client::new(&mut router, "ann".to_string(), 1, 8);
    let mut b = Client::new(&mut router, "ben".to_string(), 2, 8);
    let mut c = Client::new(&mut router, "cat".to_string(), 3, 8);
    let mut recipients = router.broadcast(1, &"hello".to_string());
    recipients.sort();
    assert_eq!(recipients, vec![2, 3]);
    assert_eq!(drain(&mut a), Vec::<String>::new());
    assert_eq!(drain(&mut b), vec!["hello".to_string()]);
    assert_eq!(drain(&mut c), vec!["hello".to_string()]);
}

#[test]
fn broadcast_on_empty_registry_reaches_nobody() {
    let mut router = Router::new();
    assert!(router.broadcast(7, &"x".to_string()).is_empty());
}

#[test]
fn full_mailbox_drops_without_blocking_others() {
    let mut router = Router::new();
    let mut slow = Client::new(&mut router, "slow".to_string(), 1, 1);
    let mut fast = Client::new(&mut router, "fast".to_string(), 2, 8);
    router.broadcast(9, &"one".to_string());
    router.broadcast(9, &"two".to_string());
    assert_eq!(drain(&mut slow), vec!["one".to_string()]);
    assert_eq!(drain(&mut fast), vec!["one".to_string(), "two".to_string()]);
}

#[test]
fn closed_mailbox_is_skipped() {
    let mut router = Router::new();
    let gone = Client::new(&mut router, "gone".to_string(), 1, 4);
    let mut here = Client::new(&mut router, "here".to_string(), 2, 4);
    drop(gone);
    let mut recipients = router.broadcast(3, &"still".to_string());
    recipients.sort();
    assert_eq!(recipients, vec![1, 2]);
    assert_eq!(drain(&mut here), vec!["still".to_string()]);
}

#[test]
fn targeted_send_to_unregistered_id_fails() {
    let mut router = Router::new();
    let mut a = Client::new(&mut router, "ann".to_string(), 1, 8);
    assert_eq!(router.send_targeted(5, &"x".to_string()), Err(RoutingError { target: 5 }));
    assert_eq!(a.rx.try_recv(), Err(TryRecvError::Empty));
}

#[test]
fn targeted_send_delivers_exactly_once() {
    let mut router = Router::new();
    let mut a = Client::new(&mut router, "ann".to_string(), 1, 8);
    let mut b = Client::new(&mut router, "ben".to_string(), 2, 8);
    assert_eq!(router.send_targeted(1, &"just you".to_string()), Ok(()));
    assert_eq!(drain(&mut a), vec!["just you".to_string()]);
    assert!(drain(&mut b).is_empty());
}

#[test]
fn register_keeps_first_mailbox_and_deregister_removes() {
    let mut router = Router::new();
    let mut first = Client::new(&mut router, "one".to_string(), 1, 8);
    let mut second = Client::new(&mut router, "two".to_string(), 1, 8);
    assert!(router.contains(1));
    router.send_targeted(1, &"m".to_string()).unwrap();
    assert_eq!(drain(&mut first), vec!["m".to_string()]);
    assert!(drain(&mut second).is_empty());
    router.deregister(1);
    assert!(!router.contains(1));
    router.deregister(1);
    assert!(router.send_targeted(1, &"m".to_string()).is_err());
}
