use chat_relay::config::Config;
use chat_relay::protocol::{decode, encode, Envelope, Event, Method, Status};
use chat_relay::router::Router;
use chat_relay::server::{Action, Client, Connection, Phase};

const NOW: &str = "2024-05-06 07:08:09 +0000";

fn login(name: &str) -> String {
    encode(&Envelope::Request { method: Method::LogInUsername, body: name.to_string() })
}

fn say(text: &str) -> String {
    encode(&Envelope::Request { method: Method::SendMessage, body: text.to_string() })
}

fn response(status: Status, message: &str) -> Envelope {
    Envelope::Response { status, message: message.to_string() }
}

fn notice(text: &str) -> Envelope {
    Envelope::Notification {
        event: Event::Connection,
        data: text.to_string(),
        sender: None,
        date: NOW.to_string(),
    }
}

/// Carries out the router side of actions, as the server's driver does.
fn run(router: &mut Router, id: u64, actions: Vec<Action>, replies: &mut Vec<Envelope>) -> Option<Client> {
    let mut client = None;
    for a in actions {
        match a {
            Action::Reply(e) => replies.push(e),
            Action::Register(name) => client = Some(Client::new(router, name, id, 16)),
            Action::Broadcast(e) => {
                router.broadcast(id, &encode(&e));
            }
            Action::ToSelf(e) => router.send_targeted(id, &encode(&e)).unwrap(),
            Action::Deregister => router.deregister(id),
            Action::Close => {}
        }
    }
    client
}

fn inbox(client: &mut Client) -> Vec<Envelope> {
    let mut out = Vec::new();
    while let Ok(line) = client.rx.try_recv() {
        out.push(decode(&line).unwrap());
    }
    out
}

#[test]
fn handshake_accepts_minimum_length_username() {
    let cfg = Config::default();
    let mut conn = Connection::new(4);
    let actions = conn.on_line(&cfg, &login("abcd"), NOW);
    assert_eq!(
        actions,
        vec![
            Action::Reply(response(Status::Success, "OK")),
            Action::Register("abcd".to_string()),
            Action::Broadcast(notice("abcd has been connected to the server")),
        ]
    );
    assert_eq!(conn.phase, Phase::Authenticated { username: "abcd".to_string() });
    assert_eq!(conn.id, 4);
}

#[test]
fn handshake_rejects_empty_username_and_waits() {
    let cfg = Config::default();
    let mut conn = Connection::new(1);
    let actions = conn.on_line(&cfg, &login(""), NOW);
    assert_eq!(actions, vec![Action::Reply(response(Status::BadRequest, "InvalidUsername"))]);
    assert_eq!(conn.phase, Phase::AwaitingUsername);
    let actions = conn.on_line(&cfg, &say("hello"), NOW);
    assert_eq!(actions, vec![Action::Reply(response(Status::BadRequest, "BadRequest"))]);
    assert_eq!(conn.phase, Phase::AwaitingUsername);
    let actions = conn.on_line(&cfg, &login("alice"), NOW);
    assert_eq!(actions[0], Action::Reply(response(Status::Success, "OK")));
}

#[test]
fn handshake_closes_on_undecodable_line_or_eof() {
    let cfg = Config::default();
    let mut conn = Connection::new(1);
    assert_eq!(conn.on_line(&cfg, "GET / HTTP/1.1", NOW), vec![Action::Close]);
    assert_eq!(conn.phase, Phase::Closed);
    assert!(conn.on_line(&cfg, &login("alice"), NOW).is_empty());
    let mut other = Connection::new(2);
    assert_eq!(other.on_end(NOW), vec![Action::Close]);
    assert_eq!(other.phase, Phase::Closed);
    assert!(other.on_end(NOW).is_empty());
}

#[test]
fn chat_message_is_trimmed_and_broadcast() {
    let cfg = Config::default();
    let mut conn = Connection::new(1);
    conn.on_line(&cfg, &login("alice"), NOW);
    let actions = conn.on_line(&cfg, &say("  hi there \n"), NOW);
    assert_eq!(
        actions,
        vec![Action::Broadcast(Envelope::Notification {
            event: Event::SendMessage,
            data: "hi there".to_string(),
            sender: Some("alice".to_string()),
            date: NOW.to_string(),
        })]
    );
}

#[test]
fn invalid_chat_message_is_answered_to_self() {
    let cfg = Config::default();
    let mut conn = Connection::new(1);
    conn.on_line(&cfg, &login("alice"), NOW);
    assert_eq!(
        conn.on_line(&cfg, &say("   "), NOW),
        vec![Action::ToSelf(response(Status::BadRequest, "InvalidMessage"))]
    );
    assert_eq!(
        conn.on_line(&cfg, &login("again"), NOW),
        vec![Action::ToSelf(response(Status::BadRequest, "BadRequest"))]
    );
    assert_eq!(conn.phase, Phase::Authenticated { username: "alice".to_string() });
}

#[test]
fn end_of_stream_deregisters_then_notifies_once() {
    let cfg = Config::default();
    let mut router = Router::new();
    let mut replies = Vec::new();
    let mut conns = Vec::new();
    let mut clients = Vec::new();
    for (id, name) in [(1u64, "alice"), (2, "bobby"), (3, "carol")] {
        let mut conn = Connection::new(id);
        let actions = conn.on_line(&cfg, &login(name), NOW);
        clients.push(run(&mut router, id, actions, &mut replies).unwrap());
        conns.push(conn);
    }
    for c in clients.iter_mut() {
        inbox(c);
    }
    let actions = conns[0].on_end(NOW);
    assert_eq!(
        actions,
        vec![
            Action::Deregister,
            Action::Broadcast(notice("alice has been disconnected from the server")),
            Action::Close,
        ]
    );
    run(&mut router, 1, actions, &mut replies);
    assert!(!router.contains(1));
    assert!(inbox(&mut clients[0]).is_empty());
    for c in clients[1..].iter_mut() {
        assert_eq!(inbox(c), vec![notice("alice has been disconnected from the server")]);
    }
}

#[test]
fn decode_error_after_login_leaves_like_eof() {
    let cfg = Config::default();
    let mut conn = Connection::new(1);
    conn.on_line(&cfg, &login("alice"), NOW);
    assert_eq!(
        conn.on_line(&cfg, "{broken", NOW),
        vec![
            Action::Deregister,
            Action::Broadcast(notice("alice has been disconnected from the server")),
            Action::Close,
        ]
    );
    assert_eq!(conn.phase, Phase::Closed);
}

#[test]
fn alice_and_bob_end_to_end() {
    let cfg = Config::default();
    let mut router = Router::new();
    let mut bob_replies = Vec::new();
    let mut bob_conn = Connection::new(2);
    let actions = bob_conn.on_line(&cfg, &login("bob"), NOW);
    assert_eq!(actions, vec![Action::Reply(response(Status::BadRequest, "InvalidUsername"))]);
    let actions = bob_conn.on_line(&cfg, &login("bobby"), NOW);
    let mut bob = run(&mut router, 2, actions, &mut bob_replies).unwrap();

    let mut alice_replies = Vec::new();
    let mut alice_conn = Connection::new(1);
    let actions = alice_conn.on_line(&cfg, r#"{"type":"request_c2s","method":"LogInUsername","body":"alice"}"#, NOW);
    let mut alice = run(&mut router, 1, actions, &mut alice_replies).unwrap();
    assert_eq!(alice_replies, vec![response(Status::Success, "OK")]);
    assert_eq!(inbox(&mut bob), vec![notice("alice has been connected to the server")]);

    let actions = alice_conn.on_line(&cfg, r#"{"type":"request_c2s","method":"SendMessage","body":"hi"}"#, NOW);
    run(&mut router, 1, actions, &mut alice_replies);
    assert_eq!(
        inbox(&mut bob),
        vec![Envelope::Notification {
            event: Event::SendMessage,
            data: "hi".to_string(),
            sender: Some("alice".to_string()),
            date: NOW.to_string(),
        }]
    );
    assert!(inbox(&mut alice).is_empty());
    assert_eq!(alice_replies.len(), 1);
}

#[test]
fn stamped_handlers_use_a_utc_time() {
    let cfg = Config::default();
    let mut conn = Connection::new(1);
    let actions = conn.on_line_now(&cfg, &login("alice"));
    match &actions[2] {
        Action::Broadcast(Envelope::Notification { date, .. }) => {
            assert!(date.ends_with("+0000"));
            assert_eq!(date.len(), "2024-05-06 07:08:09 +0000".len());
        }
        other => panic!("unexpected action {:?}", other),
    }
    let actions = conn.on_end_now();
    assert_eq!(actions.len(), 3);
    assert_eq!(conn.phase, Phase::Closed);
}
