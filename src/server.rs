use vstd::prelude::*;
use tokio::sync::mpsc::Receiver;
use crate::config::Config;
use crate::protocol::{decode, envelope_of_line, Envelope, EnvelopeModel, Event, Method, Status};
use crate::message::is_utc_stamp;
use crate::router::{mailbox, offered_to_all_but, Mailbox, Router, MAX_MAILBOX_CAPACITY};
use crate::text::{joined, trim, trimmed};

verus! {

/// An authenticated session: its username, its connection id and the
/// receiving end of its mailbox.
pub struct Client {
    pub username: String,
    pub id: u64,
    pub rx: Receiver<String>,
}

impl Client {
    /// Opens the session's mailbox and registers it with the router; other
    /// sessions' mailboxes stay as they were.
    pub fn new(clients: &mut Router, username: String, id: u64, capacity: usize) -> (r: Client)
        requires
            0 < capacity <= MAX_MAILBOX_CAPACITY,
        ensures
            r.username == username,
            r.id == id,
            old(clients)@.contains_key(id) ==> final(clients)@ == old(clients)@,
            !old(clients)@.contains_key(id) ==> final(clients)@ == old(clients)@.insert(id, final(clients)@[id])
                && final(clients)@[id].offered() == Seq::<Seq<char>>::empty(),
    {
        let (tx, rx) = mailbox(capacity);
        clients.register(id, tx);
        Client { username, id, rx }
    }
}

/// Where a connection stands in its life.
#[derive(Debug, Clone, PartialEq, Eq)]
pub enum Phase {
    /// Connected; no username accepted yet.
    AwaitingUsername,
    /// Logged in under a username and registered with the router.
    Authenticated { username: String },
    /// Finished; nothing more happens on it.
    Closed,
}

pub enum PhaseModel {
    AwaitingUsername,
    Authenticated { username: Seq<char> },
    Closed,
}

impl View for Phase {
    type V = PhaseModel;

    open spec fn view(&self) -> PhaseModel {
        match self {
            Phase::AwaitingUsername => PhaseModel::AwaitingUsername,
            Phase::Authenticated { username } => PhaseModel::Authenticated { username: username@ },
            Phase::Closed => PhaseModel::Closed,
        }
    }
}

/// What the connection's driver must do next, in order.
#[derive(Debug, Clone, PartialEq, Eq)]
pub enum Action {
    /// Write an envelope to this connection's socket.
    Reply(Envelope),
    /// Open a mailbox for this connection under the username and register it.
    Register(String),
    /// Offer an envelope to every other registered session.
    Broadcast(Envelope),
    /// Offer an envelope to this session's own mailbox.
    ToSelf(Envelope),
    /// Remove this connection's mailbox from the router.
    Deregister,
    /// Close the socket and end the connection's task.
    Close,
}

pub enum ActionModel {
    Reply(EnvelopeModel),
    Register(Seq<char>),
    Broadcast(EnvelopeModel),
    ToSelf(EnvelopeModel),
    Deregister,
    Close,
}

impl View for Action {
    type V = ActionModel;

    open spec fn view(&self) -> ActionModel {
        match self {
            Action::Reply(e) => ActionModel::Reply(e@),
            Action::Register(u) => ActionModel::Register(u@),
            Action::Broadcast(e) => ActionModel::Broadcast(e@),
            Action::ToSelf(e) => ActionModel::ToSelf(e@),
            Action::Deregister => ActionModel::Deregister,
            Action::Close => ActionModel::Close,
        }
    }
}

pub open spec fn actions_view(a: Seq<Action>) -> Seq<ActionModel> {
    a.map_values(|x: Action| x@)
}

pub open spec fn answer(status: Status, message: Seq<char>) -> EnvelopeModel {
    EnvelopeModel::Response { status, message }
}

/// The notice that a user has joined.
pub open spec fn joined_notice(username: Seq<char>, now: Seq<char>) -> EnvelopeModel {
    EnvelopeModel::Notification {
        event: Event::Connection,
        data: username + " has been connected to the server"@,
        sender: None,
        date: now,
    }
}

/// The notice that a user has left.
pub open spec fn left_notice(username: Seq<char>, now: Seq<char>) -> EnvelopeModel {
    EnvelopeModel::Notification {
        event: Event::Connection,
        data: username + " has been disconnected from the server"@,
        sender: None,
        date: now,
    }
}

/// Leaving after authentication: deregister first, so that the departing
/// session does not get its own notice, then tell the others once.
pub open spec fn leave(username: Seq<char>, now: Seq<char>) -> Seq<ActionModel> {
    seq![
        ActionModel::Deregister,
        ActionModel::Broadcast(left_notice(username, now)),
        ActionModel::Close,
    ]
}

/// The next phase and the actions for one line read from the socket.
pub open spec fn line_step(cfg: Config, phase: PhaseModel, line: Seq<char>, now: Seq<char>) -> (
    PhaseModel,
    Seq<ActionModel>,
) {
    match phase {
        PhaseModel::AwaitingUsername => match envelope_of_line(line) {
            Err(_) => (PhaseModel::Closed, seq![ActionModel::Close]),
            Ok(EnvelopeModel::Request { method: Method::LogInUsername, body }) => if cfg.username_ok(body) {
                (
                    PhaseModel::Authenticated { username: body },
                    seq![
                        ActionModel::Reply(answer(Status::Success, "OK"@)),
                        ActionModel::Register(body),
                        ActionModel::Broadcast(joined_notice(body, now)),
                    ],
                )
            } else {
                (phase, seq![ActionModel::Reply(answer(Status::BadRequest, "InvalidUsername"@))])
            },
            Ok(_) => (phase, seq![ActionModel::Reply(answer(Status::BadRequest, "BadRequest"@))]),
        },
        PhaseModel::Authenticated { username } => match envelope_of_line(line) {
            Err(_) => (PhaseModel::Closed, leave(username, now)),
            Ok(EnvelopeModel::Request { method: Method::SendMessage, body }) => if cfg.message_ok(body) {
                (
                    phase,
                    seq![
                        ActionModel::Broadcast(
                            EnvelopeModel::Notification {
                                event: Event::SendMessage,
                                data: trimmed(body),
                                sender: Some(username),
                                date: now,
                            },
                        ),
                    ],
                )
            } else {
                (phase, seq![ActionModel::ToSelf(answer(Status::BadRequest, "InvalidMessage"@))])
            },
            Ok(_) => (phase, seq![ActionModel::ToSelf(answer(Status::BadRequest, "BadRequest"@))]),
        },
        PhaseModel::Closed => (phase, seq![]),
    }
}

/// The next phase and the actions when the socket ends or fails.
pub open spec fn end_step(phase: PhaseModel, now: Seq<char>) -> (PhaseModel, Seq<ActionModel>) {
    match phase {
        PhaseModel::AwaitingUsername => (PhaseModel::Closed, seq![ActionModel::Close]),
        PhaseModel::Authenticated { username } => (PhaseModel::Closed, leave(username, now)),
        PhaseModel::Closed => (phase, seq![]),
    }
}

/// Relies on `chrono::Utc::now` and `DateTime::format`: the current time,
/// with its offset, as `%Y-%m-%d %H:%M:%S %z`, which `parse_from_str` reads
/// back with the same format.
#[verifier::external_body]
fn utc_stamp() -> (r: String)
    ensures
        is_utc_stamp(r@),
{
    chrono::Utc::now().format("%Y-%m-%d %H:%M:%S %z").to_string()
}

fn reply(status: Status, message: &str) -> (r: Envelope)
    ensures
        r@ == answer(status, message@),
{
    Envelope::Response { status, message: String::from_str(message) }
}

fn notice(username: &String, what: &str, now: &str) -> (r: Envelope)
    ensures
        r@ == (EnvelopeModel::Notification {
            event: Event::Connection,
            data: username@ + what@,
            sender: None,
            date: now@,
        }),
{
    Envelope::Notification {
        event: Event::Connection,
        data: joined(username.as_str(), what),
        sender: None,
        date: String::from_str(now),
    }
}

fn leave_actions(username: &String, now: &str) -> (r: Vec<Action>)
    ensures
        actions_view(r@) == leave(username@, now@),
{
    let mut r: Vec<Action> = Vec::new();
    r.push(Action::Deregister);
    r.push(Action::Broadcast(notice(username, " has been disconnected from the server", now)));
    r.push(Action::Close);
    assert(actions_view(r@) =~= leave(username@, now@));
    r
}

fn one(a: Action) -> (r: Vec<Action>)
    ensures
        actions_view(r@) == seq![a@],
{
    let mut r: Vec<Action> = Vec::new();
    r.push(a);
    assert(actions_view(r@) =~= seq![a@]);
    r
}

/// The server side of one connection: the handshake, then chat, then leaving.
pub struct Connection {
    pub id: u64,
    pub phase: Phase,
}

impl Connection {
    /// A connection that has just been accepted.
    pub fn new(id: u64) -> (r: Connection)
        ensures
            r.id == id,
            r.phase@ == PhaseModel::AwaitingUsername,
    {
        Connection { id, phase: Phase::AwaitingUsername }
    }

    /// Handles one line read from the socket, stamping notices with `now`.
    pub fn on_line(&mut self, cfg: &Config, line: &str, now: &str) -> (r: Vec<Action>)
        ensures
            final(self).id == old(self).id,
            (final(self).phase@, actions_view(r@)) == line_step(*cfg, old(self).phase@, line@, now@),
    {
        let decoded = decode(line);
        match &self.phase {
            Phase::AwaitingUsername => match decoded {
                Err(_) => {
                    self.phase = Phase::Closed;
                    one(Action::Close)
                },
                Ok(Envelope::Request { method: Method::LogInUsername, body }) => {
                    if cfg.fits_username(trim(body.as_str())) {
                        let mut r: Vec<Action> = Vec::new();
                        r.push(Action::Reply(reply(Status::Success, "OK")));
                        r.push(Action::Register(body.clone()));
                        r.push(Action::Broadcast(notice(&body, " has been connected to the server", now)));
                        self.phase = Phase::Authenticated { username: body };
                        assert(actions_view(r@) =~= line_step(*cfg, old(self).phase@, line@, now@).1);
                        r
                    } else {
                        one(Action::Reply(reply(Status::BadRequest, "InvalidUsername")))
                    }
                },
                Ok(_) => one(Action::Reply(reply(Status::BadRequest, "BadRequest"))),
            },
            Phase::Authenticated { username } => match decoded {
                Err(_) => {
                    let r = leave_actions(username, now);
                    self.phase = Phase::Closed;
                    r
                },
                Ok(Envelope::Request { method: Method::SendMessage, body }) => {
                    let text = trim(body.as_str());
                    if cfg.fits_message(text) {
                        one(Action::Broadcast(Envelope::Notification {
                            event: Event::SendMessage,
                            data: String::from_str(text),
                            sender: Some(username.clone()),
                            date: String::from_str(now),
                        }))
                    } else {
                        one(Action::ToSelf(reply(Status::BadRequest, "InvalidMessage")))
                    }
                },
                Ok(_) => one(Action::ToSelf(reply(Status::BadRequest, "BadRequest"))),
            },
            Phase::Closed => {
                let r: Vec<Action> = Vec::new();
                assert(actions_view(r@) =~= seq![]);
                r
            },
        }
    }

    /// Handles the end of the socket, or a failure to read or write it.
    pub fn on_end(&mut self, now: &str) -> (r: Vec<Action>)
        ensures
            final(self).id == old(self).id,
            (final(self).phase@, actions_view(r@)) == end_step(old(self).phase@, now@),
    {
        match &self.phase {
            Phase::AwaitingUsername => {
                self.phase = Phase::Closed;
                one(Action::Close)
            },
            Phase::Authenticated { username } => {
                let r = leave_actions(username, now);
                self.phase = Phase::Closed;
                r
            },
            Phase::Closed => {
                let r: Vec<Action> = Vec::new();
                assert(actions_view(r@) =~= seq![]);
                r
            },
        }
    }

    /// `on_line`, with notices stamped with the current UTC time.
    pub fn on_line_now(&mut self, cfg: &Config, line: &str) -> (r: Vec<Action>)
        ensures
            final(self).id == old(self).id,
            exists|now: Seq<char>| is_utc_stamp(now) && (final(self).phase@, actions_view(r@)) == #[trigger] line_step(*cfg, old(self).phase@, line@, now),
    {
        let now = utc_stamp();
        self.on_line(cfg, line, now.as_str())
    }

    /// `on_end`, with the notice stamped with the current UTC time.
    pub fn on_end_now(&mut self) -> (r: Vec<Action>)
        ensures
            final(self).id == old(self).id,
            exists|now: Seq<char>| is_utc_stamp(now) && (final(self).phase@, actions_view(r@)) == #[trigger] end_step(old(self).phase@, now),
    {
        let now = utc_stamp();
        self.on_end(now.as_str())
    }
}

/// The handshake: a username whose trimmed length is the configured minimum
/// is answered `200` and the connection becomes authenticated under it; a
/// shorter one (an empty one among them) is answered `400` and the
/// connection keeps waiting.
pub proof fn handshake_answers(cfg: Config, line: Seq<char>, body: Seq<char>, now: Seq<char>)
    requires
        envelope_of_line(line) == Ok::<EnvelopeModel, crate::protocol::ProtocolError>(
            EnvelopeModel::Request { method: Method::LogInUsername, body },
        ),
    ensures
        trimmed(body).len() == cfg.min_username_len <= cfg.max_username_len ==> line_step(
            cfg,
            PhaseModel::AwaitingUsername,
            line,
            now,
        ).0 == (PhaseModel::Authenticated { username: body }) && line_step(
            cfg,
            PhaseModel::AwaitingUsername,
            line,
            now,
        ).1[0] == ActionModel::Reply(answer(Status::Success, "OK"@)),
        trimmed(body).len() < cfg.min_username_len ==> line_step(
            cfg,
            PhaseModel::AwaitingUsername,
            line,
            now,
        ) == (
            PhaseModel::AwaitingUsername,
            seq![ActionModel::Reply(answer(Status::BadRequest, "InvalidUsername"@))],
        ),
{
}

/// When an authenticated connection ends, its mailbox is deregistered before
/// the one notice of its leaving is broadcast. With `after` what
/// `Router::broadcast` of that notice leaves of the registry once
/// `Router::deregister` has removed the session, the departing session is
/// gone and was offered nothing, and every other registered session was
/// offered the notice exactly once.
pub proof fn leaving_notice_reaches_each_other_session_once(
    username: Seq<char>,
    now: Seq<char>,
    registry: Map<u64, Mailbox>,
    after: Map<u64, Mailbox>,
    id: u64,
    notice: Seq<char>,
)
    requires
        offered_to_all_but(registry.remove(id), after, id, notice),
    ensures
        end_step(PhaseModel::Authenticated { username }, now) == (PhaseModel::Closed, leave(username, now)),
        leave(username, now)[0] == ActionModel::Deregister,
        leave(username, now)[1] == ActionModel::Broadcast(left_notice(username, now)),
        forall|i: int| 0 <= i < leave(username, now).len() && i != 1 ==> !(#[trigger] leave(username, now)[i] is Broadcast),
        !after.contains_key(id),
        after.dom() == registry.dom().remove(id),
        forall|x: u64| registry.contains_key(x) && x != id ==> #[trigger] after.contains_key(x)
            && after[x].sender() == registry[x].sender()
            && after[x].offered() == registry[x].offered().push(notice),
{
    let acts = leave(username, now);
    assert forall|i: int| 0 <= i < acts.len() && i != 1 implies !(#[trigger] acts[i] is Broadcast) by {
        if i == 0 {
            assert(acts[0] == ActionModel::Deregister);
        } else {
            assert(acts[2] == ActionModel::Close);
        }
    }
    assert forall|x: u64| registry.contains_key(x) && x != id implies #[trigger] after.contains_key(x)
        && after[x].sender() == registry[x].sender()
        && after[x].offered() == registry[x].offered().push(notice) by {
        assert(registry.remove(id).contains_key(x));
    }
}

} // verus!
