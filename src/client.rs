use vstd::prelude::*;
use crate::message::{is_utc_stamp, local_date, messages_view, Message, MessageModel};
use crate::protocol::{decode, envelope_of_line, opt_view, Envelope, EnvelopeModel, Method, Status};
use crate::text::{pop_char, push_char};

verus! {

/// The text logged when the server closes the connection.
pub const SERVER_SHUTDOWN_MESSAGE: &'static str = "Server is shutting down, app will be closed in 10 seconds";

/// The banner shown when a line from the server cannot be read.
pub const INVALID_DATA_MESSAGE: &'static str = "Invalid data received from the server";

/// A step of logging in or registering.
#[derive(Debug, Clone, Copy, PartialEq, Eq, Structural)]
pub enum Stage {
    /// The menu that picks logging in or registering.
    Choosing,
    Username,
    /// Reserved for a password step; no server response leads here yet.
    Password,
}

/// Where the client stands with the server.
#[derive(Debug, Clone, Copy, PartialEq, Eq, Structural)]
pub enum ClientState {
    LoggedIn,
    LoggingIn(Stage),
    Registering(Stage),
}

/// Whether keys edit the input line or act as commands.
#[derive(Debug, Clone, Copy, PartialEq, Eq, Structural)]
pub enum InputMode {
    Normal,
    Insert,
}

/// A key press, as far as the client reads it.
#[derive(Debug, Clone, Copy, PartialEq, Eq, Structural)]
pub enum Key {
    Char(char),
    Enter,
    Backspace,
    Esc,
    Up,
    Down,
    Other,
}

/// What the client asks its driver to do.
#[derive(Debug, Clone, PartialEq, Eq)]
pub enum Command {
    Exit,
    SendMessage(String),
    LogInUsername(String),
    LogInPassword(String),
}

impl Command {
    /// The request that a command sends to the server; `Exit` sends none.
    pub fn into_request(self) -> (r: Option<Envelope>)
        ensures
            match self {
                Command::Exit => r is None,
                Command::SendMessage(t) => r == Some(Envelope::Request { method: Method::SendMessage, body: t }),
                Command::LogInUsername(t) => r == Some(Envelope::Request { method: Method::LogInUsername, body: t }),
                Command::LogInPassword(t) => r == Some(Envelope::Request { method: Method::LogInPassword, body: t }),
            },
    {
        match self {
            Command::Exit => None,
            Command::SendMessage(body) => Some(Envelope::Request { method: Method::SendMessage, body }),
            Command::LogInUsername(body) => Some(Envelope::Request { method: Method::LogInUsername, body }),
            Command::LogInPassword(body) => Some(Envelope::Request { method: Method::LogInPassword, body }),
        }
    }
}

/// The terminal client's state: login progress, the input line, the message
/// log and the error banner.
pub struct ChatClient {
    pub username: String,
    pub client_state: ClientState,
    pub input: String,
    pub input_mode: InputMode,
    pub messages: Vec<Message>,
    pub error_handler: Option<String>,
}

/// The state after the server accepts the current login step.
pub open spec fn after_success(s: ClientState) -> ClientState {
    match s {
        ClientState::LoggingIn(Stage::Username) | ClientState::LoggingIn(Stage::Password)
        | ClientState::Registering(Stage::Username) | ClientState::Registering(Stage::Password) =>
            ClientState::LoggedIn,
        _ => s,
    }
}

/// The state after a key on the menu.
pub open spec fn after_menu_key(s: ClientState, key: Key) -> ClientState {
    match key {
        Key::Up | Key::Down | Key::Char('j') | Key::Char('k') => match s {
            ClientState::LoggingIn(_) => ClientState::Registering(Stage::Choosing),
            _ => ClientState::LoggingIn(Stage::Choosing),
        },
        Key::Enter => match s {
            ClientState::LoggingIn(_) => ClientState::LoggingIn(Stage::Username),
            _ => ClientState::Registering(Stage::Username),
        },
        _ => s,
    }
}

pub open spec fn on_menu(s: ClientState) -> bool {
    s == ClientState::LoggingIn(Stage::Choosing) || s == ClientState::Registering(Stage::Choosing)
}

/// Everything but the input line is left as it was.
pub open spec fn keeps_all_but_input(a: ChatClient, b: ChatClient) -> bool {
    &&& b.username == a.username
    &&& b.client_state == a.client_state
    &&& b.input_mode == a.input_mode
    &&& b.messages@ == a.messages@
    &&& b.error_handler == a.error_handler
}

pub open spec fn unchanged(a: ChatClient, b: ChatClient) -> bool {
    keeps_all_but_input(a, b) && b.input == a.input
}

/// `q` asks to leave; no other key sends anything.
pub open spec fn exit_on_q(key: Key, r: Option<Command>) -> bool {
    if key == Key::Char('q') {
        r == Some(Command::Exit)
    } else {
        r is None
    }
}

/// A key on the login menu.
pub open spec fn menu_effect(a: ChatClient, b: ChatClient, key: Key, r: Option<Command>) -> bool {
    if on_menu(a.client_state) {
        &&& b.client_state == after_menu_key(a.client_state, key)
        &&& exit_on_q(key, r)
        &&& b.username == a.username && b.input == a.input && b.input_mode == a.input_mode
        &&& b.messages@ == a.messages@ && b.error_handler == a.error_handler
    } else {
        unchanged(a, b) && r is None
    }
}

/// A key in normal mode: `i` returns to insert mode, `q` asks to leave.
pub open spec fn normal_effect(a: ChatClient, b: ChatClient, key: Key, r: Option<Command>) -> bool {
    &&& exit_on_q(key, r)
    &&& b.input_mode == if key == Key::Char('i') {
        InputMode::Insert
    } else {
        a.input_mode
    }
    &&& b.username == a.username && b.input == a.input && b.client_state == a.client_state
    &&& b.messages@ == a.messages@ && b.error_handler == a.error_handler
}

/// A key in insert mode: characters edit the input line, `Esc` leaves for
/// normal mode, and `Enter` submits the line as the current state asks,
/// echoing a chat message into the log at once. Before login the line is
/// sent as the username, whatever the login step.
pub open spec fn insert_effect(a: ChatClient, b: ChatClient, key: Key, now: Seq<char>, r: Option<Command>) -> bool {
    match key {
        Key::Enter => {
            &&& b.input@ == Seq::<char>::empty()
            &&& b.client_state == a.client_state && b.input_mode == a.input_mode
            &&& b.error_handler == a.error_handler
            &&& if a.client_state == ClientState::LoggedIn {
                &&& r matches Some(Command::SendMessage(t)) && t@ == a.input@
                &&& messages_view(b.messages@) == messages_view(a.messages@).push(
                    MessageModel { data: a.input@, sender: Some(a.username@), date: now },
                )
                &&& b.username == a.username
            } else {
                &&& r matches Some(Command::LogInUsername(t)) && t@ == a.input@
                &&& b.messages@ == a.messages@ && b.username@ == a.input@
            }
        },
        Key::Char(c) => r is None && keeps_all_but_input(a, b) && b.input@ == a.input@.push(c),
        Key::Backspace => r is None && keeps_all_but_input(a, b) && b.input@ == if a.input@.len() > 0 {
            a.input@.drop_last()
        } else {
            a.input@
        },
        Key::Esc => {
            &&& r is None && b.input_mode == InputMode::Normal
            &&& b.username == a.username && b.input == a.input && b.client_state == a.client_state
            &&& b.messages@ == a.messages@ && b.error_handler == a.error_handler
        },
        _ => r is None && unchanged(a, b),
    }
}

/// Relies on `chrono::Local::now` and `format`: the local time as
/// `%d-%m-%Y %H:%M`.
#[verifier::external_body]
fn local_stamp() -> (r: String) {
    chrono::Local::now().format("%d-%m-%Y %H:%M").to_string()
}

impl ChatClient {
    /// A client at the login menu, in insert mode, with nothing logged.
    pub fn new() -> (r: ChatClient)
        ensures
            r.username@ == Seq::<char>::empty(),
            r.client_state == ClientState::LoggingIn(Stage::Choosing),
            r.input@ == Seq::<char>::empty(),
            r.input_mode == InputMode::Insert,
            r.messages@ == Seq::<Message>::empty(),
            r.error_handler is None,
    {
        ChatClient {
            username: String::new(),
            client_state: ClientState::LoggingIn(Stage::Choosing),
            input: String::new(),
            input_mode: InputMode::Insert,
            messages: Vec::new(),
            error_handler: None,
        }
    }

    /// Logs that the server has gone away.
    pub fn handle_server_shutdown(&mut self, now: &str)
        ensures
            messages_view(final(self).messages@) == messages_view(old(self).messages@).push(
                MessageModel { data: SERVER_SHUTDOWN_MESSAGE@, sender: None, date: now@ },
            ),
            final(self).client_state == old(self).client_state,
            final(self).input == old(self).input,
            final(self).input_mode == old(self).input_mode,
            final(self).error_handler == old(self).error_handler,
            final(self).username == old(self).username,
    {
        let m = Message::new(String::from_str(SERVER_SHUTDOWN_MESSAGE), None, String::from_str(now));
        self.messages.push(m);
        assert(messages_view(self.messages@) =~= messages_view(old(self).messages@).push(m@));
    }

    /// `handle_server_shutdown` stamped with the current local time.
    pub fn handle_server_shutdown_now(&mut self)
        ensures
            messages_view(final(self).messages@).len() == old(self).messages@.len() + 1,
            messages_view(final(self).messages@).drop_last() == messages_view(old(self).messages@),
            messages_view(final(self).messages@).last().data == SERVER_SHUTDOWN_MESSAGE@,
            messages_view(final(self).messages@).last().sender is None,
            final(self).client_state == old(self).client_state,
            final(self).input == old(self).input,
            final(self).input_mode == old(self).input_mode,
            final(self).error_handler == old(self).error_handler,
            final(self).username == old(self).username,
    {
        let now = local_stamp();
        self.handle_server_shutdown(now.as_str());
        assert(messages_view(self.messages@).drop_last() =~= messages_view(old(self).messages@));
    }

    /// Applies a response: success moves the login on; a rejection shows its
    /// message and, once logged in, takes back the message just echoed.
    pub fn handle_response(&mut self, status: Status, message: String)
        ensures
            status == Status::Success ==> final(self).client_state == after_success(old(self).client_state)
                && final(self).messages@ == old(self).messages@
                && final(self).error_handler == old(self).error_handler,
            status == Status::BadRequest ==> final(self).client_state == old(self).client_state
                && final(self).error_handler == Some(message)
                && final(self).messages@ == if old(self).client_state == ClientState::LoggedIn
                    && old(self).messages@.len() > 0 {
                    old(self).messages@.drop_last()
                } else {
                    old(self).messages@
                },
            final(self).input == old(self).input,
            final(self).input_mode == old(self).input_mode,
            final(self).username == old(self).username,
    {
        match status {
            Status::Success => {
                self.client_state = match self.client_state {
                    ClientState::LoggingIn(Stage::Username) | ClientState::LoggingIn(Stage::Password)
                    | ClientState::Registering(Stage::Username)
                    | ClientState::Registering(Stage::Password) => ClientState::LoggedIn,
                    s => s,
                };
            },
            Status::BadRequest => {
                self.error_handler = Some(message);
                if self.client_state == ClientState::LoggedIn {
                    self.messages.pop();
                }
            },
        }
    }

    /// Logs a chat or system notification, dated in local time, once logged in.
    pub fn handle_request(&mut self, data: String, sender: Option<String>, date: &str)
        ensures
            old(self).client_state != ClientState::LoggedIn ==> final(self).messages@ == old(self).messages@
                && final(self).error_handler == old(self).error_handler,
            old(self).client_state == ClientState::LoggedIn && is_utc_stamp(date@) ==>
                final(self).messages@.len() == old(self).messages@.len() + 1
                && final(self).messages@.drop_last() == old(self).messages@
                && final(self).messages@.last().data == data
                && final(self).messages@.last().sender == sender
                && final(self).error_handler == old(self).error_handler,
            old(self).client_state == ClientState::LoggedIn && !is_utc_stamp(date@) ==>
                final(self).messages@ == old(self).messages@
                && (final(self).error_handler matches Some(b) && b@ == INVALID_DATA_MESSAGE@),
            final(self).client_state == old(self).client_state,
            final(self).input == old(self).input,
            final(self).input_mode == old(self).input_mode,
            final(self).username == old(self).username,
    {
        if self.client_state == ClientState::LoggedIn {
            match local_date(date) {
                Some(local) => {
                    self.messages.push(Message::new(data, sender, local));
                    assert(self.messages@.drop_last() =~= old(self).messages@);
                },
                None => {
                    self.error_handler = Some(String::from_str(INVALID_DATA_MESSAGE));
                },
            }
        }
    }

    /// Handles a key on the login menu.
    pub fn handle_menu_events(&mut self, key: Key) -> (r: Option<Command>)
        ensures
            menu_effect(*old(self), *final(self), key, r),
    {
        if self.client_state == ClientState::LoggingIn(Stage::Choosing)
            || self.client_state == ClientState::Registering(Stage::Choosing) {
            let logging_in = match self.client_state {
                ClientState::LoggingIn(_) => true,
                _ => false,
            };
            match key {
                Key::Up | Key::Down | Key::Char('j') | Key::Char('k') => {
                    self.client_state = if logging_in {
                        ClientState::Registering(Stage::Choosing)
                    } else {
                        ClientState::LoggingIn(Stage::Choosing)
                    };
                    None
                },
                Key::Enter => {
                    self.client_state = if logging_in {
                        ClientState::LoggingIn(Stage::Username)
                    } else {
                        ClientState::Registering(Stage::Username)
                    };
                    None
                },
                Key::Char('q') => Some(Command::Exit),
                _ => None,
            }
        } else {
            None
        }
    }

    /// Handles a key in normal mode.
    pub fn handle_normal_mode(&mut self, key: Key) -> (r: Option<Command>)
        ensures
            normal_effect(*old(self), *final(self), key, r),
    {
        match key {
            Key::Char('i') => {
                self.input_mode = InputMode::Insert;
                None
            },
            Key::Char('q') => Some(Command::Exit),
            _ => None,
        }
    }

    /// Handles a key in insert mode; `now` dates an echoed chat message.
    pub fn handle_insert_mode(&mut self, key: Key, now: &str) -> (r: Option<Command>)
        ensures
            insert_effect(*old(self), *final(self), key, now@, r),
    {
        match key {
            Key::Enter => {
                let text = self.input.clone();
                let command = if self.client_state == ClientState::LoggedIn {
                    let m = Message::new(text.clone(), Some(self.username.clone()), String::from_str(now));
                    self.messages.push(m);
                    assert(messages_view(self.messages@) =~= messages_view(old(self).messages@).push(m@));
                    Command::SendMessage(text)
                } else {
                    self.username = text.clone();
                    Command::LogInUsername(text)
                };
                self.input = String::new();
                Some(command)
            },
            Key::Char(c) => {
                push_char(&mut self.input, c);
                None
            },
            Key::Backspace => {
                pop_char(&mut self.input);
                None
            },
            Key::Esc => {
                self.input_mode = InputMode::Normal;
                None
            },
            _ => None,
        }
    }

    /// Handles a key: while the error banner shows, only `q` counts, and it
    /// dismisses the banner and clears the input; otherwise the menu, normal
    /// mode or insert mode handles it.
    pub fn handle_input_event(&mut self, key: Key, now: &str) -> (r: Option<Command>)
        ensures
            old(self).error_handler is Some ==> r is None && if key == Key::Char('q') {
                &&& final(self).error_handler is None && final(self).input@ == Seq::<char>::empty()
                &&& final(self).username == old(self).username
                &&& final(self).client_state == old(self).client_state
                &&& final(self).input_mode == old(self).input_mode
                &&& final(self).messages@ == old(self).messages@
            } else {
                unchanged(*old(self), *final(self))
            },
            old(self).error_handler is None && on_menu(old(self).client_state)
                ==> menu_effect(*old(self), *final(self), key, r),
            old(self).error_handler is None && !on_menu(old(self).client_state)
                && old(self).input_mode == InputMode::Normal ==> normal_effect(*old(self), *final(self), key, r),
            old(self).error_handler is None && !on_menu(old(self).client_state)
                && old(self).input_mode == InputMode::Insert ==> insert_effect(*old(self), *final(self), key, now@, r),
    {
        if self.error_handler.is_none() {
            if self.client_state == ClientState::LoggingIn(Stage::Choosing)
                || self.client_state == ClientState::Registering(Stage::Choosing) {
                self.handle_menu_events(key)
            } else {
                match self.input_mode {
                    InputMode::Normal => self.handle_normal_mode(key),
                    InputMode::Insert => self.handle_insert_mode(key, now),
                }
            }
        } else {
            if key == Key::Char('q') {
                self.error_handler = None;
                self.input = String::new();
            }
            None
        }
    }

    /// `handle_input_event`, dating an echoed message with the local time.
    pub fn handle_input_event_now(&mut self, key: Key) -> (r: Option<Command>)
        ensures
            old(self).error_handler is Some ==> r is None && if key == Key::Char('q') {
                &&& final(self).error_handler is None && final(self).input@ == Seq::<char>::empty()
                &&& final(self).username == old(self).username
                &&& final(self).client_state == old(self).client_state
                &&& final(self).input_mode == old(self).input_mode
                &&& final(self).messages@ == old(self).messages@
            } else {
                unchanged(*old(self), *final(self))
            },
            old(self).error_handler is None && on_menu(old(self).client_state)
                ==> menu_effect(*old(self), *final(self), key, r),
            old(self).error_handler is None && !on_menu(old(self).client_state)
                && old(self).input_mode == InputMode::Normal ==> normal_effect(*old(self), *final(self), key, r),
            old(self).error_handler is None && !on_menu(old(self).client_state)
                && old(self).input_mode == InputMode::Insert ==> exists|now: Seq<char>|
                insert_effect(*old(self), *final(self), key, now, r),
    {
        let now = local_stamp();
        self.handle_input_event(key, now.as_str())
    }

    /// A line from the server could not be framed: raise the error banner.
    pub fn handle_read_error(&mut self)
        ensures
            final(self).error_handler matches Some(b) && b@ == INVALID_DATA_MESSAGE@,
            final(self).client_state == old(self).client_state,
            final(self).messages@ == old(self).messages@,
            final(self).input == old(self).input,
            final(self).input_mode == old(self).input_mode,
            final(self).username == old(self).username,
    {
        self.error_handler = Some(String::from_str(INVALID_DATA_MESSAGE));
    }

    /// Reads one line from the server: a response or a notification is
    /// applied; anything else only raises the error banner.
    pub fn handle_received_data(&mut self, data: &str)
        ensures
            match envelope_of_line(data@) {
                Ok(EnvelopeModel::Response { status, message }) => match status {
                    Status::Success => final(self).client_state == after_success(old(self).client_state)
                        && final(self).messages@ == old(self).messages@
                        && final(self).error_handler == old(self).error_handler,
                    Status::BadRequest => final(self).client_state == old(self).client_state
                        && (final(self).error_handler matches Some(b) && b@ == message)
                        && final(self).messages@ == if old(self).client_state == ClientState::LoggedIn
                            && old(self).messages@.len() > 0 {
                            old(self).messages@.drop_last()
                        } else {
                            old(self).messages@
                        },
                },
                Ok(EnvelopeModel::Notification { data: text, sender, date, .. }) => {
                    &&& final(self).client_state == old(self).client_state
                    &&& old(self).client_state != ClientState::LoggedIn ==> final(self).messages@
                        == old(self).messages@ && final(self).error_handler == old(self).error_handler
                    &&& old(self).client_state == ClientState::LoggedIn && is_utc_stamp(date) ==> {
                        &&& final(self).messages@.len() == old(self).messages@.len() + 1
                        &&& final(self).messages@.drop_last() == old(self).messages@
                        &&& final(self).messages@.last().data@ == text
                        &&& opt_view(final(self).messages@.last().sender) == sender
                        &&& final(self).error_handler == old(self).error_handler
                    }
                    &&& old(self).client_state == ClientState::LoggedIn && !is_utc_stamp(date) ==> {
                        &&& final(self).messages@ == old(self).messages@
                        &&& final(self).error_handler matches Some(b) && b@ == INVALID_DATA_MESSAGE@
                    }
                },
                _ => final(self).client_state == old(self).client_state
                    && final(self).messages@ == old(self).messages@
                    && (final(self).error_handler matches Some(b) && b@ == INVALID_DATA_MESSAGE@),
            },
            final(self).input == old(self).input,
            final(self).input_mode == old(self).input_mode,
            final(self).username == old(self).username,
    {
        match decode(data) {
            Ok(Envelope::Response { status, message }) => self.handle_response(status, message),
            Ok(Envelope::Notification { data, sender, date, .. }) => self.handle_request(data, sender, date.as_str()),
            _ => {
                self.error_handler = Some(String::from_str(INVALID_DATA_MESSAGE));
            },
        }
    }
}

} // verus!
