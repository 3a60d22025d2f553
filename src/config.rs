use vstd::prelude::*;
use crate::error::ServerError;
use crate::text::{joined, trim, trimmed};

verus! {

/// The server's settings: where it listens and the bounds that usernames and
/// chat messages must keep.
#[derive(Clone)]
pub struct Config {
    pub server_address: String,
    pub min_username_len: usize,
    pub max_username_len: usize,
    pub min_message_len: usize,
    pub max_message_len: usize,
    /// How many lines a session's mailbox holds before further ones are dropped.
    pub mailbox_capacity: usize,
}

/// Whether a character count lies within `[min, max]`.
pub open spec fn within(len: nat, min: usize, max: usize) -> bool {
    min <= len <= max
}

impl Config {
    /// A username is acceptable when its trimmed length lies within bounds.
    pub open spec fn username_ok(&self, s: Seq<char>) -> bool {
        within(trimmed(s).len(), self.min_username_len, self.max_username_len)
    }

    /// A message is acceptable when its trimmed length lies within bounds.
    pub open spec fn message_ok(&self, s: Seq<char>) -> bool {
        within(trimmed(s).len(), self.min_message_len, self.max_message_len)
    }

    /// Whether an already trimmed username has an acceptable length.
    pub fn fits_username(&self, trimmed_name: &str) -> (r: bool)
        ensures
            r == within(trimmed_name@.len(), self.min_username_len, self.max_username_len),
    {
        let n = trimmed_name.unicode_len();
        self.min_username_len <= n && n <= self.max_username_len
    }

    /// Whether an already trimmed message has an acceptable length.
    pub fn fits_message(&self, trimmed_message: &str) -> (r: bool)
        ensures
            r == within(trimmed_message@.len(), self.min_message_len, self.max_message_len),
    {
        let n = trimmed_message.unicode_len();
        self.min_message_len <= n && n <= self.max_message_len
    }

    /// Checks a username; a request without one is an error.
    pub fn is_valid_username(&self, username: Option<&str>, client_addr: &str) -> (r: Result<
        bool,
        ServerError,
    >)
        ensures
            match username {
                Some(u) => r == Ok::<bool, ServerError>(self.username_ok(u@))
                    && self.username_ok(trimmed(u@)) == self.username_ok(u@),
                None => r matches Err(e) && e.message@ == "Invalid request from "@ + client_addr@,
            },
    {
        match username {
            Some(u) => Ok(self.fits_username(trim(u))),
            None => Err(invalid_request(client_addr)),
        }
    }

    /// Checks a chat message; a request without one is an error.
    pub fn is_valid_message(&self, message: Option<&str>, client_addr: &str) -> (r: Result<
        bool,
        ServerError,
    >)
        ensures
            match message {
                Some(m) => r == Ok::<bool, ServerError>(self.message_ok(m@))
                    && self.message_ok(trimmed(m@)) == self.message_ok(m@),
                None => r matches Err(e) && e.message@ == "Invalid request from "@ + client_addr@,
            },
    {
        match message {
            Some(m) => Ok(self.fits_message(trim(m))),
            None => Err(invalid_request(client_addr)),
        }
    }
}

fn invalid_request(client_addr: &str) -> (e: ServerError)
    ensures
        e.message@ == "Invalid request from "@ + client_addr@,
{
    ServerError { message: joined("Invalid request from ", client_addr) }
}

impl Default for Config {
    fn default() -> (r: Config)
        ensures
            r.server_address@ == "0.0.0.0:8080"@,
            r.min_username_len == 4,
            r.max_username_len == 20,
            r.min_message_len == 1,
            r.max_message_len == 256,
            r.mailbox_capacity == 128,
    {
        Config {
            server_address: String::from_str("0.0.0.0:8080"),
            min_username_len: 4,
            max_username_len: 20,
            min_message_len: 1,
            max_message_len: 256,
            mailbox_capacity: 128,
        }
    }
}

/// A username is accepted exactly when its trimmed length lies within the
/// configured bounds, so names right at either bound pass and names one
/// character outside them do not.
pub proof fn username_bounds(cfg: Config, s: Seq<char>)
    ensures
        cfg.username_ok(s) == (cfg.min_username_len <= trimmed(s).len() <= cfg.max_username_len),
        trimmed(s).len() == cfg.min_username_len ==> cfg.username_ok(s) || cfg.min_username_len > cfg.max_username_len,
        trimmed(s).len() == cfg.max_username_len ==> cfg.username_ok(s) || cfg.min_username_len > cfg.max_username_len,
        trimmed(s).len() + 1 == cfg.min_username_len ==> !cfg.username_ok(s),
        trimmed(s).len() == cfg.max_username_len + 1 ==> !cfg.username_ok(s),
{
}

} // verus!
