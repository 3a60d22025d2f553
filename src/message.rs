use vstd::prelude::*;
use crate::json::JsonObject;
use crate::protocol::{decode_object, envelope_of, opt_view, Envelope, EnvelopeModel, ProtocolError};

verus! {

/// One entry of the client's message log.
#[derive(Debug, Clone, PartialEq, Eq)]
pub struct Message {
    pub data: String,
    pub sender: Option<String>,
    pub date: String,
}

pub struct MessageModel {
    pub data: Seq<char>,
    pub sender: Option<Seq<char>>,
    pub date: Seq<char>,
}

impl View for Message {
    type V = MessageModel;

    open spec fn view(&self) -> MessageModel {
        MessageModel { data: self.data@, sender: opt_view(self.sender), date: self.date@ }
    }
}

pub open spec fn messages_view(m: Seq<Message>) -> Seq<MessageModel> {
    m.map_values(|x: Message| x@)
}

/// Whether `chrono` reads a text as a `%Y-%m-%d %H:%M:%S %z` time stamp.
pub uninterp spec fn is_utc_stamp(date: Seq<char>) -> bool;

/// Relies on `chrono::DateTime::parse_from_str`, `with_timezone(&Local)` and
/// `format`: a server time stamp shown in the local time zone as
/// `%d-%m-%Y %H:%M`, if the text is a time stamp at all.
#[verifier::external_body]
pub(crate) fn local_date(date: &str) -> (r: Option<String>)
    ensures
        r is Some <==> is_utc_stamp(date@),
{
    let stamp = chrono::DateTime::parse_from_str(date, "%Y-%m-%d %H:%M:%S %z").ok()?;
    Some(stamp.with_timezone(&chrono::Local).format("%d-%m-%Y %H:%M").to_string())
}

impl Message {
    pub fn new(data: String, sender: Option<String>, date: String) -> (r: Message)
        ensures
            r.data == data,
            r.sender == sender,
            r.date == date,
    {
        Message { data, sender, date }
    }

    /// The log entry for a notification, with its date in local time.
    /// Fails when the object is no notification or its date no time stamp.
    pub fn from_json_value(value: &JsonObject) -> (r: Result<Message, ProtocolError>)
        ensures
            match envelope_of(value@) {
                Ok(EnvelopeModel::Notification { data, sender, date, .. }) => if is_utc_stamp(date) {
                    r matches Ok(m) && m.data@ == data && opt_view(m.sender) == sender
                } else {
                    r == Err::<Message, ProtocolError>(ProtocolError::BadField)
                },
                Ok(_) => r == Err::<Message, ProtocolError>(ProtocolError::UnknownType),
                Err(x) => r == Err::<Message, ProtocolError>(x),
            },
    {
        match decode_object(value)? {
            Envelope::Notification { data, sender, date, .. } => match local_date(date.as_str()) {
                Some(local) => Ok(Message::new(data, sender, local)),
                None => Err(ProtocolError::BadField),
            },
            _ => Err(ProtocolError::UnknownType),
        }
    }
}

} // verus!
