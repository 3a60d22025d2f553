use vstd::prelude::*;
use crate::json::{
    find, find_member, json_text, lookup, member, members_view, parse_object, parsed_json,
    render_object, JsonModel, JsonObject, JsonValue, ObjectModel,
};
use crate::text::joined;

verus! {

/// What a client asks of the server.
#[derive(Debug, Clone, Copy, PartialEq, Eq, Structural)]
pub enum Method {
    LogInUsername,
    /// Reserved for a password stage; the server answers it as a bad request.
    LogInPassword,
    SendMessage,
}

/// The outcome that a response reports: `200` or `400` on the wire.
#[derive(Debug, Clone, Copy, PartialEq, Eq, Structural)]
pub enum Status {
    Success,
    BadRequest,
}

/// What a notification from the server announces.
#[derive(Debug, Clone, Copy, PartialEq, Eq, Structural)]
pub enum Event {
    Connection,
    SendMessage,
}

/// One line of the wire protocol.
#[derive(Debug, Clone, PartialEq, Eq)]
pub enum Envelope {
    /// Client to server.
    Request { method: Method, body: String },
    /// Server to client: the answer to a request.
    Response { status: Status, message: String },
    /// Server to client: a chat or system event.
    Notification { event: Event, data: String, sender: Option<String>, date: String },
}

/// Why a line could not be read as an envelope.
#[derive(Debug, Clone, Copy, PartialEq, Eq, Structural)]
pub enum ProtocolError {
    /// The line is not a JSON object.
    NotJson,
    /// The `type` member names no known kind of envelope.
    UnknownType,
    /// The `method` member names no known method.
    UnknownMethod,
    /// The `status_code` member is neither 200 nor 400.
    UnknownStatus,
    /// A required member is missing or has the wrong JSON type.
    BadField,
}

/// The content of an envelope.
pub enum EnvelopeModel {
    Request { method: Method, body: Seq<char> },
    Response { status: Status, message: Seq<char> },
    Notification { event: Event, data: Seq<char>, sender: Option<Seq<char>>, date: Seq<char> },
}

pub open spec fn opt_view(s: Option<String>) -> Option<Seq<char>> {
    match s {
        Some(s) => Some(s@),
        None => None,
    }
}

impl View for Envelope {
    type V = EnvelopeModel;

    open spec fn view(&self) -> EnvelopeModel {
        match self {
            Envelope::Request { method, body } => EnvelopeModel::Request { method: *method, body: body@ },
            Envelope::Response { status, message } => EnvelopeModel::Response {
                status: *status,
                message: message@,
            },
            Envelope::Notification { event, data, sender, date } => EnvelopeModel::Notification {
                event: *event,
                data: data@,
                sender: opt_view(*sender),
                date: date@,
            },
        }
    }
}

pub open spec fn result_view(r: Result<Envelope, ProtocolError>) -> Result<EnvelopeModel, ProtocolError> {
    match r {
        Ok(e) => Ok(e@),
        Err(x) => Err(x),
    }
}

pub open spec fn method_name(m: Method) -> Seq<char> {
    match m {
        Method::LogInUsername => "LogInUsername"@,
        Method::LogInPassword => "LogInPassword"@,
        Method::SendMessage => "SendMessage"@,
    }
}

pub open spec fn event_name(e: Event) -> Seq<char> {
    match e {
        Event::Connection => "Connection"@,
        Event::SendMessage => "SendMessage"@,
    }
}

pub open spec fn status_code(s: Status) -> int {
    match s {
        Status::Success => 200,
        Status::BadRequest => 400,
    }
}

pub open spec fn method_of(name: Seq<char>) -> Option<Method> {
    if name == "LogInUsername"@ {
        Some(Method::LogInUsername)
    } else if name == "LogInPassword"@ {
        Some(Method::LogInPassword)
    } else if name == "SendMessage"@ {
        Some(Method::SendMessage)
    } else {
        None
    }
}

pub open spec fn event_of(name: Seq<char>) -> Option<Event> {
    if name == "Connection"@ {
        Some(Event::Connection)
    } else if name == "SendMessage"@ {
        Some(Event::SendMessage)
    } else {
        None
    }
}

pub open spec fn status_of(code: int) -> Option<Status> {
    if code == 200 {
        Some(Status::Success)
    } else if code == 400 {
        Some(Status::BadRequest)
    } else {
        None
    }
}

/// The members of a notification's body.
pub open spec fn body_members(data: Seq<char>, sender: Option<Seq<char>>, date: Seq<char>) -> Seq<
    (Seq<char>, Option<Seq<char>>),
> {
    match sender {
        Some(s) => seq![("data"@, Some(data)), ("sender"@, Some(s)), ("date"@, Some(date))],
        None => seq![("data"@, Some(data)), ("date"@, Some(date))],
    }
}

/// The JSON object that stands for an envelope.
pub open spec fn object_of(e: EnvelopeModel) -> ObjectModel {
    match e {
        EnvelopeModel::Request { method, body } => seq![
            ("type"@, JsonModel::Str("request_c2s"@)),
            ("method"@, JsonModel::Str(method_name(method))),
            ("body"@, JsonModel::Str(body)),
        ],
        EnvelopeModel::Response { status, message } => seq![
            ("type"@, JsonModel::Str("response"@)),
            ("status_code"@, JsonModel::Int(status_code(status))),
            ("message"@, JsonModel::Str(message)),
        ],
        EnvelopeModel::Notification { event, data, sender, date } => seq![
            ("type"@, JsonModel::Str("request_s2c"@)),
            ("method"@, JsonModel::Str(event_name(event))),
            ("body"@, JsonModel::Object(body_members(data, sender, date))),
        ],
    }
}

pub open spec fn request_of(o: ObjectModel) -> Result<EnvelopeModel, ProtocolError> {
    match lookup(o, "method"@) {
        Some(JsonModel::Str(name)) => match method_of(name) {
            Some(method) => match lookup(o, "body"@) {
                Some(JsonModel::Str(body)) => Ok(EnvelopeModel::Request { method, body }),
                _ => Err(ProtocolError::BadField),
            },
            None => Err(ProtocolError::UnknownMethod),
        },
        _ => Err(ProtocolError::BadField),
    }
}

pub open spec fn response_of(o: ObjectModel) -> Result<EnvelopeModel, ProtocolError> {
    match lookup(o, "status_code"@) {
        Some(JsonModel::Int(code)) => match status_of(code) {
            Some(status) => match lookup(o, "message"@) {
                Some(JsonModel::Str(message)) => Ok(EnvelopeModel::Response { status, message }),
                _ => Err(ProtocolError::BadField),
            },
            None => Err(ProtocolError::UnknownStatus),
        },
        _ => Err(ProtocolError::BadField),
    }
}

pub open spec fn notification_of(o: ObjectModel) -> Result<EnvelopeModel, ProtocolError> {
    match lookup(o, "method"@) {
        Some(JsonModel::Str(name)) => match event_of(name) {
            Some(event) => match lookup(o, "body"@) {
                Some(JsonModel::Object(m)) => match (member(m, "data"@), member(m, "sender"@), member(m, "date"@)) {
                    (Some(Some(data)), None, Some(Some(date))) =>
                        Ok(EnvelopeModel::Notification { event, data, sender: None, date }),
                    (Some(Some(data)), Some(Some(s)), Some(Some(date))) =>
                        Ok(EnvelopeModel::Notification { event, data, sender: Some(s), date }),
                    _ => Err(ProtocolError::BadField),
                },
                _ => Err(ProtocolError::BadField),
            },
            None => Err(ProtocolError::UnknownMethod),
        },
        _ => Err(ProtocolError::BadField),
    }
}

/// The envelope that a JSON object stands for, or why it stands for none.
pub open spec fn envelope_of(o: ObjectModel) -> Result<EnvelopeModel, ProtocolError> {
    match lookup(o, "type"@) {
        Some(JsonModel::Str(t)) => if t == "request_c2s"@ {
            request_of(o)
        } else if t == "response"@ {
            response_of(o)
        } else if t == "request_s2c"@ {
            notification_of(o)
        } else {
            Err(ProtocolError::UnknownType)
        },
        _ => Err(ProtocolError::BadField),
    }
}

/// The envelope that a line of text holds.
pub open spec fn envelope_of_line(line: Seq<char>) -> Result<EnvelopeModel, ProtocolError> {
    match parsed_json(line) {
        Some(o) => envelope_of(o),
        None => Err(ProtocolError::NotJson),
    }
}

/// The text line that stands for an envelope, newline included.
pub open spec fn line_of(e: EnvelopeModel) -> Seq<char> {
    json_text(object_of(e)) + "\n"@
}


fn word(s: &str) -> (r: String)
    ensures
        r@ == s@,
{
    String::from_str(s)
}

fn is(s: &String, w: &str) -> (r: bool)
    ensures
        r == (s@ == w@),
{
    *s == String::from_str(w)
}

fn method_named(name: &String) -> (r: Option<Method>)
    ensures
        r == method_of(name@),
{
    if is(name, "LogInUsername") {
        Some(Method::LogInUsername)
    } else if is(name, "LogInPassword") {
        Some(Method::LogInPassword)
    } else if is(name, "SendMessage") {
        Some(Method::SendMessage)
    } else {
        None
    }
}

fn event_named(name: &String) -> (r: Option<Event>)
    ensures
        r == event_of(name@),
{
    if is(name, "Connection") {
        Some(Event::Connection)
    } else if is(name, "SendMessage") {
        Some(Event::SendMessage)
    } else {
        None
    }
}

impl Method {
    /// The method's name on the wire.
    pub fn name(&self) -> (r: String)
        ensures
            r@ == method_name(*self),
    {
        match self {
            Method::LogInUsername => word("LogInUsername"),
            Method::LogInPassword => word("LogInPassword"),
            Method::SendMessage => word("SendMessage"),
        }
    }
}

impl Event {
    /// The event's name on the wire.
    pub fn name(&self) -> (r: String)
        ensures
            r@ == event_name(*self),
    {
        match self {
            Event::Connection => word("Connection"),
            Event::SendMessage => word("SendMessage"),
        }
    }
}

impl Status {
    /// The status code on the wire.
    pub fn code(&self) -> (r: i64)
        ensures
            r as int == status_code(*self),
    {
        match self {
            Status::Success => 200,
            Status::BadRequest => 400,
        }
    }
}

/// The JSON object that stands for an envelope.
pub fn encode_object(e: &Envelope) -> (r: JsonObject)
    ensures
        r@ == object_of(e@),
{
    let mut entries: Vec<(String, JsonValue)> = Vec::new();
    match e {
        Envelope::Request { method, body } => {
            entries.push((word("type"), JsonValue::Str(word("request_c2s"))));
            entries.push((word("method"), JsonValue::Str(method.name())));
            entries.push((word("body"), JsonValue::Str(body.clone())));
        },
        Envelope::Response { status, message } => {
            entries.push((word("type"), JsonValue::Str(word("response"))));
            entries.push((word("status_code"), JsonValue::Int(status.code())));
            entries.push((word("message"), JsonValue::Str(message.clone())));
        },
        Envelope::Notification { event, data, sender, date } => {
            let mut members: Vec<(String, Option<String>)> = Vec::new();
            members.push((word("data"), Some(data.clone())));
            match sender {
                Some(s) => members.push((word("sender"), Some(s.clone()))),
                None => {},
            }
            members.push((word("date"), Some(date.clone())));
            assert(members_view(members@) =~= body_members(data@, opt_view(*sender), date@));
            entries.push((word("type"), JsonValue::Str(word("request_s2c"))));
            entries.push((word("method"), JsonValue::Str(event.name())));
            entries.push((word("body"), JsonValue::Object(members)));
        },
    }
    let r = JsonObject { entries };
    assert(r@ =~= object_of(e@));
    r
}

fn string_at(o: &JsonObject, key: &str) -> (r: Result<String, ProtocolError>)
    ensures
        match lookup(o@, key@) {
            Some(JsonModel::Str(s)) => r matches Ok(v) && v@ == s,
            _ => r == Err::<String, ProtocolError>(ProtocolError::BadField),
        },
{
    match find(o, &word(key)) {
        Some(i) => match &o.entries[i].1 {
            JsonValue::Str(s) => Ok(s.clone()),
            _ => Err(ProtocolError::BadField),
        },
        None => Err(ProtocolError::BadField),
    }
}

fn request_from(o: &JsonObject) -> (r: Result<Envelope, ProtocolError>)
    ensures
        result_view(r) == request_of(o@),
{
    let name = string_at(o, "method")?;
    let method = match method_named(&name) {
        Some(m) => m,
        None => return Err(ProtocolError::UnknownMethod),
    };
    let body = string_at(o, "body")?;
    Ok(Envelope::Request { method, body })
}

fn response_from(o: &JsonObject) -> (r: Result<Envelope, ProtocolError>)
    ensures
        result_view(r) == response_of(o@),
{
    let status = match find(o, &word("status_code")) {
        Some(i) => match &o.entries[i].1 {
            JsonValue::Int(200) => Status::Success,
            JsonValue::Int(400) => Status::BadRequest,
            JsonValue::Int(_) => return Err(ProtocolError::UnknownStatus),
            _ => return Err(ProtocolError::BadField),
        },
        None => return Err(ProtocolError::BadField),
    };
    let message = string_at(o, "message")?;
    Ok(Envelope::Response { status, message })
}

fn member_at(m: &Vec<(String, Option<String>)>, key: &str) -> (r: Result<Option<String>, ProtocolError>)
    ensures
        match member(members_view(m@), key@) {
            None => r == Ok::<Option<String>, ProtocolError>(None),
            Some(Some(s)) => r matches Ok(Some(v)) && v@ == s,
            Some(None) => r == Err::<Option<String>, ProtocolError>(ProtocolError::BadField),
        },
{
    match find_member(m, &word(key)) {
        Some(i) => match &m[i].1 {
            Some(s) => Ok(Some(s.clone())),
            None => Err(ProtocolError::BadField),
        },
        None => Ok(None),
    }
}

fn notification_from(o: &JsonObject) -> (r: Result<Envelope, ProtocolError>)
    ensures
        result_view(r) == notification_of(o@),
{
    let name = string_at(o, "method")?;
    let event = match event_named(&name) {
        Some(e) => e,
        None => return Err(ProtocolError::UnknownMethod),
    };
    let members = match find(o, &word("body")) {
        Some(i) => match &o.entries[i].1 {
            JsonValue::Object(m) => m,
            _ => return Err(ProtocolError::BadField),
        },
        None => return Err(ProtocolError::BadField),
    };
    let data = member_at(members, "data")?;
    let sender = member_at(members, "sender")?;
    let date = member_at(members, "date")?;
    match (data, date) {
        (Some(data), Some(date)) => Ok(Envelope::Notification { event, data, sender, date }),
        _ => Err(ProtocolError::BadField),
    }
}

/// The envelope that a JSON object stands for, or why it stands for none.
pub fn decode_object(o: &JsonObject) -> (r: Result<Envelope, ProtocolError>)
    ensures
        result_view(r) == envelope_of(o@),
{
    let kind = string_at(o, "type")?;
    if is(&kind, "request_c2s") {
        request_from(o)
    } else if is(&kind, "response") {
        response_from(o)
    } else if is(&kind, "request_s2c") {
        notification_from(o)
    } else {
        Err(ProtocolError::UnknownType)
    }
}

/// Writes an envelope as one line of JSON, newline included.
pub fn encode(e: &Envelope) -> (r: String)
    ensures
        r@ == line_of(e@),
{
    let text = render_object(&encode_object(e));
    joined(text.as_str(), "\n")
}

/// Reads an envelope from one line of text (with or without its newline).
pub fn decode(line: &str) -> (r: Result<Envelope, ProtocolError>)
    ensures
        result_view(r) == envelope_of_line(line@),
{
    match parse_object(line) {
        Some(o) => decode_object(&o),
        None => Err(ProtocolError::NotJson),
    }
}

proof fn body_members_read(data: Seq<char>, sender: Option<Seq<char>>, date: Seq<char>)
    ensures
        member(body_members(data, sender, date), "data"@) == Some(Some(data)),
        member(body_members(data, sender, date), "date"@) == Some(Some(date)),
        member(body_members(data, sender, date), "sender"@) == match sender {
            Some(x) => Some(Some(x)),
            None => None::<Option<Seq<char>>>,
        },
{
    reveal_strlit("data");
    reveal_strlit("sender");
    reveal_strlit("date");
    reveal_with_fuel(member, 4);
    let m = body_members(data, sender, date);
    assert(m.drop_first() =~= m.subrange(1, m.len() as int));
    assert(m.drop_first().drop_first() =~= m.subrange(2, m.len() as int));
    assert("data"@[3] != "date"@[3]);
    assert("sender"@.len() != "date"@.len() && "sender"@.len() != "data"@.len());
}

proof fn notification_round_trip(e: EnvelopeModel)
    requires
        e is Notification,
    ensures
        envelope_of(object_of(e)) == Ok::<EnvelopeModel, ProtocolError>(e),
{
    reveal_strlit("type");
    reveal_strlit("method");
    reveal_strlit("body");
    reveal_strlit("request_c2s");
    reveal_strlit("response");
    reveal_strlit("request_s2c");
    reveal_strlit("SendMessage");
    reveal_strlit("Connection");
    reveal_with_fuel(lookup, 4);
    let o = object_of(e);
    assert(o.drop_first().drop_first() =~= seq![o[2]]);
    assert(o.drop_first() =~= seq![o[1], o[2]]);
    let (event, data, sender, date) = (e->event, e->data, e->sender, e->date);
    body_members_read(data, sender, date);
    assert("SendMessage"@.len() != "Connection"@.len());
    assert("request_s2c"@[8] != "request_c2s"@[8]);
    assert("request_s2c"@.len() != "response"@.len());
    assert("body"@[0] != "type"@[0] && "body"@[0] != "method"@[0]);
    assert(event_of(event_name(event)) == Some(event));
    assert(lookup(o, "type"@) == Some(JsonModel::Str("request_s2c"@)));
    assert(lookup(o, "method"@) == Some(JsonModel::Str(event_name(event))));
    assert(lookup(o, "body"@) == Some(JsonModel::Object(body_members(data, sender, date))));
    assert(notification_of(o) == Ok::<EnvelopeModel, ProtocolError>(e));
}

proof fn request_round_trip(e: EnvelopeModel)
    requires
        e is Request,
    ensures
        envelope_of(object_of(e)) == Ok::<EnvelopeModel, ProtocolError>(e),
{
    reveal_strlit("type");
    reveal_strlit("method");
    reveal_strlit("body");
    reveal_strlit("LogInUsername");
    reveal_strlit("LogInPassword");
    reveal_strlit("SendMessage");
    reveal_with_fuel(lookup, 4);
    let o = object_of(e);
    assert(o.drop_first().drop_first() =~= seq![o[2]]);
    assert(o.drop_first() =~= seq![o[1], o[2]]);
    let method = e->method;
    assert("LogInUsername"@[5] != "LogInPassword"@[5]);
    assert("SendMessage"@.len() != "LogInPassword"@.len());
    assert(method_of(method_name(method)) == Some(method));
    assert("body"@[0] != "type"@[0] && "body"@[0] != "method"@[0]);
    assert(lookup(o, "type"@) == Some(JsonModel::Str("request_c2s"@)));
    assert(lookup(o, "method"@) == Some(JsonModel::Str(method_name(method))));
    assert(lookup(o, "body"@) == Some(o[2].1));
}

proof fn response_round_trip(e: EnvelopeModel)
    requires
        e is Response,
    ensures
        envelope_of(object_of(e)) == Ok::<EnvelopeModel, ProtocolError>(e),
{
    reveal_strlit("type");
    reveal_strlit("status_code");
    reveal_strlit("message");
    reveal_strlit("request_c2s");
    reveal_strlit("response");
    reveal_with_fuel(lookup, 4);
    let o = object_of(e);
    assert(o.drop_first().drop_first() =~= seq![o[2]]);
    assert(o.drop_first() =~= seq![o[1], o[2]]);
    assert("response"@[2] != "request_c2s"@[2]);
    assert("status_code"@.len() != "type"@.len());
    assert("message"@.len() != "type"@.len() && "message"@.len() != "status_code"@.len());
    assert(lookup(o, "message"@) == Some(o[2].1));
}

/// Reading back the JSON object written for an envelope gives that envelope.
pub proof fn object_round_trip(e: EnvelopeModel)
    ensures
        envelope_of(object_of(e)) == Ok::<EnvelopeModel, ProtocolError>(e),
{
    match e {
        EnvelopeModel::Request { .. } => request_round_trip(e),
        EnvelopeModel::Response { .. } => response_round_trip(e),
        EnvelopeModel::Notification { .. } => notification_round_trip(e),
    }
}

} // verus!
