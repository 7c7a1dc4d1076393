//! The protocol codec: one JSON object per line, in both directions.
//!
//! A request line is read as a JSON object and checked against the shape of
//! a [`Command`]; a [`Response`] is written as one compact JSON object. The
//! codec neither buffers nor merges lines.

use crate::json::{
    describe, member, members_of, object_text, pairs_of, parse_object, parsed_object,
    write_object, Shape,
};
use vstd::pervasive::unreached;
use vstd::prelude::*;

verus! {

/// A member of a request object that the codec reads.
#[derive(Clone, Copy, Debug, PartialEq, Eq, Structural)]
pub enum Field {
    Command,
    Key,
    Value,
    Ttl,
}

/// The name under which a field stands in a request object.
pub open spec fn field_name(field: Field) -> Seq<char> {
    match field {
        Field::Command => "command"@,
        Field::Key => "key"@,
        Field::Value => "value"@,
        Field::Ttl => "ttl"@,
    }
}

impl Field {
    /// The name under which the field stands in a request object.
    pub fn name(self) -> (name: &'static str)
        ensures
            name@ == field_name(self),
    {
        match self {
            Field::Command => "command",
            Field::Key => "key",
            Field::Value => "value",
            Field::Ttl => "ttl",
        }
    }
}

/// One decoded request.
#[derive(Clone, Debug, PartialEq, Eq)]
pub struct Command {
    /// The operation asked for, `"set"` or `"get"`.
    pub command: String,
    /// The key that the operation is about.
    pub key: String,
    /// The value to store; a `set` needs it.
    pub value: Option<String>,
    /// Seconds from now after which a stored value expires.
    pub ttl: Option<i64>,
}

/// The mathematical content of a [`Command`].
pub struct CommandView {
    pub command: Seq<char>,
    pub key: Seq<char>,
    pub value: Option<Seq<char>>,
    pub ttl: Option<i64>,
}

impl View for Command {
    type V = CommandView;

    open spec fn view(&self) -> CommandView {
        CommandView {
            command: self.command@,
            key: self.key@,
            value: self.value.deep_view(),
            ttl: self.ttl,
        }
    }
}

/// Why a line is not a request.
#[derive(Clone, Debug, PartialEq, Eq)]
pub enum ParseError {
    /// The line is not the text of one JSON object. Carries the description
    /// that the JSON reader gave.
    Malformed(String),
    /// A field that every request needs is not there.
    Missing(Field),
    /// A field is there, but its value has the wrong type.
    Invalid(Field),
}

/// The mathematical content of a [`ParseError`].
pub enum ParseErrorView {
    Malformed(Seq<char>),
    Missing(Field),
    Invalid(Field),
}

impl View for ParseError {
    type V = ParseErrorView;

    open spec fn view(&self) -> ParseErrorView {
        match self {
            ParseError::Malformed(text) => ParseErrorView::Malformed(text@),
            ParseError::Missing(field) => ParseErrorView::Missing(*field),
            ParseError::Invalid(field) => ParseErrorView::Invalid(*field),
        }
    }
}

/// The text that describes a parse error to the client.
pub open spec fn error_message(error: ParseErrorView) -> Seq<char> {
    match error {
        ParseErrorView::Malformed(text) => text,
        ParseErrorView::Missing(field) => "missing field `"@ + field_name(field) + "`"@,
        ParseErrorView::Invalid(field) => "invalid type for field `"@ + field_name(field) + "`"@,
    }
}

impl ParseError {
    /// The text that describes the error to the client.
    pub fn message(&self) -> (text: String)
        ensures
            text@ == error_message(self@),
    {
        match self {
            ParseError::Malformed(text) => text.clone(),
            ParseError::Missing(field) => {
                "missing field `".to_owned().concat(field.name()).concat("`")
            },
            ParseError::Invalid(field) => {
                "invalid type for field `".to_owned().concat(field.name()).concat("`")
            },
        }
    }
}

/// An error in the shape of a request always has something to say: only the
/// description of malformed text is the JSON reader's to give.
pub proof fn lemma_shape_error_has_a_message(error: ParseErrorView)
    requires
        !(error is Malformed),
    ensures
        error_message(error).len() > 0,
{
    reveal_strlit("`");
    assert("`"@.len() == 1);
}

/// A field that must be a string: absent it is missing, and bound to
/// anything but a string it is invalid.
pub open spec fn required_text(members: Map<Seq<char>, Shape>, field: Field) -> Result<
    Seq<char>,
    ParseErrorView,
> {
    if !members.contains_key(field_name(field)) {
        Err(ParseErrorView::Missing(field))
    } else {
        match members[field_name(field)] {
            Shape::Text(text) => Ok(text),
            _ => Err(ParseErrorView::Invalid(field)),
        }
    }
}

/// A field that may be a string: absent or `null` it is `None`, and bound
/// to anything else but a string it is invalid.
pub open spec fn optional_text(members: Map<Seq<char>, Shape>, field: Field) -> Result<
    Option<Seq<char>>,
    ParseErrorView,
> {
    if !members.contains_key(field_name(field)) {
        Ok(None)
    } else {
        match members[field_name(field)] {
            Shape::Null => Ok(None),
            Shape::Text(text) => Ok(Some(text)),
            _ => Err(ParseErrorView::Invalid(field)),
        }
    }
}

/// A field that may be an integer: absent or `null` it is `None`, and bound
/// to anything else but an integer within `i64` it is invalid.
pub open spec fn optional_integer(members: Map<Seq<char>, Shape>, field: Field) -> Result<
    Option<i64>,
    ParseErrorView,
> {
    if !members.contains_key(field_name(field)) {
        Ok(None)
    } else {
        match members[field_name(field)] {
            Shape::Null => Ok(None),
            Shape::Integer(number) => Ok(Some(number)),
            _ => Err(ParseErrorView::Invalid(field)),
        }
    }
}

/// The command that the members of a request object stand for.
///
/// The fields are checked in the order `command`, `key`, `value`, `ttl`, and
/// the first that fails decides the error. Members of any other name are
/// ignored.
pub open spec fn command_of(members: Map<Seq<char>, Shape>) -> Result<CommandView, ParseErrorView> {
    match required_text(members, Field::Command) {
        Err(error) => Err(error),
        Ok(command) => match required_text(members, Field::Key) {
            Err(error) => Err(error),
            Ok(key) => match optional_text(members, Field::Value) {
                Err(error) => Err(error),
                Ok(value) => match optional_integer(members, Field::Ttl) {
                    Err(error) => Err(error),
                    Ok(ttl) => Ok(CommandView { command, key, value, ttl }),
                },
            },
        },
    }
}

/// The outcome of decoding, given the outcome of reading the line as a JSON
/// object.
pub open spec fn decoded(parsed: Result<Map<Seq<char>, Shape>, Seq<char>>) -> Result<
    CommandView,
    ParseErrorView,
> {
    match parsed {
        Ok(members) => command_of(members),
        Err(text) => Err(ParseErrorView::Malformed(text)),
    }
}

/// The mathematical content of the outcome of a decoding.
pub open spec fn outcome_view(outcome: Result<Command, ParseError>) -> Result<
    CommandView,
    ParseErrorView,
> {
    match outcome {
        Ok(command) => Ok(command@),
        Err(error) => Err(error@),
    }
}

fn read_required_text(object: &serde_json::Map<String, serde_json::Value>, field: Field) -> (read:
    Result<String, ParseError>)
    ensures
        match read {
            Ok(text) => required_text(members_of(*object), field) == Ok::<
                Seq<char>,
                ParseErrorView,
            >(text@),
            Err(error) => required_text(members_of(*object), field) == Err::<
                Seq<char>,
                ParseErrorView,
            >(error@),
        },
{
    match member(object, field.name()) {
        None => Err(ParseError::Missing(field)),
        Some(value) => match value.as_str() {
            Some(text) => Ok(text.to_owned()),
            None => Err(ParseError::Invalid(field)),
        },
    }
}

fn read_optional_text(object: &serde_json::Map<String, serde_json::Value>, field: Field) -> (read:
    Result<Option<String>, ParseError>)
    ensures
        match read {
            Ok(text) => optional_text(members_of(*object), field) == Ok::<
                Option<Seq<char>>,
                ParseErrorView,
            >(text.deep_view()),
            Err(error) => optional_text(members_of(*object), field) == Err::<
                Option<Seq<char>>,
                ParseErrorView,
            >(error@),
        },
{
    match member(object, field.name()) {
        None => Ok(None),
        Some(value) => {
            if value.is_null() {
                Ok(None)
            } else {
                match value.as_str() {
                    Some(text) => Ok(Some(text.to_owned())),
                    None => Err(ParseError::Invalid(field)),
                }
            }
        },
    }
}

fn read_optional_integer(
    object: &serde_json::Map<String, serde_json::Value>,
    field: Field,
) -> (read: Result<Option<i64>, ParseError>)
    ensures
        match read {
            Ok(number) => optional_integer(members_of(*object), field) == Ok::<
                Option<i64>,
                ParseErrorView,
            >(number),
            Err(error) => optional_integer(members_of(*object), field) == Err::<
                Option<i64>,
                ParseErrorView,
            >(error@),
        },
{
    match member(object, field.name()) {
        None => Ok(None),
        Some(value) => {
            if value.is_null() {
                Ok(None)
            } else {
                match value.as_i64() {
                    Some(number) => Ok(Some(number)),
                    None => Err(ParseError::Invalid(field)),
                }
            }
        },
    }
}

/// Checks a parsed JSON object against the shape of a command.
///
/// `command` and `key` must be strings; `value`, where it is given and not
/// `null`, must be a string; `ttl`, where it is given and not `null`, must
/// be an integer within `i64`. Other members are ignored.
pub fn command_from_object(object: &serde_json::Map<String, serde_json::Value>) -> (outcome:
    Result<Command, ParseError>)
    ensures
        outcome_view(outcome) == command_of(members_of(*object)),
{
    let command = match read_required_text(object, Field::Command) {
        Ok(text) => text,
        Err(error) => {
            return Err(error);
        },
    };
    let key = match read_required_text(object, Field::Key) {
        Ok(text) => text,
        Err(error) => {
            return Err(error);
        },
    };
    let value = match read_optional_text(object, Field::Value) {
        Ok(text) => text,
        Err(error) => {
            return Err(error);
        },
    };
    let ttl = match read_optional_integer(object, Field::Ttl) {
        Ok(number) => number,
        Err(error) => {
            return Err(error);
        },
    };
    Ok(Command { command, key, value, ttl })
}

/// Decodes one line of input into a command.
///
/// The line must be the text of one JSON object, white space around it
/// allowed, whose members fit the shape of a command. What the JSON reader
/// makes of the text is named by `parsed_object`; `decoded` says what
/// follows from each outcome of it.
pub fn decode(line: &str) -> (outcome: Result<Command, ParseError>)
    ensures
        outcome_view(outcome) == decoded(parsed_object(line@)),
{
    match parse_object(line) {
        Ok(object) => command_from_object(&object),
        Err(error) => Err(ParseError::Malformed(describe(&error))),
    }
}

/// Whether a request was carried out.
#[derive(Clone, Copy, Debug, PartialEq, Eq, Structural)]
pub enum Status {
    Okay,
    Error,
}

/// The word that stands for a status on the wire.
pub open spec fn status_text(status: Status) -> Seq<char> {
    match status {
        Status::Okay => "ok"@,
        Status::Error => "error"@,
    }
}

impl Status {
    /// The word that stands for the status on the wire.
    pub fn text(self) -> (text: &'static str)
        ensures
            text@ == status_text(self),
    {
        match self {
            Status::Okay => "ok",
            Status::Error => "error",
        }
    }
}

/// The answer to one request.
#[derive(Clone, Debug, PartialEq, Eq)]
pub struct Response {
    pub status: Status,
    /// Present on an error: what went wrong.
    pub message: Option<String>,
    /// Present on a successful `get`: the value read, empty where there is
    /// none.
    pub value: Option<String>,
}

/// The mathematical content of a [`Response`].
pub struct ResponseView {
    pub status: Status,
    pub message: Option<Seq<char>>,
    pub value: Option<Seq<char>>,
}

impl View for Response {
    type V = ResponseView;

    open spec fn view(&self) -> ResponseView {
        ResponseView {
            status: self.status,
            message: self.message.deep_view(),
            value: self.value.deep_view(),
        }
    }
}

/// The response to a request that was carried out and returns nothing.
pub open spec fn ok_response() -> ResponseView {
    ResponseView { status: Status::Okay, message: None, value: None }
}

/// The response to a read that returned `value`.
pub open spec fn value_response(value: Seq<char>) -> ResponseView {
    ResponseView { status: Status::Okay, message: None, value: Some(value) }
}

/// The response to a request that failed for the reason `message`.
pub open spec fn error_response(message: Seq<char>) -> ResponseView {
    ResponseView { status: Status::Error, message: Some(message), value: None }
}

/// The members of the JSON object that stands for a response: `status`
/// always, then `message` and `value` where the response has them.
pub open spec fn response_members(response: ResponseView) -> Seq<(Seq<char>, Seq<char>)> {
    seq![("status"@, status_text(response.status))] + match response.message {
        Some(message) => seq![("message"@, message)],
        None => seq![],
    } + match response.value {
        Some(value) => seq![("value"@, value)],
        None => seq![],
    }
}

impl Response {
    /// The response to a request that was carried out and returns nothing.
    pub fn ok() -> (response: Response)
        ensures
            response@ == ok_response(),
    {
        Response { status: Status::Okay, message: None, value: None }
    }

    /// The response to a read that returned `value`.
    pub fn with_value(value: String) -> (response: Response)
        ensures
            response@ == value_response(value@),
    {
        Response { status: Status::Okay, message: None, value: Some(value) }
    }

    /// The response to a request that failed for the reason `message`.
    pub fn error(message: String) -> (response: Response)
        ensures
            response@ == error_response(message@),
    {
        Response { status: Status::Error, message: Some(message), value: None }
    }

    /// Encodes the response as one compact JSON object, without a line
    /// break: the caller adds the framing.
    ///
    /// Encoding never fails. The text is the one that the JSON writer gives
    /// for the members of the response, which `object_text` names.
    pub fn encode(&self) -> (text: String)
        ensures
            text@ == object_text(response_members(self@)),
            !text@.contains('\n'),
    {
        let mut members: Vec<(String, String)> = Vec::new();
        members.push(("status".to_owned(), self.status.text().to_owned()));
        match &self.message {
            Some(message) => {
                members.push(("message".to_owned(), message.clone()));
            },
            None => {},
        }
        match &self.value {
            Some(value) => {
                members.push(("value".to_owned(), value.clone()));
            },
            None => {},
        }
        assert(pairs_of(members@) =~= response_members(self@));
        match write_object(&members) {
            Ok(text) => text,
            Err(_) => unreached(),
        }
    }
}

} // verus!
