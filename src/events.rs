use vstd::prelude::*;
use crate::json::{field_of, get_field, parse_bytes, parse_text, same_text, Json};

verus! {

use crate::json::{json_of_bytes, json_of_text};

/// Why the timer application refused a command.
#[derive(Copy, Clone, Debug, PartialEq, Eq, Structural)]
pub enum EventError {
    Unsupported,
    Busy,
    RunAlreadyInProgress,
    NoRunInProgress,
    RunFinished,
    NegativeTime,
    CantSkipLastSplit,
    CantUndoFirstSplit,
    AlreadyPaused,
    NotPaused,
    ComparisonDoesntExist,
    GameTimeAlreadyInitialized,
    GameTimeAlreadyPaused,
    GameTimeNotPaused,
    CouldNotParseTime,
    TimerPaused,
    RunnerDecidedAgainstReset,
    /// Any code this library does not know.
    Unknown,
}

/// Something that happened in the timer application.
#[derive(Copy, Clone, Debug, PartialEq, Eq, Structural)]
pub enum Event {
    Started,
    Splitted,
    Finished,
    Reset,
    SplitUndone,
    SplitSkipped,
    Paused,
    Resumed,
    PausesUndone,
    PausesUndoneAndResumed,
    ComparisonChanged,
    TimingMethodChanged,
    GameTimeInitialized,
    GameTimeSet,
    GameTimePaused,
    GameTimeResumed,
    LoadingTimesSet,
    CustomVariableSet,
    /// Any code this library does not know.
    Unknown,
}

/// One message received from the timer application.
#[derive(Debug)]
pub enum CommandResult {
    Success(Response),
    Error(Error),
    Event(Event),
}

/// The payload of a successful command.
#[derive(Debug)]
pub enum Response {
    /// No payload (`null`).
    Empty,
    String(String),
    State(State),
}

/// The timer's phase as the timer application reports it.
#[derive(Debug)]
pub enum State {
    NotRunning,
    Running(usize),
    Paused(usize),
    Ended,
}

/// A failed command.
#[derive(Debug)]
pub enum Error {
    InvalidCommand { message: String },
    InvalidIndex,
    Timer { code: EventError },
}

/// The event error that the integer `n` stands for.
pub open spec fn event_error_of_code(n: int) -> EventError {
    if n == 0 { EventError::Unsupported }
    else if n == 1 { EventError::Busy }
    else if n == 2 { EventError::RunAlreadyInProgress }
    else if n == 3 { EventError::NoRunInProgress }
    else if n == 4 { EventError::RunFinished }
    else if n == 5 { EventError::NegativeTime }
    else if n == 6 { EventError::CantSkipLastSplit }
    else if n == 7 { EventError::CantUndoFirstSplit }
    else if n == 8 { EventError::AlreadyPaused }
    else if n == 9 { EventError::NotPaused }
    else if n == 10 { EventError::ComparisonDoesntExist }
    else if n == 11 { EventError::GameTimeAlreadyInitialized }
    else if n == 12 { EventError::GameTimeAlreadyPaused }
    else if n == 13 { EventError::GameTimeNotPaused }
    else if n == 14 { EventError::CouldNotParseTime }
    else if n == 15 { EventError::TimerPaused }
    else if n == 16 { EventError::RunnerDecidedAgainstReset }
    else { EventError::Unknown }
}

/// The event that the integer `n` stands for.
pub open spec fn event_of_code(n: int) -> Event {
    if n == 0 { Event::Started }
    else if n == 1 { Event::Splitted }
    else if n == 2 { Event::Finished }
    else if n == 3 { Event::Reset }
    else if n == 4 { Event::SplitUndone }
    else if n == 5 { Event::SplitSkipped }
    else if n == 6 { Event::Paused }
    else if n == 7 { Event::Resumed }
    else if n == 8 { Event::PausesUndone }
    else if n == 9 { Event::PausesUndoneAndResumed }
    else if n == 10 { Event::ComparisonChanged }
    else if n == 11 { Event::TimingMethodChanged }
    else if n == 12 { Event::GameTimeInitialized }
    else if n == 13 { Event::GameTimeSet }
    else if n == 14 { Event::GameTimePaused }
    else if n == 15 { Event::GameTimeResumed }
    else if n == 16 { Event::LoadingTimesSet }
    else if n == 17 { Event::CustomVariableSet }
    else { Event::Unknown }
}

impl EventError {
    /// The event error for a wire code; unknown codes give `Unknown`.
    pub fn from_code(n: i128) -> (r: EventError)
        ensures
            r == event_error_of_code(n as int),
            !(0 <= n <= 16) ==> r == EventError::Unknown,
    {
        if n == 0 { EventError::Unsupported }
        else if n == 1 { EventError::Busy }
        else if n == 2 { EventError::RunAlreadyInProgress }
        else if n == 3 { EventError::NoRunInProgress }
        else if n == 4 { EventError::RunFinished }
        else if n == 5 { EventError::NegativeTime }
        else if n == 6 { EventError::CantSkipLastSplit }
        else if n == 7 { EventError::CantUndoFirstSplit }
        else if n == 8 { EventError::AlreadyPaused }
        else if n == 9 { EventError::NotPaused }
        else if n == 10 { EventError::ComparisonDoesntExist }
        else if n == 11 { EventError::GameTimeAlreadyInitialized }
        else if n == 12 { EventError::GameTimeAlreadyPaused }
        else if n == 13 { EventError::GameTimeNotPaused }
        else if n == 14 { EventError::CouldNotParseTime }
        else if n == 15 { EventError::TimerPaused }
        else if n == 16 { EventError::RunnerDecidedAgainstReset }
        else { EventError::Unknown }
    }
}

impl Event {
    /// The event for a wire code; unknown codes give `Unknown`.
    pub fn from_code(n: i128) -> (r: Event)
        ensures
            r == event_of_code(n as int),
            !(0 <= n <= 17) ==> r == Event::Unknown,
    {
        if n == 0 { Event::Started }
        else if n == 1 { Event::Splitted }
        else if n == 2 { Event::Finished }
        else if n == 3 { Event::Reset }
        else if n == 4 { Event::SplitUndone }
        else if n == 5 { Event::SplitSkipped }
        else if n == 6 { Event::Paused }
        else if n == 7 { Event::Resumed }
        else if n == 8 { Event::PausesUndone }
        else if n == 9 { Event::PausesUndoneAndResumed }
        else if n == 10 { Event::ComparisonChanged }
        else if n == 11 { Event::TimingMethodChanged }
        else if n == 12 { Event::GameTimeInitialized }
        else if n == 13 { Event::GameTimeSet }
        else if n == 14 { Event::GameTimePaused }
        else if n == 15 { Event::GameTimeResumed }
        else if n == 16 { Event::LoadingTimesSet }
        else if n == 17 { Event::CustomVariableSet }
        else { Event::Unknown }
    }
}

/// The `index` field of a state object, where it is a valid index.
pub open spec fn index_of(fields: Seq<(String, Json)>) -> Option<usize> {
    match field_of(fields, "index"@) {
        Some(Json::Int(n)) => if 0 <= n <= usize::MAX { Some(n as usize) } else { None },
        _ => None,
    }
}

/// Whether a state object has no `index`, or a null one.
pub open spec fn no_index(fields: Seq<(String, Json)>) -> bool {
    match field_of(fields, "index"@) {
        None => true,
        Some(Json::Null) => true,
        _ => false,
    }
}

/// A state object: `{"state": <name>}`, with an `index` for the running and
/// paused phases.
pub open spec fn state_of(j: Json) -> Option<State> {
    match j {
        Json::Object(fields) => match field_of(fields@, "state"@) {
            Some(Json::Str(name)) => {
                if name@ == "NotRunning"@ {
                    if no_index(fields@) { Some(State::NotRunning) } else { None }
                } else if name@ == "Ended"@ {
                    if no_index(fields@) { Some(State::Ended) } else { None }
                } else if name@ == "Running"@ {
                    match index_of(fields@) {
                        Some(i) => Some(State::Running(i)),
                        None => None,
                    }
                } else if name@ == "Paused"@ {
                    match index_of(fields@) {
                        Some(i) => Some(State::Paused(i)),
                        None => None,
                    }
                } else {
                    None
                }
            },
            _ => None,
        },
        _ => None,
    }
}

/// A response payload: null, a string, or a state object.
pub open spec fn response_of(j: Json) -> Option<Response> {
    match j {
        Json::Null => Some(Response::Empty),
        Json::Str(s) => Some(Response::String(s)),
        Json::Object(_) => match state_of(j) {
            Some(s) => Some(Response::State(s)),
            None => None,
        },
        _ => None,
    }
}

/// An error payload, told apart by its `code` field.
pub open spec fn error_of(j: Json) -> Option<Error> {
    match j {
        Json::Object(fields) => match field_of(fields@, "code"@) {
            Some(Json::Str(c)) => {
                if c@ == "InvalidCommand"@ {
                    match field_of(fields@, "message"@) {
                        Some(Json::Str(m)) => Some(Error::InvalidCommand { message: m }),
                        _ => None,
                    }
                } else if c@ == "InvalidIndex"@ {
                    Some(Error::InvalidIndex)
                } else {
                    None
                }
            },
            Some(Json::Int(n)) => Some(Error::Timer { code: event_error_of_code(n as int) }),
            Some(Json::OtherNumber) => Some(Error::Timer { code: EventError::Unknown }),
            _ => None,
        },
        _ => None,
    }
}

/// An event payload: an integer code. A number that the parser could not
/// hold as an integer (one beyond 128 bits, or one written with a fraction
/// or an exponent) is no known code either.
pub open spec fn event_value_of(j: Json) -> Option<Event> {
    match j {
        Json::Int(n) => Some(event_of_code(n as int)),
        Json::OtherNumber => Some(Event::Unknown),
        _ => None,
    }
}

/// The message that a JSON document stands for: an object with the single
/// field `success`, `error` or `event`; or else a bare state object, which
/// is a successful response.
pub open spec fn message_of(j: Json) -> Option<CommandResult> {
    match j {
        Json::Object(fields) => {
            if fields@.len() == 1 && fields@[0].0@ == "success"@ {
                match response_of(fields@[0].1) {
                    Some(r) => Some(CommandResult::Success(r)),
                    None => None,
                }
            } else if fields@.len() == 1 && fields@[0].0@ == "error"@ {
                match error_of(fields@[0].1) {
                    Some(e) => Some(CommandResult::Error(e)),
                    None => None,
                }
            } else if fields@.len() == 1 && fields@[0].0@ == "event"@ {
                match event_value_of(fields@[0].1) {
                    Some(e) => Some(CommandResult::Event(e)),
                    None => None,
                }
            } else {
                match state_of(j) {
                    Some(s) => Some(CommandResult::Success(Response::State(s))),
                    None => None,
                }
            }
        },
        _ => None,
    }
}

fn decode_index(fields: &Vec<(String, Json)>) -> (r: Option<usize>)
    ensures
        r == index_of(fields@),
{
    match get_field(fields, "index") {
        Some(Json::Int(n)) => {
            if 0 <= *n && *n <= usize::MAX as i128 {
                Some(*n as usize)
            } else {
                None
            }
        },
        _ => None,
    }
}

fn lacks_index(fields: &Vec<(String, Json)>) -> (r: bool)
    ensures
        r == no_index(fields@),
{
    match get_field(fields, "index") {
        None => true,
        Some(Json::Null) => true,
        _ => false,
    }
}

/// Decodes a state object.
pub fn decode_state(j: &Json) -> (r: Option<State>)
    ensures
        r == state_of(*j),
{
    match j {
        Json::Object(fields) => match get_field(fields, "state") {
            Some(Json::Str(name)) => {
                if same_text(name.as_str(), "NotRunning") {
                    if lacks_index(fields) { Some(State::NotRunning) } else { None }
                } else if same_text(name.as_str(), "Ended") {
                    if lacks_index(fields) { Some(State::Ended) } else { None }
                } else if same_text(name.as_str(), "Running") {
                    match decode_index(fields) {
                        Some(i) => Some(State::Running(i)),
                        None => None,
                    }
                } else if same_text(name.as_str(), "Paused") {
                    match decode_index(fields) {
                        Some(i) => Some(State::Paused(i)),
                        None => None,
                    }
                } else {
                    None
                }
            },
            _ => None,
        },
        _ => None,
    }
}

/// Decodes a response payload.
pub fn decode_response(j: &Json) -> (r: Option<Response>)
    ensures
        r == response_of(*j),
{
    match j {
        Json::Null => Some(Response::Empty),
        Json::Str(s) => Some(Response::String(s.clone())),
        Json::Object(_) => match decode_state(j) {
            Some(s) => Some(Response::State(s)),
            None => None,
        },
        _ => None,
    }
}

/// Decodes an error payload.
pub fn decode_error(j: &Json) -> (r: Option<Error>)
    ensures
        r == error_of(*j),
{
    match j {
        Json::Object(fields) => match get_field(fields, "code") {
            Some(Json::Str(c)) => {
                if same_text(c.as_str(), "InvalidCommand") {
                    match get_field(fields, "message") {
                        Some(Json::Str(m)) => Some(Error::InvalidCommand { message: m.clone() }),
                        _ => None,
                    }
                } else if same_text(c.as_str(), "InvalidIndex") {
                    Some(Error::InvalidIndex)
                } else {
                    None
                }
            },
            Some(Json::Int(n)) => Some(Error::Timer { code: EventError::from_code(*n) }),
            Some(Json::OtherNumber) => Some(Error::Timer { code: EventError::Unknown }),
            _ => None,
        },
        _ => None,
    }
}

/// Decodes one message of the timer application from its JSON document.
pub fn decode_message(j: &Json) -> (r: Option<CommandResult>)
    ensures
        r == message_of(*j),
{
    match j {
        Json::Object(fields) => {
            if fields.len() == 1 && same_text(fields[0].0.as_str(), "success") {
                match decode_response(&fields[0].1) {
                    Some(r) => Some(CommandResult::Success(r)),
                    None => None,
                }
            } else if fields.len() == 1 && same_text(fields[0].0.as_str(), "error") {
                match decode_error(&fields[0].1) {
                    Some(e) => Some(CommandResult::Error(e)),
                    None => None,
                }
            } else if fields.len() == 1 && same_text(fields[0].0.as_str(), "event") {
                match &fields[0].1 {
                    Json::Int(n) => Some(CommandResult::Event(Event::from_code(*n))),
                    Json::OtherNumber => Some(CommandResult::Event(Event::Unknown)),
                    _ => None,
                }
            } else {
                match decode_state(j) {
                    Some(s) => Some(CommandResult::Success(Response::State(s))),
                    None => None,
                }
            }
        },
        _ => None,
    }
}

/// The message that a text stands for, `None` where it is not one.
pub open spec fn message_of_text(s: Seq<char>) -> Option<CommandResult> {
    match json_of_text(s) {
        Some(j) => message_of(j),
        None => None,
    }
}

/// The message that a byte string stands for, `None` where it is not one.
pub open spec fn message_of_bytes(b: Seq<u8>) -> Option<CommandResult> {
    match json_of_bytes(b) {
        Some(j) => message_of(j),
        None => None,
    }
}

/// Parses and decodes a text frame.
pub fn parse_response(text: &str) -> (r: Option<CommandResult>)
    ensures
        r == message_of_text(text@),
{
    match parse_text(text) {
        Some(j) => decode_message(&j),
        None => None,
    }
}

/// Parses and decodes a binary frame.
pub fn parse_response_bytes(bytes: &[u8]) -> (r: Option<CommandResult>)
    ensures
        r == message_of_bytes(bytes@),
{
    match parse_bytes(bytes) {
        Some(j) => decode_message(&j),
        None => None,
    }
}

/// A message `{"event": n}` whose number `n` is no known event code
/// decodes to the unknown event, and never to a failure: whether the parser
/// held `n` as an integer or, beyond its integer range, as another number.
pub proof fn lemma_unknown_event_code(j: Json, n: i128)
    requires
        !(0 <= n <= 17),
        j matches Json::Object(fields) && fields@.len() == 1 && fields@[0].0@ == "event"@
            && (fields@[0].1 == Json::Int(n) || fields@[0].1 == Json::OtherNumber),
    ensures
        message_of(j) == Some(CommandResult::Event(Event::Unknown)),
{
    reveal_strlit("event");
    reveal_strlit("success");
    reveal_strlit("error");
    assert("event"@ != "success"@ && "event"@ != "error"@) by {
        assert("event"@[0] != "success"@[0]);
        assert("event"@[1] != "error"@[1]);
    }
}

/// A message `{"error": {"code": n, ...}}` whose number `n` is no known
/// error code decodes to a timer error with the unknown code, and never to a
/// failure: whether the parser held `n` as an integer or, beyond its integer
/// range, as another number.
pub proof fn lemma_unknown_error_code(j: Json, payload: Json, n: i128)
    requires
        !(0 <= n <= 16),
        j matches Json::Object(fields) && fields@.len() == 1 && fields@[0].0@ == "error"@
            && fields@[0].1 == payload,
        payload matches Json::Object(inner) && (field_of(inner@, "code"@) == Some(Json::Int(n))
            || field_of(inner@, "code"@) == Some(Json::OtherNumber)),
    ensures
        message_of(j) == Some(CommandResult::Error(Error::Timer { code: EventError::Unknown })),
{
    reveal_strlit("success");
    reveal_strlit("error");
    assert("error"@ != "success"@) by {
        assert("error"@[0] != "success"@[0]);
    }
}

} // verus!
