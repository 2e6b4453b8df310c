//! One run, as a machine: it says what to do next, is told what came of it,
//! and says what to do after that. Whoever drives it asks the questions,
//! sends the request and writes the file; every decision is taken here.

use vstd::prelude::*;
use vstd::string::StringExecFns;
use crate::airnow_apis;
use crate::coordinate::{is_valid_latlon, valid_latlon, Coordinate, CoordinateView};
use crate::fetch::{is_success, json_document, read_response, FetchError};
use crate::input::{is_valid_zip, query_mode, selects_zip, valid_zip, QueryMode};
use crate::storage::{pretty_text, render, StorageError};

verus! {

/// A value that a run needs and has to ask for.
#[derive(Clone, Copy, Debug, PartialEq, Eq, Structural)]
pub enum Question {
    Mode,
    Zip,
    Latitude,
    Longitude,
}

/// What a run is waiting for.
#[derive(Clone, Copy, Debug, PartialEq, Eq, Structural)]
pub enum Stage {
    /// The answer to how to query.
    Mode,
    /// A postal code.
    Zip,
    /// A latitude.
    Latitude,
    /// A longitude; the latitude is kept meanwhile.
    Longitude,
    /// The provider's answer to the request.
    Response,
    /// Word that the text has been stored.
    Storing,
    /// Nothing: the run has succeeded.
    Done,
    /// Nothing: the run has failed.
    Failed,
}

/// Why a run failed, in short.
#[derive(Clone, Copy, Debug, PartialEq, Eq, Structural)]
pub enum Reason {
    /// The request could not be carried out.
    Unreachable,
    /// The provider answered with this status, which is not a success.
    Status(u16),
    /// The body of the answer is not JSON.
    Body,
    /// The document could not be written as text.
    Serialize,
    /// The text could not be stored.
    Io,
    /// The run was told of something it was not waiting for.
    Unexpected,
}

/// Why a run failed, with what the JSON library said where it was the one
/// that refused.
#[derive(Debug)]
pub enum Failure {
    Unreachable,
    Fetch(FetchError),
    Storage(StorageError),
    Unexpected,
}

impl View for Failure {
    type V = Reason;

    open spec fn view(&self) -> Reason {
        match *self {
            Failure::Unreachable => Reason::Unreachable,
            Failure::Fetch(FetchError::Status(code)) => Reason::Status(code),
            Failure::Fetch(FetchError::Body(_)) => Reason::Body,
            Failure::Storage(StorageError::Serialize(_)) => Reason::Serialize,
            Failure::Storage(StorageError::Io) => Reason::Io,
            Failure::Unexpected => Reason::Unexpected,
        }
    }
}

/// What a run is told.
#[derive(Debug)]
pub enum Event {
    /// The value that a question about the mode or the postal code came to.
    Answer(String),
    /// The value that a question about a coordinate came to, `None` where it
    /// is no number.
    Number(Option<Coordinate>),
    /// The provider's answer: its status and the bytes of its body.
    Response { status: u16, body: Vec<u8> },
    /// The request could not be carried out.
    Unreachable,
    /// The text is in the file.
    Stored,
    /// The text could not be stored.
    StoreFailed,
}

/// An event as the rules see it.
pub enum EventView {
    Answer(Seq<char>),
    Number(Option<CoordinateView>),
    Response { status: u16, body: Seq<u8> },
    Unreachable,
    Stored,
    StoreFailed,
}

impl View for Event {
    type V = EventView;

    open spec fn view(&self) -> EventView {
        match *self {
            Event::Answer(text) => EventView::Answer(text@),
            Event::Number(Some(c)) => EventView::Number(Some(c@)),
            Event::Number(None) => EventView::Number(None),
            Event::Response { status, body } => EventView::Response { status, body: body@ },
            Event::Unreachable => EventView::Unreachable,
            Event::Stored => EventView::Stored,
            Event::StoreFailed => EventView::StoreFailed,
        }
    }
}

/// What a run wants done next.
#[derive(Debug)]
pub enum Action {
    /// Find the value for `question`, after showing `notice` if there is one.
    Ask { question: Question, notice: Option<String> },
    /// Send a GET request to this address.
    Get(String),
    /// Store `text` as the whole content of the file at `path`.
    Save { path: String, text: String },
    /// Stop: the run has succeeded.
    Finish,
    /// Stop: the run has failed.
    Fail(Failure),
}

/// An action as the rules see it.
pub enum ActionView {
    Ask { question: Question, notice: Option<Seq<char>> },
    Get(Seq<char>),
    Save { path: Seq<char>, text: Seq<char> },
    Finish,
    Fail(Reason),
}

impl View for Action {
    type V = ActionView;

    open spec fn view(&self) -> ActionView {
        match *self {
            Action::Ask { question, notice: Some(n) } => ActionView::Ask {
                question,
                notice: Some(n@),
            },
            Action::Ask { question, notice: None } => ActionView::Ask { question, notice: None },
            Action::Get(url) => ActionView::Get(url@),
            Action::Save { path, text } => ActionView::Save { path: path@, text: text@ },
            Action::Finish => ActionView::Finish,
            Action::Fail(failure) => ActionView::Fail(failure@),
        }
    }
}

/// The state of a run.
#[derive(Debug)]
pub struct Session {
    stage: Stage,
    api_key: String,
    out: String,
    latitude: Option<Coordinate>,
}

/// The state of a run as the rules see it.
pub struct SessionView {
    pub stage: Stage,
    pub api_key: Seq<char>,
    pub out: Seq<char>,
    pub latitude: Option<CoordinateView>,
}

impl View for Session {
    type V = SessionView;

    closed spec fn view(&self) -> SessionView {
        SessionView {
            stage: self.stage,
            api_key: self.api_key@,
            out: self.out@,
            latitude: match self.latitude {
                Some(c) => Some(c@),
                None => None,
            },
        }
    }
}

/// Why a run cannot start.
#[derive(Clone, Copy, Debug, PartialEq, Eq, Structural)]
pub enum ConfigError {
    /// No key for the air-quality provider was given.
    MissingApiKey,
}

/// The variable of the environment that may hold the provider's key.
pub open spec fn api_key_env() -> Seq<char> {
    "AIRNOW_API_KEY"@
}

/// The variable of the environment that may hold the path of the output file.
pub open spec fn out_env() -> Seq<char> {
    "OUT"@
}

/// The path of the output file where none is given.
pub open spec fn default_out() -> Seq<char> {
    "airnow.json"@
}

/// The variable of the environment that may hold the answer to a question.
pub open spec fn env_key_of(question: Question) -> Seq<char> {
    match question {
        Question::Mode => "QUERY_MODE"@,
        Question::Zip => "ZIP"@,
        Question::Latitude => "LAT"@,
        Question::Longitude => "LON"@,
    }
}

/// The words that a question is asked with.
pub open spec fn label_of(question: Question) -> Seq<char> {
    match question {
        Question::Mode => "Query by (1) lat/lon or (2) ZIP? [1/2]"@,
        Question::Zip => "ZIP"@,
        Question::Latitude => "Latitude"@,
        Question::Longitude => "Longitude"@,
    }
}

/// The answer that is taken where none is given.
pub open spec fn default_of(question: Question) -> Seq<char> {
    match question {
        Question::Mode => "1"@,
        Question::Zip => "20001"@,
        Question::Latitude => "38.9072"@,
        Question::Longitude => "-77.0369"@,
    }
}

/// What is said of a postal code that was refused.
pub open spec fn zip_notice(zip: Seq<char>) -> Seq<char> {
    "Invalid ZIP code '"@ + zip + "'. Please enter a 5-digit US ZIP code."@
}

/// What is said of a position that was refused.
pub open spec fn latlon_notice() -> Seq<char> {
    "Invalid coordinates. Latitude must be between -90 and 90; Longitude between -180 and 180."@
}

impl Question {
    /// The variable of the environment that may hold the answer.
    pub fn env_key(self) -> (key: &'static str)
        ensures
            key@ == env_key_of(self),
    {
        match self {
            Question::Mode => "QUERY_MODE",
            Question::Zip => "ZIP",
            Question::Latitude => "LAT",
            Question::Longitude => "LON",
        }
    }

    /// The words to ask with.
    pub fn label(self) -> (label: &'static str)
        ensures
            label@ == label_of(self),
    {
        match self {
            Question::Mode => "Query by (1) lat/lon or (2) ZIP? [1/2]",
            Question::Zip => "ZIP",
            Question::Latitude => "Latitude",
            Question::Longitude => "Longitude",
        }
    }

    /// The answer to take where none is given.
    pub fn default_value(self) -> (value: &'static str)
        ensures
            value@ == default_of(self),
    {
        match self {
            Question::Mode => "1",
            Question::Zip => "20001",
            Question::Latitude => "38.9072",
            Question::Longitude => "-77.0369",
        }
    }
}

impl SessionView {
    /// The same run at another stage, with no latitude kept.
    pub open spec fn at(self, stage: Stage) -> SessionView {
        SessionView { stage, latitude: None, ..self }
    }
}

/// The first state of a run with this key and this output path.
pub open spec fn initial(api_key: Seq<char>, out: Seq<char>) -> SessionView {
    SessionView { stage: Stage::Mode, api_key, out, latitude: None }
}

/// The rules of a run: the state after `event`, and what to do next.
///
/// The mode is asked first, then the postal code or the two coordinates,
/// again and again until they are valid. Then one request goes out. Its
/// answer is stored if it is a success and holds JSON, and ends the run in
/// failure if not. Whatever a run is told that it was not waiting for ends
/// it in failure too.
pub open spec fn next(s: SessionView, event: EventView) -> (SessionView, ActionView) {
    match (s.stage, event) {
        (Stage::Mode, EventView::Answer(choice)) => if selects_zip(choice) {
            (s.at(Stage::Zip), ActionView::Ask { question: Question::Zip, notice: None })
        } else {
            (s.at(Stage::Latitude), ActionView::Ask { question: Question::Latitude, notice: None })
        },
        (Stage::Zip, EventView::Answer(zip)) => if valid_zip(zip) {
            (s.at(Stage::Response), ActionView::Get(airnow_apis::zip_url(s.api_key, zip)))
        } else {
            (
                s.at(Stage::Zip),
                ActionView::Ask { question: Question::Zip, notice: Some(zip_notice(zip)) },
            )
        },
        (Stage::Latitude, EventView::Number(lat)) => (
            SessionView { stage: Stage::Longitude, latitude: lat, ..s },
            ActionView::Ask { question: Question::Longitude, notice: None },
        ),
        (Stage::Longitude, EventView::Number(lon)) => match (s.latitude, lon) {
            (Some(lat), Some(lon)) if valid_latlon(lat.bits, lon.bits) => (
                s.at(Stage::Response),
                ActionView::Get(airnow_apis::latlon_url(s.api_key, lat.text, lon.text)),
            ),
            _ => (
                s.at(Stage::Latitude),
                ActionView::Ask { question: Question::Latitude, notice: Some(latlon_notice()) },
            ),
        },
        (Stage::Response, EventView::Response { status, body }) => if !is_success(status) {
            (s.at(Stage::Failed), ActionView::Fail(Reason::Status(status)))
        } else {
            match json_document(body) {
                None => (s.at(Stage::Failed), ActionView::Fail(Reason::Body)),
                Some(doc) => match pretty_text(doc) {
                    None => (s.at(Stage::Failed), ActionView::Fail(Reason::Serialize)),
                    Some(text) => (
                        s.at(Stage::Storing),
                        ActionView::Save { path: s.out, text },
                    ),
                },
            }
        },
        (Stage::Response, EventView::Unreachable) => (
            s.at(Stage::Failed),
            ActionView::Fail(Reason::Unreachable),
        ),
        (Stage::Storing, EventView::Stored) => (s.at(Stage::Done), ActionView::Finish),
        (Stage::Storing, EventView::StoreFailed) => (
            s.at(Stage::Failed),
            ActionView::Fail(Reason::Io),
        ),
        _ => (s.at(Stage::Failed), ActionView::Fail(Reason::Unexpected)),
    }
}

fn failed(api_key: String, out: String, failure: Failure) -> (r: (Session, Action))
    ensures
        r.0@ == (SessionView { stage: Stage::Failed, api_key: api_key@, out: out@, latitude: None }),
        r.1@ == ActionView::Fail(failure@),
{
    (Session { stage: Stage::Failed, api_key, out, latitude: None }, Action::Fail(failure))
}

fn ask(stage: Stage, api_key: String, out: String, question: Question, notice: Option<String>) -> (r:
    (Session, Action))
    ensures
        r.0@ == (SessionView { stage, api_key: api_key@, out: out@, latitude: None }),
        r.1@ == (ActionView::Ask {
            question,
            notice: match notice {
                Some(n) => Some(n@),
                None => None,
            },
        }),
{
    (Session { stage, api_key, out, latitude: None }, Action::Ask { question, notice })
}

impl Session {
    /// Begins a run. The key is needed; the output path has a default. The
    /// first thing to do is to ask for the mode.
    pub fn start(api_key: Option<String>, out: Option<String>) -> (r: Result<
        (Session, Action),
        ConfigError,
    >)
        ensures
            match r {
                Ok((session, action)) => {
                    &&& api_key matches Some(key)
                    &&& session@ == initial(
                        key@,
                        match out {
                            Some(path) => path@,
                            None => default_out(),
                        },
                    )
                    &&& action@ == (ActionView::Ask { question: Question::Mode, notice: None })
                },
                Err(e) => api_key is None && e == ConfigError::MissingApiKey,
            },
    {
        let key = match api_key {
            Some(key) => key,
            None => {
                return Err(ConfigError::MissingApiKey);
            },
        };
        let path = match out {
            Some(path) => path,
            None => String::from_str("airnow.json"),
        };
        Ok(ask(Stage::Mode, key, path, Question::Mode, None))
    }

    /// What the run is waiting for.
    pub fn stage(&self) -> (stage: Stage)
        ensures
            stage == self@.stage,
    {
        self.stage
    }

    /// Takes the run one step on: tells it what happened and learns what to
    /// do next.
    pub fn step(self, event: Event) -> (r: (Session, Action))
        ensures
            (r.0@, r.1@) == next(self@, event@),
    {
        let Session { stage, api_key, out, latitude } = self;
        match (stage, event) {
            (Stage::Mode, Event::Answer(choice)) => match query_mode(choice.as_str()) {
                QueryMode::Zip => ask(Stage::Zip, api_key, out, Question::Zip, None),
                QueryMode::LatLon => ask(Stage::Latitude, api_key, out, Question::Latitude, None),
            },
            (Stage::Zip, Event::Answer(zip)) => {
                if is_valid_zip(zip.as_str()) {
                    let url = airnow_apis::observation_by_zip_url(api_key.as_str(), zip.as_str());
                    (Session { stage: Stage::Response, api_key, out, latitude: None }, Action::Get(url))
                } else {
                    let mut notice = String::from_str("Invalid ZIP code '");
                    notice.append(zip.as_str());
                    notice.append("'. Please enter a 5-digit US ZIP code.");
                    ask(Stage::Zip, api_key, out, Question::Zip, Some(notice))
                }
            },
            (Stage::Latitude, Event::Number(lat)) => (
                Session { stage: Stage::Longitude, api_key, out, latitude: lat },
                Action::Ask { question: Question::Longitude, notice: None },
            ),
            (Stage::Longitude, Event::Number(lon)) => {
                if let (Some(lat), Some(lon)) = (latitude, lon) {
                    if is_valid_latlon(lat.bits, lon.bits) {
                        let url = airnow_apis::observation_by_latlon_url(
                            api_key.as_str(),
                            lat.text.as_str(),
                            lon.text.as_str(),
                        );
                        return (
                            Session { stage: Stage::Response, api_key, out, latitude: None },
                            Action::Get(url),
                        );
                    }
                }
                let notice = String::from_str(
                    "Invalid coordinates. Latitude must be between -90 and 90; Longitude between -180 and 180.",
                );
                ask(Stage::Latitude, api_key, out, Question::Latitude, Some(notice))
            },
            (Stage::Response, Event::Response { status, body }) => {
                match read_response(status, body.as_slice()) {
                    Err(e) => failed(api_key, out, Failure::Fetch(e)),
                    Ok(doc) => match render(&doc) {
                        Err(e) => failed(api_key, out, Failure::Storage(e)),
                        Ok(text) => {
                            let path = out.clone();
                            (
                                Session { stage: Stage::Storing, api_key, out, latitude: None },
                                Action::Save { path, text },
                            )
                        },
                    },
                }
            },
            (Stage::Response, Event::Unreachable) => failed(api_key, out, Failure::Unreachable),
            (Stage::Storing, Event::Stored) => (
                Session { stage: Stage::Done, api_key, out, latitude: None },
                Action::Finish,
            ),
            (Stage::Storing, Event::StoreFailed) => failed(
                api_key,
                out,
                Failure::Storage(StorageError::Io),
            ),
            _ => failed(api_key, out, Failure::Unexpected),
        }
    }
}

} // verus!
