use airnow::coordinate::Coordinate;
use airnow::session::{Action, ConfigError, Event, Failure, Question, Session, Stage};
use airnow::fetch::FetchError;
use airnow::storage::StorageError;

fn started() -> Session {
    let (session, action) = Session::start(Some(String::from("KEY")), None).unwrap();
    assert!(matches!(action, Action::Ask { question: Question::Mode, notice: None }));
    assert_eq!(session.stage(), Stage::Mode);
    session
}

fn number(x: f64) -> Event {
    Event::Number(Some(Coordinate { bits: x.to_bits(), text: x.to_string() }))
}

fn answer(text: &str) -> Event {
    Event::Answer(String::from(text))
}

fn waiting_for_response() -> Session {
    let (session, _) = started().step(answer("2"));
    let (session, action) = session.step(answer("20001"));
    assert!(matches!(action, Action::Get(_)));
    assert_eq!(session.stage(), Stage::Response);
    session
}

#[test]
fn run_needs_a_key() {
    assert_eq!(Session::start(None, None).unwrap_err(), ConfigError::MissingApiKey);
    assert_eq!(
        Session::start(None, Some(String::from("out.json"))).unwrap_err(),
        ConfigError::MissingApiKey
    );
}

#[test]
fn questions_name_their_variable_label_and_default() {
    assert_eq!(Question::Mode.env_key(), "QUERY_MODE");
    assert_eq!(Question::Mode.label(), "Query by (1) lat/lon or (2) ZIP? [1/2]");
    assert_eq!(Question::Mode.default_value(), "1");
    assert_eq!(Question::Zip.env_key(), "ZIP");
    assert_eq!(Question::Zip.label(), "ZIP");
    assert_eq!(Question::Zip.default_value(), "20001");
    assert_eq!(Question::Latitude.env_key(), "LAT");
    assert_eq!(Question::Latitude.label(), "Latitude");
    assert_eq!(Question::Latitude.default_value(), "38.9072");
    assert_eq!(Question::Longitude.env_key(), "LON");
    assert_eq!(Question::Longitude.label(), "Longitude");
    assert_eq!(Question::Longitude.default_value(), "-77.0369");
}

#[test]
fn run_by_postal_code_fetches_and_stores() {
    let session = started();
    let (session, action) = session.step(answer("2"));
    assert!(matches!(action, Action::Ask { question: Question::Zip, notice: None }));
    assert_eq!(session.stage(), Stage::Zip);

    let (session, action) = session.step(answer("20001"));
    match action {
        Action::Get(url) => assert_eq!(
            url,
            "https://www.airnowapi.org/aq/observation/zipCode/current/?format=application/json&zipCode=20001&distance=25&API_KEY=KEY"
        ),
        other => panic!("{:?}", other),
    }
    assert_eq!(session.stage(), Stage::Response);

    let body = b"[{\"AQI\":42,\"ReportingArea\":\"Metropolitan Washington\"}]".to_vec();
    let (session, action) = session.step(Event::Response { status: 200, body });
    match action {
        Action::Save { path, text } => {
            assert_eq!(path, "airnow.json");
            assert_eq!(
                text,
                "[\n  {\n    \"AQI\": 42,\n    \"ReportingArea\": \"Metropolitan Washington\"\n  }\n]"
            );
        }
        other => panic!("{:?}", other),
    }
    assert_eq!(session.stage(), Stage::Storing);

    let (session, action) = session.step(Event::Stored);
    assert!(matches!(action, Action::Finish));
    assert_eq!(session.stage(), Stage::Done);
}

#[test]
fn run_by_position_fetches_by_latitude_and_longitude() {
    let session = started();
    let (session, action) = session.step(answer("1"));
    assert!(matches!(action, Action::Ask { question: Question::Latitude, notice: None }));
    assert_eq!(session.stage(), Stage::Latitude);

    let (session, action) = session.step(number(38.9072));
    assert!(matches!(action, Action::Ask { question: Question::Longitude, notice: None }));
    assert_eq!(session.stage(), Stage::Longitude);

    let (session, action) = session.step(number(-77.0369));
    match action {
        Action::Get(url) => assert_eq!(
            url,
            "https://www.airnowapi.org/aq/observation/latLong/current/?latitude=38.9072&longitude=-77.0369&distance=25&format=application/json&API_KEY=KEY"
        ),
        other => panic!("{:?}", other),
    }
    assert_eq!(session.stage(), Stage::Response);

    let (session, action) = session.step(Event::Response { status: 200, body: b"[]".to_vec() });
    match action {
        Action::Save { path, text } => {
            assert_eq!(path, "airnow.json");
            assert_eq!(text, "[]");
        }
        other => panic!("{:?}", other),
    }
    let (session, action) = session.step(Event::Stored);
    assert!(matches!(action, Action::Finish));
    assert_eq!(session.stage(), Stage::Done);
}

#[test]
fn output_path_is_the_one_given() {
    let (session, _) =
        Session::start(Some(String::from("KEY")), Some(String::from("data/today/aq.json"))).unwrap();
    let (session, _) = session.step(answer("zip"));
    let (session, _) = session.step(answer("94103"));
    let (_, action) = session.step(Event::Response { status: 200, body: b"{}".to_vec() });
    match action {
        Action::Save { path, text } => {
            assert_eq!(path, "data/today/aq.json");
            assert_eq!(text, "{}");
        }
        other => panic!("{:?}", other),
    }
}

#[test]
fn mode_word_in_any_case_selects_the_postal_code() {
    for word in ["2", "zip", "ZIP", "Zip"] {
        let (session, action) = started().step(answer(word));
        assert!(matches!(action, Action::Ask { question: Question::Zip, notice: None }));
        assert_eq!(session.stage(), Stage::Zip);
    }
    for word in ["1", "", "3", "lat"] {
        let (session, action) = started().step(answer(word));
        assert!(matches!(action, Action::Ask { question: Question::Latitude, notice: None }));
        assert_eq!(session.stage(), Stage::Latitude);
    }
}

#[test]
fn invalid_postal_code_is_asked_again() {
    let (session, _) = started().step(answer("2"));
    let (session, action) = session.step(answer("2000a"));
    match action {
        Action::Ask { question, notice } => {
            assert_eq!(question, Question::Zip);
            assert_eq!(
                notice.unwrap(),
                "Invalid ZIP code '2000a'. Please enter a 5-digit US ZIP code."
            );
        }
        other => panic!("{:?}", other),
    }
    assert_eq!(session.stage(), Stage::Zip);

    let (session, action) = session.step(answer(""));
    match action {
        Action::Ask { question, notice } => {
            assert_eq!(question, Question::Zip);
            assert_eq!(notice.unwrap(), "Invalid ZIP code ''. Please enter a 5-digit US ZIP code.");
        }
        other => panic!("{:?}", other),
    }
    let (session, action) = session.step(answer("20500"));
    assert!(matches!(action, Action::Get(_)));
    assert_eq!(session.stage(), Stage::Response);
}

#[test]
fn invalid_position_is_asked_again_from_the_latitude() {
    let notice_text =
        "Invalid coordinates. Latitude must be between -90 and 90; Longitude between -180 and 180.";
    let cases: Vec<(Event, Event)> = vec![
        (number(90.5), number(0.0)),
        (number(0.0), number(180.5)),
        (number(-91.0), number(-181.0)),
        (Event::Number(None), number(0.0)),
        (number(0.0), Event::Number(None)),
        (Event::Number(None), Event::Number(None)),
        (number(f64::NAN), number(0.0)),
        (number(0.0), number(f64::INFINITY)),
    ];
    for (lat, lon) in cases {
        let (session, _) = started().step(answer("1"));
        let (session, action) = session.step(lat);
        assert!(matches!(action, Action::Ask { question: Question::Longitude, notice: None }));
        let (session, action) = session.step(lon);
        match action {
            Action::Ask { question, notice } => {
                assert_eq!(question, Question::Latitude);
                assert_eq!(notice.unwrap(), notice_text);
            }
            other => panic!("{:?}", other),
        }
        assert_eq!(session.stage(), Stage::Latitude);

        let (session, _) = session.step(number(90.0));
        let (session, action) = session.step(number(-180.0));
        match action {
            Action::Get(url) => assert!(url.contains("latitude=90&longitude=-180&distance=25")),
            other => panic!("{:?}", other),
        }
        assert_eq!(session.stage(), Stage::Response);
    }
}

#[test]
fn refused_status_fails_the_run_and_stores_nothing() {
    for status in [199u16, 301, 400, 404, 500] {
        let (session, action) =
            waiting_for_response().step(Event::Response { status, body: b"[]".to_vec() });
        match action {
            Action::Fail(Failure::Fetch(FetchError::Status(code))) => assert_eq!(code, status),
            other => panic!("{:?}", other),
        }
        assert_eq!(session.stage(), Stage::Failed);

        // whatever follows, the file is not asked for
        let mut session = session;
        let later = vec![
            Event::Response { status: 200, body: b"[]".to_vec() },
            Event::Stored,
            answer("2"),
            answer("20001"),
            Event::Response { status: 200, body: b"[]".to_vec() },
        ];
        for event in later {
            let (next, action) = session.step(event);
            assert!(matches!(action, Action::Fail(Failure::Unexpected)));
            assert_eq!(next.stage(), Stage::Failed);
            session = next;
        }
    }
}

#[test]
fn body_that_is_no_json_fails_the_run() {
    let (session, action) =
        waiting_for_response().step(Event::Response { status: 200, body: b"<html>".to_vec() });
    assert!(matches!(action, Action::Fail(Failure::Fetch(FetchError::Body(_)))));
    assert_eq!(session.stage(), Stage::Failed);
}

#[test]
fn request_that_cannot_be_sent_fails_the_run() {
    let (session, action) = waiting_for_response().step(Event::Unreachable);
    assert!(matches!(action, Action::Fail(Failure::Unreachable)));
    assert_eq!(session.stage(), Stage::Failed);
}

#[test]
fn text_that_cannot_be_stored_fails_the_run() {
    let (session, action) =
        waiting_for_response().step(Event::Response { status: 200, body: b"{}".to_vec() });
    assert!(matches!(action, Action::Save { .. }));
    let (session, action) = session.step(Event::StoreFailed);
    assert!(matches!(action, Action::Fail(Failure::Storage(StorageError::Io))));
    assert_eq!(session.stage(), Stage::Failed);
}

#[test]
fn event_that_was_not_waited_for_fails_the_run() {
    let (session, action) = started().step(Event::Stored);
    assert!(matches!(action, Action::Fail(Failure::Unexpected)));
    assert_eq!(session.stage(), Stage::Failed);

    let (session, action) = started().step(number(1.0));
    assert!(matches!(action, Action::Fail(Failure::Unexpected)));
    assert_eq!(session.stage(), Stage::Failed);

    let (session, _) = started().step(answer("1"));
    let (session, action) = session.step(answer("38.9"));
    assert!(matches!(action, Action::Fail(Failure::Unexpected)));
    assert_eq!(session.stage(), Stage::Failed);

    let (session, action) = waiting_for_response().step(answer("20001"));
    assert!(matches!(action, Action::Fail(Failure::Unexpected)));
    assert_eq!(session.stage(), Stage::Failed);
}

#[test]
fn finished_run_takes_nothing_more() {
    let (session, _) =
        waiting_for_response().step(Event::Response { status: 200, body: b"{}".to_vec() });
    let (session, action) = session.step(Event::Stored);
    assert!(matches!(action, Action::Finish));
    let (session, action) = session.step(Event::Stored);
    assert!(matches!(action, Action::Fail(Failure::Unexpected)));
    assert_eq!(session.stage(), Stage::Failed);
}

#[test]
fn second_response_is_not_stored() {
    let (session, action) =
        waiting_for_response().step(Event::Response { status: 200, body: b"{}".to_vec() });
    assert!(matches!(action, Action::Save { .. }));
    let (session, action) = session.step(Event::Response { status: 200, body: b"[]".to_vec() });
    assert!(matches!(action, Action::Fail(Failure::Unexpected)));
    assert_eq!(session.stage(), Stage::Failed);
}
