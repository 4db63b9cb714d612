use track::client::{request_url, Event, EventDate, FetchError, API_ENDPOINT};
use track::command::{
    extract_tracking_number, handle_errors, to_option, Add, AllSession, AllStep, Failure, Info,
    Init, InitError, List, Remove, RemoveError,
};
use track::state::State;
use track::views::{Line, Style, Styled};

fn texts(lines: &[Line]) -> Vec<Vec<(Style, String)>> {
    lines
        .iter()
        .map(|l| l.iter().map(|s| (s.style, s.text.clone())).collect())
        .collect()
}

fn pair(m: &Styled) -> (Style, String) {
    (m.style, m.text.clone())
}

fn event(timestamp: i64, label: &str) -> Event {
    Event {
        date: EventDate::new(timestamp, 0).unwrap(),
        label: label.to_string(),
    }
}

#[test]
fn add_reports_now_tracked_then_renamed() {
    let mut state = State::new();
    let first = Add::apply(&mut state, "6A12345678901", "Birthday gift");
    assert_eq!(
        pair(&first),
        (
            Style::Success,
            "Birthday gift (6A12345678901) is now tracked.".to_string()
        )
    );
    let second = Add::apply(&mut state, "6A12345678901", "Present for Sam");
    assert_eq!(
        pair(&second),
        (
            Style::Success,
            "Birthday gift (6A12345678901) has been renamed to “Present for Sam”.".to_string()
        )
    );
    assert_eq!(
        state.parcels().clone(),
        vec![(
            "6A12345678901".to_string(),
            "Present for Sam".to_string()
        )]
    );
}

#[test]
fn remove_absent_is_a_notice() {
    let mut state = State::new();
    state.add_parcel("a", "A");
    let report = Remove::apply(&mut state, "doesnotexist");
    assert_eq!(
        pair(&report),
        (Style::Notice, "doesnotexist was not tracked.".to_string())
    );
    assert_eq!(state.parcels().len(), 1);
}

#[test]
fn remove_tracked_reports_removal() {
    let mut state = State::new();
    state.add_parcel("6A1", "Shoes");
    let report = Remove::apply(&mut state, "6A1");
    assert_eq!(
        pair(&report),
        (Style::Success, "Shoes (6A1) is not tracked anymore.".to_string())
    );
    assert!(state.parcels().is_empty());
}

#[test]
fn remove_choices_on_empty_registry_fail() {
    let state = State::new();
    assert!(matches!(Remove::choices(&state), Err(RemoveError::NoParcel)));
}

#[test]
fn remove_choices_list_parcels_in_order() {
    let mut state = State::new();
    state.add_parcel("b", "Books");
    state.add_parcel("a", "Apples");
    match Remove::choices(&state) {
        Ok(options) => assert_eq!(options, vec!["b: Books".to_string(), "a: Apples".to_string()]),
        Err(_) => panic!("a registry with parcels has choices"),
    }
}

#[test]
fn option_text_and_extraction() {
    let number = "6A12345678901".to_string();
    let description = "Birthday gift".to_string();
    let option = to_option((&number, &description));
    assert_eq!(option, "6A12345678901: Birthday gift");
    assert_eq!(
        extract_tracking_number(&option),
        Some("6A12345678901".to_string())
    );
}

#[test]
fn extraction_fails_without_word_prefix() {
    assert_eq!(extract_tracking_number("6A-1: x"), None);
    assert_eq!(extract_tracking_number("no separator"), None);
}

#[test]
fn init_refuses_existing_config_unless_forced() {
    assert!(matches!(
        Init { force: false }.check(true),
        Err(InitError::ExistingConfig)
    ));
    assert!(Init { force: true }.check(true).is_ok());
    assert!(Init { force: false }.check(false).is_ok());
    assert_eq!(
        pair(&Init::done()),
        (
            Style::Success,
            "The configuration has been initialised.".to_string()
        )
    );
}

#[test]
fn handle_errors_reports() {
    let config = handle_errors(&Failure::Config).unwrap();
    assert_eq!(
        config.iter().map(pair).collect::<Vec<_>>(),
        vec![
            (
                Style::Error,
                "The configuration is absent or invalid.".to_string()
            ),
            (
                Style::Hint,
                "You can create a configuration by running `track init`.".to_string()
            ),
        ]
    );
    let init = handle_errors(&Failure::Init(InitError::ExistingConfig)).unwrap();
    assert_eq!(
        init.iter().map(pair).collect::<Vec<_>>(),
        vec![
            (Style::Error, "There is already a configuration.".to_string()),
            (
                Style::Hint,
                "You can force the command by running `track init -f`.".to_string()
            ),
        ]
    );
    let remove = handle_errors(&Failure::Remove(RemoveError::NoParcel)).unwrap();
    assert_eq!(
        remove.iter().map(pair).collect::<Vec<_>>(),
        vec![(Style::Error, "There are no tracked parcels.".to_string())]
    );
    assert!(handle_errors(&Failure::Other).is_none());
}

#[test]
fn info_fetch_context_names_the_parcel() {
    let info = Info {
        tracking_number: "6A1".to_string(),
    };
    assert_eq!(info.fetch_context(), "error getting tracking info for 6A1");
}

#[test]
fn request_url_appends_tracking_number() {
    assert_eq!(
        request_url("6A12345678901"),
        "https://api.laposte.fr/suivi/v2/idships/6A12345678901"
    );
    assert_eq!(request_url(""), API_ENDPOINT);
}

#[test]
fn list_renders_parcels_in_order() {
    let mut state = State::new();
    state.add_parcel("6A1", "Shoes");
    state.add_parcel("8R2", "Books");
    assert_eq!(
        texts(&List::render(&state)),
        vec![
            vec![],
            vec![(Style::Bold, "--- Tracked parcels ---".to_string())],
            vec![],
            vec![(Style::Plain, "6A1: Shoes".to_string())],
            vec![(Style::Plain, "8R2: Books".to_string())],
            vec![],
        ]
    );
}

#[test]
fn all_halts_on_first_failure() {
    let mut state = State::new();
    state.add_parcel("6A1", "Shoes");
    state.add_parcel("8R2", "Books");
    let mut session = AllSession::start();

    assert_eq!(session.next_request(&state), Some("6A1".to_string()));
    let events = vec![event(0, "Parcel registered")];
    match session.on_fetched(&state, Ok(events)) {
        Some(AllStep::Show(lines)) => assert_eq!(
            texts(&lines),
            vec![
                vec![],
                vec![(Style::Bold, "--- Shoes (6A1) ---".to_string())],
                vec![],
                vec![
                    (Style::Dim, "Thu, 1 Jan 1970 00:00:00 +0000:".to_string()),
                    (Style::Plain, " Parcel registered".to_string()),
                ],
                vec![],
            ]
        ),
        _ => panic!("the first parcel's events must be shown"),
    }

    assert_eq!(session.next_request(&state), Some("8R2".to_string()));
    match session.on_fetched(&state, Err(FetchError::Transport)) {
        Some(AllStep::Halt(context)) => {
            assert_eq!(context, "error getting tracking info for Books (8R2)")
        }
        _ => panic!("a failed fetch must stop the run"),
    }
    assert_eq!(session.next_request(&state), None);
    assert!(session.on_fetched(&state, Ok(vec![])).is_none());
}

#[test]
fn all_stops_after_last_parcel() {
    let mut state = State::new();
    state.add_parcel("6A1", "Shoes");
    let mut session = AllSession::start();
    assert_eq!(session.next_request(&state), Some("6A1".to_string()));
    assert!(matches!(
        session.on_fetched(&state, Ok(vec![])),
        Some(AllStep::Show(_))
    ));
    assert_eq!(session.next_request(&state), None);
}

#[test]
fn all_on_empty_registry_asks_nothing() {
    let state = State::new();
    let mut session = AllSession::start();
    assert_eq!(session.next_request(&state), None);
    assert!(session.on_fetched(&state, Err(FetchError::Decode)).is_none());
}
