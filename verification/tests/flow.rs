use slack_morphism_models::blocks::{
    SlackBlock, SlackBlockMarkDownText, SlackBlockText, SlackSectionBlock,
};
use slack_morphism_models::SlackMessageContent;
use slack_paste::config::{parse_config, Config};
use slack_paste::error::{exit_status, Failure, UsageError};
use slack_paste::flow::{route, start, start_in, step, Action, Command, Event, State, Step};
use std::path::Path;

const CONFIG_FILE: &str = "/home/user/.config/slack-paste/config.toml";
const CONFIG_DIR: &str = "/home/user/.config/slack-paste";

fn file(value: &str) -> Vec<u8> {
    value.as_bytes().to_vec()
}

fn text(value: &str) -> String {
    value.to_string()
}

fn one_section(markdown: &str) -> SlackMessageContent {
    SlackMessageContent {
        text: None,
        blocks: Some(vec![SlackBlock::Section(SlackSectionBlock {
            block_id: None,
            text: Some(SlackBlockText::MarkDown(SlackBlockMarkDownText {
                text: markdown.to_string(),
                verbatim: None,
            })),
            fields: None,
            accessory: None,
        })]),
    }
}

fn paste(destination: &str) -> Command {
    Command::Paste { destination: text(destination) }
}

fn loading(destination: &str) -> State {
    State::LoadingConfig { destination: text(destination) }
}

fn reading(token: &str, destination: &str) -> State {
    State::ReadingInput { token: text(token), destination: text(destination) }
}

fn failed(failure: Failure) -> Step {
    Step::Failed { failure }
}

/// One event of each kind, each a success.
fn every_event() -> Vec<Event> {
    vec![
        Event::DirEnsured(Ok(())),
        Event::TokenEntered(Ok(text("abc123"))),
        Event::ConfigWritten(Ok(())),
        Event::ConfigRead(Ok(file("slack_token = 'abc123'"))),
        Event::InputRead(Ok(text("hello"))),
        Event::Delivered(Ok(())),
    ]
}

/// The state that a command begins in, with its first request.
fn begun(command: Command, parent: Option<&str>) -> (State, Action) {
    match start_in(command, text(CONFIG_FILE), parent.map(text)) {
        Step::Continue { state, action } => (state, action),
        other => panic!("{:?}", other),
    }
}

#[test]
fn route_init() {
    assert_eq!(route(Some("init"), None), Ok(Command::Init));
    assert_eq!(route(Some("init"), Some("#general")), Ok(Command::Init));
}

#[test]
fn route_paste_with_destination() {
    assert_eq!(route(Some("paste"), Some("#general")), Ok(paste("#general")));
    assert_eq!(route(Some("paste"), Some("")), Ok(paste("")));
}

#[test]
fn route_paste_without_destination() {
    assert_eq!(
        route(Some("paste"), None),
        Err(Failure::UsageError(UsageError::MissingDestination))
    );
}

#[test]
fn route_without_subcommand() {
    assert_eq!(route(None, None), Err(Failure::UsageError(UsageError::NoSubcommand)));
    assert_eq!(route(None, Some("#general")), Err(Failure::UsageError(UsageError::NoSubcommand)));
}

#[test]
fn route_unknown_subcommand() {
    let routed = route(Some("bogus"), None);
    assert_eq!(
        routed,
        Err(Failure::UsageError(UsageError::UnknownCommand { name: text("bogus") }))
    );
    assert_eq!(routed.unwrap_err().message(), "Unknown command: bogus");
}

#[test]
fn route_is_exact_about_names() {
    for name in ["Init", "init ", "PASTE", "pastes", "", "in", "paste\n"] {
        assert_eq!(
            route(Some(name), Some("#general")),
            Err(Failure::UsageError(UsageError::UnknownCommand { name: text(name) }))
        );
    }
}

#[test]
fn route_failures_end_with_a_status_other_than_zero() {
    let none = route(None, None).map(|_| ());
    let bogus = route(Some("bogus"), None).map(|_| ());
    assert_eq!(exit_status(&none), -1);
    assert_eq!(exit_status(&bogus), 1);
    assert_ne!(none, bogus);
}

#[test]
fn start_in_init_asks_for_the_directory() {
    let (state, action) = begun(Command::Init, Some(CONFIG_DIR));
    assert_eq!(state, State::EnsuringDir { config_file: text(CONFIG_FILE) });
    assert_eq!(action, Action::CreateDir { path: text(CONFIG_DIR) });
}

#[test]
fn start_in_init_fails_without_a_directory() {
    assert_eq!(
        start_in(Command::Init, text("/"), None),
        failed(Failure::ConfigWriteError { detail: text("No parent for: /") })
    );
}

#[test]
fn start_in_paste_asks_for_the_config_file() {
    for parent in [Some(CONFIG_DIR), None] {
        let (state, action) = begun(paste("#general"), parent);
        assert_eq!(state, loading("#general"));
        assert_eq!(action, Action::ReadFile { path: text(CONFIG_FILE) });
    }
}

#[test]
fn start_finds_the_directory_of_the_config_file() {
    let parent = Path::new(CONFIG_FILE).parent().expect("parent").to_str().expect("text");
    assert_ne!(parent, CONFIG_FILE);
    assert_eq!(
        start(Command::Init, text(CONFIG_FILE)),
        start_in(Command::Init, text(CONFIG_FILE), Some(text(parent)))
    );
}

#[test]
fn start_fails_where_the_config_file_has_no_directory() {
    assert_eq!(
        start(Command::Init, String::new()),
        failed(Failure::ConfigWriteError { detail: text("No parent for: ") })
    );
    assert_eq!(Path::new("/").parent(), None);
    assert_eq!(
        start(Command::Init, text("/")),
        failed(Failure::ConfigWriteError { detail: text("No parent for: /") })
    );
}

#[test]
fn start_paste_asks_for_the_config_file() {
    assert_eq!(
        start(paste("#general"), text(CONFIG_FILE)),
        Step::Continue {
            state: loading("#general"),
            action: Action::ReadFile { path: text(CONFIG_FILE) },
        }
    );
    assert_eq!(
        start(paste("#general"), String::new()),
        Step::Continue { state: loading("#general"), action: Action::ReadFile { path: String::new() } }
    );
}

#[test]
fn init_writes_the_token_and_reports_the_path() {
    let (state, action) = begun(Command::Init, Some(CONFIG_DIR));
    assert_eq!(action, Action::CreateDir { path: text(CONFIG_DIR) });

    let state = match step(state, Event::DirEnsured(Ok(()))) {
        Step::Continue { state, action } => {
            assert_eq!(action, Action::Prompt { message: text("Please input the slack token: ") });
            state
        }
        other => panic!("{:?}", other),
    };
    assert_eq!(state, State::Prompting { config_file: text(CONFIG_FILE) });

    let (state, written) = match step(state, Event::TokenEntered(Ok(text("abc123")))) {
        Step::Continue { state, action: Action::WriteFile { path, text } } => {
            assert_eq!(path, CONFIG_FILE);
            (state, text)
        }
        other => panic!("{:?}", other),
    };
    assert_eq!(state, State::Writing { config_file: text(CONFIG_FILE) });
    assert_eq!(written, "slack_token = 'abc123'\n");
    assert_eq!(parse_config(&written), Ok(Config { slack_token: text("abc123") }));

    assert_eq!(
        step(state, Event::ConfigWritten(Ok(()))),
        Step::Finished { report: Some(format!("Config written to: {}", CONFIG_FILE)) }
    );
}

#[test]
fn init_stops_when_the_directory_cannot_be_made() {
    let (state, _) = begun(Command::Init, Some("/"));
    assert_eq!(
        step(state, Event::DirEnsured(Err(text("Permission denied")))),
        failed(Failure::ConfigWriteError { detail: text("Permission denied") })
    );
}

#[test]
fn init_stops_when_no_token_can_be_read() {
    let state = State::Prompting { config_file: text(CONFIG_FILE) };
    assert_eq!(
        step(state, Event::TokenEntered(Err(text("end of input")))),
        failed(Failure::InputReadError { detail: text("end of input") })
    );
}

#[test]
fn init_stops_when_the_file_cannot_be_written() {
    let state = State::Writing { config_file: text(CONFIG_FILE) };
    assert_eq!(
        step(state, Event::ConfigWritten(Err(text("No space left on device")))),
        failed(Failure::ConfigWriteError { detail: text("No space left on device") })
    );
}

#[test]
fn init_does_not_store_an_empty_token() {
    let state = State::Prompting { config_file: text(CONFIG_FILE) };
    assert_eq!(
        step(state, Event::TokenEntered(Ok(String::new()))),
        failed(Failure::InputReadError { detail: text("no token was entered") })
    );
}

#[test]
fn init_stores_a_token_of_one_character() {
    let state = State::Prompting { config_file: text(CONFIG_FILE) };
    match step(state, Event::TokenEntered(Ok(text(" ")))) {
        Step::Continue { action: Action::WriteFile { text: written, .. }, .. } => {
            assert_eq!(written, "slack_token = ' '\n");
        }
        other => panic!("{:?}", other),
    }
}

#[test]
fn init_stores_the_token_as_entered() {
    let state = State::Prompting { config_file: text(CONFIG_FILE) };
    match step(state, Event::TokenEntered(Ok(text("it's a token")))) {
        Step::Continue { action: Action::WriteFile { text: written, .. }, .. } => {
            assert_eq!(parse_config(&written), Ok(Config { slack_token: text("it's a token") }));
        }
        other => panic!("{:?}", other),
    }
}

#[test]
fn paste_sends_the_input_once() {
    let (state, action) = begun(paste("#general"), None);
    assert_eq!(action, Action::ReadFile { path: text(CONFIG_FILE) });

    let state = match step(state, Event::ConfigRead(Ok(file("slack_token = 'abc123'\n")))) {
        Step::Continue { state, action } => {
            assert_eq!(action, Action::ReadInput);
            state
        }
        other => panic!("{:?}", other),
    };
    assert_eq!(state, reading("abc123", "#general"));

    let state = match step(state, Event::InputRead(Ok(text("hello\nworld")))) {
        Step::Continue { state, action } => {
            assert_eq!(
                action,
                Action::Send {
                    token: text("abc123"),
                    destination: text("#general"),
                    content: one_section("```hello\nworld```"),
                }
            );
            state
        }
        other => panic!("{:?}", other),
    };
    assert_eq!(state, State::Sending);

    let last = step(state, Event::Delivered(Ok(())));
    assert_eq!(last, Step::Finished { report: None });
    assert_eq!(exit_status(&Ok(())), 0);
}

#[test]
fn paste_of_empty_input_is_still_sent() {
    match step(reading("abc123", "@someone"), Event::InputRead(Ok(String::new()))) {
        Step::Continue { state, action } => {
            assert_eq!(state, State::Sending);
            assert_eq!(
                action,
                Action::Send {
                    token: text("abc123"),
                    destination: text("@someone"),
                    content: one_section("``````"),
                }
            );
        }
        other => panic!("{:?}", other),
    }
}

#[test]
fn paste_fails_with_the_remote_detail_and_does_not_retry() {
    let last = step(State::Sending, Event::Delivered(Err(text("channel_not_found"))));
    match last {
        Step::Failed { failure } => {
            assert_eq!(failure, Failure::DeliveryError { detail: text("channel_not_found") });
            assert!(failure.message().contains("channel_not_found"));
            assert_ne!(exit_status(&Err(failure)), 0);
        }
        other => panic!("{:?}", other),
    }
}

#[test]
fn paste_never_continues_after_sending() {
    for event in every_event() {
        match step(State::Sending, event) {
            Step::Continue { .. } => panic!("a request after the send"),
            Step::Finished { .. } | Step::Failed { .. } => {}
        }
    }
}

#[test]
fn paste_without_config_file_does_not_read_input() {
    assert_eq!(
        step(loading("#general"), Event::ConfigRead(Err(text("No such file or directory")))),
        failed(Failure::ConfigMissing { detail: text("No such file or directory") })
    );
}

#[test]
fn paste_with_malformed_config_does_not_read_input() {
    for held in ["slack_token = ", "", "slack_token = 1", "other = 'x'"] {
        assert_eq!(
            step(loading("#general"), Event::ConfigRead(Ok(file(held)))),
            failed(Failure::ConfigMalformed)
        );
    }
}

#[test]
fn paste_with_a_config_that_is_no_utf8_does_not_read_input() {
    assert_eq!(
        step(loading("#general"), Event::ConfigRead(Ok(vec![0x73, 0x3d, 0x27, 0xff, 0x27]))),
        failed(Failure::ConfigMalformed)
    );
}

#[test]
fn paste_stops_when_input_cannot_be_read() {
    assert_eq!(
        step(reading("abc123", "#general"), Event::InputRead(Err(text("invalid UTF-8")))),
        failed(Failure::InputReadError { detail: text("invalid UTF-8") })
    );
}

/// The state with the given number, with fixed contents; `LoadingConfig`
/// is left out.
fn state_but_loading(number: usize) -> State {
    match number {
        0 => State::EnsuringDir { config_file: text(CONFIG_FILE) },
        1 => State::Prompting { config_file: text(CONFIG_FILE) },
        2 => State::Writing { config_file: text(CONFIG_FILE) },
        3 => reading("abc123", "#general"),
        _ => State::Sending,
    }
}

#[test]
fn input_is_only_asked_for_after_the_config() {
    for number in 0..5 {
        for event in every_event() {
            if let Step::Continue { action: Action::ReadInput, .. } =
                step(state_but_loading(number), event)
            {
                panic!("input asked for in state {}", number);
            }
        }
    }
}

#[test]
fn a_message_is_only_sent_after_the_input() {
    for number in 0..5 {
        for event in every_event() {
            let wanted = number == 3 && matches!(event, Event::InputRead(Ok(_)));
            let sent = matches!(
                step(state_but_loading(number), event),
                Step::Continue { action: Action::Send { .. }, .. }
            );
            assert_eq!(sent, wanted, "state {}", number);
        }
    }
    for event in every_event() {
        assert!(!matches!(
            step(loading("#general"), event),
            Step::Continue { action: Action::Send { .. }, .. }
        ));
    }
}

#[test]
fn a_command_makes_at_most_two_further_requests() {
    let (mut state, _) = begun(paste("#general"), None);
    let events = vec![
        Event::ConfigRead(Ok(file("slack_token = 'abc123'"))),
        Event::InputRead(Ok(text("hello"))),
        Event::Delivered(Ok(())),
    ];
    let mut asked = 0;
    let mut finished = false;
    for event in events {
        match step(state, event) {
            Step::Continue { state: next, .. } => {
                asked += 1;
                state = next;
            }
            Step::Finished { report } => {
                assert_eq!(report, None);
                finished = true;
                break;
            }
            Step::Failed { failure } => panic!("{:?}", failure),
        }
    }
    assert!(finished);
    assert_eq!(asked, 2);
}

#[test]
fn an_event_of_another_kind_fails_the_open_request() {
    let unexpected = || text("unexpected event");
    assert_eq!(
        step(State::EnsuringDir { config_file: text(CONFIG_FILE) }, Event::Delivered(Ok(()))),
        failed(Failure::ConfigWriteError { detail: unexpected() })
    );
    assert_eq!(
        step(State::Prompting { config_file: text(CONFIG_FILE) }, Event::InputRead(Ok(text("t")))),
        failed(Failure::InputReadError { detail: unexpected() })
    );
    assert_eq!(
        step(State::Writing { config_file: text(CONFIG_FILE) }, Event::DirEnsured(Ok(()))),
        failed(Failure::ConfigWriteError { detail: unexpected() })
    );
    assert_eq!(
        step(loading("#general"), Event::InputRead(Ok(text("hello")))),
        failed(Failure::ConfigMissing { detail: unexpected() })
    );
    assert_eq!(
        step(reading("abc123", "#general"), Event::ConfigRead(Ok(file("slack_token = 'x'")))),
        failed(Failure::InputReadError { detail: unexpected() })
    );
    assert_eq!(
        step(State::Sending, Event::InputRead(Ok(text("hello")))),
        failed(Failure::DeliveryError { detail: unexpected() })
    );
}
