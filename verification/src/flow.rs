//! The order in which a command runs its steps.
//!
//! A command is a short chain of requests to the outside world: files,
//! standard input, Slack. The chain is kept here as a state machine. `start`
//! gives the first request, the caller carries it out and hands the outcome to
//! `step`, which gives the next request or ends the command. The machine
//! never asks for a later step before the earlier one has succeeded.
//!
//! Where the directory of the config file lies is left to `std::path`, whose
//! rules differ from one system to the next.

use crate::config::{
    config_of_bytes, config_of_text, lemma_bytes_are_read_as_text, parse_config,
    parse_config_bytes, text_of_config, Config, ConfigView,
};
use crate::error::{result_view, Failure, FailureView, UsageError, UsageErrorView};
use crate::message::{content_blocks, content_text, preformatted_text, render_message};
use slack_morphism_models::SlackMessageContent;
use vstd::prelude::*;
use vstd::string::*;
use vstd::utf8::encode_utf8;

verus! {

/// What the command line asks for.
#[derive(Debug, PartialEq, Eq)]
pub enum Command {
    /// Ask for a token and store it.
    Init,
    /// Send standard input to `destination`.
    Paste { destination: String },
}

/// `Command` over character sequences.
pub enum CommandView {
    Init,
    Paste { destination: Seq<char> },
}

impl View for Command {
    type V = CommandView;

    open spec fn view(&self) -> CommandView {
        match self {
            Command::Init => CommandView::Init,
            Command::Paste { destination } => CommandView::Paste { destination: destination@ },
        }
    }
}

/// What the machine waits for, and what it has to remember meanwhile.
#[derive(Debug, PartialEq, Eq)]
pub enum State {
    /// `init`: the directory of the config file is being made.
    EnsuringDir { config_file: String },
    /// `init`: the user is being asked for the token.
    Prompting { config_file: String },
    /// `init`: the config file is being written.
    Writing { config_file: String },
    /// `paste`: the config file is being read.
    LoadingConfig { destination: String },
    /// `paste`: standard input is being read to its end.
    ReadingInput { token: String, destination: String },
    /// `paste`: the message is on its way.
    Sending,
}

/// `State` over character sequences.
pub enum StateView {
    EnsuringDir { config_file: Seq<char> },
    Prompting { config_file: Seq<char> },
    Writing { config_file: Seq<char> },
    LoadingConfig { destination: Seq<char> },
    ReadingInput { token: Seq<char>, destination: Seq<char> },
    Sending,
}

impl View for State {
    type V = StateView;

    open spec fn view(&self) -> StateView {
        match self {
            State::EnsuringDir { config_file } => StateView::EnsuringDir {
                config_file: config_file@,
            },
            State::Prompting { config_file } => StateView::Prompting { config_file: config_file@ },
            State::Writing { config_file } => StateView::Writing { config_file: config_file@ },
            State::LoadingConfig { destination } => StateView::LoadingConfig {
                destination: destination@,
            },
            State::ReadingInput { token, destination } => StateView::ReadingInput {
                token: token@,
                destination: destination@,
            },
            State::Sending => StateView::Sending,
        }
    }
}

/// A request to the caller. Each is answered by the event of the same kind.
#[derive(Debug, PartialEq)]
pub enum Action {
    /// Make sure that the directory at `path` exists, with all that lead to it.
    CreateDir { path: String },
    /// Show `message` and read one line.
    Prompt { message: String },
    /// Write `text` to the file at `path`, replacing what is there.
    WriteFile { path: String, text: String },
    /// Read the whole file at `path`.
    ReadFile { path: String },
    /// Read standard input to its end.
    ReadInput,
    /// Open a session with `token` and post `content` to `destination`, once.
    Send { token: String, destination: String, content: SlackMessageContent },
}

/// `Action` over character sequences; message content by its fallback text
/// and its blocks.
pub enum ActionView {
    CreateDir { path: Seq<char> },
    Prompt { message: Seq<char> },
    WriteFile { path: Seq<char>, text: Seq<char> },
    ReadFile { path: Seq<char> },
    ReadInput,
    Send {
        token: Seq<char>,
        destination: Seq<char>,
        fallback: Option<Seq<char>>,
        blocks: Seq<Option<Seq<char>>>,
    },
}

impl View for Action {
    type V = ActionView;

    open spec fn view(&self) -> ActionView {
        match self {
            Action::CreateDir { path } => ActionView::CreateDir { path: path@ },
            Action::Prompt { message } => ActionView::Prompt { message: message@ },
            Action::WriteFile { path, text } => ActionView::WriteFile { path: path@, text: text@ },
            Action::ReadFile { path } => ActionView::ReadFile { path: path@ },
            Action::ReadInput => ActionView::ReadInput,
            Action::Send { token, destination, content } => ActionView::Send {
                token: token@,
                destination: destination@,
                fallback: content_text(*content),
                blocks: content_blocks(*content),
            },
        }
    }
}

/// How a request ended. A failure carries the cause as the caller saw it.
#[derive(Debug, PartialEq, Eq)]
pub enum Event {
    /// Answers `CreateDir`.
    DirEnsured(Result<(), String>),
    /// Answers `Prompt`, with the line that was entered.
    TokenEntered(Result<String, String>),
    /// Answers `WriteFile`.
    ConfigWritten(Result<(), String>),
    /// Answers `ReadFile`, with the bytes of the file.
    ConfigRead(Result<Vec<u8>, String>),
    /// Answers `ReadInput`, with all of standard input.
    InputRead(Result<String, String>),
    /// Answers `Send`.
    Delivered(Result<(), String>),
}

/// `Event` over character sequences.
pub enum EventView {
    DirEnsured(Result<(), Seq<char>>),
    TokenEntered(Result<Seq<char>, Seq<char>>),
    ConfigWritten(Result<(), Seq<char>>),
    ConfigRead(Result<Seq<u8>, Seq<char>>),
    InputRead(Result<Seq<char>, Seq<char>>),
    Delivered(Result<(), Seq<char>>),
}

/// The view of an outcome that carries no value.
pub open spec fn done_view(outcome: Result<(), String>) -> Result<(), Seq<char>> {
    match outcome {
        Ok(_) => Ok(()),
        Err(detail) => Err(detail@),
    }
}

/// The view of an outcome that carries bytes.
pub open spec fn bytes_view(outcome: Result<Vec<u8>, String>) -> Result<Seq<u8>, Seq<char>> {
    match outcome {
        Ok(bytes) => Ok(bytes@),
        Err(detail) => Err(detail@),
    }
}

/// The view of an outcome that carries a text.
pub open spec fn text_view(outcome: Result<String, String>) -> Result<Seq<char>, Seq<char>> {
    match outcome {
        Ok(text) => Ok(text@),
        Err(detail) => Err(detail@),
    }
}

impl View for Event {
    type V = EventView;

    open spec fn view(&self) -> EventView {
        match self {
            Event::DirEnsured(outcome) => EventView::DirEnsured(done_view(*outcome)),
            Event::TokenEntered(outcome) => EventView::TokenEntered(text_view(*outcome)),
            Event::ConfigWritten(outcome) => EventView::ConfigWritten(done_view(*outcome)),
            Event::ConfigRead(outcome) => EventView::ConfigRead(bytes_view(*outcome)),
            Event::InputRead(outcome) => EventView::InputRead(text_view(*outcome)),
            Event::Delivered(outcome) => EventView::Delivered(done_view(*outcome)),
        }
    }
}

/// What follows an event.
#[derive(Debug, PartialEq)]
pub enum Step {
    /// The command goes on: carry out `action`, then call `step` on `state`.
    Continue { state: State, action: Action },
    /// The command has succeeded; `report` is to be printed, if there is one.
    Finished { report: Option<String> },
    /// The command has failed, and nothing more is to be done.
    Failed { failure: Failure },
}

/// `Step` over character sequences.
pub enum StepView {
    Continue { state: StateView, action: ActionView },
    Finished { report: Option<Seq<char>> },
    Failed { failure: FailureView },
}

impl View for Step {
    type V = StepView;

    open spec fn view(&self) -> StepView {
        match self {
            Step::Continue { state, action } => StepView::Continue {
                state: state@,
                action: action@,
            },
            Step::Finished { report } => StepView::Finished {
                report: match report {
                    Some(text) => Some(text@),
                    None => None,
                },
            },
            Step::Failed { failure } => StepView::Failed { failure: failure@ },
        }
    }
}

/// The question that `init` asks.
pub open spec fn prompt_text() -> Seq<char> {
    "Please input the slack token: "@
}

/// What `init` prints when the config file at `path` has been written.
pub open spec fn report_text(path: Seq<char>) -> Seq<char> {
    "Config written to: "@ + path
}

/// The cause that is reported when no token was entered: a credential is
/// never stored empty.
pub open spec fn empty_token_detail() -> Seq<char> {
    "no token was entered"@
}

/// The cause that is reported when the text that would be stored for a
/// token does not read back as that token.
pub open spec fn unstorable_detail() -> Seq<char> {
    "the token does not read back as it was entered"@
}

/// Whether `text` reads back as the credential `token`.
pub open spec fn reads_back(text: Seq<char>, token: Seq<char>) -> bool {
    config_of_text(text) == Ok::<ConfigView, FailureView>(ConfigView { slack_token: token })
}

/// The cause that is reported for a config file at `path` that lies in no
/// directory.
pub open spec fn no_parent_detail(path: Seq<char>) -> Seq<char> {
    "No parent for: "@ + path
}

/// The cause that is reported when an event answers another request than
/// the one that is open.
pub open spec fn unexpected_detail() -> Seq<char> {
    "unexpected event"@
}

/// The command that a subcommand name and the argument of `paste` stand
/// for. Only `init` and `paste` are commands; any other name is reported by
/// that name, and no name at all is an error of its own.
pub open spec fn route_spec(
    subcommand: Option<Seq<char>>,
    destination: Option<Seq<char>>,
) -> Result<CommandView, FailureView> {
    match subcommand {
        None => Err(FailureView::UsageError(UsageErrorView::NoSubcommand)),
        Some(name) => if name == "init"@ {
            Ok(CommandView::Init)
        } else if name == "paste"@ {
            match destination {
                Some(destination) => Ok(CommandView::Paste { destination }),
                None => Err(FailureView::UsageError(UsageErrorView::MissingDestination)),
            }
        } else {
            Err(FailureView::UsageError(UsageErrorView::UnknownCommand { name }))
        },
    }
}

/// How a command that works on `config_file` begins, where `parent` is the
/// directory that the file lies in, if it lies in one. `init` first makes
/// that directory, and fails at once where there is none; `paste` first reads
/// the file, wherever it lies.
pub open spec fn start_spec(
    command: CommandView,
    config_file: Seq<char>,
    parent: Option<Seq<char>>,
) -> StepView {
    match command {
        CommandView::Init => match parent {
            Some(path) => StepView::Continue {
                state: StateView::EnsuringDir { config_file },
                action: ActionView::CreateDir { path },
            },
            None => StepView::Failed {
                failure: FailureView::ConfigWriteError { detail: no_parent_detail(config_file) },
            },
        },
        CommandView::Paste { destination } => StepView::Continue {
            state: StateView::LoadingConfig { destination },
            action: ActionView::ReadFile { path: config_file },
        },
    }
}

/// What follows `event` in `state`.
///
/// `init` makes the directory, asks for the token, writes the config file
/// and reports its path. A token of no characters is not written, and no text
/// is written that would not read back as the token. `paste` reads the config
/// file, then standard input, then sends the rendered input, once. The first failure ends the command with the error of the step that
/// failed; an event that does not answer the open request counts as that
/// request having failed.
pub open spec fn step_spec(state: StateView, event: EventView) -> StepView {
    match state {
        StateView::EnsuringDir { config_file } => match event {
            EventView::DirEnsured(Ok(_)) => StepView::Continue {
                state: StateView::Prompting { config_file },
                action: ActionView::Prompt { message: prompt_text() },
            },
            EventView::DirEnsured(Err(detail)) => StepView::Failed {
                failure: FailureView::ConfigWriteError { detail },
            },
            _ => StepView::Failed {
                failure: FailureView::ConfigWriteError { detail: unexpected_detail() },
            },
        },
        StateView::Prompting { config_file } => match event {
            EventView::TokenEntered(Ok(token)) => if token.len() == 0 {
                StepView::Failed {
                    failure: FailureView::InputReadError { detail: empty_token_detail() },
                }
            } else if reads_back(text_of_config(ConfigView { slack_token: token }), token) {
                StepView::Continue {
                    state: StateView::Writing { config_file },
                    action: ActionView::WriteFile {
                        path: config_file,
                        text: text_of_config(ConfigView { slack_token: token }),
                    },
                }
            } else {
                StepView::Failed {
                    failure: FailureView::ConfigWriteError { detail: unstorable_detail() },
                }
            },
            EventView::TokenEntered(Err(detail)) => StepView::Failed {
                failure: FailureView::InputReadError { detail },
            },
            _ => StepView::Failed {
                failure: FailureView::InputReadError { detail: unexpected_detail() },
            },
        },
        StateView::Writing { config_file } => match event {
            EventView::ConfigWritten(Ok(_)) => StepView::Finished {
                report: Some(report_text(config_file)),
            },
            EventView::ConfigWritten(Err(detail)) => StepView::Failed {
                failure: FailureView::ConfigWriteError { detail },
            },
            _ => StepView::Failed {
                failure: FailureView::ConfigWriteError { detail: unexpected_detail() },
            },
        },
        StateView::LoadingConfig { destination } => match event {
            EventView::ConfigRead(Ok(file)) => match config_of_bytes(file) {
                Ok(config) => StepView::Continue {
                    state: StateView::ReadingInput { token: config.slack_token, destination },
                    action: ActionView::ReadInput,
                },
                Err(failure) => StepView::Failed { failure },
            },
            EventView::ConfigRead(Err(detail)) => StepView::Failed {
                failure: FailureView::ConfigMissing { detail },
            },
            _ => StepView::Failed {
                failure: FailureView::ConfigMissing { detail: unexpected_detail() },
            },
        },
        StateView::ReadingInput { token, destination } => match event {
            EventView::InputRead(Ok(input)) => StepView::Continue {
                state: StateView::Sending,
                action: ActionView::Send {
                    token,
                    destination,
                    fallback: None,
                    blocks: seq![Some(preformatted_text(input))],
                },
            },
            EventView::InputRead(Err(detail)) => StepView::Failed {
                failure: FailureView::InputReadError { detail },
            },
            _ => StepView::Failed {
                failure: FailureView::InputReadError { detail: unexpected_detail() },
            },
        },
        StateView::Sending => match event {
            EventView::Delivered(Ok(_)) => StepView::Finished { report: None },
            EventView::Delivered(Err(detail)) => StepView::Failed {
                failure: FailureView::DeliveryError { detail },
            },
            _ => StepView::Failed {
                failure: FailureView::DeliveryError { detail: unexpected_detail() },
            },
        },
    }
}

/// The number of requests that may still follow the one open in `state`.
pub open spec fn steps_left(state: StateView) -> nat {
    match state {
        StateView::EnsuringDir { .. } => 2,
        StateView::Prompting { .. } => 1,
        StateView::Writing { .. } => 0,
        StateView::LoadingConfig { .. } => 2,
        StateView::ReadingInput { .. } => 1,
        StateView::Sending => 0,
    }
}

/// Whether `state` belongs to `init`; the other states belong to `paste`.
pub open spec fn is_init_state(state: StateView) -> bool {
    state is EnsuringDir || state is Prompting || state is Writing
}

/// The view of an optional text.
pub open spec fn name_view(name: Option<&str>) -> Option<Seq<char>> {
    match name {
        Some(text) => Some(text@),
        None => None,
    }
}

/// The view of an optional text that is owned.
pub open spec fn name_view_owned(name: Option<String>) -> Option<Seq<char>> {
    match name {
        Some(text) => Some(text@),
        None => None,
    }
}

/// Whether two texts are the same, character by character.
fn same_text(left: &str, right: &str) -> (same: bool)
    ensures
        same == (left@ == right@),
{
    left.to_owned() == right.to_owned()
}

/// The failure of a request that was answered by the wrong event.
fn unexpected() -> (detail: String)
    ensures
        detail@ == unexpected_detail(),
{
    String::from_str("unexpected event")
}

/// Picks the command that the command line names.
pub fn route(subcommand: Option<&str>, destination: Option<&str>) -> (command: Result<
    Command,
    Failure,
>)
    ensures
        result_view(command) == route_spec(name_view(subcommand), name_view(destination)),
{
    match subcommand {
        None => Err(Failure::UsageError(UsageError::NoSubcommand)),
        Some(name) => {
            if same_text(name, "init") {
                Ok(Command::Init)
            } else if same_text(name, "paste") {
                match destination {
                    Some(destination) => Ok(
                        Command::Paste { destination: String::from_str(destination) },
                    ),
                    None => Err(Failure::UsageError(UsageError::MissingDestination)),
                }
            } else {
                Err(Failure::UsageError(UsageError::UnknownCommand { name: String::from_str(name) }))
            }
        },
    }
}

/// Calls `Path::parent` on `path` and hands the result out as text: the
/// path without its last part, and `None` where there is no such part to take
/// off, as for the empty path. What counts as a part depends on the system.
#[verifier::external_body]
fn parent_of(path: &str) -> (parent: Option<String>)
    ensures
        path@.len() == 0 ==> parent is None,
{
    match std::path::Path::new(path).parent() {
        Some(directory) => Some(directory.to_string_lossy().into_owned()),
        None => None,
    }
}

/// Begins `command` on the config file at `config_file`, given the
/// directory that the file lies in: the state to keep and the first request to
/// carry out, or the failure that ends the command before it began.
pub fn start_in(command: Command, config_file: String, parent: Option<String>) -> (next: Step)
    ensures
        next@ == start_spec(command@, config_file@, name_view_owned(parent)),
{
    match command {
        Command::Init => match parent {
            Some(path) => Step::Continue {
                state: State::EnsuringDir { config_file },
                action: Action::CreateDir { path },
            },
            None => {
                let mut detail = String::from_str("No parent for: ");
                detail.append(config_file.as_str());
                Step::Failed { failure: Failure::ConfigWriteError { detail } }
            },
        },
        Command::Paste { destination } => Step::Continue {
            state: State::LoadingConfig { destination },
            action: Action::ReadFile { path: config_file },
        },
    }
}

/// Begins `command` on the config file at `config_file`. `paste` begins by
/// reading that file. `init` begins by making the directory that holds it,
/// which `std::path` finds; it fails at once where the path has no such
/// directory, as the empty path has none.
pub fn start(command: Command, config_file: String) -> (next: Step)
    ensures
        command is Paste ==> next@ == start_spec(command@, config_file@, None),
        command is Init ==> exists|parent: Option<Seq<char>>|
            next@ == start_spec(command@, config_file@, parent),
        command is Init && config_file@.len() == 0 ==> next@ == start_spec(
            command@,
            config_file@,
            None,
        ),
{
    let parent = match command {
        Command::Init => parent_of(config_file.as_str()),
        Command::Paste { .. } => None,
    };
    start_in(command, config_file, parent)
}

/// After the directory was made: ask for the token.
fn after_dir(config_file: String, event: Event) -> (next: Step)
    ensures
        next@ == step_spec(StateView::EnsuringDir { config_file: config_file@ }, event@),
{
    match event {
        Event::DirEnsured(Ok(_)) => Step::Continue {
            state: State::Prompting { config_file },
            action: Action::Prompt { message: String::from_str("Please input the slack token: ") },
        },
        Event::DirEnsured(Err(detail)) => Step::Failed {
            failure: Failure::ConfigWriteError { detail },
        },
        _ => Step::Failed { failure: Failure::ConfigWriteError { detail: unexpected() } },
    }
}

/// After the token was entered: write it, as TOML, to the config file,
/// unless it is empty or would not read back.
fn after_prompt(config_file: String, event: Event) -> (next: Step)
    ensures
        next@ == step_spec(StateView::Prompting { config_file: config_file@ }, event@),
{
    match event {
        Event::TokenEntered(Ok(slack_token)) => {
            if slack_token.as_str().is_empty() {
                return Step::Failed {
                    failure: Failure::InputReadError {
                        detail: String::from_str("no token was entered"),
                    },
                };
            }
            let config = Config { slack_token };
            let text = config.to_toml();
            let kept = match parse_config(text.as_str()) {
                Ok(read) => read.slack_token == config.slack_token,
                Err(_) => false,
            };
            if kept {
                let path = config_file.clone();
                Step::Continue {
                    state: State::Writing { config_file },
                    action: Action::WriteFile { path, text },
                }
            } else {
                Step::Failed {
                    failure: Failure::ConfigWriteError {
                        detail: String::from_str("the token does not read back as it was entered"),
                    },
                }
            }
        },
        Event::TokenEntered(Err(detail)) => Step::Failed {
            failure: Failure::InputReadError { detail },
        },
        _ => Step::Failed { failure: Failure::InputReadError { detail: unexpected() } },
    }
}

/// After the config file was written: report where it is.
fn after_write(config_file: String, event: Event) -> (next: Step)
    ensures
        next@ == step_spec(StateView::Writing { config_file: config_file@ }, event@),
{
    match event {
        Event::ConfigWritten(Ok(_)) => {
            let mut report = String::from_str("Config written to: ");
            report.append(config_file.as_str());
            Step::Finished { report: Some(report) }
        },
        Event::ConfigWritten(Err(detail)) => Step::Failed {
            failure: Failure::ConfigWriteError { detail },
        },
        _ => Step::Failed { failure: Failure::ConfigWriteError { detail: unexpected() } },
    }
}

/// After the config file was read: take the token from it, and only then
/// ask for standard input.
fn after_load(destination: String, event: Event) -> (next: Step)
    ensures
        next@ == step_spec(StateView::LoadingConfig { destination: destination@ }, event@),
{
    match event {
        Event::ConfigRead(Ok(file)) => match parse_config_bytes(file.as_slice()) {
            Ok(config) => Step::Continue {
                state: State::ReadingInput { token: config.slack_token, destination },
                action: Action::ReadInput,
            },
            Err(failure) => Step::Failed { failure },
        },
        Event::ConfigRead(Err(detail)) => Step::Failed {
            failure: Failure::ConfigMissing { detail },
        },
        _ => Step::Failed { failure: Failure::ConfigMissing { detail: unexpected() } },
    }
}

/// After standard input was read: render it and send it.
fn after_input(token: String, destination: String, event: Event) -> (next: Step)
    ensures
        next@ == step_spec(
            StateView::ReadingInput { token: token@, destination: destination@ },
            event@,
        ),
{
    match event {
        Event::InputRead(Ok(input)) => {
            let content = render_message(input.as_str());
            Step::Continue {
                state: State::Sending,
                action: Action::Send { token, destination, content },
            }
        },
        Event::InputRead(Err(detail)) => Step::Failed {
            failure: Failure::InputReadError { detail },
        },
        _ => Step::Failed { failure: Failure::InputReadError { detail: unexpected() } },
    }
}

/// After Slack answered: the command is over, one way or the other.
fn after_send(event: Event) -> (next: Step)
    ensures
        next@ == step_spec(StateView::Sending, event@),
{
    match event {
        Event::Delivered(Ok(_)) => Step::Finished { report: None },
        Event::Delivered(Err(detail)) => Step::Failed {
            failure: Failure::DeliveryError { detail },
        },
        _ => Step::Failed { failure: Failure::DeliveryError { detail: unexpected() } },
    }
}

/// Takes the outcome of the open request and decides what follows.
pub fn step(state: State, event: Event) -> (next: Step)
    ensures
        next@ == step_spec(state@, event@),
{
    match state {
        State::EnsuringDir { config_file } => after_dir(config_file, event),
        State::Prompting { config_file } => after_prompt(config_file, event),
        State::Writing { config_file } => after_write(config_file, event),
        State::LoadingConfig { destination } => after_load(destination, event),
        State::ReadingInput { token, destination } => after_input(token, destination, event),
        State::Sending => after_send(event),
    }
}

/// `paste` begins with the config file: its first request reads it, and
/// nothing else is asked before, wherever the file lies.
pub proof fn lemma_paste_begins_with_config(
    destination: Seq<char>,
    config_file: Seq<char>,
    parent: Option<Seq<char>>,
)
    ensures
        start_spec(CommandView::Paste { destination }, config_file, parent) == (
        StepView::Continue {
            state: StateView::LoadingConfig { destination },
            action: ActionView::ReadFile { path: config_file },
        }),
{
}

/// An empty token is never written: a file is only asked to be written for
/// a token of at least one character, and what is written is the TOML of that
/// token.
pub proof fn lemma_no_empty_credential(state: StateView, event: EventView)
    requires
        step_spec(state, event) matches StepView::Continue {
            action: ActionView::WriteFile { .. },
            ..
        },
    ensures
        state is Prompting,
        ({
            &&& event matches EventView::TokenEntered(Ok(token))
            &&& token.len() > 0
            &&& step_spec(state, event) matches StepView::Continue {
                action: ActionView::WriteFile { text: written, .. },
                ..
            }
            &&& written == text_of_config(ConfigView { slack_token: token })
        }),
{
}

/// What `init` stores is what `paste` finds: a text that is asked to be
/// written reads back, as text and as the bytes of its file, as the token that
/// was entered, and a `paste` that reads these bytes goes on with that token.
pub proof fn lemma_stored_token_is_read_back(
    config_file: Seq<char>,
    token: Seq<char>,
    destination: Seq<char>,
)
    requires
        step_spec(
            StateView::Prompting { config_file },
            EventView::TokenEntered(Ok(token)),
        ) is Continue,
    ensures
        ({
            let text = text_of_config(ConfigView { slack_token: token });
            let credential = Ok::<ConfigView, FailureView>(ConfigView { slack_token: token });
            &&& token.len() > 0
            &&& step_spec(
                StateView::Prompting { config_file },
                EventView::TokenEntered(Ok(token)),
            ) == (StepView::Continue {
                state: StateView::Writing { config_file },
                action: ActionView::WriteFile { path: config_file, text },
            })
            &&& config_of_text(text) == credential
            &&& config_of_bytes(encode_utf8(text)) == credential
            &&& step_spec(
                StateView::LoadingConfig { destination },
                EventView::ConfigRead(Ok(encode_utf8(text))),
            ) == (StepView::Continue {
                state: StateView::ReadingInput { token, destination },
                action: ActionView::ReadInput,
            })
        }),
{
    lemma_bytes_are_read_as_text(text_of_config(ConfigView { slack_token: token }));
}

/// A token is written exactly when it has at least one character and its
/// text reads back as the token.
pub proof fn lemma_token_is_written(config_file: Seq<char>, token: Seq<char>)
    ensures
        step_spec(
            StateView::Prompting { config_file },
            EventView::TokenEntered(Ok(token)),
        ) is Continue <==> token.len() > 0 && reads_back(
            text_of_config(ConfigView { slack_token: token }),
            token,
        ),
{
}

/// When the config cannot be loaded, `paste` ends there: whether the file
/// could not be read or holds no credential, no request follows, so standard
/// input is not touched and nothing is sent.
pub proof fn lemma_failed_load_ends(destination: Seq<char>, event: EventView)
    requires
        !(event matches EventView::ConfigRead(Ok(file)) && config_of_bytes(file) is Ok),
    ensures
        step_spec(StateView::LoadingConfig { destination }, event) is Failed,
{
}

/// Standard input is asked for in one place only: after the config file was
/// read and a credential was found in it.
pub proof fn lemma_input_follows_config(state: StateView, event: EventView)
    requires
        step_spec(state, event) matches StepView::Continue { action: ActionView::ReadInput, .. },
    ensures
        state is LoadingConfig,
        event matches EventView::ConfigRead(Ok(file)) && config_of_bytes(file) is Ok,
{
}

/// A message is sent in one place only: after standard input was read to
/// its end. It goes to the destination of the command, with the stored token,
/// and its one block is the input, preformatted.
pub proof fn lemma_send_follows_input(state: StateView, event: EventView)
    requires
        step_spec(state, event) matches StepView::Continue {
            action: ActionView::Send { .. },
            ..
        },
    ensures
        state matches StateView::ReadingInput { token, destination } && event matches EventView::InputRead(
            Ok(input),
        ) && step_spec(state, event) == (StepView::Continue {
            state: StateView::Sending,
            action: ActionView::Send {
                token,
                destination,
                fallback: None,
                blocks: seq![Some(preformatted_text(input))],
            },
        }),
{
}

/// Nothing is sent twice: once the message is on its way, every event ends
/// the command, and only a delivery that succeeded ends it well.
pub proof fn lemma_no_retry(event: EventView)
    ensures
        !(step_spec(StateView::Sending, event) is Continue),
        step_spec(StateView::Sending, event) is Finished <==> event matches EventView::Delivered(
            Ok(_),
        ),
{
}

/// A command succeeds only as a whole: it finishes on the success of its
/// last request and on nothing else.
pub proof fn lemma_finished_is_complete(state: StateView, event: EventView)
    requires
        step_spec(state, event) is Finished,
    ensures
        (state is Writing && event matches EventView::ConfigWritten(Ok(_))) || (state is Sending
            && event matches EventView::Delivered(Ok(_))),
{
}

/// A failed request ends the command with the cause that was reported for
/// it, unchanged, under the error of the step that failed.
pub proof fn lemma_failure_keeps_detail(state: StateView, detail: Seq<char>)
    ensures
        state is EnsuringDir ==> step_spec(state, EventView::DirEnsured(Err(detail))) == (
        StepView::Failed { failure: FailureView::ConfigWriteError { detail } }),
        state is Prompting ==> step_spec(state, EventView::TokenEntered(Err(detail))) == (
        StepView::Failed { failure: FailureView::InputReadError { detail } }),
        state is Writing ==> step_spec(state, EventView::ConfigWritten(Err(detail))) == (
        StepView::Failed { failure: FailureView::ConfigWriteError { detail } }),
        state is LoadingConfig ==> step_spec(state, EventView::ConfigRead(Err(detail))) == (
        StepView::Failed { failure: FailureView::ConfigMissing { detail } }),
        state is ReadingInput ==> step_spec(state, EventView::InputRead(Err(detail))) == (
        StepView::Failed { failure: FailureView::InputReadError { detail } }),
        state is Sending ==> step_spec(state, EventView::Delivered(Err(detail))) == (
        StepView::Failed { failure: FailureView::DeliveryError { detail } }),
{
}

/// Every request brings the command nearer to its end: a command makes at
/// most three requests.
pub proof fn lemma_steps_decrease(state: StateView, event: EventView)
    requires
        step_spec(state, event) is Continue,
    ensures
        steps_left(step_spec(state, event)->state) + 1 == steps_left(state),
        steps_left(state) <= 2,
{
}

/// The two commands never mix: `init` stays among its own states, and so
/// does `paste`.
pub proof fn lemma_commands_stay_apart(state: StateView, event: EventView)
    requires
        step_spec(state, event) is Continue,
    ensures
        is_init_state(state) == is_init_state(step_spec(state, event)->state),
{
}

/// The requests that the machine makes from `state` on while `events` come
/// in, in the order in which it makes them. The request that `start` gave is
/// not among them; events that come after the command has ended ask for
/// nothing.
pub open spec fn requests(state: StateView, events: Seq<EventView>) -> Seq<ActionView>
    decreases events.len(),
{
    if events.len() == 0 {
        Seq::empty()
    } else {
        match step_spec(state, events[0]) {
            StepView::Continue { state: next, action } => seq![action] + requests(
                next,
                events.drop_first(),
            ),
            _ => Seq::empty(),
        }
    }
}

/// Whatever the events, a command makes no more requests than it has steps
/// left, and a send is always the last of them: nothing is sent twice, and
/// nothing is asked after a send.
pub proof fn lemma_send_is_last(state: StateView, events: Seq<EventView>)
    ensures
        requests(state, events).len() <= steps_left(state),
        forall|i: int|
            0 <= i < requests(state, events).len() && requests(state, events)[i] is Send ==> i + 1
                == requests(state, events).len(),
    decreases events.len(),
{
    if events.len() > 0 {
        match step_spec(state, events[0]) {
            StepView::Continue { state: next, .. } => {
                lemma_send_is_last(next, events.drop_first());
            },
            _ => {},
        }
    }
}

/// The whole of `paste`, whatever the events: after the config file it asks
/// for standard input, and only if the file held a credential; after that it
/// sends, and only if the input could be read; and then it asks no more. What
/// it sends is the input, preformatted, to the destination of the command,
/// with the token from the file.
pub proof fn lemma_paste_runs_in_order(destination: Seq<char>, events: Seq<EventView>)
    ensures
        ({
            let asked = requests(StateView::LoadingConfig { destination }, events);
            &&& asked.len() <= 2
            &&& asked.len() >= 1 ==> {
                &&& events[0] matches EventView::ConfigRead(Ok(file))
                &&& config_of_bytes(file) matches Ok(config)
                &&& asked[0] == ActionView::ReadInput
                &&& asked.len() == 2 ==> {
                    &&& events[1] matches EventView::InputRead(Ok(input))
                    &&& asked[1] == (ActionView::Send {
                        token: config.slack_token,
                        destination,
                        fallback: None,
                        blocks: seq![Some(preformatted_text(input))],
                    })
                }
            }
        }),
{
    let state = StateView::LoadingConfig { destination };
    lemma_send_is_last(state, events);
    if events.len() > 0 {
        match step_spec(state, events[0]) {
            StepView::Continue { state: next, .. } => {
                lemma_send_is_last(next, events.drop_first());
            },
            _ => {},
        }
    }
}

/// The whole of `init`, whatever the events: once the directory is there it
/// asks for the token, and once it has the token it writes it, as the TOML of
/// a credential, to the config file, and then it asks no more.
pub proof fn lemma_init_runs_in_order(config_file: Seq<char>, events: Seq<EventView>)
    ensures
        ({
            let asked = requests(StateView::EnsuringDir { config_file }, events);
            &&& asked.len() <= 2
            &&& asked.len() >= 1 ==> {
                &&& events[0] matches EventView::DirEnsured(Ok(_))
                &&& asked[0] == ActionView::Prompt { message: prompt_text() }
                &&& asked.len() == 2 ==> {
                    &&& events[1] matches EventView::TokenEntered(Ok(token))
                    &&& token.len() > 0
                    &&& asked[1] == ActionView::WriteFile {
                        path: config_file,
                        text: text_of_config(ConfigView { slack_token: token }),
                    }
                }
            }
        }),
{
    let state = StateView::EnsuringDir { config_file };
    lemma_send_is_last(state, events);
    if events.len() > 0 {
        match step_spec(state, events[0]) {
            StepView::Continue { state: next, .. } => {
                lemma_send_is_last(next, events.drop_first());
            },
            _ => {},
        }
    }
}

/// A `paste` whose config cannot be loaded asks for nothing at all.
pub proof fn lemma_failed_load_asks_nothing(destination: Seq<char>, events: Seq<EventView>)
    requires
        events.len() > 0,
        !(events[0] matches EventView::ConfigRead(Ok(file)) && config_of_bytes(file) is Ok),
    ensures
        requests(StateView::LoadingConfig { destination }, events) == Seq::<ActionView>::empty(),
{
}

} // verus!
