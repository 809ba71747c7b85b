//! The launcher's course from start to exit, as a machine that is told what
//! happened and answers with what to do next. The caller does the work that
//! an action names (reading the environment and the file, asking the user,
//! running the proxy) and reports its outcome as the next event.

use crate::notices::{
    build_failure_line, build_failure_notice, created_line, created_notice, home_missing_line,
    home_missing_notice, home_unreadable_line, home_unreadable_notice, io_failure_line,
    io_failure_notice, loaded_line, loaded_notice, missing_file_line, missing_file_notice,
    parse_failure_line, parse_failure_notice, prompt_failure_line, prompt_failure_notice,
};
use crate::prompt::{empty_port_complaint, port_accepted, validate_port};
use crate::relay::{proxy_args, proxy_args_of, texts, Line, LineView};
use crate::settings::{
    config_path, config_path_of, default_config_contents, default_config_text, entries_view,
    ConnectionConfig, ConnectionConfigView, StartProxConfig, StartProxConfigView,
};
use vstd::prelude::*;

verus! {

/// What the caller reports to the machine.
#[derive(Debug, PartialEq, Eq)]
pub enum Event {
    /// The environment names this home directory.
    HomeFound(String),
    /// The environment names no home directory.
    HomeNotPresent,
    /// The environment's home directory is no text.
    HomeUnreadable,
    /// The settings file was read and holds these settings.
    Loaded(StartProxConfig),
    /// There is no settings file; holds the reader's words.
    FileMissing(String),
    /// Reading the file failed otherwise; holds the reader's words.
    ForeignFailure(String),
    /// The settings could not be put together; holds the reason.
    BuildFailure(String),
    /// The file is no settings document; holds the parser's diagnostics.
    ParseFailure(String),
    /// The user's answer to the offer of a default file.
    Confirmed(bool),
    /// The default file was written.
    DefaultWritten,
    /// The user chose this entry.
    InstanceChosen(ConnectionConfig),
    /// The user submitted this port.
    PortEntered(String),
    /// A prompt ended without an answer; holds the reason.
    PromptFailed(String),
    /// The proxy has exited and both of its streams are drained.
    ProxyExited,
}

/// An [`Event`] over plain values.
pub enum EventView {
    HomeFound(Seq<char>),
    HomeNotPresent,
    HomeUnreadable,
    Loaded(StartProxConfigView),
    FileMissing(Seq<char>),
    ForeignFailure(Seq<char>),
    BuildFailure(Seq<char>),
    ParseFailure(Seq<char>),
    Confirmed(bool),
    DefaultWritten,
    InstanceChosen(ConnectionConfigView),
    PortEntered(Seq<char>),
    PromptFailed(Seq<char>),
    ProxyExited,
}

impl View for Event {
    type V = EventView;

    open spec fn view(&self) -> EventView {
        match *self {
            Event::HomeFound(home) => EventView::HomeFound(home@),
            Event::HomeNotPresent => EventView::HomeNotPresent,
            Event::HomeUnreadable => EventView::HomeUnreadable,
            Event::Loaded(config) => EventView::Loaded(config@),
            Event::FileMissing(cause) => EventView::FileMissing(cause@),
            Event::ForeignFailure(cause) => EventView::ForeignFailure(cause@),
            Event::BuildFailure(cause) => EventView::BuildFailure(cause@),
            Event::ParseFailure(detail) => EventView::ParseFailure(detail@),
            Event::Confirmed(accepted) => EventView::Confirmed(accepted),
            Event::DefaultWritten => EventView::DefaultWritten,
            Event::InstanceChosen(entry) => EventView::InstanceChosen(entry@),
            Event::PortEntered(port) => EventView::PortEntered(port@),
            Event::PromptFailed(cause) => EventView::PromptFailed(cause@),
            Event::ProxyExited => EventView::ProxyExited,
        }
    }
}

/// Where the launcher stands.
#[derive(Debug, PartialEq, Eq)]
pub enum Stage {
    /// Nothing is known yet; the home directory is being looked up.
    Start,
    /// The settings file at `path` is being read.
    Loading { path: String },
    /// There is no file at `path`, and the user is asked whether to create one.
    Confirming { path: String, cause: String },
    /// The default file is being written to `path`.
    Writing { path: String },
    /// The user is choosing an instance.
    Selecting { proxy_exec_path: String },
    /// The user is asked for the port of `instance`.
    AskingPort { proxy_exec_path: String, instance: String, default_port: String },
    /// The proxy runs.
    Running,
    /// The launcher is over and leaves with `code`.
    Done { code: i32 },
}

/// A [`Stage`] over plain values.
pub enum StageView {
    Start,
    Loading { path: Seq<char> },
    Confirming { path: Seq<char>, cause: Seq<char> },
    Writing { path: Seq<char> },
    Selecting { proxy_exec_path: Seq<char> },
    AskingPort { proxy_exec_path: Seq<char>, instance: Seq<char>, default_port: Seq<char> },
    Running,
    Done { code: i32 },
}

impl View for Stage {
    type V = StageView;

    open spec fn view(&self) -> StageView {
        match *self {
            Stage::Start => StageView::Start,
            Stage::Loading { path } => StageView::Loading { path: path@ },
            Stage::Confirming { path, cause } => StageView::Confirming { path: path@, cause: cause@ },
            Stage::Writing { path } => StageView::Writing { path: path@ },
            Stage::Selecting { proxy_exec_path } => StageView::Selecting {
                proxy_exec_path: proxy_exec_path@,
            },
            Stage::AskingPort { proxy_exec_path, instance, default_port } => StageView::AskingPort {
                proxy_exec_path: proxy_exec_path@,
                instance: instance@,
                default_port: default_port@,
            },
            Stage::Running => StageView::Running,
            Stage::Done { code } => StageView::Done { code },
        }
    }
}

/// What the caller is to do next.
#[derive(Debug, PartialEq, Eq)]
pub enum Action {
    /// Read the settings file at `path`.
    Load { path: String },
    /// Print `notice`, then ask whether a default file is to be created, with
    /// `initial_answer` as the answer that is marked at first.
    ConfirmDefault { notice: Line, initial_answer: bool },
    /// Write `contents` to `path`, creating the directories above it.
    WriteDefault { path: String, contents: String },
    /// Print `notice`, then let the user choose among `options`.
    Select { notice: Line, options: Vec<ConnectionConfig> },
    /// Ask for a port, offering `default_port`; show `complaint` if there is one.
    AskPort { default_port: String, complaint: Option<String> },
    /// Start the executable at `path` with `args` and relay its streams.
    Run { path: String, args: Vec<String> },
    /// Print `message` if there is one, then leave with `code`.
    Exit { code: i32, message: Option<Line> },
    /// Nothing: the event was not one that the stage waits for.
    Nothing,
}

/// An [`Action`] over plain values.
pub enum ActionView {
    Load { path: Seq<char> },
    ConfirmDefault { notice: LineView, initial_answer: bool },
    WriteDefault { path: Seq<char>, contents: Seq<char> },
    Select { notice: LineView, options: Seq<ConnectionConfigView> },
    AskPort { default_port: Seq<char>, complaint: Option<Seq<char>> },
    Run { path: Seq<char>, args: Seq<Seq<char>> },
    Exit { code: i32, message: Option<LineView> },
    Nothing,
}

impl View for Action {
    type V = ActionView;

    open spec fn view(&self) -> ActionView {
        match *self {
            Action::Load { path } => ActionView::Load { path: path@ },
            Action::ConfirmDefault { notice, initial_answer } => ActionView::ConfirmDefault {
                notice: notice@,
                initial_answer,
            },
            Action::WriteDefault { path, contents } => ActionView::WriteDefault {
                path: path@,
                contents: contents@,
            },
            Action::Select { notice, options } => ActionView::Select {
                notice: notice@,
                options: entries_view(options@),
            },
            Action::AskPort { default_port, complaint } => ActionView::AskPort {
                default_port: default_port@,
                complaint: match complaint {
                    Some(text) => Some(text@),
                    None => None,
                },
            },
            Action::Run { path, args } => ActionView::Run { path: path@, args: texts(args@) },
            Action::Exit { code, message } => ActionView::Exit {
                code,
                message: match message {
                    Some(line) => Some(line@),
                    None => None,
                },
            },
            Action::Nothing => ActionView::Nothing,
        }
    }
}

/// The end of a run that failed: the stage and the action that says why.
pub open spec fn failure(notice: LineView) -> (StageView, ActionView) {
    (StageView::Done { code: 1 }, ActionView::Exit { code: 1, message: Some(notice) })
}

/// The machine: the stage that follows `stage` on `event`, and what is to be
/// done then. Every failure ends the run with code 1; so does a first run,
/// once the default file is written. Only the proxy's exit ends it with 0,
/// whatever the proxy's own status was. An event that the stage does not wait
/// for changes nothing.
pub open spec fn next(stage: StageView, event: EventView) -> (StageView, ActionView) {
    match (stage, event) {
        (StageView::Start, EventView::HomeFound(home)) => (
            StageView::Loading { path: config_path_of(home) },
            ActionView::Load { path: config_path_of(home) },
        ),
        (StageView::Start, EventView::HomeNotPresent) => failure(home_missing_line()),
        (StageView::Start, EventView::HomeUnreadable) => failure(home_unreadable_line()),
        (StageView::Loading { path }, EventView::Loaded(config)) => (
            StageView::Selecting { proxy_exec_path: config.proxy_exec_path },
            ActionView::Select { notice: loaded_line(path), options: config.defaults },
        ),
        (StageView::Loading { path }, EventView::FileMissing(cause)) => (
            StageView::Confirming { path, cause },
            ActionView::ConfirmDefault { notice: missing_file_line(path), initial_answer: true },
        ),
        (StageView::Loading { path }, EventView::ForeignFailure(cause)) => failure(
            io_failure_line(cause),
        ),
        (StageView::Loading { path }, EventView::BuildFailure(cause)) => failure(
            build_failure_line(cause),
        ),
        (StageView::Loading { path }, EventView::ParseFailure(detail)) => failure(
            parse_failure_line(detail),
        ),
        (StageView::Confirming { path, cause }, EventView::Confirmed(accepted)) => if accepted {
            (
                StageView::Writing { path },
                ActionView::WriteDefault { path, contents: default_config_text() },
            )
        } else {
            failure(io_failure_line(cause))
        },
        (StageView::Confirming { path, cause }, EventView::PromptFailed(reason)) => failure(
            prompt_failure_line(reason),
        ),
        (StageView::Writing { path }, EventView::DefaultWritten) => failure(created_line(path)),
        (StageView::Selecting { proxy_exec_path }, EventView::InstanceChosen(entry)) => (
            StageView::AskingPort {
                proxy_exec_path,
                instance: entry.instance,
                default_port: entry.port,
            },
            ActionView::AskPort { default_port: entry.port, complaint: None },
        ),
        (StageView::Selecting { proxy_exec_path }, EventView::PromptFailed(reason)) => failure(
            prompt_failure_line(reason),
        ),
        (
            StageView::AskingPort { proxy_exec_path, instance, default_port },
            EventView::PortEntered(port),
        ) => if port_accepted(port) {
            (
                StageView::Running,
                ActionView::Run { path: proxy_exec_path, args: proxy_args_of(instance, port) },
            )
        } else {
            (stage, ActionView::AskPort { default_port, complaint: Some(empty_port_complaint()) })
        },
        (
            StageView::AskingPort { proxy_exec_path, instance, default_port },
            EventView::PromptFailed(reason),
        ) => failure(prompt_failure_line(reason)),
        (StageView::Running, EventView::ProxyExited) => (
            StageView::Done { code: 0 },
            ActionView::Exit { code: 0, message: None },
        ),
        _ => (stage, ActionView::Nothing),
    }
}

/// Ends a failed run with `notice`.
fn fail(notice: Line) -> (out: (Stage, Action))
    ensures
        (out.0@, out.1@) == failure(notice@),
{
    (Stage::Done { code: 1 }, Action::Exit { code: 1, message: Some(notice) })
}

/// Takes the machine one step: from `stage`, on `event`, to the stage that
/// follows and the action that the caller is to perform.
pub fn step(stage: Stage, event: Event) -> (out: (Stage, Action))
    ensures
        (out.0@, out.1@) == next(stage@, event@),
{
    match (stage, event) {
        (Stage::Start, Event::HomeFound(home)) => {
            let path = config_path(home.as_str());
            let wanted = path.clone();
            (Stage::Loading { path }, Action::Load { path: wanted })
        },
        (Stage::Start, Event::HomeNotPresent) => fail(home_missing_notice()),
        (Stage::Start, Event::HomeUnreadable) => fail(home_unreadable_notice()),
        (Stage::Loading { path }, Event::Loaded(config)) => {
            let notice = loaded_notice(path.as_str());
            let StartProxConfig { proxy_exec_path, defaults } = config;
            (Stage::Selecting { proxy_exec_path }, Action::Select { notice, options: defaults })
        },
        (Stage::Loading { path }, Event::FileMissing(cause)) => {
            let notice = missing_file_notice(path.as_str());
            (
                Stage::Confirming { path, cause },
                Action::ConfirmDefault { notice, initial_answer: true },
            )
        },
        (Stage::Loading { path }, Event::ForeignFailure(cause)) => fail(
            io_failure_notice(cause.as_str()),
        ),
        (Stage::Loading { path }, Event::BuildFailure(cause)) => fail(
            build_failure_notice(cause.as_str()),
        ),
        (Stage::Loading { path }, Event::ParseFailure(detail)) => fail(parse_failure_notice(detail)),
        (Stage::Confirming { path, cause }, Event::Confirmed(accepted)) => {
            if accepted {
                let target = path.clone();
                let contents = default_config_contents().to_owned();
                (Stage::Writing { path }, Action::WriteDefault { path: target, contents })
            } else {
                fail(io_failure_notice(cause.as_str()))
            }
        },
        (Stage::Confirming { path, cause }, Event::PromptFailed(reason)) => fail(
            prompt_failure_notice(reason.as_str()),
        ),
        (Stage::Writing { path }, Event::DefaultWritten) => fail(created_notice(path.as_str())),
        (Stage::Selecting { proxy_exec_path }, Event::InstanceChosen(entry)) => {
            let ConnectionConfig { instance, port } = entry;
            let default_port = port.clone();
            (
                Stage::AskingPort { proxy_exec_path, instance, default_port },
                Action::AskPort { default_port: port, complaint: None },
            )
        },
        (Stage::Selecting { proxy_exec_path }, Event::PromptFailed(reason)) => fail(
            prompt_failure_notice(reason.as_str()),
        ),
        (Stage::AskingPort { proxy_exec_path, instance, default_port }, Event::PortEntered(port)) => {
            match validate_port(port.as_str()) {
                Ok(()) => {
                    let args = proxy_args(instance.as_str(), port.as_str());
                    (Stage::Running, Action::Run { path: proxy_exec_path, args })
                },
                Err(complaint) => {
                    let offered = default_port.clone();
                    (
                        Stage::AskingPort { proxy_exec_path, instance, default_port },
                        Action::AskPort {
                            default_port: offered,
                            complaint: Some(complaint.to_owned()),
                        },
                    )
                },
            }
        },
        (
            Stage::AskingPort { proxy_exec_path, instance, default_port },
            Event::PromptFailed(reason),
        ) => fail(prompt_failure_notice(reason.as_str())),
        (Stage::Running, Event::ProxyExited) => (
            Stage::Done { code: 0 },
            Action::Exit { code: 0, message: None },
        ),
        (stage, _) => (stage, Action::Nothing),
    }
}

} // verus!
