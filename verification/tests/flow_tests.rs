use startprox::flow::{step, Action, Event, Stage};
use startprox::relay::{Line, Stream};
use startprox::settings::{default_config_contents, ConnectionConfig, StartProxConfig};

fn entry(instance: &str, port: &str) -> ConnectionConfig {
    ConnectionConfig::new(instance.to_string(), port.to_string())
}

fn text(s: &str) -> String {
    s.to_string()
}

fn loading() -> Stage {
    Stage::Loading { path: text("/h/.config/startprox/config.yml") }
}

fn asking() -> Stage {
    Stage::AskingPort {
        proxy_exec_path: text("echo"),
        instance: text("p:r:i1"),
        default_port: text("5432"),
    }
}

fn exit_with(code: i32, target: Stream, line: &str) -> Action {
    Action::Exit { code, message: Some(Line { target, text: text(line) }) }
}

#[test]
fn home_leads_to_loading_the_file_below_it() {
    let (stage, action) = step(Stage::Start, Event::HomeFound(text("/h")));
    assert_eq!(stage, loading());
    assert_eq!(action, Action::Load { path: text("/h/.config/startprox/config.yml") });
}

#[test]
fn missing_home_ends_with_one() {
    let (stage, action) = step(Stage::Start, Event::HomeNotPresent);
    assert_eq!(stage, Stage::Done { code: 1 });
    assert_eq!(
        action,
        exit_with(1, Stream::Error, "\u{1b}[31mCould not find HOME env var\u{1b}[39m")
    );
    let (stage, action) = step(Stage::Start, Event::HomeUnreadable);
    assert_eq!(stage, Stage::Done { code: 1 });
    assert_eq!(action, exit_with(1, Stream::Error, "\u{1b}[31mFailed to load $HOME\u{1b}[39m"));
}

#[test]
fn loaded_settings_reach_the_choice_unchanged() {
    let entries = vec![entry("p:r:i1", "5432"), entry("p:r:i2", "3306")];
    let config = StartProxConfig::new(text("/opt/cloud-sql-proxy"), entries.clone());
    let (stage, action) = step(loading(), Event::Loaded(config));
    assert_eq!(stage, Stage::Selecting { proxy_exec_path: text("/opt/cloud-sql-proxy") });
    assert_eq!(
        action,
        Action::Select {
            notice: Line {
                target: Stream::Output,
                text: text(
                    "\u{1b}[32mSuccessfully loaded config from /h/.config/startprox/config.yml\u{1b}[39m"
                ),
            },
            options: entries,
        }
    );
}

#[test]
fn loaded_settings_without_entries_offer_none() {
    let config = StartProxConfig::new(text("proxy"), Vec::new());
    let (stage, action) = step(loading(), Event::Loaded(config));
    assert_eq!(stage, Stage::Selecting { proxy_exec_path: text("proxy") });
    match action {
        Action::Select { options, .. } => assert_eq!(options.len(), 0),
        other => panic!("unexpected action {:?}", other),
    }
}

#[test]
fn absent_file_is_offered_then_written_then_the_run_ends() {
    let (stage, action) = step(loading(), Event::FileMissing(text("not found")));
    assert_eq!(
        stage,
        Stage::Confirming { path: text("/h/.config/startprox/config.yml"), cause: text("not found") }
    );
    assert_eq!(
        action,
        Action::ConfirmDefault {
            notice: Line {
                target: Stream::Error,
                text: text(
                    "\u{1b}[31mCould not find config file: /h/.config/startprox/config.yml\u{1b}[39m"
                ),
            },
            initial_answer: true,
        }
    );
    let (stage, action) = step(stage, Event::Confirmed(true));
    assert_eq!(stage, Stage::Writing { path: text("/h/.config/startprox/config.yml") });
    assert_eq!(
        action,
        Action::WriteDefault {
            path: text("/h/.config/startprox/config.yml"),
            contents: text(default_config_contents()),
        }
    );
    let (stage, action) = step(stage, Event::DefaultWritten);
    assert_eq!(stage, Stage::Done { code: 1 });
    assert_eq!(
        action,
        exit_with(
            1,
            Stream::Output,
            "\u{1b}[32mCreated default config file at: /h/.config/startprox/config.yml\u{1b}[39m"
        )
    );
}

#[test]
fn declined_offer_ends_without_writing() {
    let (stage, _) = step(loading(), Event::FileMissing(text("not found")));
    let (stage, action) = step(stage, Event::Confirmed(false));
    assert_eq!(stage, Stage::Done { code: 1 });
    assert_eq!(
        action,
        exit_with(1, Stream::Error, "\u{1b}[31mio_error has occured: not found\u{1b}[39m")
    );
}

#[test]
fn absent_file_never_leads_to_a_choice() {
    let (mut stage, _) = step(loading(), Event::FileMissing(text("not found")));
    let config = StartProxConfig::new(text("proxy"), vec![entry("a", "1")]);
    let events = vec![
        Event::Loaded(config),
        Event::InstanceChosen(entry("a", "1")),
        Event::PortEntered(text("1")),
        Event::ProxyExited,
        Event::HomeFound(text("/h")),
    ];
    for event in events {
        let (then, action) = step(stage, event);
        assert_eq!(action, Action::Nothing);
        assert!(matches!(then, Stage::Confirming { .. }));
        stage = then;
    }
}

#[test]
fn other_load_failures_end_with_one() {
    let (stage, action) = step(loading(), Event::ForeignFailure(text("denied")));
    assert_eq!(stage, Stage::Done { code: 1 });
    assert_eq!(
        action,
        exit_with(1, Stream::Error, "\u{1b}[31mio_error has occured: denied\u{1b}[39m")
    );
    let (stage, action) = step(loading(), Event::BuildFailure(text("bad source")));
    assert_eq!(stage, Stage::Done { code: 1 });
    assert_eq!(action, exit_with(1, Stream::Error, "Config Error: bad source"));
    let (stage, action) = step(loading(), Event::ParseFailure(text("missing field `defaults`")));
    assert_eq!(stage, Stage::Done { code: 1 });
    assert_eq!(
        action,
        exit_with(
            1,
            Stream::Error,
            "load_config error: ParseConfigError(missing field `defaults`)"
        )
    );
}

#[test]
fn chosen_instance_is_kept_and_its_port_offered() {
    let (stage, action) = step(
        Stage::Selecting { proxy_exec_path: text("echo") },
        Event::InstanceChosen(entry("p:r:i1", "5432")),
    );
    assert_eq!(stage, asking());
    assert_eq!(action, Action::AskPort { default_port: text("5432"), complaint: None });
}

#[test]
fn empty_port_is_asked_again_until_one_is_given() {
    let (stage, action) = step(asking(), Event::PortEntered(String::new()));
    assert_eq!(stage, asking());
    assert_eq!(
        action,
        Action::AskPort {
            default_port: text("5432"),
            complaint: Some(text("Port cannot be empty")),
        }
    );
    let (stage, action) = step(stage, Event::PortEntered(text("5433")));
    assert_eq!(stage, Stage::Running);
    assert_eq!(
        action,
        Action::Run {
            path: text("echo"),
            args: vec![text("p:r:i1"), text("--port"), text("5433")],
        }
    );
}

#[test]
fn launch_hands_over_exactly_three_arguments() {
    let stage = Stage::AskingPort {
        proxy_exec_path: text("echo"),
        instance: text("p:r:i"),
        default_port: text("5432"),
    };
    let (_, action) = step(stage, Event::PortEntered(text("9000")));
    assert_eq!(
        action,
        Action::Run { path: text("echo"), args: vec![text("p:r:i"), text("--port"), text("9000")] }
    );
}

#[test]
fn failed_prompts_end_with_one() {
    let expected = exit_with(1, Stream::Error, "should receive user input: interrupted");
    let (stage, action) = step(
        Stage::Selecting { proxy_exec_path: text("echo") },
        Event::PromptFailed(text("interrupted")),
    );
    assert_eq!(stage, Stage::Done { code: 1 });
    assert_eq!(action, expected);
    let (stage, action) = step(asking(), Event::PromptFailed(text("interrupted")));
    assert_eq!(stage, Stage::Done { code: 1 });
    assert_eq!(action, expected);
    let confirming = Stage::Confirming { path: text("/p"), cause: text("c") };
    let (stage, action) = step(confirming, Event::PromptFailed(text("interrupted")));
    assert_eq!(stage, Stage::Done { code: 1 });
    assert_eq!(action, expected);
}

#[test]
fn proxy_exit_ends_with_zero() {
    let (stage, action) = step(Stage::Running, Event::ProxyExited);
    assert_eq!(stage, Stage::Done { code: 0 });
    assert_eq!(action, Action::Exit { code: 0, message: None });
}

#[test]
fn unexpected_events_change_nothing() {
    let (stage, action) = step(Stage::Start, Event::ProxyExited);
    assert_eq!(stage, Stage::Start);
    assert_eq!(action, Action::Nothing);
    let (stage, action) = step(Stage::Done { code: 1 }, Event::HomeFound(text("/h")));
    assert_eq!(stage, Stage::Done { code: 1 });
    assert_eq!(action, Action::Nothing);
    let (stage, action) = step(Stage::Running, Event::PortEntered(text("1")));
    assert_eq!(stage, Stage::Running);
    assert_eq!(action, Action::Nothing);
}
