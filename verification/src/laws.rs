//! What holds of the machine over whole runs.

use crate::flow::{next, ActionView, EventView, StageView};
use crate::prompt::{empty_port_complaint, port_accepted};
use crate::relay::proxy_args_of;
use crate::settings::{default_config_text, StartProxConfigView};
use vstd::prelude::*;

verus! {

/// The stage that is reached from `stage` when `events` are reported in turn.
pub open spec fn stage_after(stage: StageView, events: Seq<EventView>) -> StageView
    decreases events.len(),
{
    if events.len() == 0 {
        stage
    } else {
        next(stage_after(stage, events.drop_last()), events.last()).0
    }
}

/// The stages of a run that found no settings file: the offer of a default
/// file, its writing, and the end with code 1.
pub open spec fn first_run(stage: StageView) -> bool {
    match stage {
        StageView::Confirming { .. } => true,
        StageView::Writing { .. } => true,
        StageView::Done { code } => code == 1,
        _ => false,
    }
}

/// The actions that hand settings on: the choice of an instance, the question
/// for a port, and the proxy's start.
pub open spec fn uses_settings(action: ActionView) -> bool {
    action is Select || action is AskPort || action is Run
}

/// Settings that were read are handed on as they are: the executable's path
/// is kept and the user chooses among the file's entries, all of them and in
/// their order.
pub proof fn loaded_settings_are_kept(path: Seq<char>, config: StartProxConfigView)
    ensures
        next(StageView::Loading { path }, EventView::Loaded(config)).0 == (StageView::Selecting {
            proxy_exec_path: config.proxy_exec_path,
        }),
        next(StageView::Loading { path }, EventView::Loaded(config)).1 matches ActionView::Select {
            options,
            ..
        } && options == config.defaults && options.len() == config.defaults.len(),
{
}

/// In a run that found no settings file, whatever is reported, no action
/// hands settings on, nothing but the default document is ever written, and
/// the run can only end with code 1.
pub proof fn first_run_serves_no_settings(stage: StageView, event: EventView)
    requires
        first_run(stage),
    ensures
        first_run(next(stage, event).0),
        !uses_settings(next(stage, event).1),
        next(stage, event).1 matches ActionView::Exit { code, .. } ==> code == 1,
        next(stage, event).1 matches ActionView::WriteDefault { contents, .. } ==> contents
            == default_config_text(),
{
}

/// When the settings file is absent, no sequence of events brings the
/// launcher to a prompt for an instance or a port, or to the proxy: it stays
/// with the offer of a default file, or ends.
pub proof fn absent_file_never_reaches_prompts(
    path: Seq<char>,
    cause: Seq<char>,
    events: Seq<EventView>,
)
    ensures
        first_run(
            stage_after(
                next(StageView::Loading { path }, EventView::FileMissing(cause)).0,
                events,
            ),
        ),
    decreases events.len(),
{
    if events.len() > 0 {
        absent_file_never_reaches_prompts(path, cause, events.drop_last());
        let before = stage_after(
            next(StageView::Loading { path }, EventView::FileMissing(cause)).0,
            events.drop_last(),
        );
        first_run_serves_no_settings(before, events.last());
    }
}

/// While the default file is offered or written, no step of the run hands
/// settings on: none lets the user choose an instance or a port, and none
/// starts the proxy.
pub proof fn absent_file_hands_no_settings_on(
    path: Seq<char>,
    cause: Seq<char>,
    events: Seq<EventView>,
    i: int,
)
    requires
        0 <= i < events.len(),
    ensures
        !uses_settings(
            next(
                stage_after(
                    next(StageView::Loading { path }, EventView::FileMissing(cause)).0,
                    events.take(i),
                ),
                events[i],
            ).1,
        ),
{
    absent_file_never_reaches_prompts(path, cause, events.take(i));
    let before = stage_after(
        next(StageView::Loading { path }, EventView::FileMissing(cause)).0,
        events.take(i),
    );
    first_run_serves_no_settings(before, events[i]);
}

/// The document that an action writes, if it writes one.
pub open spec fn document_of(action: ActionView) -> Option<Seq<char>> {
    match action {
        ActionView::WriteDefault { contents, .. } => Some(contents),
        _ => None,
    }
}

/// The default document is the same for every path and on every occasion:
/// two accepted offers write the same text, whatever the paths and whatever
/// was said about the missing files.
pub proof fn default_document_is_fixed(
    path_a: Seq<char>,
    cause_a: Seq<char>,
    path_b: Seq<char>,
    cause_b: Seq<char>,
)
    ensures
        document_of(
            next(StageView::Confirming { path: path_a, cause: cause_a }, EventView::Confirmed(true)).1,
        ) == Some(default_config_text()),
        document_of(
            next(StageView::Confirming { path: path_a, cause: cause_a }, EventView::Confirmed(true)).1,
        ) == document_of(
            next(StageView::Confirming { path: path_b, cause: cause_b }, EventView::Confirmed(true)).1,
        ),
{
}

/// Whether every event of `events` is the submission of an empty port.
pub open spec fn all_empty_ports(events: Seq<EventView>) -> bool {
    forall|i: int| 0 <= i < events.len() ==> events[i] == EventView::PortEntered(Seq::<char>::empty())
}

/// An empty port is never taken: after any number of empty submissions the
/// launcher still asks for the port, each time with the complaint, and the
/// first port that is not empty starts the proxy with exactly that port.
pub proof fn port_is_asked_until_given(
    proxy_exec_path: Seq<char>,
    instance: Seq<char>,
    default_port: Seq<char>,
    empties: Seq<EventView>,
    port: Seq<char>,
)
    requires
        all_empty_ports(empties),
        port_accepted(port),
    ensures
        ({
            let asking = StageView::AskingPort { proxy_exec_path, instance, default_port };
            &&& stage_after(asking, empties) == asking
            &&& next(asking, EventView::PortEntered(Seq::<char>::empty())) == (
                asking,
                ActionView::AskPort { default_port, complaint: Some(empty_port_complaint()) },
            )
            &&& next(stage_after(asking, empties), EventView::PortEntered(port)) == (
                StageView::Running,
                ActionView::Run { path: proxy_exec_path, args: proxy_args_of(instance, port) },
            )
        }),
    decreases empties.len(),
{
    if empties.len() > 0 {
        port_is_asked_until_given(
            proxy_exec_path,
            instance,
            default_port,
            empties.drop_last(),
            port,
        );
        assert(empties.last() == EventView::PortEntered(Seq::<char>::empty()));
    }
}

/// The proxy's own status does not count: once it runs, its exit ends the
/// launcher with code 0.
pub proof fn proxy_exit_ends_with_zero()
    ensures
        next(StageView::Running, EventView::ProxyExited) == (
            StageView::Done { code: 0 },
            ActionView::Exit { code: 0, message: None },
        ),
{
}

} // verus!
