//! The lines by which the launcher reports on its settings and its prompts.

use crate::paint::{green, green_code, painted, red, red_code};
use crate::relay::{Line, LineView, Stream};
use crate::settings::{error_text, MyConfigError};
use vstd::prelude::*;

verus! {

/// A line for the console's error stream.
pub open spec fn error_line(text: Seq<char>) -> LineView {
    LineView { target: Stream::Error, text }
}

/// A line for the console's output.
pub open spec fn output_line(text: Seq<char>) -> LineView {
    LineView { target: Stream::Output, text }
}

/// Said when the environment names no home directory.
pub open spec fn home_missing_line() -> LineView {
    error_line(painted(red_code(), "Could not find HOME env var"@))
}

/// Said when the home directory's name cannot be read as text.
pub open spec fn home_unreadable_line() -> LineView {
    error_line(painted(red_code(), "Failed to load $HOME"@))
}

/// Said when there is no settings file at `path`.
pub open spec fn missing_file_line(path: Seq<char>) -> LineView {
    error_line(painted(red_code(), "Could not find config file: "@ + path))
}

/// Said when reading the settings file failed for the reason `cause`.
pub open spec fn io_failure_line(cause: Seq<char>) -> LineView {
    error_line(painted(red_code(), "io_error has occured: "@ + cause))
}

/// Said when the settings could not be put together for the reason `cause`.
pub open spec fn build_failure_line(cause: Seq<char>) -> LineView {
    error_line("Config Error: "@ + cause)
}

/// Said when the file is no settings document; `detail` is the parser's diagnostics.
pub open spec fn parse_failure_line(detail: Seq<char>) -> LineView {
    error_line("load_config error: ParseConfigError("@ + detail + ")"@)
}

/// Said when the settings were read from `path`.
pub open spec fn loaded_line(path: Seq<char>) -> LineView {
    output_line(painted(green_code(), "Successfully loaded config from "@ + path))
}

/// Said when the default settings file was written to `path`.
pub open spec fn created_line(path: Seq<char>) -> LineView {
    output_line(painted(green_code(), "Created default config file at: "@ + path))
}

/// Said when a prompt ended without an answer for the reason `cause`.
pub open spec fn prompt_failure_line(cause: Seq<char>) -> LineView {
    error_line("should receive user input: "@ + cause)
}

/// `lead` followed by `rest`, in red, for the error stream.
fn red_error(lead: &str, rest: &str) -> (line: Line)
    ensures
        line@ == error_line(painted(red_code(), lead@ + rest@)),
{
    let text = lead.to_owned().concat(rest);
    Line { target: Stream::Error, text: red(text.as_str()) }
}

/// `lead` followed by `rest`, in green, for the output.
fn green_output(lead: &str, rest: &str) -> (line: Line)
    ensures
        line@ == output_line(painted(green_code(), lead@ + rest@)),
{
    let text = lead.to_owned().concat(rest);
    Line { target: Stream::Output, text: green(text.as_str()) }
}

/// `lead` followed by `rest`, uncoloured, for the error stream.
fn plain_error(lead: &str, rest: &str) -> (line: Line)
    ensures
        line@ == error_line(lead@ + rest@),
{
    Line { target: Stream::Error, text: lead.to_owned().concat(rest) }
}

/// The line for a missing home directory.
pub fn home_missing_notice() -> (line: Line)
    ensures
        line@ == home_missing_line(),
{
    let line = red_error("Could not find HOME env var", "");
    assert("Could not find HOME env var"@ + ""@ =~= "Could not find HOME env var"@) by {
        reveal_strlit("");
    }
    line
}

/// The line for a home directory whose name is no text.
pub fn home_unreadable_notice() -> (line: Line)
    ensures
        line@ == home_unreadable_line(),
{
    let line = red_error("Failed to load $HOME", "");
    assert("Failed to load $HOME"@ + ""@ =~= "Failed to load $HOME"@) by {
        reveal_strlit("");
    }
    line
}

/// The line for a settings file that does not exist.
pub fn missing_file_notice(path: &str) -> (line: Line)
    ensures
        line@ == missing_file_line(path@),
{
    red_error("Could not find config file: ", path)
}

/// The line for a failure to read the settings file.
pub fn io_failure_notice(cause: &str) -> (line: Line)
    ensures
        line@ == io_failure_line(cause@),
{
    red_error("io_error has occured: ", cause)
}

/// The line for settings that could not be put together.
pub fn build_failure_notice(cause: &str) -> (line: Line)
    ensures
        line@ == build_failure_line(cause@),
{
    plain_error("Config Error: ", cause)
}

/// The line for a file that is no settings document: the error's own text
/// after the name of the step that failed.
pub fn parse_failure_notice(detail: String) -> (line: Line)
    ensures
        line@ == parse_failure_line(detail@),
        line@.text == "load_config error: "@ + error_text(MyConfigError::ParseConfigError(detail)),
{
    let error = MyConfigError::ParseConfigError(detail);
    let text = error.describe();
    let line = plain_error("load_config error: ", text.as_str());
    assert(line@.text =~= "load_config error: ParseConfigError("@ + detail@ + ")"@) by {
        reveal_strlit("load_config error: ");
        reveal_strlit("ParseConfigError(");
        reveal_strlit("load_config error: ParseConfigError(");
    }
    line
}

/// The line for settings that were read.
pub fn loaded_notice(path: &str) -> (line: Line)
    ensures
        line@ == loaded_line(path@),
{
    green_output("Successfully loaded config from ", path)
}

/// The line for a default settings file that was written.
pub fn created_notice(path: &str) -> (line: Line)
    ensures
        line@ == created_line(path@),
{
    green_output("Created default config file at: ", path)
}

/// The line for a prompt that ended without an answer.
pub fn prompt_failure_notice(cause: &str) -> (line: Line)
    ensures
        line@ == prompt_failure_line(cause@),
{
    plain_error("should receive user input: ", cause)
}

} // verus!
