//! How the proxy is started and how what it writes is passed on to the console.

use crate::paint::{green, green_code, painted, red, red_code, yellow, yellow_code};
use vstd::prelude::*;

verus! {

/// One of the two standard streams, of the proxy or of the console.
#[derive(Debug, Clone, Copy, PartialEq, Eq, Structural)]
pub enum Stream {
    Output,
    Error,
}

/// A line for the console and the stream it is written to.
#[derive(Debug, PartialEq, Eq)]
pub struct Line {
    pub target: Stream,
    pub text: String,
}

/// What a [`Line`] holds, as plain values.
pub struct LineView {
    pub target: Stream,
    pub text: Seq<char>,
}

impl View for Line {
    type V = LineView;

    open spec fn view(&self) -> LineView {
        LineView { target: self.target, text: self.text@ }
    }
}

/// The views of a list of texts, in the list's order.
pub open spec fn texts(list: Seq<String>) -> Seq<Seq<char>> {
    list.map_values(|s: String| s@)
}

/// The flag that announces the port to the proxy.
pub open spec fn port_flag() -> Seq<char> {
    "--port"@
}

/// The proxy's arguments: the instance, the port flag, the port.
pub open spec fn proxy_args_of(instance: Seq<char>, port: Seq<char>) -> Seq<Seq<char>> {
    seq![instance, port_flag(), port]
}

/// The arguments with which the proxy is started for an instance and a port.
/// Neither text is inspected: the port is handed on even if it is no number.
pub fn proxy_args(instance: &str, port: &str) -> (args: Vec<String>)
    ensures
        texts(args@) == proxy_args_of(instance@, port@),
{
    let mut args: Vec<String> = Vec::new();
    args.push(instance.to_owned());
    args.push("--port".to_owned());
    args.push(port.to_owned());
    assert(texts(args@) =~= proxy_args_of(instance@, port@));
    args
}

/// What one attempt to read a line from a stream gave: the line without its
/// line end, or the text of the failure.
pub open spec fn relayed(source: Stream, read: Result<Seq<char>, Seq<char>>) -> LineView {
    match (source, read) {
        (Stream::Output, Ok(line)) => LineView {
            target: Stream::Output,
            text: "info: "@ + painted(green_code(), line),
        },
        (Stream::Output, Err(failure)) => LineView {
            target: Stream::Error,
            text: "error reading stdout: "@ + painted(red_code(), failure),
        },
        (Stream::Error, Ok(line)) => LineView {
            target: Stream::Error,
            text: "stderr: "@ + painted(yellow_code(), line),
        },
        (Stream::Error, Err(failure)) => LineView {
            target: Stream::Error,
            text: "error reading stderr: "@ + painted(red_code(), failure),
        },
    }
}

/// The plain value of a read.
pub open spec fn read_view(read: Result<String, String>) -> Result<Seq<char>, Seq<char>> {
    match read {
        Ok(line) => Ok(line@),
        Err(failure) => Err(failure@),
    }
}

/// The console line for one read from the proxy's stream `source`. A line of
/// its output goes to the console's output in green after `info: `, a line of
/// its error stream to the console's error stream in yellow after `stderr: `;
/// a failed read is reported on the error stream in red, naming the stream.
pub fn forward_line(source: Stream, read: &Result<String, String>) -> (line: Line)
    ensures
        line@ == relayed(source, read_view(*read)),
{
    match source {
        Stream::Output => match read {
            Ok(text) => Line {
                target: Stream::Output,
                text: "info: ".to_owned().concat(green(text.as_str()).as_str()),
            },
            Err(failure) => Line {
                target: Stream::Error,
                text: "error reading stdout: ".to_owned().concat(red(failure.as_str()).as_str()),
            },
        },
        Stream::Error => match read {
            Ok(text) => Line {
                target: Stream::Error,
                text: "stderr: ".to_owned().concat(yellow(text.as_str()).as_str()),
            },
            Err(failure) => Line {
                target: Stream::Error,
                text: "error reading stderr: ".to_owned().concat(red(failure.as_str()).as_str()),
            },
        },
    }
}

} // verus!
