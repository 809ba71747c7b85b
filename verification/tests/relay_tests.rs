use startprox::relay::{forward_line, proxy_args, Line, Stream};

fn ok(text: &str) -> Result<String, String> {
    Ok(text.to_string())
}

fn failed(text: &str) -> Result<String, String> {
    Err(text.to_string())
}

#[test]
fn proxy_gets_instance_flag_and_port() {
    assert_eq!(
        proxy_args("p:r:i", "9000"),
        vec!["p:r:i".to_string(), "--port".to_string(), "9000".to_string()]
    );
}

#[test]
fn port_is_handed_on_unchecked() {
    assert_eq!(
        proxy_args("", "http"),
        vec![String::new(), "--port".to_string(), "http".to_string()]
    );
}

#[test]
fn output_lines_are_relayed_in_green_to_output() {
    let lines: Vec<Line> =
        [ok("line1"), ok("line2")].iter().map(|r| forward_line(Stream::Output, r)).collect();
    assert_eq!(
        lines,
        vec![
            Line { target: Stream::Output, text: "info: \u{1b}[32mline1\u{1b}[39m".to_string() },
            Line { target: Stream::Output, text: "info: \u{1b}[32mline2\u{1b}[39m".to_string() },
        ]
    );
}

#[test]
fn error_lines_are_relayed_in_yellow_to_the_error_stream() {
    assert_eq!(
        forward_line(Stream::Error, &ok("oops")),
        Line { target: Stream::Error, text: "stderr: \u{1b}[33moops\u{1b}[39m".to_string() }
    );
}

#[test]
fn failed_reads_are_reported_in_red_on_the_error_stream() {
    assert_eq!(
        forward_line(Stream::Output, &failed("broken pipe")),
        Line {
            target: Stream::Error,
            text: "error reading stdout: \u{1b}[31mbroken pipe\u{1b}[39m".to_string()
        }
    );
    assert_eq!(
        forward_line(Stream::Error, &failed("broken pipe")),
        Line {
            target: Stream::Error,
            text: "error reading stderr: \u{1b}[31mbroken pipe\u{1b}[39m".to_string()
        }
    );
}

#[test]
fn an_empty_line_is_still_relayed() {
    assert_eq!(
        forward_line(Stream::Output, &ok("")),
        Line { target: Stream::Output, text: "info: \u{1b}[32m\u{1b}[39m".to_string() }
    );
}
