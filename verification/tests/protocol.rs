use kdotool::protocol::{
    decode_line, decode_log_line, encode_line, forward_log, Channel, Line, Output, HOST_PREFIX,
};

fn samples() -> Vec<Line> {
    vec![
        Line::Start,
        Line::Debug("STEP search firefox".to_string()),
        Line::Error("Invalid window stack selection '7' (out of range)".to_string()),
        Line::Result("{8d6a1e5f-0b1c-4a55-9c0e-1b2f3a4d5e6f}".to_string()),
        Line::Result(String::new()),
        Line::Result("  Position: 10,20".to_string()),
        Line::Result("RESULT x".to_string()),
        Line::Debug("Füße".to_string()),
        Line::Finish,
    ]
}

#[test]
fn channel_tags() {
    assert_eq!(Channel::Start.tag(), "START");
    assert_eq!(Channel::Debug.tag(), "DEBUG");
    assert_eq!(Channel::Error.tag(), "ERROR");
    assert_eq!(Channel::Result.tag(), "RESULT");
    assert_eq!(Channel::Finish.tag(), "FINISH");
}

#[test]
fn channel_of_each_line() {
    assert_eq!(Line::Start.channel(), Channel::Start);
    assert_eq!(Line::Debug("d".to_string()).channel(), Channel::Debug);
    assert_eq!(Line::Error("e".to_string()).channel(), Channel::Error);
    assert_eq!(Line::Result("r".to_string()).channel(), Channel::Result);
    assert_eq!(Line::Finish.channel(), Channel::Finish);
}

#[test]
fn lines_as_written() {
    assert_eq!(encode_line("kdotool-Ab3x", &Line::Start), "kdotool-Ab3x START");
    assert_eq!(encode_line("kdotool-Ab3x", &Line::Finish), "kdotool-Ab3x FINISH");
    assert_eq!(
        encode_line("kdotool-Ab3x", &Line::Result("Firefox".to_string())),
        "kdotool-Ab3x RESULT Firefox"
    );
    assert_eq!(
        encode_line("kdotool-Ab3x", &Line::Error("bad".to_string())),
        "kdotool-Ab3x ERROR bad"
    );
    assert_eq!(
        encode_line("kdotool-Ab3x", &Line::Debug("STEP x".to_string())),
        "kdotool-Ab3x DEBUG STEP x"
    );
    assert_eq!(encode_line("m", &Line::Result(String::new())), "m RESULT ");
}

#[test]
fn every_line_begins_with_the_marker_and_a_channel() {
    for marker in ["kdotool-Ab3x", "m", "", "two words"] {
        for line in samples() {
            let text = encode_line(marker, &line);
            let head = format!("{} {}", marker, line.channel().tag());
            assert!(text.starts_with(marker));
            assert!(text.starts_with(&head));
        }
    }
}

#[test]
fn what_is_written_is_read_back() {
    for marker in ["kdotool-Ab3x", "m", ""] {
        for line in samples() {
            assert_eq!(decode_line(&encode_line(marker, &line), marker), Some(line));
        }
    }
}

#[test]
fn log_lines_carry_the_host_prefix() {
    assert_eq!(HOST_PREFIX, "js: ");
    for line in samples() {
        let entry = format!("js: {}", encode_line("kdotool-Ab3x", &line));
        assert_eq!(decode_log_line(&entry, "kdotool-Ab3x"), Some(line.clone()));
        assert_eq!(decode_line(&entry, "kdotool-Ab3x"), None);
        assert_eq!(decode_log_line(&encode_line("kdotool-Ab3x", &line), "kdotool-Ab3x"), None);
    }
}

#[test]
fn result_and_error_payloads_are_verbatim() {
    assert_eq!(
        decode_log_line("js: kdotool-Ab3x RESULT   two  spaces ", "kdotool-Ab3x"),
        Some(Line::Result("  two  spaces ".to_string()))
    );
    assert_eq!(
        decode_log_line("js: kdotool-Ab3x ERROR Invalid window stack selection '3' (out of range)", "kdotool-Ab3x"),
        Some(Line::Error("Invalid window stack selection '3' (out of range)".to_string()))
    );
}

#[test]
fn lines_of_another_run_are_not_read() {
    assert_eq!(decode_log_line("js: kdotool-Zz9 RESULT x", "kdotool-Ab3x"), None);
    assert_eq!(decode_log_line("js: kdotool-Ab3xx RESULT x", "kdotool-Ab3x"), None);
    assert_eq!(decode_log_line("js: kdotool-Ab3 RESULT x", "kdotool-Ab3x"), None);
    assert_eq!(decode_log_line("kwin: kdotool-Ab3x RESULT x", "kdotool-Ab3x"), None);
    assert_eq!(decode_log_line("", "kdotool-Ab3x"), None);
    assert_eq!(decode_log_line("js: ", "kdotool-Ab3x"), None);
    assert_eq!(decode_log_line("js: kdotool-Ab3x", "kdotool-Ab3x"), None);
    assert_eq!(decode_log_line("js: kdotool-Ab3x ", "kdotool-Ab3x"), None);
}

#[test]
fn only_the_five_channels_are_read() {
    assert_eq!(decode_line("m WARN x", "m"), None);
    assert_eq!(decode_line("m result x", "m"), None);
    assert_eq!(decode_line("m RESULTS x", "m"), None);
    assert_eq!(decode_line("m RESULT", "m"), None);
    assert_eq!(decode_line("m ERROR", "m"), None);
    assert_eq!(decode_line("m DEBUG", "m"), None);
    assert_eq!(decode_line("m START now", "m"), None);
    assert_eq!(decode_line("m START ", "m"), None);
    assert_eq!(decode_line("m FINISHED", "m"), None);
    assert_eq!(decode_line("m  RESULT x", "m"), None);
    assert_eq!(decode_line("m START", "m"), Some(Line::Start));
    assert_eq!(decode_line("m FINISH", "m"), Some(Line::Finish));
    assert_eq!(decode_line("m ERROR ", "m"), Some(Line::Error(String::new())));
}

#[test]
fn results_and_errors_are_forwarded_in_order() {
    let log: Vec<String> = [
        "kwin_wayland: something else",
        "js: kdotool-Ab3x START",
        "js: kdotool-Ab3x DEBUG STEP search firefox",
        "js: kdotool-Zz9 RESULT from another run",
        "js: kdotool-Ab3x RESULT {1}",
        "js: kdotool-Ab3x ERROR Invalid window stack selection '9' (out of range)",
        "js: kdotool-Ab3x RESULT Window {1}",
        "js: kdotool-Ab3x RESULT   Position: 1,2",
        "kdotool-Ab3x RESULT without the host prefix",
        "js: kdotool-Ab3x RESULT ",
        "js: kdotool-Ab3x FINISH",
    ]
    .iter()
    .map(|entry| entry.to_string())
    .collect();
    assert_eq!(
        forward_log(&log, "kdotool-Ab3x"),
        vec![
            Output::Stdout("{1}".to_string()),
            Output::Stderr("Invalid window stack selection '9' (out of range)".to_string()),
            Output::Stdout("Window {1}".to_string()),
            Output::Stdout("  Position: 1,2".to_string()),
            Output::Stdout(String::new()),
        ]
    );
}

#[test]
fn nothing_is_forwarded_of_an_empty_log() {
    assert_eq!(forward_log(&vec![], "kdotool-Ab3x"), vec![]);
    assert_eq!(forward_log(&vec![String::new(), "js: ".to_string()], "kdotool-Ab3x"), vec![]);
}
