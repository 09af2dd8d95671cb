use terminal_core::classify::{classify_line, join_progress, ClassifiedLine};
use terminal_core::output::Channel;
use terminal_core::pattern::{
    LinePatterns, ANSI_ESCAPE_PATTERN, PROGRESS_PATTERN, STATUS_PATTERN,
};
use terminal_core::reassemble::LineReassembler;
use terminal_core::stream::{read_error, to_stream_outputs, ChannelReader, ReadEvent};

fn line(content: &str, replace_last: bool) -> ClassifiedLine {
    ClassifiedLine { content: content.to_string(), replace_last }
}

fn strings(items: &[&str]) -> Vec<String> {
    items.iter().map(|s| s.to_string()).collect()
}

#[test]
fn builtin_patterns_compile() {
    let p = LinePatterns::builtin();
    assert!(p.is_some());
}

#[test]
fn invalid_pattern_is_refused() {
    assert!(LinePatterns::new("(", PROGRESS_PATTERN, STATUS_PATTERN).is_none());
    assert!(LinePatterns::new(ANSI_ESCAPE_PATTERN, "[", STATUS_PATTERN).is_none());
    assert!(LinePatterns::new(ANSI_ESCAPE_PATTERN, PROGRESS_PATTERN, "(?P<n>").is_none());
    assert!(LinePatterns::new(ANSI_ESCAPE_PATTERN, PROGRESS_PATTERN, "a+").is_some());
}

#[test]
fn escapes_are_stripped() {
    let p = LinePatterns::builtin().unwrap();
    assert_eq!(p.strip_escapes("\u{1b}[31mred\u{1b}[0m"), "red");
    assert_eq!(p.strip_escapes("\u{1b}[2K\u{1b}[1Gdone"), "done");
    assert_eq!(p.strip_escapes("\u{9b}1mx"), "x");
    assert_eq!(p.strip_escapes("plain"), "plain");
    assert_eq!(p.strip_escapes(""), "");
}

#[test]
fn progress_tokens_are_found_in_order() {
    let p = LinePatterns::builtin().unwrap();
    assert_eq!(
        p.progress_tokens("pulling 12%  1.2 MB/3.4 GB  5.6 MB/s"),
        strings(&["12%", "1.2 MB/3.4 GB", "5.6 MB/s"])
    );
    assert_eq!(p.progress_tokens("100%"), strings(&["100%"]));
    assert_eq!(p.progress_tokens("nothing here"), Vec::<String>::new());
    assert_eq!(p.progress_tokens("10 TB/s"), Vec::<String>::new());
}

#[test]
fn status_token_is_the_first_announcement() {
    let p = LinePatterns::builtin().unwrap();
    assert_eq!(p.status_token("pulling manifest... "), Some("pulling manifest...".to_string()));
    assert_eq!(
        p.status_token("x pulling 0123456789ab... pulling manifest..."),
        Some("pulling 0123456789ab...".to_string())
    );
    assert_eq!(p.status_token("pulling 0123..."), None);
    assert_eq!(p.status_token("pushing manifest..."), None);
}

#[test]
fn join_progress_follows_each_token_with_a_space() {
    assert_eq!(join_progress(&strings(&["12%", "1 MB/s"])), "12% 1 MB/s ");
    assert_eq!(join_progress(&strings(&["5%"])), "5% ");
    assert_eq!(join_progress(&Vec::new()), "");
}

#[test]
fn ordinary_line_is_shown_as_it_is() {
    let mut last = String::new();
    let out = classify_line(false, "50% done", &strings(&["50%"]), &None, &mut last);
    assert_eq!(out, vec![line("50% done", false)]);
    assert_eq!(last, "");
    let out = classify_line(false, "   ", &Vec::new(), &None, &mut last);
    assert_eq!(out, vec![line("   ", false)]);
}

#[test]
fn progress_line_overwrites() {
    let mut last = String::new();
    let out = classify_line(true, "x 10% y 1 MB/s", &strings(&["10%", "1 MB/s"]), &None, &mut last);
    assert_eq!(out, vec![line("10% 1 MB/s ", true)]);
    assert_eq!(last, "");
}

#[test]
fn status_is_announced_when_it_changes() {
    let mut last = String::new();
    let status = Some("pulling manifest...".to_string());
    let out = classify_line(true, "pulling manifest...", &Vec::new(), &status, &mut last);
    assert_eq!(out, vec![line("pulling manifest...", false)]);
    assert_eq!(last, "pulling manifest...");
    let out = classify_line(true, "pulling manifest...", &Vec::new(), &status, &mut last);
    assert_eq!(out, Vec::new());
    assert_eq!(last, "pulling manifest...");
    let next = Some("pulling 0123456789ab...".to_string());
    let out = classify_line(true, "pulling 0123456789ab...", &Vec::new(), &next, &mut last);
    assert_eq!(out, vec![line("pulling 0123456789ab...", false)]);
    assert_eq!(last, "pulling 0123456789ab...");
}

#[test]
fn status_and_progress_of_one_line_are_both_shown() {
    let mut last = String::new();
    let status = Some("pulling manifest...".to_string());
    let out = classify_line(true, "pulling manifest... 3%", &strings(&["3%"]), &status, &mut last);
    assert_eq!(out, vec![line("pulling manifest...", false), line("3% ", true)]);
    let out = classify_line(true, "pulling manifest... 4%", &strings(&["4%"]), &status, &mut last);
    assert_eq!(out, vec![line("4% ", true)]);
}

#[test]
fn blank_and_empty_status_lines_of_downloads_are_dropped() {
    let mut last = "s".to_string();
    assert_eq!(classify_line(true, " \t ", &Vec::new(), &None, &mut last), Vec::new());
    let empty = Some(String::new());
    assert_eq!(classify_line(true, "text", &Vec::new(), &empty, &mut last), Vec::new());
    assert_eq!(last, "s");
    assert_eq!(
        classify_line(true, "text", &Vec::new(), &None, &mut last),
        vec![line("text", false)]
    );
}

#[test]
fn complete_lines_come_out_in_order() {
    let p = LinePatterns::builtin().unwrap();
    let mut r = LineReassembler::new(false);
    let out = r.feed(&p, b"one\ntwo\rthree\n");
    assert_eq!(out, vec![line("one", false), line("two", false), line("three", false)]);
    assert_eq!(r.pending(), "");
    assert!(!r.is_download());
}

#[test]
fn empty_lines_yield_nothing() {
    let p = LinePatterns::builtin().unwrap();
    let mut r = LineReassembler::new(false);
    assert_eq!(r.feed(&p, b"\n\r\n\na\r\n\r\n"), vec![line("a", false)]);
    assert_eq!(r.feed(&p, b""), Vec::new());
}

#[test]
fn partial_line_waits_for_its_end() {
    let p = LinePatterns::builtin().unwrap();
    let mut r = LineReassembler::new(false);
    assert_eq!(r.feed(&p, b"hel"), Vec::new());
    assert_eq!(r.pending(), "hel");
    assert_eq!(r.feed(&p, b"lo\nwor"), vec![line("hello", false)]);
    assert_eq!(r.pending(), "wor");
    assert_eq!(r.finish(&p), vec![line("wor", false)]);
    assert_eq!(r.pending(), "");
    assert_eq!(r.finish(&p), Vec::new());
}

#[test]
fn chunk_boundaries_make_no_difference() {
    let p = LinePatterns::builtin().unwrap();
    let text = "alpha\nbeta\r\ngamma\ndelta";
    let mut whole = LineReassembler::new(false);
    let mut expected = whole.feed_text(&p, text);
    expected.extend(whole.finish(&p));
    for cut in 0..=text.len() {
        let mut r = LineReassembler::new(false);
        let mut got = r.feed_text(&p, &text[..cut]);
        got.extend(r.feed_text(&p, &text[cut..]));
        got.extend(r.finish(&p));
        assert_eq!(got, expected);
    }
    assert_eq!(
        expected,
        vec![line("alpha", false), line("beta", false), line("gamma", false), line("delta", false)]
    );
}

#[test]
fn feed_strips_escapes_and_decodes() {
    let p = LinePatterns::builtin().unwrap();
    let mut r = LineReassembler::new(false);
    let out = r.feed(&p, b"\x1b[32mok\x1b[0m\nbad\xffbyte\n");
    assert_eq!(out, vec![line("ok", false), line("bad\u{fffd}byte", false)]);
}

#[test]
fn download_stream_collapses_progress() {
    let p = LinePatterns::builtin().unwrap();
    let mut r = LineReassembler::new(true);
    assert!(r.is_download());
    let out = r.feed(
        &p,
        b"pulling manifest...\rpulling 0123456789ab... 10% 1.0 MB/10 MB\rpulling 0123456789ab... 20% 2.0 MB/10 MB\r   \rverifying\n",
    );
    assert_eq!(
        out,
        vec![
            line("pulling manifest...", false),
            line("pulling 0123456789ab...", false),
            line("10% 1.0 MB/10 MB ", true),
            line("20% 2.0 MB/10 MB ", true),
            line("verifying", false),
        ]
    );
}

#[test]
fn repeated_progress_keeps_the_replace_flag() {
    let p = LinePatterns::builtin().unwrap();
    let mut r = LineReassembler::new(true);
    let out = r.feed(&p, b"50%\r50%\r50%\n");
    assert_eq!(out, vec![line("50% ", true), line("50% ", true), line("50% ", true)]);
}

#[test]
fn flush_at_the_end_is_classified_too() {
    let p = LinePatterns::builtin().unwrap();
    let mut r = LineReassembler::new(true);
    assert_eq!(r.feed(&p, b"99% 3 KB/s"), Vec::new());
    assert_eq!(r.finish(&p), vec![line("99% 3 KB/s ", true)]);
}

#[test]
fn outputs_are_tagged() {
    let lines = vec![line("a", false), line("7% ", true)];
    let out = to_stream_outputs(&lines, Channel::Stderr, "~/w", "t3");
    assert_eq!(out.len(), 2);
    assert_eq!(out[0].content, "a");
    assert_eq!(out[0].output_type, "stderr");
    assert_eq!(out[0].current_dir, "~/w");
    assert!(!out[0].should_replace_last);
    assert_eq!(out[0].terminalId, "t3");
    assert_eq!(out[1].content, "7% ");
    assert!(out[1].should_replace_last);
    assert_eq!(Channel::Stdout.name(), "stdout");
    assert_eq!(Channel::Stderr.name(), "stderr");
}

#[test]
fn read_error_is_reported_as_error_output() {
    let e = read_error(Channel::Stdout, "broken pipe", "~", "t1");
    assert_eq!(e.content, "Error reading stdout: broken pipe");
    assert_eq!(e.output_type, "stderr");
    assert_eq!(e.current_dir, "~");
    assert!(!e.should_replace_last);
    assert_eq!(e.terminalId, "t1");
    let e = read_error(Channel::Stderr, "x", "~", "t1");
    assert_eq!(e.content, "Error reading stderr: x");
    assert_eq!(e.output_type, "stderr");
}

#[test]
fn echo_a_echo_b_streams_two_lines_then_completes() {
    let p = LinePatterns::builtin().unwrap();
    let mut stdout = ChannelReader::new(Channel::Stdout, false, "~".to_string(), "t1".to_string());
    let mut stderr = ChannelReader::new(Channel::Stderr, false, "~".to_string(), "t1".to_string());
    let mut events = stdout.on_read(&p, &ReadEvent::Data(b"a\nb\n".to_vec()));
    events.extend(stdout.on_read(&p, &ReadEvent::End));
    assert_eq!(stderr.on_read(&p, &ReadEvent::End), Vec::new());
    assert!(!stdout.is_open());
    assert!(!stderr.is_open());
    assert_eq!(events.len(), 2);
    assert_eq!(events[0].content, "a");
    assert_eq!(events[1].content, "b");
    for e in &events {
        assert_eq!(e.output_type, "stdout");
        assert_eq!(e.current_dir, "~");
        assert!(!e.should_replace_last);
        assert_eq!(e.terminalId, "t1");
    }
    let mut running = terminal_core::registry::SessionRegistry::new();
    terminal_core::registry::register_command(&mut running, "t1".to_string(), 0i32);
    let code = terminal_core::registry::complete_command(&mut running, "t1").ok();
    let done = terminal_core::executor::completion_event("t1".to_string(), code);
    assert_eq!(done.terminalId, "t1");
    assert_eq!(done.code, Some(0));
}

#[test]
fn end_of_stream_flushes_and_closes() {
    let p = LinePatterns::builtin().unwrap();
    let mut r = ChannelReader::new(Channel::Stderr, false, "/w".to_string(), "s".to_string());
    assert!(r.is_open());
    assert_eq!(r.on_read(&p, &ReadEvent::Data(b"warn".to_vec())), Vec::new());
    let out = r.on_read(&p, &ReadEvent::End);
    assert_eq!(out.len(), 1);
    assert_eq!(out[0].content, "warn");
    assert_eq!(out[0].output_type, "stderr");
    assert!(!r.is_open());
}

#[test]
fn failed_read_reports_once_and_closes() {
    let p = LinePatterns::builtin().unwrap();
    let mut r = ChannelReader::new(Channel::Stdout, false, "/w".to_string(), "s".to_string());
    assert_eq!(r.on_read(&p, &ReadEvent::Data(b"half".to_vec())), Vec::new());
    let out = r.on_read(&p, &ReadEvent::Failed("timed out".to_string()));
    assert_eq!(out.len(), 1);
    assert_eq!(out[0].content, "Error reading stdout: timed out");
    assert_eq!(out[0].output_type, "stderr");
    assert_eq!(out[0].current_dir, "/w");
    assert_eq!(out[0].terminalId, "s");
    assert!(!r.is_open());
}

#[test]
fn closed_channel_yields_nothing() {
    let p = LinePatterns::builtin().unwrap();
    let mut r = ChannelReader::new(Channel::Stdout, false, "/w".to_string(), "s".to_string());
    r.on_read(&p, &ReadEvent::End);
    assert_eq!(r.on_read(&p, &ReadEvent::Data(b"late\n".to_vec())), Vec::new());
    assert_eq!(r.on_read(&p, &ReadEvent::End), Vec::new());
    assert_eq!(r.on_read(&p, &ReadEvent::Failed("x".to_string())), Vec::new());
    assert!(!r.is_open());
}

#[test]
fn custom_patterns_are_used() {
    let p = LinePatterns::new("#", "[0-9]+/[0-9]+", "phase [a-z]+").unwrap();
    assert_eq!(p.strip_escapes("a#b#c"), "abc");
    let mut r = LineReassembler::new(true);
    let out = r.feed(&p, b"phase one 1/3\nphase one 2/3\nphase two 3/3\n");
    assert_eq!(
        out,
        vec![
            line("phase one", false),
            line("1/3 ", true),
            line("2/3 ", true),
            line("phase two", false),
            line("3/3 ", true),
        ]
    );
}
