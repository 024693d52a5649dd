use std::io::Write;
use std::sync::{Arc, Mutex};

use packet_trace::gate::{packet_trace, packet_trace_maybe};
use packet_trace::helpers::{do_write, do_write_maybe};
use packet_trace::sink::{emit_line, Emission};
use packet_trace::{set_write_target, WriteTarget, DATE_FORMAT_STR};
use regex::Regex;

type Target = WriteTarget<Box<dyn Write + Send>>;

/// A string that stands in for the logger and, through `Write`, for a
/// custom destination.
#[derive(Clone)]
struct StringLog(Arc<Mutex<String>>);

impl StringLog {
    fn new() -> Self {
        StringLog(Arc::new(Mutex::new(String::new())))
    }

    fn get_string(&self) -> String {
        self.0.lock().unwrap().clone()
    }

    fn log(&self, category: &str, message: &str) {
        if category == "packet-trace" {
            let mut buf = self.0.lock().unwrap();
            buf.push_str(message);
            buf.push('\n');
        }
    }
}

impl Write for StringLog {
    fn write(&mut self, buf: &[u8]) -> std::io::Result<usize> {
        let text = std::str::from_utf8(buf).unwrap();
        self.0.lock().unwrap().push_str(text);
        Ok(buf.len())
    }

    fn flush(&mut self) -> std::io::Result<()> {
        Ok(())
    }
}

/// Does what an emission asks for: logs to `logger`, or writes to the writer
/// that `target` holds.
fn carry_out(target: &mut Target, emission: Option<Emission>, logger: &StringLog) {
    match emission {
        None => {}
        Some(Emission::Log { category, message }) => logger.log(category, &message),
        Some(Emission::Write { text }) => match target {
            WriteTarget::Write(w) => w.write_all(text.as_bytes()).unwrap(),
            WriteTarget::Log => panic!("a write was asked for while the logger is the target"),
        },
    }
}

#[test]
fn test_invocation_compiles() {
    let target: Target = WriteTarget::default();
    if false {
        packet_trace::<true, _, _>(&target, "test-1", || vec![1, 2, 3]);
    }
}

#[test]
fn test_date() {
    let log = StringLog::new();
    let mut target: Target = WriteTarget::default();

    let out = packet_trace::<true, _, _>(&target, "test-date", || vec![1, 2, 3]);
    carry_out(&mut target, out, &log);
    let output = log.get_string();
    let date = &output["test-date,0123456789abcdef,".len()..output.len() - ",3\n".len()];

    assert!(chrono::DateTime::parse_from_str(&date, DATE_FORMAT_STR).is_ok());
}

#[test]
fn test_hash() {
    let log = StringLog::new();
    let mut target: Target = WriteTarget::default();

    let out = packet_trace::<true, _, _>(&target, "test-foo", || vec![1, 2, 3]);
    carry_out(&mut target, out, &log);
    let expected = Regex::new(r#"test-foo,[0-9A-Fa-f]{16}.*\n"#).unwrap();

    assert!(expected.is_match(&log.get_string()));
}

#[test]
fn test_twice() {
    {
        let log = StringLog::new();
        let mut target: Target = WriteTarget::default();

        let out = packet_trace::<true, _, _>(&target, "test-foo", || vec![1, 2, 3]);
        carry_out(&mut target, out, &log);
        let expected = Regex::new(r#"test-foo,[0-9A-Fa-f]{16}.*\n"#).unwrap();

        assert!(expected.is_match(&log.get_string()));
    }

    {
        let log = StringLog::new();
        let mut target: Target = WriteTarget::default();

        let out = packet_trace::<true, _, _>(&target, "test-bar", || vec![1, 2, 3]);
        carry_out(&mut target, out, &log);
        let expected = Regex::new(r#"test-bar,[0-9A-Fa-f]{16}.*\n"#).unwrap();

        assert!(expected.is_match(&log.get_string()));
    }
}

#[test]
fn test_seq_3() {
    let log = StringLog::new();
    let mut target: Target = WriteTarget::default();

    let out = packet_trace::<true, _, _>(&target, "test-foo", || vec![1, 2, 3]);
    carry_out(&mut target, out, &log);
    let out = packet_trace::<true, _, _>(&target, "test-bar", || b"test data".to_vec());
    carry_out(&mut target, out, &log);
    let out = packet_trace::<true, _, _>(&target, "test-baz", || vec![0u8, 12, 13, 22]);
    carry_out(&mut target, out, &log);
    let expected = Regex::new(&format!(
        "{}{}{}",
        r#"test-foo,[0-9A-Fa-f]{16}.*\n"#,
        r#"test-bar,[0-9A-Fa-f]{16}.*\n"#,
        r#"test-baz,[0-9A-Fa-f]{16}.*\n"#,
    ))
    .unwrap();

    assert!(expected.is_match(&log.get_string()));
}

#[test]
fn test_custom_write_target() {
    let log = StringLog::new();
    let mut target: Target = WriteTarget::default();

    set_write_target(&mut target, WriteTarget::Write(Box::new(log.clone())));
    let out = packet_trace::<true, _, _>(&target, "test-foo", || vec![1, 2, 3]);
    carry_out(&mut target, out, &log);
    set_write_target(&mut target, WriteTarget::Log);

    let output = log.get_string();

    let expected = Regex::new(r#"test-foo,[0-9A-Fa-f]{16}.*\n"#).unwrap();
    assert!(expected.is_match(&output));

    let date = &output["test-date,0123456789abcdef,".len()..output.len() - ",3\n".len()];
    assert!(chrono::DateTime::parse_from_str(&date, DATE_FORMAT_STR).is_ok());
}

#[test]
fn test_disable() {
    let log = StringLog::new();
    let mut target: Target = WriteTarget::default();

    let out = packet_trace::<false, _, _>(&target, "test-foo", || vec![1, 2, 3]);
    carry_out(&mut target, out, &log);
    let out = packet_trace::<false, _, _>(&target, "test-bar", || b"test data".to_vec());
    carry_out(&mut target, out, &log);
    let out = packet_trace::<false, _, _>(&target, "test-baz", || vec![0u8, 12, 13, 22]);
    carry_out(&mut target, out, &log);
    let expected = "";

    assert_eq!(log.get_string(), expected);
}

#[test]
fn disabled_call_site_never_builds_its_payload() {
    let target: Target = WriteTarget::default();
    let mut built = 0;

    let out = packet_trace::<false, _, _>(&target, "gate", || {
        built += 1;
        vec![1, 2, 3]
    });
    assert_eq!(out, None);
    let out = packet_trace_maybe::<false, _, _>(&target, "gate", || {
        built += 1;
        Some(vec![1, 2, 3])
    });
    assert_eq!(out, None);

    assert_eq!(built, 0);
}

#[test]
fn enabled_call_site_builds_its_payload_once() {
    let target: Target = WriteTarget::default();
    let mut built = 0;

    let out = packet_trace::<true, _, _>(&target, "gate", || {
        built += 1;
        vec![1, 2, 3]
    });

    assert!(matches!(out, Some(Emission::Log { .. })));
    assert_eq!(built, 1);
}

#[test]
fn absent_payload_emits_nothing() {
    let log = StringLog::new();
    let mut target: Target = WriteTarget::Write(Box::new(log.clone()));

    let out = do_write_maybe(&target, "maybe", None);
    assert_eq!(out, None);
    carry_out(&mut target, out, &log);
    let out = packet_trace_maybe::<true, _, _>(&target, "maybe", || None);
    assert_eq!(out, None);
    carry_out(&mut target, out, &log);

    assert_eq!(log.get_string(), "");
}

#[test]
fn present_payload_emits_one_line() {
    let log = StringLog::new();
    let mut target: Target = WriteTarget::Write(Box::new(log.clone()));

    let out = do_write_maybe(&target, "main::2", Some(&b"12"[..]));
    carry_out(&mut target, out, &log);
    let out = packet_trace_maybe::<true, _, _>(&target, "main::2", || Some(b"12".to_vec()));
    carry_out(&mut target, out, &log);

    let expected =
        Regex::new(r"^main::2,b36308dd1b406515,[^,\n]+,2\nmain::2,b36308dd1b406515,[^,\n]+,2\n$")
            .unwrap();
    assert!(expected.is_match(&log.get_string()));
}

#[test]
fn new_target_is_the_logger() {
    let target: Target = WriteTarget::default();
    assert!(matches!(target, WriteTarget::Log));
}

#[test]
fn logger_gets_the_line_under_the_trace_category() {
    let target: WriteTarget<()> = WriteTarget::Log;
    let out = emit_line(&target, String::from("a,b,c"));
    assert_eq!(
        out,
        Emission::Log { category: "packet-trace", message: String::from("a,b,c") }
    );
    assert_eq!(packet_trace::sink::LOG_TARGET, "packet-trace");
}

#[test]
fn writer_gets_the_line_and_a_newline() {
    let target: WriteTarget<()> = WriteTarget::Write(());
    let out = emit_line(&target, String::from("a,b,c"));
    assert_eq!(out, Emission::Write { text: String::from("a,b,c\n") });
}

#[test]
fn setting_a_target_replaces_the_old_one() {
    let mut target: WriteTarget<u8> = WriteTarget::Write(1);
    set_write_target(&mut target, WriteTarget::Write(2));
    assert!(matches!(target, WriteTarget::Write(2)));
    set_write_target(&mut target, WriteTarget::Log);
    assert!(matches!(target, WriteTarget::Log));
    set_write_target(&mut target, WriteTarget::Write(3));
    assert!(matches!(target, WriteTarget::Write(3)));
}

#[test]
fn swapping_the_sink_routes_later_lines() {
    let log = StringLog::new();
    let custom = StringLog::new();
    let mut target: Target = WriteTarget::default();

    let out = do_write(&target, "first", &[1]);
    carry_out(&mut target, Some(out), &log);
    set_write_target(&mut target, WriteTarget::Write(Box::new(custom.clone())));
    let out = do_write(&target, "second", &[1]);
    carry_out(&mut target, Some(out), &log);
    set_write_target(&mut target, WriteTarget::Log);
    let out = do_write(&target, "third", &[1]);
    carry_out(&mut target, Some(out), &log);

    let logged = Regex::new(r"^first,[0-9a-f]{16},[^,\n]+,1\nthird,[0-9a-f]{16},[^,\n]+,1\n$")
        .unwrap();
    let written = Regex::new(r"^second,[0-9a-f]{16},[^,\n]+,1\n$").unwrap();
    assert!(logged.is_match(&log.get_string()));
    assert!(written.is_match(&custom.get_string()));
}

#[test]
fn three_calls_give_three_lines_in_order() {
    let custom = StringLog::new();
    let mut target: Target = WriteTarget::Write(Box::new(custom.clone()));

    let out = do_write(&target, "a", &[1, 2, 3]);
    carry_out(&mut target, Some(out), &custom);
    let out = do_write(&target, "b", b"test data");
    carry_out(&mut target, Some(out), &custom);
    let out = do_write(&target, "c", &[0, 12, 13, 22]);
    carry_out(&mut target, Some(out), &custom);

    let output = custom.get_string();
    let lines: Vec<&str> = output.lines().collect();
    assert_eq!(lines.len(), 3);
    assert!(output.ends_with('\n'));
    let sizes = ["3", "9", "4"];
    for (i, location) in ["a", "b", "c"].iter().enumerate() {
        let fields: Vec<&str> = lines[i].split(',').collect();
        assert_eq!(fields.len(), 4);
        assert_eq!(fields[0], *location);
        assert!(Regex::new("^[0-9a-f]{16}$").unwrap().is_match(fields[1]));
        assert!(chrono::DateTime::parse_from_str(fields[2], DATE_FORMAT_STR).is_ok());
        assert_eq!(fields[3], sizes[i]);
    }
}

#[test]
fn literal_example() {
    let target: Target = WriteTarget::default();
    let out = do_write(&target, "main::1", &[1, 2, 3]);
    let message = match out {
        Emission::Log { category, message } => {
            assert_eq!(category, "packet-trace");
            message
        }
        Emission::Write { .. } => panic!("the logger is the target"),
    };
    assert!(message.starts_with("main::1,fdcb2688e0760126,"));
    let stamp = &message["main::1,fdcb2688e0760126,".len()..message.len() - ",3".len()];
    assert!(chrono::DateTime::parse_from_str(stamp, DATE_FORMAT_STR).is_ok());
    assert!(message.ends_with(",3"));
}
