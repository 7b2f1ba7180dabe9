use std::collections::BTreeMap;

use logger_plugin::config::{initialize, teardown, PluginConfig, RawConfig};
use logger_plugin::format::{render, Lines};
use logger_plugin::level::LogLevel;
use logger_plugin::pipeline::{execute, Action, Event, Execution, Phase, STATUS_FAILED};
use logger_plugin::record::{ExecutionInput, RawInput};

const STAMP: &str = "2024-05-06_07-08-09";

/// A console and a file system held in memory.
struct World {
    console: Vec<String>,
    files: BTreeMap<String, String>,
    read_only: bool,
    trace: Vec<String>,
}

impl World {
    fn new() -> World {
        World { console: Vec::new(), files: BTreeMap::new(), read_only: false, trace: Vec::new() }
    }

    fn with_file(mut self, path: &str, content: &str) -> World {
        self.files.insert(path.to_string(), content.to_string());
        self
    }

    fn perform(&mut self, action: &Action) -> Event {
        match action {
            Action::Print { line } => {
                self.trace.push("print".to_string());
                self.console.push(line.clone());
                Event::Done
            }
            Action::Stat { path } => {
                self.trace.push(format!("stat {}", path));
                Event::Size(self.files.get(path).map(|c| c.len() as u64))
            }
            Action::List { dir } => {
                self.trace.push(format!("list {}", dir));
                let prefix = if dir == "." { "" } else { dir.as_str() };
                let mut found = Vec::new();
                for path in self.files.keys() {
                    if let Some(name) = path.strip_prefix(prefix) {
                        if !name.contains('/') {
                            found.push(name.to_string());
                        }
                    }
                }
                Event::Names(found)
            }
            Action::Remove { path } => {
                self.trace.push(format!("remove {}", path));
                self.files.remove(path);
                Event::Done
            }
            Action::Rename { from, to } => {
                self.trace.push(format!("rename {} {}", from, to));
                if let Some(content) = self.files.remove(from) {
                    self.files.insert(to.clone(), content);
                }
                Event::Done
            }
            Action::Append { path, line } => {
                self.trace.push(format!("append {}", path));
                if self.read_only {
                    Event::Written(false)
                } else {
                    let content = self.files.entry(path.clone()).or_default();
                    content.push_str(line);
                    content.push('\n');
                    Event::Written(true)
                }
            }
            Action::Finish { .. } => unreachable!(),
        }
    }

    fn drive(&mut self, begun: (Execution, Action)) -> i32 {
        let (mut run, mut action) = begun;
        loop {
            if let Action::Finish { status } = action {
                assert_eq!(run.phase(), Phase::Finished { status });
                return status;
            }
            let event = self.perform(&action);
            action = run.step(event, STAMP);
        }
    }

    fn emit(&mut self, config: &PluginConfig, input: &ExecutionInput, timestamp: &str) -> i32 {
        let lines = render(config, input, timestamp);
        self.drive(Execution::begin(config, input, lines))
    }
}

fn raw_config(app_name: &str) -> RawConfig {
    RawConfig {
        app_name: Some(app_name.to_string()),
        log_file: Some("app.log".to_string()),
        log_to_file: Some(true),
        log_to_console: Some(true),
        minimum_log_level: None,
        max_log_file_size: None,
        max_log_file_count: None,
        enable_log_rotation: None,
        log_to_file_colored: Some(false),
    }
}

fn configured(raw: RawConfig) -> PluginConfig {
    let mut store = PluginConfig::new();
    assert_eq!(initialize(&mut store, raw), 0);
    store
}

fn record(level: LogLevel, message: &str) -> ExecutionInput {
    ExecutionInput { message: message.to_string(), level, app_name: None, sub_app_name: None }
}

fn raw_record(level: Option<&str>, message: &str) -> RawInput {
    RawInput {
        message: Some(message.to_string()),
        level: level.map(|l| l.to_string()),
        app_name: None,
        sub_app_name: None,
    }
}

#[test]
fn records_below_the_threshold_produce_nothing() {
    let all = [LogLevel::Debug, LogLevel::Info, LogLevel::Warn, LogLevel::Error];
    for minimum in all {
        for level in all {
            if level < minimum {
                let mut raw = raw_config("svc");
                raw.minimum_log_level = Some(minimum.to_string());
                let config = configured(raw);
                let mut world = World::new();
                assert_eq!(world.emit(&config, &record(level, "quiet"), "T"), 0);
                assert!(world.console.is_empty());
                assert!(world.files.is_empty());
                assert!(world.trace.is_empty());
            }
        }
    }
}

#[test]
fn records_at_or_above_the_threshold_are_logged() {
    colored::control::set_override(false);
    let all = [LogLevel::Debug, LogLevel::Info, LogLevel::Warn, LogLevel::Error];
    for minimum in all {
        for level in all {
            if level >= minimum {
                let mut raw = raw_config("svc");
                raw.minimum_log_level = Some(minimum.to_string());
                let config = configured(raw);
                let mut world = World::new();
                assert_eq!(world.emit(&config, &record(level, "loud"), "T"), 0);
                let line = format!("[T] [{}] svc: loud", level.as_str());
                assert_eq!(world.console, vec![line.clone()]);
                assert_eq!(world.files.get("app.log"), Some(&format!("{}\n", line)));
            }
        }
    }
    colored::control::unset_override();
}

#[test]
fn console_gets_one_line_per_record_in_order() {
    colored::control::set_override(false);
    let mut raw = raw_config("svc");
    raw.log_to_file = Some(false);
    let config = configured(raw);
    let mut world = World::new();
    let n = 7;
    for i in 0..n {
        let level = if i % 2 == 0 { LogLevel::Info } else { LogLevel::Error };
        assert_eq!(world.emit(&config, &record(level, &format!("message {}", i)), &format!("t{}", i)), 0);
    }
    assert_eq!(world.console.len(), n);
    for (i, line) in world.console.iter().enumerate() {
        let level = if i % 2 == 0 { "INFO" } else { "ERROR" };
        assert_eq!(line, &format!("[t{}] [{}] svc: message {}", i, level, i));
    }
    assert!(world.files.is_empty());
    colored::control::unset_override();
}

#[test]
fn console_line_is_the_decorated_one() {
    colored::control::set_override(true);
    let config = configured(raw_config("svc"));
    let mut world = World::new();
    assert_eq!(world.emit(&config, &record(LogLevel::Warn, "w"), "T"), 0);
    assert_eq!(
        world.console,
        vec!["[\u{1b}[91mT\u{1b}[0m] [\u{1b}[33mWARN\u{1b}[0m] \u{1b}[36msvc\u{1b}[0m: \u{1b}[37mw\u{1b}[0m".to_string()]
    );
    assert_eq!(world.files.get("app.log"), Some(&"[T] [WARN] svc: w\n".to_string()));
    colored::control::unset_override();
}

#[test]
fn coloured_file_gets_the_decorated_line() {
    colored::control::set_override(true);
    let mut raw = raw_config("svc");
    raw.log_to_file_colored = Some(true);
    raw.log_to_console = Some(false);
    let config = configured(raw);
    let mut world = World::new();
    assert_eq!(world.emit(&config, &record(LogLevel::Error, "e"), "T"), 0);
    assert!(world.console.is_empty());
    assert_eq!(
        world.files.get("app.log"),
        Some(&"[\u{1b}[91mT\u{1b}[0m] [\u{1b}[31mERROR\u{1b}[0m] \u{1b}[36msvc\u{1b}[0m: \u{1b}[37me\u{1b}[0m\n".to_string())
    );
    colored::control::unset_override();
}

#[test]
fn oversized_log_file_is_archived_before_the_append() {
    colored::control::set_override(false);
    let mut raw = raw_config("svc");
    raw.max_log_file_size = Some(100);
    let config = configured(raw);
    let old = "x".repeat(150);
    let mut world = World::new().with_file("app.log", &old);
    assert_eq!(world.emit(&config, &record(LogLevel::Info, "fresh"), "T"), 0);
    assert_eq!(world.files.len(), 2);
    assert_eq!(world.files.get("app.log_2024-05-06_07-08-09.log"), Some(&old));
    assert_eq!(world.files.get("app.log"), Some(&"[T] [INFO] svc: fresh\n".to_string()));
    assert_eq!(
        world.trace,
        vec![
            "print",
            "stat app.log",
            "list .",
            "rename app.log app.log_2024-05-06_07-08-09.log",
            "append app.log"
        ]
    );
    colored::control::unset_override();
}

#[test]
fn log_file_within_the_limit_is_appended_to() {
    colored::control::set_override(false);
    let mut raw = raw_config("svc");
    raw.max_log_file_size = Some(100);
    let config = configured(raw);
    let old = "x".repeat(99) + "\n";
    let mut world = World::new().with_file("app.log", &old);
    assert_eq!(world.emit(&config, &record(LogLevel::Info, "more"), "T"), 0);
    assert_eq!(world.files.len(), 1);
    assert_eq!(world.files.get("app.log"), Some(&format!("{}[T] [INFO] svc: more\n", old)));
    assert_eq!(world.trace, vec!["print", "stat app.log", "append app.log"]);
    colored::control::unset_override();
}

#[test]
fn missing_log_file_is_created_by_the_append() {
    colored::control::set_override(false);
    let config = configured(raw_config("svc"));
    let mut world = World::new();
    assert_eq!(world.emit(&config, &record(LogLevel::Info, "first"), "T"), 0);
    assert_eq!(world.files.get("app.log"), Some(&"[T] [INFO] svc: first\n".to_string()));
    assert_eq!(world.trace, vec!["print", "stat app.log", "append app.log"]);
    colored::control::unset_override();
}

#[test]
fn rotation_prunes_the_oldest_of_three_archives() {
    colored::control::set_override(false);
    let mut raw = raw_config("svc");
    raw.log_file = Some("logs/app.log".to_string());
    raw.max_log_file_size = Some(100);
    raw.max_log_file_count = Some(2);
    let config = configured(raw);
    let old = "y".repeat(101);
    let mut world = World::new()
        .with_file("logs/app.log", &old)
        .with_file("logs/app.log_2024-02-01_00-00-00.log", "b")
        .with_file("logs/app.log_2024-01-01_00-00-00.log", "a")
        .with_file("logs/app.log_2024-03-01_00-00-00.log", "c")
        .with_file("logs/unrelated.txt", "u")
        .with_file("app.log_2020-01-01_00-00-00.log", "elsewhere");
    assert_eq!(world.emit(&config, &record(LogLevel::Info, "fresh"), "T"), 0);
    assert_eq!(
        world.trace,
        vec![
            "print",
            "stat logs/app.log",
            "list logs/",
            "remove logs/app.log_2024-01-01_00-00-00.log",
            "rename logs/app.log logs/app.log_2024-05-06_07-08-09.log",
            "append logs/app.log"
        ]
    );
    assert!(!world.files.contains_key("logs/app.log_2024-01-01_00-00-00.log"));
    assert_eq!(world.files.get("logs/app.log_2024-02-01_00-00-00.log"), Some(&"b".to_string()));
    assert_eq!(world.files.get("logs/app.log_2024-03-01_00-00-00.log"), Some(&"c".to_string()));
    assert_eq!(world.files.get("logs/app.log_2024-05-06_07-08-09.log"), Some(&old));
    assert_eq!(world.files.get("logs/app.log"), Some(&"[T] [INFO] svc: fresh\n".to_string()));
    assert_eq!(world.files.get("logs/unrelated.txt"), Some(&"u".to_string()));
    assert_eq!(world.files.get("app.log_2020-01-01_00-00-00.log"), Some(&"elsewhere".to_string()));
    colored::control::unset_override();
}

#[test]
fn rotation_switched_off_never_looks_at_the_file() {
    colored::control::set_override(false);
    let mut raw = raw_config("svc");
    raw.max_log_file_size = Some(1);
    raw.enable_log_rotation = Some(false);
    let config = configured(raw);
    let mut world = World::new().with_file("app.log", "old\n");
    assert_eq!(world.emit(&config, &record(LogLevel::Info, "m"), "T"), 0);
    assert_eq!(world.trace, vec!["print", "append app.log"]);
    assert_eq!(world.files.get("app.log"), Some(&"old\n[T] [INFO] svc: m\n".to_string()));
    colored::control::unset_override();
}

#[test]
fn failed_write_is_reported() {
    let config = configured(raw_config("svc"));
    let mut world = World::new();
    world.read_only = true;
    let status = world.emit(&config, &record(LogLevel::Info, "m"), "T");
    assert_eq!(status, -1);
    assert_eq!(status, STATUS_FAILED);
    assert_eq!(world.console.len(), 1);
    assert!(world.files.is_empty());
}

#[test]
fn both_destinations_off_is_success_without_output() {
    let mut raw = raw_config("svc");
    raw.log_to_file = Some(false);
    raw.log_to_console = Some(false);
    let config = configured(raw);
    let mut world = World::new();
    assert_eq!(world.emit(&config, &record(LogLevel::Error, "m"), "T"), 0);
    assert!(world.trace.is_empty());
}

#[test]
fn torn_down_store_logs_nothing() {
    let all = [LogLevel::Debug, LogLevel::Info, LogLevel::Warn, LogLevel::Error];
    let mut store = PluginConfig::new();
    assert_eq!(teardown(&mut store), 0);
    for level in all {
        let mut world = World::new();
        let begun = execute(&store, raw_record(Some(level.as_str()), "m"));
        assert_eq!(world.drive(begun), 0);
        assert!(world.trace.is_empty());
    }
    let mut store = configured(raw_config("svc"));
    assert_eq!(teardown(&mut store), 0);
    for level in all {
        let mut world = World::new();
        assert_eq!(world.emit(&store, &record(level, "m"), "T"), 0);
        assert!(world.trace.is_empty());
    }
}

#[test]
fn unreadable_record_fails_without_output() {
    let config = configured(raw_config("svc"));
    let (run, action) = execute(&config, raw_record(Some("shout"), "m"));
    assert_eq!(action, Action::Finish { status: 1 });
    assert_eq!(run.phase(), Phase::Finished { status: 1 });
}

#[test]
fn record_without_a_message_fails_without_output() {
    let config = configured(raw_config("svc"));
    let raw = RawInput { message: None, level: None, app_name: None, sub_app_name: None };
    let (run, action) = execute(&config, raw);
    assert_eq!(action, Action::Finish { status: 1 });
    assert_eq!(run.phase(), Phase::Finished { status: 1 });
}

#[test]
fn execute_stamps_the_line_with_the_clock() {
    colored::control::set_override(false);
    let mut raw = raw_config("svc");
    raw.log_to_file = Some(false);
    let config = configured(raw);
    let (mut run, action) = execute(&config, raw_record(None, "hello"));
    assert_eq!(run.phase(), Phase::Console);
    match action {
        Action::Print { line } => {
            assert!(line.starts_with("["));
            assert!(line.ends_with(" UTC] [INFO] svc: hello"));
            let stamp = &line[1..line.len() - "] [INFO] svc: hello".len()];
            let digits = stamp.chars().filter(|c| c.is_ascii_digit()).count();
            assert!(digits >= 14);
            assert!(stamp.ends_with(" UTC"));
            assert!(stamp.chars().all(|c| c.is_ascii_digit() || "-:. +UTC".contains(c)));
            assert_eq!(&stamp[4..5], "-");
            assert_eq!(&stamp[7..8], "-");
            assert_eq!(&stamp[10..11], " ");
            assert_eq!(&stamp[13..14], ":");
            assert_eq!(&stamp[16..17], ":");
        }
        other => panic!("unexpected action {:?}", other),
    }
    assert_eq!(run.resume(Event::Done), Action::Finish { status: 0 });
    colored::control::unset_override();
}

#[test]
fn execute_does_not_log_below_the_threshold() {
    let config = configured(raw_config("svc"));
    let (run, action) = execute(&config, raw_record(Some("debug"), "m"));
    assert_eq!(action, Action::Finish { status: 0 });
    assert_eq!(run.phase(), Phase::Finished { status: 0 });
}

#[test]
fn resume_names_the_archive_by_the_clock() {
    let mut raw = raw_config("svc");
    raw.max_log_file_size = Some(10);
    raw.log_to_console = Some(false);
    let config = configured(raw);
    let input = record(LogLevel::Info, "m");
    let lines = Lines { decorated: "d".to_string(), plain: "p".to_string() };
    let (mut run, action) = Execution::begin(&config, &input, lines);
    assert_eq!(action, Action::Stat { path: "app.log".to_string() });
    assert_eq!(run.resume(Event::Size(Some(11))), Action::List { dir: ".".to_string() });
    match run.resume(Event::Names(Vec::new())) {
        Action::Rename { from, to } => {
            assert_eq!(from, "app.log");
            assert!(to.starts_with("app.log_"));
            assert!(to.ends_with(".log"));
            let stamp: Vec<char> = to["app.log_".len()..to.len() - ".log".len()].chars().collect();
            assert_eq!(stamp.len(), 19);
            for (i, c) in stamp.iter().enumerate() {
                match i {
                    4 | 7 | 13 | 16 => assert_eq!(*c, '-'),
                    10 => assert_eq!(*c, '_'),
                    _ => assert!(c.is_ascii_digit()),
                }
            }
        }
        other => panic!("unexpected action {:?}", other),
    }
    assert_eq!(
        run.resume(Event::Done),
        Action::Append { path: "app.log".to_string(), line: "p".to_string() }
    );
    assert_eq!(run.resume(Event::Written(true)), Action::Finish { status: 0 });
}

#[test]
fn an_answer_that_does_not_fit_ends_the_run_as_failed() {
    let config = configured(raw_config("svc"));
    let input = record(LogLevel::Info, "m");
    let lines = Lines { decorated: "d".to_string(), plain: "p".to_string() };
    let (mut run, action) = Execution::begin(&config, &input, lines);
    assert_eq!(action, Action::Print { line: "d".to_string() });
    assert_eq!(run.step(Event::Written(true), STAMP), Action::Finish { status: -1 });
    assert_eq!(run.phase(), Phase::Finished { status: -1 });
}

#[test]
fn a_finished_run_stays_finished() {
    let config = configured(raw_config("svc"));
    let input = record(LogLevel::Debug, "m");
    let lines = Lines { decorated: "d".to_string(), plain: "p".to_string() };
    let (mut run, action) = Execution::begin(&config, &input, lines);
    assert_eq!(action, Action::Finish { status: 0 });
    assert_eq!(run.step(Event::Done, STAMP), Action::Finish { status: 0 });
    assert_eq!(run.step(Event::Size(Some(1)), STAMP), Action::Finish { status: 0 });
    assert_eq!(run.step(Event::Written(false), STAMP), Action::Finish { status: 0 });
    assert_eq!(run.phase(), Phase::Finished { status: 0 });
}

#[test]
fn a_run_works_on_the_configuration_it_began_with() {
    colored::control::set_override(false);
    let mut store = configured(raw_config("svc"));
    let input = record(LogLevel::Info, "m");
    let lines = render(&store, &input, "T");
    let (mut run, action) = Execution::begin(&store, &input, lines);
    assert_eq!(action, Action::Print { line: "[T] [INFO] svc: m".to_string() });
    assert_eq!(teardown(&mut store), 0);
    assert_eq!(run.step(Event::Done, STAMP), Action::Stat { path: "app.log".to_string() });
    assert_eq!(
        run.step(Event::Size(None), STAMP),
        Action::Append { path: "app.log".to_string(), line: "[T] [INFO] svc: m".to_string() }
    );
    colored::control::unset_override();
}
