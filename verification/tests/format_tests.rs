use logger_plugin::config::{PluginConfig, RawConfig};
use logger_plugin::format::{decorated_line, plain_line, render, render_line, tone_of_level, Tone};
use logger_plugin::level::LogLevel;
use logger_plugin::record::ExecutionInput;

fn config(app_name: &str) -> PluginConfig {
    PluginConfig::from_raw(RawConfig {
        app_name: Some(app_name.to_string()),
        log_file: None,
        log_to_file: None,
        log_to_console: None,
        minimum_log_level: None,
        max_log_file_size: None,
        max_log_file_count: None,
        enable_log_rotation: None,
        log_to_file_colored: None,
    })
    .unwrap()
}

fn record(level: LogLevel, message: &str, sub: Option<&str>) -> ExecutionInput {
    ExecutionInput {
        message: message.to_string(),
        level,
        app_name: None,
        sub_app_name: sub.map(|s| s.to_string()),
    }
}

#[test]
fn line_has_four_fields_in_order() {
    assert_eq!(
        render_line("2024-01-02 03:04:05 UTC", "INFO", "svc", "started"),
        "[2024-01-02 03:04:05 UTC] [INFO] svc: started"
    );
    assert_eq!(render_line("", "", "", ""), "[] [] : ");
}

#[test]
fn plain_line_of_a_record() {
    let line = plain_line(&config("svc"), &record(LogLevel::Warn, "disk low", Some("db")), "T");
    assert_eq!(line, "[T] [WARN] svc -> db: disk low");
}

#[test]
fn levels_have_their_colours() {
    assert_eq!(tone_of_level(LogLevel::Debug), Tone::Blue);
    assert_eq!(tone_of_level(LogLevel::Info), Tone::Green);
    assert_eq!(tone_of_level(LogLevel::Warn), Tone::Yellow);
    assert_eq!(tone_of_level(LogLevel::Error), Tone::Red);
}

#[test]
fn decorated_line_colours_each_field() {
    colored::control::set_override(true);
    let line = decorated_line(&config("svc"), &record(LogLevel::Info, "started", None), "T");
    assert_eq!(
        line,
        "[\u{1b}[91mT\u{1b}[0m] [\u{1b}[32mINFO\u{1b}[0m] \u{1b}[36msvc\u{1b}[0m: \u{1b}[37mstarted\u{1b}[0m"
    );
    let levels = [
        (LogLevel::Debug, "\u{1b}[34mDEBUG\u{1b}[0m"),
        (LogLevel::Info, "\u{1b}[32mINFO\u{1b}[0m"),
        (LogLevel::Warn, "\u{1b}[33mWARN\u{1b}[0m"),
        (LogLevel::Error, "\u{1b}[31mERROR\u{1b}[0m"),
    ];
    for (level, painted) in levels {
        let line = decorated_line(&config("a"), &record(level, "m", None), "T");
        assert_eq!(
            line,
            format!("[\u{1b}[91mT\u{1b}[0m] [{}] \u{1b}[36ma\u{1b}[0m: \u{1b}[37mm\u{1b}[0m", painted)
        );
    }
    colored::control::unset_override();
}

#[test]
fn decorated_line_without_colours_is_the_plain_line() {
    colored::control::set_override(false);
    let input = record(LogLevel::Error, "failed", Some("db"));
    let line = decorated_line(&config("svc"), &input, "T");
    assert_eq!(line, "[T] [ERROR] svc -> db: failed");
    assert_eq!(line, plain_line(&config("svc"), &input, "T"));
    colored::control::unset_override();
}

#[test]
fn other_control_sequences_in_a_field_are_kept() {
    colored::control::set_override(true);
    let input = record(LogLevel::Info, "a\u{1b}[1mb", None);
    let line = decorated_line(&config("svc"), &input, "T");
    assert_eq!(
        line,
        "[\u{1b}[91mT\u{1b}[0m] [\u{1b}[32mINFO\u{1b}[0m] \u{1b}[36msvc\u{1b}[0m: \u{1b}[37ma\u{1b}[1mb\u{1b}[0m"
    );
    let input = record(LogLevel::Info, "\u{1b}[0", Some("\u{1b}"));
    let line = decorated_line(&config("svc"), &input, "T");
    assert_eq!(
        line,
        "[\u{1b}[91mT\u{1b}[0m] [\u{1b}[32mINFO\u{1b}[0m] \u{1b}[36msvc -> \u{1b}\u{1b}[0m: \u{1b}[37m\u{1b}[0\u{1b}[0m"
    );
    colored::control::unset_override();
}

#[test]
fn render_gives_both_lines() {
    colored::control::set_override(true);
    let lines = render(&config("svc"), &record(LogLevel::Warn, "w", None), "T");
    assert_eq!(lines.plain, "[T] [WARN] svc: w");
    assert_eq!(
        lines.decorated,
        "[\u{1b}[91mT\u{1b}[0m] [\u{1b}[33mWARN\u{1b}[0m] \u{1b}[36msvc\u{1b}[0m: \u{1b}[37mw\u{1b}[0m"
    );
    colored::control::unset_override();
}
