use eink::logger::{
    debug_view_line,
    get_eink_logging_dir, init, init_with_level, log_file_path, push_path, CustomLogFormat,
    DebugViewLog, Level, LogCommand, LogRecord, enabled,
};

fn record(command: LogCommand, line: Option<u32>, args: &str) -> LogRecord {
    LogRecord {
        command,
        now: "2024-01-02 03:04:05".to_string(),
        target: "app".to_string(),
        file: "src/main.rs".to_string(),
        line,
        level: "INFO".to_string(),
        args: args.to_string(),
        formated: String::new(),
    }
}

#[test]
fn debug_view_line_format() {
    let r = record(LogCommand::Record, Some(12), "hello");
    assert_eq!(debug_view_line(&r), "[app][src/main.rs][12][INFO] hello");
    let r0 = record(LogCommand::Record, None, "x");
    assert_eq!(debug_view_line(&r0), "[app][src/main.rs][0][INFO] x");
}

#[test]
fn debug_view_sends_only_messages() {
    let records = vec![
        record(LogCommand::Record, Some(1), "one"),
        record(LogCommand::Flush, None, ""),
        record(LogCommand::Record, Some(2), "has\0nul"),
        record(LogCommand::Exit, None, ""),
        record(LogCommand::Record, Some(3), "three"),
    ];
    let lines = DebugViewLog {}.do_logs(&records);
    assert_eq!(
        lines,
        vec!["[app][src/main.rs][1][INFO] one".to_string(), "[app][src/main.rs][3][INFO] three".to_string()]
    );
}

#[test]
fn file_format_of_messages() {
    let mut r = record(LogCommand::Record, Some(7), "msg");
    CustomLogFormat {}.do_format(&mut r);
    assert_eq!(r.formated, "2024-01-02 03:04:05 [app][src/main.rs][7][INFO] msg\n");
    let mut f = record(LogCommand::Flush, None, "");
    f.formated = "kept".to_string();
    CustomLogFormat {}.do_format(&mut f);
    assert_eq!(f.formated, "kept");
}

#[test]
fn log_file_paths() {
    assert_eq!(log_file_path("C:\\a", "x.exe.exe"), "C:/a/x.log");
    assert_eq!(log_file_path("C:\\logs", "eink-service.exe"), "C:/logs/eink-service.log");
    assert_eq!(log_file_path("D:/l", "tool"), "D:/l/tool.log");
    assert!(!log_file_path("\\\\srv\\share", "a.exe").contains('\\'));
}

#[test]
fn path_pushing() {
    assert_eq!(push_path("C:\\x", "y"), "C:\\x\\y");
    assert_eq!(push_path("C:\\x\\", "y"), "C:\\x\\y");
    assert_eq!(push_path("C:/x/", "y"), "C:/x/y");
    assert_eq!(push_path("", "y"), "y");
}

#[test]
fn test_get_eink_logging_dir() {
    let local = dirs::data_local_dir();
    let local_text = local.as_ref().and_then(|p| p.to_str());
    let logging_dir = get_eink_logging_dir(local_text);
    assert!(logging_dir.ends_with("logging"));
}

#[test]
fn logging_dir_without_local_data() {
    assert_eq!(get_eink_logging_dir(None), "Lenovo\\ThinkBookEinkPlus\\logging");
    assert_eq!(
        get_eink_logging_dir(Some("C:\\Users\\u\\AppData\\Local")),
        "C:\\Users\\u\\AppData\\Local\\Lenovo\\ThinkBookEinkPlus\\logging"
    );
}

#[test]
fn logger_setup() {
    let s = init(Some("C:\\Users\\u\\AppData\\Local"), "eink-service.exe");
    assert_eq!(s.file_path, "C:/Users/u/AppData/Local/Lenovo/ThinkBookEinkPlus/logging/eink-service.log");
    assert_eq!((s.split_megabytes, s.keep_files), (1, 128));
    assert_eq!(s.level, Level::Trace);
    let f = init_with_level(Level::Error, None, "tool.exe");
    assert_eq!(f.file_path, "C:/Lenovo-Fallback-Log/tool.log");
    assert_eq!(f.level, Level::Error);
}

#[test]
fn level_filter() {
    assert!(enabled(Level::Error, Level::Error));
    assert!(!enabled(Level::Error, Level::Info));
    assert!(!enabled(Level::Info, Level::Debug));
    assert!(enabled(Level::Info, Level::Warn));
    assert!(enabled(Level::Trace, Level::Trace));
}
