//! Formatting of log records for the debugger output and the log file, the
//! logging directory and the setup of a program's log file.
use vstd::prelude::*;
use crate::text::{decimal, push_decimal, push_char};
use crate::capture::chars_of;

verus! {

/// The kind of a record handed to the log appenders.
#[derive(PartialEq, Eq, Structural, Debug, Clone, Copy)]
pub enum LogCommand {
    /// A log message.
    Record,
    /// The logger shuts down.
    Exit,
    /// The logger flushes its outputs.
    Flush,
}

/// A record handed to the log appenders, its fields already rendered as text.
pub struct LogRecord {
    pub command: LogCommand,
    /// Local time of the record.
    pub now: String,
    pub target: String,
    pub file: String,
    pub line: Option<u32>,
    pub level: String,
    pub args: String,
    /// The text written to the log file.
    pub formated: String,
}

/// `[target][file][line][level] args`, with line 0 when the line is unknown.
pub open spec fn record_body(r: LogRecord) -> Seq<char> {
    "["@ + r.target@ + "]["@ + r.file@ + "]["@ + decimal(
        match r.line {
            Some(l) => l as nat,
            None => 0,
        },
    ) + "]["@ + r.level@ + "] "@ + r.args@
}

fn push_record_body(s: &mut String, r: &LogRecord)
    ensures
        final(s)@ == old(s)@ + record_body(*r),
{
    s.append("[");
    s.append(r.target.as_str());
    s.append("][");
    s.append(r.file.as_str());
    s.append("][");
    let line: u32 = match r.line {
        Some(l) => l,
        None => 0,
    };
    push_decimal(s, line as u64);
    s.append("][");
    s.append(r.level.as_str());
    s.append("] ");
    s.append(r.args.as_str());
    assert(final(s)@ =~= old(s)@ + record_body(*r));
}

/// The debugger-output line of a record.
pub fn debug_view_line(r: &LogRecord) -> (s: String)
    ensures
        s@ == record_body(*r),
{
    let mut s = String::new();
    push_record_body(&mut s, r);
    assert(s@ =~= record_body(*r));
    s
}

/// Whether a text contains the NUL character, which a wide C string cannot hold.
pub open spec fn has_nul(s: Seq<char>) -> bool {
    s.contains('\0')
}

/// The debugger-output lines of the log messages among `records`, in order;
/// a line holding a NUL character cannot be sent and is left out.
pub open spec fn debug_view_lines(records: Seq<LogRecord>) -> Seq<Seq<char>>
    decreases records.len(),
{
    if records.len() == 0 {
        Seq::empty()
    } else {
        let rest = debug_view_lines(records.drop_last());
        let r = records.last();
        if r.command == LogCommand::Record && !has_nul(record_body(r)) {
            rest.push(record_body(r))
        } else {
            rest
        }
    }
}

/// The appender that sends log messages to the debugger output.
pub struct DebugViewLog {}

impl DebugViewLog {
    /// The lines to send for a batch of records.
    pub fn do_logs(&self, records: &Vec<LogRecord>) -> (lines: Vec<String>)
        ensures
            lines@.map_values(|l: String| l@) == debug_view_lines(records@),
    {
        let mut lines: Vec<String> = Vec::new();
        let mut i: usize = 0;
        while i < records.len()
            invariant
                0 <= i <= records@.len(),
                lines@.map_values(|l: String| l@) == debug_view_lines(records@.take(i as int)),
            decreases records@.len() - i,
        {
            let r = &records[i];
            proof {
                assert(records@.take(i + 1).drop_last() == records@.take(i as int));
                assert(records@.take(i + 1).last() == records@[i as int]);
            }
            if r.command == LogCommand::Record {
                let msg = debug_view_line(r);
                let chars = chars_of(msg.as_str());
                let mut nul = false;
                let mut k: usize = 0;
                while k < chars.len()
                    invariant
                        0 <= k <= chars@.len(),
                        nul == (exists|m: int| 0 <= m < k && chars@[m] == '\0'),
                    decreases chars@.len() - k,
                {
                    if chars[k] == '\0' {
                        nul = true;
                    }
                    k = k + 1;
                }
                proof {
                    assert(nul == has_nul(record_body(records@[i as int])));
                }
                if !nul {
                    let ghost before = lines@;
                    lines.push(msg);
                    proof {
                        assert(lines@.map_values(|l: String| l@) =~= before.map_values(
                            |l: String| l@,
                        ).push(msg@));
                    }
                }
            }
            i = i + 1;
        }
        proof {
            assert(records@.take(records@.len() as int) == records@);
        }
        lines
    }
}

/// The log-file line of a record: its time, a space, the record body and a line break.
pub open spec fn file_line(r: LogRecord) -> Seq<char> {
    r.now@ + " "@ + record_body(r) + "\n"@
}

/// The formatter of log-file lines.
pub struct CustomLogFormat {}

impl CustomLogFormat {
    /// Fills in the log-file line of a log message; other records stay as they are.
    pub fn do_format(&self, arg: &mut LogRecord)
        ensures
            final(arg).command == old(arg).command,
            final(arg).now == old(arg).now,
            final(arg).target == old(arg).target,
            final(arg).file == old(arg).file,
            final(arg).line == old(arg).line,
            final(arg).level == old(arg).level,
            final(arg).args == old(arg).args,
            old(arg).command == LogCommand::Record ==> final(arg).formated@ == file_line(*old(arg)),
            old(arg).command != LogCommand::Record ==> final(arg).formated == old(arg).formated,
    {
        match arg.command {
            LogCommand::Record => {
                let mut s = String::new();
                s.append(arg.now.as_str());
                s.append(" ");
                push_record_body(&mut s, arg);
                s.append("\n");
                assert(s@ =~= file_line(*arg));
                arg.formated = s;
            },
            LogCommand::Exit => {},
            LogCommand::Flush => {},
        }
    }
}

/// A file name without any number of trailing ".exe".
pub open spec fn trim_exe(s: Seq<char>) -> Seq<char>
    decreases s.len(),
{
    if s.len() >= 4 && s.subrange(s.len() - 4, s.len() as int) == ".exe"@ {
        trim_exe(s.subrange(0, s.len() - 4))
    } else {
        s
    }
}

/// A path with every backslash turned into a slash.
pub open spec fn forward_slashes(s: Seq<char>) -> Seq<char> {
    s.map_values(|c: char| if c == '\\' { '/' } else { c })
}

/// The log file of a program: `<dir>\<program name without .exe>.log`, written with slashes.
pub open spec fn log_file_path_spec(local_dir: Seq<char>, exe_name: Seq<char>) -> Seq<char> {
    forward_slashes(local_dir + "\\"@ + trim_exe(exe_name) + ".log"@)
}

/// The log file of the program `exe_name` in the logging directory `local_dir`.
pub fn log_file_path(local_dir: &str, exe_name: &str) -> (p: String)
    ensures
        p@ == log_file_path_spec(local_dir@, exe_name@),
{
    proof {
        reveal_strlit(".exe");
        reveal_strlit("\\");
        reveal_strlit(".log");
    }
    let name = chars_of(exe_name);
    let mut end = name.len();
    proof {
        assert(name@.subrange(0, name@.len() as int) == name@);
    }
    while end >= 4 && name[end - 4] == '.' && name[end - 3] == 'e' && name[end - 2] == 'x'
        && name[end - 1] == 'e'
        invariant
            end <= name@.len(),
            trim_exe(name@) == trim_exe(name@.subrange(0, end as int)),
        decreases end,
    {
        proof {
            reveal_strlit(".exe");
            let cur = name@.subrange(0, end as int);
            assert(cur.subrange(cur.len() - 4, cur.len() as int) =~= ".exe"@);
            assert(cur.subrange(0, cur.len() - 4) =~= name@.subrange(0, end - 4));
        }
        end = end - 4;
    }
    let ghost stem = name@.subrange(0, end as int);
    proof {
        if stem.len() >= 4 {
            assert(stem.subrange(stem.len() - 4, stem.len() as int) != ".exe"@) by {
                if stem.subrange(stem.len() - 4, stem.len() as int) == ".exe"@ {
                    assert(stem.subrange(stem.len() - 4, stem.len() as int)[0] == '.');
                    assert(stem.subrange(stem.len() - 4, stem.len() as int)[1] == 'e');
                    assert(stem.subrange(stem.len() - 4, stem.len() as int)[2] == 'x');
                    assert(stem.subrange(stem.len() - 4, stem.len() as int)[3] == 'e');
                }
            }
        }
        assert(trim_exe(stem) == stem);
        assert(name@.subrange(0, name@.len() as int) == name@);
    }
    let dir = chars_of(local_dir);
    let mut full: Vec<char> = Vec::new();
    let mut i: usize = 0;
    while i < dir.len()
        invariant
            0 <= i <= dir@.len(),
            full@ == dir@.take(i as int),
        decreases dir@.len() - i,
    {
        full.push(dir[i]);
        proof {
            assert(dir@.take(i + 1) == dir@.take(i as int).push(dir@[i as int]));
        }
        i = i + 1;
    }
    full.push('\\');
    let mut j: usize = 0;
    while j < end
        invariant
            0 <= j <= end <= name@.len(),
            full@ == dir@ + seq!['\\'] + name@.take(j as int),
        decreases end - j,
    {
        proof {
            assert(dir@.take(dir@.len() as int) == dir@);
        }
        full.push(name[j]);
        proof {
            assert(name@.take(j + 1) == name@.take(j as int).push(name@[j as int]));
        }
        j = j + 1;
    }
    full.push('.');
    full.push('l');
    full.push('o');
    full.push('g');
    let ghost whole = local_dir@ + "\\"@ + trim_exe(exe_name@) + ".log"@;
    proof {
        assert(name@.take(end as int) == stem);
        assert(full@ =~= whole);
    }
    let mut p = String::new();
    let mut k: usize = 0;
    while k < full.len()
        invariant
            0 <= k <= full@.len(),
            full@ == whole,
            p@ == forward_slashes(whole.take(k as int)),
        decreases full@.len() - k,
    {
        let c = full[k];
        let d = if c == '\\' {
            '/'
        } else {
            c
        };
        push_char(&mut p, d);
        proof {
            assert(whole.take(k + 1) == whole.take(k as int).push(c));
            assert(forward_slashes(whole.take(k + 1)) =~= forward_slashes(whole.take(k as int)).push(d));
        }
        k = k + 1;
    }
    proof {
        assert(whole.take(whole.len() as int) == whole);
    }
    p
}

/// The severity levels a log message can carry.
#[derive(PartialEq, Eq, Structural, Debug, Clone, Copy)]
pub enum Level {
    Error,
    Warn,
    Info,
    Debug,
    Trace,
}

/// The detail of a level: 1 for errors up to 5 for trace messages.
pub open spec fn level_detail(l: Level) -> nat {
    match l {
        Level::Error => 1,
        Level::Warn => 2,
        Level::Info => 3,
        Level::Debug => 4,
        Level::Trace => 5,
    }
}

/// Whether a message of level `message` is logged by a logger set to `max`:
/// it is when it is no more detailed than `max`.
pub fn enabled(max: Level, message: Level) -> (b: bool)
    ensures
        b == (level_detail(message) <= level_detail(max)),
{
    let m: u8 = match max {
        Level::Error => 1,
        Level::Warn => 2,
        Level::Info => 3,
        Level::Debug => 4,
        Level::Trace => 5,
    };
    let g: u8 = match message {
        Level::Error => 1,
        Level::Warn => 2,
        Level::Info => 3,
        Level::Debug => 4,
        Level::Trace => 5,
    };
    g <= m
}

/// A logger logs every message at its own level or a more severe one and
/// none that is more detailed: errors always pass, a trace logger passes
/// everything, and the levels are ordered error, warn, info, debug, trace.
pub proof fn law_level_filter(max: Level, message: Level)
    ensures
        level_detail(Level::Error) < level_detail(Level::Warn) < level_detail(Level::Info)
            < level_detail(Level::Debug) < level_detail(Level::Trace),
        level_detail(message) <= level_detail(Level::Error) ==> message == Level::Error,
        level_detail(Level::Error) <= level_detail(max),
        level_detail(message) <= level_detail(Level::Trace),
        level_detail(message) == level_detail(max) ==> message == max,
{
}

/// Whether a character separates path components on Windows.
pub open spec fn is_separator(c: char) -> bool {
    c == '\\' || c == '/'
}

/// `base` extended by the relative path `rel`: a backslash goes between the two
/// unless `base` is empty or already ends with a separator.
pub open spec fn push_path_spec(base: Seq<char>, rel: Seq<char>) -> Seq<char> {
    if base.len() == 0 || is_separator(base.last()) {
        base + rel
    } else {
        base + "\\"@ + rel
    }
}

/// Extends the directory `base` by the relative path `rel`.
pub fn push_path(base: &str, rel: &str) -> (p: String)
    ensures
        p@ == push_path_spec(base@, rel@),
{
    proof {
        reveal_strlit("\\");
    }
    let mut p = String::new();
    p.append(base);
    let n = base.unicode_len();
    if n > 0 {
        let last = base.get_char(n - 1);
        if last != '\\' && last != '/' {
            p.append("\\");
        }
    }
    p.append(rel);
    p
}

/// The logging directory below a user's local data directory.
pub open spec fn logging_subdir() -> Seq<char> {
    "Lenovo\\ThinkBookEinkPlus\\logging"@
}

/// The shared logging directory: `<local data dir>\Lenovo\ThinkBookEinkPlus\logging`,
/// or the relative path `Lenovo\ThinkBookEinkPlus\logging` where the local data
/// directory is unknown.
pub open spec fn eink_logging_dir_spec(data_local_dir: Option<Seq<char>>) -> Seq<char> {
    match data_local_dir {
        Some(d) => push_path_spec(d, logging_subdir()),
        None => logging_subdir(),
    }
}

/// The shared logging directory for the local data directory `data_local_dir`,
/// `None` where the system names none.
pub fn get_eink_logging_dir(data_local_dir: Option<&str>) -> (dir: String)
    ensures
        dir@ == eink_logging_dir_spec(
            match data_local_dir {
                Some(d) => Some(d@),
                None => None,
            },
        ),
{
    let base = match data_local_dir {
        Some(d) => d,
        None => "",
    };
    proof {
        reveal_strlit("");
    }
    push_path(base, "Lenovo\\ThinkBookEinkPlus\\logging")
}

/// The directory a program logs to: the shared logging directory, or a fixed
/// fallback directory where the local data directory is unknown.
pub open spec fn program_logging_dir_spec(data_local_dir: Option<Seq<char>>) -> Seq<char> {
    match data_local_dir {
        Some(d) => push_path_spec(d, logging_subdir()),
        None => "C:\\Lenovo-Fallback-Log"@,
    }
}

/// How the logger of a program is set up.
pub struct LoggerSetup {
    /// The most detailed level logged: messages below it are filtered out.
    pub level: Level,
    /// The log file, written with slashes.
    pub file_path: String,
    /// Size in megabytes at which the log file is split.
    pub split_megabytes: usize,
    /// How many split-off files are kept.
    pub keep_files: i64,
}

/// The log file is split at one megabyte.
pub const LOG_SPLIT_MEGABYTES: usize = 1;

/// At most this many split-off log files are kept.
pub const LOG_KEEP_FILES: i64 = 128;

/// The setup of the logger of the program `exe_name`, for the local data
/// directory `data_local_dir`, logging messages of `level` and above.
pub fn init_with_level(level: Level, data_local_dir: Option<&str>, exe_name: &str) -> (setup:
    LoggerSetup)
    ensures
        setup.file_path@ == log_file_path_spec(
            program_logging_dir_spec(
                match data_local_dir {
                    Some(d) => Some(d@),
                    None => None,
                },
            ),
            exe_name@,
        ),
        setup.split_megabytes == LOG_SPLIT_MEGABYTES,
        setup.keep_files == LOG_KEEP_FILES,
        setup.level == level,
{
    let dir = match data_local_dir {
        Some(d) => push_path(d, "Lenovo\\ThinkBookEinkPlus\\logging"),
        None => {
            let mut f = String::new();
            f.append("C:\\Lenovo-Fallback-Log");
            f
        },
    };
    let file_path = log_file_path(dir.as_str(), exe_name);
    LoggerSetup {
        level,
        file_path,
        split_megabytes: LOG_SPLIT_MEGABYTES,
        keep_files: LOG_KEEP_FILES,
    }
}

/// The setup of the logger of the program `exe_name`, at the most detailed level.
pub fn init(data_local_dir: Option<&str>, exe_name: &str) -> (setup: LoggerSetup)
    ensures
        setup.file_path@ == log_file_path_spec(
            program_logging_dir_spec(
                match data_local_dir {
                    Some(d) => Some(d@),
                    None => None,
                },
            ),
            exe_name@,
        ),
        setup.split_megabytes == LOG_SPLIT_MEGABYTES,
        setup.keep_files == LOG_KEEP_FILES,
        setup.level == Level::Trace,
{
    init_with_level(Level::Trace, data_local_dir, exe_name)
}

/// A log-file path never contains a backslash.
pub proof fn law_log_path_uses_slashes(local_dir: Seq<char>, exe_name: Seq<char>)
    ensures
        !log_file_path_spec(local_dir, exe_name).contains('\\'),
{
    let p = log_file_path_spec(local_dir, exe_name);
    if p.contains('\\') {
        let k = choose|k: int| 0 <= k < p.len() && p[k] == '\\';
        assert(p[k] != '\\');
    }
}

/// Every line sent to the debugger output is the body of a log message and
/// holds no NUL character.
pub proof fn law_debug_lines_are_messages(records: Seq<LogRecord>)
    ensures
        forall|i: int|
            0 <= i < debug_view_lines(records).len() ==> !has_nul(
                #[trigger] debug_view_lines(records)[i],
            ) && exists|j: int|
                0 <= j < records.len() && records[j].command == LogCommand::Record
                    && record_body(records[j]) == debug_view_lines(records)[i],
    decreases records.len(),
{
    if records.len() > 0 {
        let rest = records.drop_last();
        law_debug_lines_are_messages(rest);
        assert forall|i: int|
            0 <= i < debug_view_lines(records).len() implies !has_nul(
            #[trigger] debug_view_lines(records)[i],
        ) && exists|j: int|
            0 <= j < records.len() && records[j].command == LogCommand::Record && record_body(
                records[j],
            ) == debug_view_lines(records)[i] by {
            if i < debug_view_lines(rest).len() {
                assert(debug_view_lines(records)[i] == debug_view_lines(rest)[i]);
                let j = choose|j: int|
                    0 <= j < rest.len() && rest[j].command == LogCommand::Record && record_body(
                        rest[j],
                    ) == debug_view_lines(rest)[i];
                assert(records[j] == rest[j]);
            } else {
                assert(records[records.len() - 1] == records.last());
            }
        }
    }
}

} // verus!
