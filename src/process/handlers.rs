use vstd::prelude::*;
use vstd::string::StringExecFns;

use crate::config::handlers::{concat, push_step};
use crate::process::models::{
    JournalCtlLog, JournalCtlLogMessage, Log, LogLevel, LogQuery, Process, ProcessCommand,
    SystemCtlProcess,
};
use crate::request::job::{steps_view, OnFailure, Operation, Plan, Step, StepView};
use crate::request::models::RequestId;
use crate::utils::command::{strings_view, CommandExecutionMode, ExternalCommand};
use crate::utils::env::Locations;
use crate::utils::output::Output;
use crate::utils::string::{
    chars_of, container_of_scope, decimal, decimal_string, parse_unsigned, parse_unsigned_chars,
    replace_all, replaced, scope_container, string_of,
};

verus! {

/// The words `--machine <container>` where the scope names a container.
pub open spec fn machine_words(scope: Seq<char>) -> Seq<Seq<char>> {
    match scope_container(scope) {
        Some(c) => seq!["--machine"@, c],
        None => Seq::empty(),
    }
}

fn push_machine(c: &mut ExternalCommand, scope: &str)
    ensures
        final(c).program == old(c).program,
        final(c).envs == old(c).envs,
        strings_view(final(c).args@) == strings_view(old(c).args@) + machine_words(scope@),
{
    let ghost before = strings_view(c.args@);
    match container_of_scope(scope) {
        Some(m) => {
            c.arg(String::from_str("--machine"));
            c.arg(m);
        },
        None => {},
    }
    assert(strings_view(c.args@) =~= before + machine_words(scope@));
}

/// The command that lists the services of the host or of a container.
pub fn list_command(l: &Locations, scope: &str) -> (r: ExternalCommand)
    ensures
        r.words() == seq![
            l.systemd@ + "systemctl"@,
            "list-units"@,
            "--type=service"@,
            "--output=json"@,
            "--no-pager"@,
        ] + machine_words(scope@),
        r.envs@.len() == 0,
{
    let mut c = ExternalCommand::new(concat(l.systemd.as_str(), "systemctl"));
    c.arg(String::from_str("list-units"));
    c.arg(String::from_str("--type=service"));
    c.arg(String::from_str("--output=json"));
    c.arg(String::from_str("--no-pager"));
    push_machine(&mut c, scope);
    assert(c.words() =~= seq![
        l.systemd@ + "systemctl"@,
        "list-units"@,
        "--type=service"@,
        "--output=json"@,
        "--no-pager"@,
    ] + machine_words(scope@));
    c
}

/// A listed service unit as a process: running where its sub-state is
/// `running`.
pub fn process_from_unit(p: SystemCtlProcess) -> (r: Process)
    ensures
        r.name == p.unit,
        r.description == Some(p.description),
        r.running == (p.sub@ == "running"@),
{
    let running = p.sub == String::from_str("running");
    Process { name: p.unit, description: Some(p.description), running }
}

/// The journal priority from which on a level's lines are fetched.
pub open spec fn level_priority(level: LogLevel) -> nat {
    match level {
        LogLevel::Error => 3,
        LogLevel::Warn => 4,
        LogLevel::Info => 7,
        LogLevel::Unknown => 7,
    }
}

/// The words that pick a level, where one is asked for.
pub open spec fn priority_words(level: Option<LogLevel>) -> Seq<Seq<char>> {
    match level {
        Some(lv) => seq!["--priority"@, decimal(level_priority(lv))],
        None => Seq::empty(),
    }
}

/// The number of lines fetched: 100 unless the query says.
pub open spec fn max_lines(query: LogQuery) -> nat {
    match query.max {
        Some(m) => m as nat,
        None => 100,
    }
}

/// The command that fetches the last log lines of a service.
pub fn logs_command(l: &Locations, scope: &str, process: &str, query: &LogQuery) -> (r: ExternalCommand)
    ensures
        r.words() == seq![
            l.systemd@ + "journalctl"@,
            "--unit"@,
            process@,
            "--output=json"@,
            "--all"@,
            "--no-pager"@,
            "--output-fields"@,
            "__REALTIME_TIMESTAMP,MESSAGE,PRIORITY"@,
            "--lines"@,
            decimal(max_lines(*query)),
        ] + machine_words(scope@) + priority_words(query.level),
        r.envs@.len() == 0,
{
    let mut c = ExternalCommand::new(concat(l.systemd.as_str(), "journalctl"));
    c.arg(String::from_str("--unit"));
    c.arg(process.to_owned());
    c.arg(String::from_str("--output=json"));
    c.arg(String::from_str("--all"));
    c.arg(String::from_str("--no-pager"));
    c.arg(String::from_str("--output-fields"));
    c.arg(String::from_str("__REALTIME_TIMESTAMP,MESSAGE,PRIORITY"));
    c.arg(String::from_str("--lines"));
    let max: u64 = match query.max {
        Some(m) => m as u64,
        None => 100,
    };
    c.arg(decimal_string(max));
    push_machine(&mut c, scope);
    let ghost mid = strings_view(c.args@);
    match query.level {
        Some(level) => {
            let p: u64 = match level {
                LogLevel::Error => 3,
                LogLevel::Warn => 4,
                LogLevel::Info => 7,
                LogLevel::Unknown => 7,
            };
            c.arg(String::from_str("--priority"));
            c.arg(decimal_string(p));
        },
        None => {},
    }
    assert(strings_view(c.args@) =~= mid + priority_words(query.level));
    assert(c.words() =~= seq![
        l.systemd@ + "journalctl"@,
        "--unit"@,
        process@,
        "--output=json"@,
        "--all"@,
        "--no-pager"@,
        "--output-fields"@,
        "__REALTIME_TIMESTAMP,MESSAGE,PRIORITY"@,
        "--lines"@,
        decimal(max_lines(*query)),
    ] + machine_words(scope@) + priority_words(query.level));
    c
}

/// The level of a journal priority: 0 to 3 are errors, 4 warnings, 5 to 7
/// information, and anything else unknown.
pub open spec fn priority_level(priority: Seq<char>) -> LogLevel {
    match parse_unsigned(priority, u8::MAX as nat) {
        Some(n) => if n <= 3 {
            LogLevel::Error
        } else if n <= 4 {
            LogLevel::Warn
        } else if n <= 7 {
            LogLevel::Info
        } else {
            LogLevel::Unknown
        },
        None => LogLevel::Unknown,
    }
}

/// The level of a journal priority.
pub fn journal_ctl_priority_to_log_level(priority: &str) -> (r: LogLevel)
    ensures
        r == priority_level(priority@),
{
    let n = match parse_unsigned_chars(&chars_of(priority), 255) {
        Some(n) => n,
        None => {
            return LogLevel::Unknown;
        },
    };
    if n <= 3 {
        LogLevel::Error
    } else if n <= 4 {
        LogLevel::Warn
    } else if n <= 7 {
        LogLevel::Info
    } else {
        LogLevel::Unknown
    }
}

/// The journal's output, one entry per line, as one JSON array: the last
/// character (the final newline) is dropped and the other newlines become
/// commas.
pub open spec fn journal_array(output: Seq<char>) -> Seq<char> {
    "["@ + replaced(
        if output.len() > 0 {
            output.drop_last()
        } else {
            output
        },
        seq!['\n'],
        seq![','],
    ) + "]"@
}

/// The journal's output as one JSON array.
pub fn journal_json(output: &str) -> (r: String)
    ensures
        r@ == journal_array(output@),
{
    let mut s = chars_of(output);
    if s.len() > 0 {
        s.pop();
    }
    assert(s@ == (if output@.len() > 0 {
        output@.drop_last()
    } else {
        output@
    }));
    let newline = vec!['\n'];
    let comma = vec![','];
    assert(newline@ =~= seq!['\n']);
    assert(comma@ =~= seq![',']);
    let body = replace_all(&s, &newline, &comma);
    let mut r = String::from_str("[");
    r.append(string_of(&body).as_str());
    r.append("]");
    r
}

/// A journal entry as a log line: a timestamp that is not a number counts
/// as 0.
pub fn log_from_journal(entry: JournalCtlLog) -> (r: Log)
    ensures
        r.timestamp == (match parse_unsigned(entry.realtime_timestamp@, u64::MAX as nat) {
            Some(t) => t as u64,
            None => 0,
        }),
        r.level == priority_level(entry.priority@),
        match entry.message {
            JournalCtlLogMessage::String(s) => r.message matches Output::UTF8 { output } && output
                == s,
            JournalCtlLogMessage::Raw(b) => r.message matches Output::Bytes { output } && output
                == b,
        },
{
    let timestamp = match parse_unsigned_chars(
        &chars_of(entry.realtime_timestamp.as_str()),
        u64::MAX,
    ) {
        Some(t) => t,
        None => 0,
    };
    let level = journal_ctl_priority_to_log_level(entry.priority.as_str());
    let message = match entry.message {
        JournalCtlLogMessage::String(output) => Output::UTF8 { output },
        JournalCtlLogMessage::Raw(output) => Output::Bytes { output },
    };
    Log { timestamp, message, level }
}

/// The init system's verb for a command.
pub open spec fn command_verb(c: ProcessCommand) -> Seq<char> {
    match c {
        ProcessCommand::Start => "start"@,
        ProcessCommand::Stop => "stop"@,
        ProcessCommand::Restart => "restart"@,
    }
}

/// The steps of a job that starts, stops or restarts a service: one
/// recorded command, whose output becomes the body of the success.
pub open spec fn execute_steps(
    l: Locations,
    scope: Seq<char>,
    process: Seq<char>,
    command: ProcessCommand,
    rid: RequestId,
) -> Seq<StepView> {
    seq![
        StepView {
            op: crate::request::job::OpView::Run {
                words: seq![l.systemd@ + "systemctl"@, command_verb(command), process]
                    + machine_words(scope),
                envs: Seq::empty(),
                recorded_under: Some(rid),
            },
            on_failure: OnFailure::Abort,
            context: "Erroring executing "@ + command_verb(command) + " on "@ + process + " of "@
                + scope,
        },
    ]
}

/// The plan of a job that starts, stops or restarts a service.
pub fn execute(
    l: &Locations,
    scope: &str,
    process: &str,
    command: ProcessCommand,
    rid: RequestId,
) -> (r: Plan)
    ensures
        steps_view(r.steps@) == execute_steps(*l, scope@, process@, command, rid),
        r.body_from_output,
{
    let verb = match command {
        ProcessCommand::Start => "start",
        ProcessCommand::Stop => "stop",
        ProcessCommand::Restart => "restart",
    };
    let mut c = ExternalCommand::new(concat(l.systemd.as_str(), "systemctl"));
    c.arg(verb.to_owned());
    c.arg(process.to_owned());
    push_machine(&mut c, scope);
    assert(c.words() =~= seq![l.systemd@ + "systemctl"@, command_verb(command), process@]
        + machine_words(scope@));
    assert(crate::request::job::envs_view(c.envs@) =~= Seq::<(Seq<char>, Seq<char>)>::empty());
    let mut context = concat("Erroring executing ", verb);
    context.append(" on ");
    context.append(process);
    context.append(" of ");
    context.append(scope);
    let mut steps: Vec<Step> = Vec::new();
    assert(steps_view(steps@) =~= Seq::<StepView>::empty());
    push_step(
        &mut steps,
        Operation::Run { command: c, mode: CommandExecutionMode::Stream { request_id: rid } },
        OnFailure::Abort,
        context,
    );
    assert(steps_view(steps@) =~= execute_steps(*l, scope@, process@, command, rid));
    Plan { steps, body_from_output: true }
}

} // verus!
