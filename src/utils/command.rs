use vstd::prelude::*;

use crate::request::models::RequestId;
use crate::utils::output::Output;
use crate::utils::string::{chars_of, decimal, decimal_chars, string_of};
use vstd::string::StringExecFns;

verus! {

/// The views of a sequence of strings.
pub open spec fn strings_view(v: Seq<String>) -> Seq<Seq<char>> {
    v.map_values(|s: String| s@)
}

/// A copy of `s`.
pub fn copy_string(s: &String) -> (r: String)
    ensures
        r@ == s@,
{
    s.clone()
}

/// An external program with its arguments and the environment variables
/// that are set for it.
pub struct ExternalCommand {
    pub program: String,
    pub args: Vec<String>,
    pub envs: Vec<(String, String)>,
}

impl ExternalCommand {
    /// The program followed by its arguments.
    pub open spec fn words(&self) -> Seq<Seq<char>> {
        seq![self.program@] + strings_view(self.args@)
    }

    /// A command that runs `program` with no arguments.
    pub fn new(program: String) -> (r: ExternalCommand)
        ensures
            r.program@ == program@,
            r.args@.len() == 0,
            r.envs@.len() == 0,
    {
        ExternalCommand { program, args: Vec::new(), envs: Vec::new() }
    }

    /// Adds `arg` after the arguments given so far.
    pub fn arg(&mut self, arg: String)
        ensures
            final(self).program == old(self).program,
            final(self).envs == old(self).envs,
            strings_view(final(self).args@) == strings_view(old(self).args@).push(arg@),
    {
        let ghost before = self.args@;
        self.args.push(arg);
        assert(strings_view(self.args@) =~= strings_view(before).push(arg@));
    }

    /// Sets the environment variable `key` to `value` for the program.
    pub fn env(&mut self, key: String, value: String)
        ensures
            final(self).program == old(self).program,
            final(self).args == old(self).args,
            final(self).envs@ == old(self).envs@.push((key, value)),
    {
        self.envs.push((key, value));
    }

    /// The command line as it is recorded: the program and each argument in
    /// double quotes, separated by single spaces. The environment is left
    /// out.
    pub fn render(&self) -> (r: String)
        ensures
            r@ == rendered(self.words()),
    {
        let mut out: Vec<char> = Vec::new();
        push_quoted(&mut out, &chars_of(self.program.as_str()));
        let ghost words = self.words();
        assert(words.skip(1) =~= strings_view(self.args@));
        assert(out@ + rendered_rest(words.skip(1)) == rendered(words));
        assert(strings_view(self.args@).skip(0) =~= strings_view(self.args@));
        let mut k: usize = 0;
        while k < self.args.len()
            invariant
                words == self.words(),
                k <= self.args@.len(),
                out@ + rendered_rest(strings_view(self.args@).skip(k as int)) == rendered(words),
            decreases self.args.len() - k,
        {
            let ghost rest = strings_view(self.args@).skip(k as int);
            assert(rest.skip(1) =~= strings_view(self.args@).skip(k + 1));
            let ghost before = out@;
            out.push(' ');
            push_quoted(&mut out, &chars_of(self.args[k].as_str()));
            assert(out@ + rendered_rest(rest.skip(1)) =~= before + rendered_rest(rest));
            k = k + 1;
        }
        assert(out@ + rendered_rest(strings_view(self.args@).skip(k as int)) =~= out@);
        string_of(&out)
    }
}

/// How a character is written inside double quotes: backslash and double
/// quote get a backslash before them.
pub open spec fn escape_char(c: char) -> Seq<char> {
    if c == '\\' || c == '"' {
        seq!['\\', c]
    } else {
        seq![c]
    }
}

/// `p` with each character escaped.
pub open spec fn escaped(p: Seq<char>) -> Seq<char>
    decreases p.len(),
{
    if p.len() == 0 {
        Seq::empty()
    } else {
        escape_char(p[0]) + escaped(p.skip(1))
    }
}

/// `p` escaped and put in double quotes.
pub open spec fn quoted(p: Seq<char>) -> Seq<char> {
    seq!['"'] + escaped(p) + seq!['"']
}

/// Each word quoted, with a space before it.
pub open spec fn rendered_rest(ws: Seq<Seq<char>>) -> Seq<char>
    decreases ws.len(),
{
    if ws.len() == 0 {
        Seq::empty()
    } else {
        seq![' '] + quoted(ws[0]) + rendered_rest(ws.skip(1))
    }
}

/// The words quoted and separated by single spaces.
pub open spec fn rendered(ws: Seq<Seq<char>>) -> Seq<char> {
    if ws.len() == 0 {
        Seq::empty()
    } else {
        quoted(ws[0]) + rendered_rest(ws.skip(1))
    }
}

fn push_quoted(out: &mut Vec<char>, p: &Vec<char>)
    ensures
        final(out)@ == old(out)@ + quoted(p@),
{
    let ghost start = out@;
    out.push('"');
    let mut i: usize = 0;
    assert(p@.skip(0) =~= p@);
    while i < p.len()
        invariant
            i <= p@.len(),
            out@ + escaped(p@.skip(i as int)) == start + seq!['"'] + escaped(p@),
        decreases p.len() - i,
    {
        let ghost rest = p@.skip(i as int);
        assert(rest.skip(1) =~= p@.skip(i + 1));
        let ghost before = out@;
        let c = p[i];
        if c == '\\' || c == '"' {
            out.push('\\');
        }
        out.push(c);
        assert(out@ + escaped(p@.skip(i + 1)) =~= before + escaped(rest));
        i = i + 1;
    }
    assert(p@.skip(i as int) =~= Seq::<char>::empty());
    assert(out@ + Seq::<char>::empty() =~= out@);
    out.push('"');
    assert(out@ =~= start + quoted(p@));
}

/// Where the reading of a recorded command line stands.
pub enum ReadState {
    Begin,
    ExpectQuote,
    InQuote { word: Seq<char> },
    Escape { word: Seq<char> },
    AfterQuote,
}

/// The words of the recorded command line `s`, read from `st` on, after the
/// words `done`.
pub open spec fn read_words(s: Seq<char>, st: ReadState, done: Seq<Seq<char>>) -> Option<
    Seq<Seq<char>>,
>
    decreases s.len(),
{
    if s.len() == 0 {
        match st {
            ReadState::Begin => Some(done),
            ReadState::AfterQuote => Some(done),
            _ => None,
        }
    } else {
        let c = s[0];
        let rest = s.skip(1);
        match st {
            ReadState::Begin => if c == '"' {
                read_words(rest, ReadState::InQuote { word: Seq::empty() }, done)
            } else {
                None
            },
            ReadState::ExpectQuote => if c == '"' {
                read_words(rest, ReadState::InQuote { word: Seq::empty() }, done)
            } else {
                None
            },
            ReadState::InQuote { word } => if c == '\\' {
                read_words(rest, ReadState::Escape { word }, done)
            } else if c == '"' {
                read_words(rest, ReadState::AfterQuote, done.push(word))
            } else {
                read_words(rest, ReadState::InQuote { word: word.push(c) }, done)
            },
            ReadState::Escape { word } => read_words(
                rest,
                ReadState::InQuote { word: word.push(c) },
                done,
            ),
            ReadState::AfterQuote => if c == ' ' {
                read_words(rest, ReadState::ExpectQuote, done)
            } else {
                None
            },
        }
    }
}

/// The words of a recorded command line, if it is well formed.
pub open spec fn words_of(s: Seq<char>) -> Option<Seq<Seq<char>>> {
    read_words(s, ReadState::Begin, Seq::empty())
}

proof fn lemma_read_quoted(p: Seq<char>, word: Seq<char>, rest: Seq<char>, done: Seq<Seq<char>>)
    ensures
        read_words(escaped(p) + seq!['"'] + rest, ReadState::InQuote { word }, done) == read_words(
            rest,
            ReadState::AfterQuote,
            done.push(word + p),
        ),
    decreases p.len(),
{
    reveal_with_fuel(read_words, 3);
    let s = escaped(p) + seq!['"'] + rest;
    if p.len() == 0 {
        assert(escaped(p) =~= Seq::<char>::empty());
        assert(s =~= seq!['"'] + rest);
        assert(s[0] == '"');
        assert(s.skip(1) =~= rest);
        assert(word + p =~= word);
    } else {
        let c = p[0];
        let tail = escaped(p.skip(1)) + seq!['"'] + rest;
        assert(escaped(p) == escape_char(c) + escaped(p.skip(1)));
        assert(word.push(c) + p.skip(1) =~= word + p);
        lemma_read_quoted(p.skip(1), word.push(c), rest, done);
        if c == '\\' || c == '"' {
            assert(s =~= seq!['\\', c] + tail);
            assert(s.skip(1) =~= seq![c] + tail);
            assert(s.skip(1).skip(1) =~= tail);
        } else {
            assert(s =~= seq![c] + tail);
            assert(s.skip(1) =~= tail);
        }
    }
}

proof fn lemma_read_rest(ws: Seq<Seq<char>>, done: Seq<Seq<char>>)
    ensures
        read_words(rendered_rest(ws), ReadState::AfterQuote, done) == Some(done + ws),
    decreases ws.len(),
{
    reveal_with_fuel(read_words, 3);
    if ws.len() == 0 {
        assert(done + ws =~= done);
    } else {
        let s = rendered_rest(ws);
        let after = rendered_rest(ws.skip(1));
        assert(s =~= seq![' ', '"'] + (escaped(ws[0]) + seq!['"'] + after));
        assert(s.skip(1) =~= seq!['"'] + (escaped(ws[0]) + seq!['"'] + after));
        assert(s.skip(1).skip(1) =~= escaped(ws[0]) + seq!['"'] + after);
        lemma_read_quoted(ws[0], Seq::empty(), after, done);
        assert(Seq::<char>::empty() + ws[0] =~= ws[0]);
        lemma_read_rest(ws.skip(1), done.push(ws[0]));
        assert(done.push(ws[0]) + ws.skip(1) =~= done + ws);
    }
}

/// Reading back a recorded command line gives the program and the arguments
/// that were recorded, all of them and in their order.
pub proof fn lemma_recorded_command_reads_back(ws: Seq<Seq<char>>)
    ensures
        words_of(rendered(ws)) == Some(ws),
{
    if ws.len() == 0 {
        assert(Seq::<Seq<char>>::empty() =~= ws);
    } else {
        let s = rendered(ws);
        let after = rendered_rest(ws.skip(1));
        assert(s =~= seq!['"'] + (escaped(ws[0]) + seq!['"'] + after));
        assert(s.skip(1) =~= escaped(ws[0]) + seq!['"'] + after);
        lemma_read_quoted(ws[0], Seq::empty(), after, Seq::empty());
        assert(Seq::<char>::empty() + ws[0] =~= ws[0]);
        lemma_read_rest(ws.skip(1), seq![ws[0]]);
        assert(Seq::<Seq<char>>::empty().push(ws[0]) =~= seq![ws[0]]);
        assert(seq![ws[0]] + ws.skip(1) =~= ws);
    }
}

/// The program and the arguments of a recorded command line, if it is well
/// formed.
pub fn parse_command_line(line: &str) -> (r: Option<Vec<String>>)
    ensures
        r is Some <==> words_of(line@) is Some,
        r matches Some(v) ==> strings_view(v@) == words_of(line@)->Some_0,
{
    let s = chars_of(line);
    let mut done: Vec<String> = Vec::new();
    let mut word: Vec<char> = Vec::new();
    // 0: at the start, 1: a quote is due, 2: in a word, 3: after a backslash,
    // 4: after a closing quote
    let mut mode: u8 = 0;
    let ghost st = ReadState::Begin;
    let mut i: usize = 0;
    assert(s@.skip(0) =~= s@);
    assert(strings_view(done@) =~= Seq::<Seq<char>>::empty());
    while i < s.len()
        invariant
            i <= s@.len(),
            mode <= 4,
            mode == 0 ==> st == ReadState::Begin,
            mode == 1 ==> st == ReadState::ExpectQuote,
            mode == 2 ==> st == (ReadState::InQuote { word: word@ }),
            mode == 3 ==> st == (ReadState::Escape { word: word@ }),
            mode == 4 ==> st == ReadState::AfterQuote,
            read_words(s@.skip(i as int), st, strings_view(done@)) == words_of(line@),
            s@ == line@,
        decreases s.len() - i,
    {
        let ghost rest = s@.skip(i as int);
        assert(rest.skip(1) =~= s@.skip(i + 1));
        let c = s[i];
        if mode == 0 || mode == 1 {
            if c == '"' {
                word = Vec::new();
                mode = 2;
                proof {
                    st = ReadState::InQuote { word: word@ };
                    assert(word@ =~= Seq::<char>::empty());
                }
            } else {
                return None;
            }
        } else if mode == 2 {
            if c == '\\' {
                mode = 3;
                proof {
                    st = ReadState::Escape { word: word@ };
                }
            } else if c == '"' {
                let ghost before = strings_view(done@);
                done.push(string_of(&word));
                assert(strings_view(done@) =~= before.push(word@));
                word = Vec::new();
                mode = 4;
                proof {
                    st = ReadState::AfterQuote;
                }
            } else {
                word.push(c);
                proof {
                    st = ReadState::InQuote { word: word@ };
                }
            }
        } else if mode == 3 {
            word.push(c);
            mode = 2;
            proof {
                st = ReadState::InQuote { word: word@ };
            }
        } else {
            if c == ' ' {
                mode = 1;
                proof {
                    st = ReadState::ExpectQuote;
                }
            } else {
                return None;
            }
        }
        i = i + 1;
    }
    assert(s@.skip(i as int) =~= Seq::<char>::empty());
    if mode == 0 || mode == 4 {
        Some(done)
    } else {
        None
    }
}


/// What went wrong in a file-system or process operation, as the operating
/// system reported it.
#[derive(PartialEq, Eq, Structural, Clone, Copy, Debug)]
pub enum IoErrorKind {
    NotFound,
    DirectoryNotEmpty,
    Other,
}

/// A failed file-system or process operation: its kind and the operating
/// system's message.
pub struct IoFailure {
    pub kind: IoErrorKind,
    pub message: String,
}

/// Why a command did not succeed.
pub enum CommandOutputError {
    /// The program ran and exited with a failure status; its standard error.
    OutputError { output: Vec<u8> },
    /// The program could not be started or waited for.
    CommandError { e: IoFailure },
}

/// How a command is run: for a caller that waits on it, with its output kept
/// in memory only; or as a step of a request, recorded in the request's
/// store.
pub enum CommandExecutionMode {
    Simple,
    Stream { request_id: RequestId },
}

/// What a command gives: its standard output, or why it failed.
pub type CommandResult = Result<Vec<u8>, CommandOutputError>;

/// How a finished process ended.
pub struct ProcessOutput {
    pub success: bool,
    pub stdout: Vec<u8>,
    pub stderr: Vec<u8>,
}

/// The result of a command from how its process ended, or from why it could
/// not be started.
pub fn command_result(launch: Result<ProcessOutput, IoFailure>) -> (r: CommandResult)
    ensures
        match launch {
            Ok(p) => if p.success {
                r matches Ok(out) && out@ == p.stdout@
            } else {
                r matches Err(CommandOutputError::OutputError { output }) && output@ == p.stderr@
            },
            Err(e) => r matches Err(CommandOutputError::CommandError { e: f }) && f.kind == e.kind
                && f.message@ == e.message@,
        },
{
    match launch {
        Ok(p) => if p.success {
            Ok(p.stdout)
        } else {
            Err(CommandOutputError::OutputError { output: p.stderr })
        },
        Err(e) => Err(CommandOutputError::CommandError { e }),
    }
}

/// The marker recorded for a step once its command has ended: `0` for
/// success, `1` for failure.
pub fn outcome_marker(result: &CommandResult) -> (r: String)
    ensures
        r@ == (if result is Ok {
            seq!['0']
        } else {
            seq!['1']
        }),
{
    let mut v: Vec<char> = Vec::new();
    if result.is_ok() {
        v.push('0');
    } else {
        v.push('1');
    }
    string_of(&v)
}

/// Bytes listed as `[1, 2, 3]`.
pub open spec fn byte_items(bs: Seq<u8>) -> Seq<char>
    decreases bs.len(),
{
    if bs.len() == 0 {
        Seq::empty()
    } else if bs.len() == 1 {
        decimal(bs[0] as nat)
    } else {
        byte_items(bs.drop_last()) + seq![',', ' '] + decimal(bs.last() as nat)
    }
}

/// Bytes listed in square brackets, in decimal, separated by `, `.
pub open spec fn byte_list(bs: Seq<u8>) -> Seq<char> {
    seq!['['] + byte_items(bs) + seq![']']
}

/// The bytes listed as `[1, 2, 3]`.
pub fn byte_list_string(bs: &Vec<u8>) -> (r: String)
    ensures
        r@ == byte_list(bs@),
{
    let mut items: Vec<char> = Vec::new();
    let mut i: usize = 0;
    while i < bs.len()
        invariant
            i <= bs@.len(),
            items@ == byte_items(bs@.take(i as int)),
        decreases bs.len() - i,
    {
        let ghost before = items@;
        assert(bs@.take(i + 1).drop_last() =~= bs@.take(i as int));
        if i > 0 {
            items.push(',');
            items.push(' ');
        }
        let d = decimal_chars(bs[i] as u64);
        let mut k: usize = 0;
        let ghost mid = items@;
        while k < d.len()
            invariant
                k <= d@.len(),
                items@ == mid + d@.take(k as int),
            decreases d.len() - k,
        {
            items.push(d[k]);
            k = k + 1;
            assert(items@ =~= mid + d@.take(k as int));
        }
        assert(d@.take(k as int) =~= d@);
        if i == 0 {
            assert(items@ =~= byte_items(bs@.take(1)));
        } else {
            assert(items@ =~= byte_items(bs@.take(i + 1)));
        }
        i = i + 1;
    }
    assert(bs@.take(i as int) =~= bs@);
    let mut out: Vec<char> = Vec::new();
    out.push('[');
    let mut k: usize = 0;
    while k < items.len()
        invariant
            k <= items@.len(),
            out@ == seq!['['] + items@.take(k as int),
        decreases items.len() - k,
    {
        out.push(items[k]);
        k = k + 1;
        assert(out@ =~= seq!['['] + items@.take(k as int));
    }
    out.push(']');
    assert(items@.take(k as int) =~= items@);
    assert(out@ =~= byte_list(bs@));
    string_of(&out)
}

/// The text of a command failure: the standard error where it is UTF-8,
/// else the bytes listed; or the operating system's message.
pub open spec fn failure_text(e: CommandOutputError) -> Seq<char> {
    match e {
        CommandOutputError::OutputError { output } => if vstd::utf8::valid_utf8(output@) {
            vstd::utf8::decode_utf8(output@)
        } else {
            "Non UTF8 output: "@ + byte_list(output@)
        },
        CommandOutputError::CommandError { e } => e.message@,
    }
}

impl CommandOutputError {
    /// The text of this failure.
    pub fn to_message(&self) -> (r: String)
        ensures
            r@ == failure_text(*self),
    {
        match self {
            CommandOutputError::OutputError { output } => {
                match Output::from_bytes(crate::utils::output::copy_bytes(output)) {
                    Output::UTF8 { output: text } => text,
                    Output::Bytes { output: raw } => {
                        let mut r = String::from_str("Non UTF8 output: ");
                        let list = byte_list_string(&raw);
                        r.append(list.as_str());
                        r
                    },
                }
            },
            CommandOutputError::CommandError { e } => copy_string(&e.message),
        }
    }
}

} // verus!
