//! The command line of the debugging client: its arguments, the commands it
//! sends, and the names of the sockets it looks for.

use crate::shared_string::str_eq;
use vstd::prelude::*;
use vstd::string::StringExecFns;

verus! {

/// Whether `c` is whitespace: one of the code points that Unicode gives the
/// property White_Space.
pub open spec fn is_whitespace(c: char) -> bool {
    let n = c as u32;
    ||| 0x09 <= n <= 0x0D
    ||| n == 0x20
    ||| n == 0x85
    ||| n == 0xA0
    ||| n == 0x1680
    ||| 0x2000 <= n <= 0x200A
    ||| n == 0x2028
    ||| n == 0x2029
    ||| n == 0x202F
    ||| n == 0x205F
    ||| n == 0x3000
}

/// The string without its leading whitespace.
pub open spec fn trimmed_start(s: Seq<char>) -> Seq<char>
    decreases s.len(),
{
    if s.len() > 0 && is_whitespace(s.first()) {
        trimmed_start(s.drop_first())
    } else {
        s
    }
}

/// The string without its trailing whitespace.
pub open spec fn trimmed_end(s: Seq<char>) -> Seq<char>
    decreases s.len(),
{
    if s.len() > 0 && is_whitespace(s.last()) {
        trimmed_end(s.drop_last())
    } else {
        s
    }
}

/// The string without its leading and trailing whitespace.
pub open spec fn trimmed(s: Seq<char>) -> Seq<char> {
    trimmed_end(trimmed_start(s))
}

/// `pattern` stands in `s` at `i`.
pub open spec fn occurs_at(s: Seq<char>, pattern: Seq<char>, i: int) -> bool {
    0 <= i && i + pattern.len() <= s.len() && s.subrange(i, i + pattern.len()) == pattern
}

/// `str::trim` returns the slice without leading and trailing whitespace,
/// where whitespace is what Unicode's property White_Space says.
#[verifier::external_body]
fn trim(s: &str) -> (r: &str)
    ensures
        r@ == trimmed(s@),
{
    s.trim()
}

/// `str::strip_prefix` returns the rest of the string after the prefix, or
/// nothing if the string does not start with the prefix.
#[verifier::external_body]
fn strip_prefix<'a>(s: &'a str, prefix: &str) -> (r: Option<&'a str>)
    ensures
        match r {
            Some(rest) => s@ == prefix@ + rest@,
            None => !prefix@.is_prefix_of(s@),
        },
{
    s.strip_prefix(prefix)
}

/// `str::starts_with` tells whether the string starts with the prefix.
#[verifier::external_body]
fn starts_with(s: &str, prefix: &str) -> (r: bool)
    ensures
        r == prefix@.is_prefix_of(s@),
{
    s.starts_with(prefix)
}

/// `str::ends_with` tells whether the string ends with the suffix.
#[verifier::external_body]
fn ends_with(s: &str, suffix: &str) -> (r: bool)
    ensures
        r == suffix@.is_suffix_of(s@),
{
    s.ends_with(suffix)
}

/// `str::contains` tells whether the pattern stands anywhere in the string.
#[verifier::external_body]
fn contains(s: &str, pattern: &str) -> (r: bool)
    ensures
        r == exists|i: int| occurs_at(s@, pattern@, i),
{
    s.contains(pattern)
}

/// A command as the client sends it: the method and, for a screenshot, the
/// path of the file to write.
#[derive(Debug, Clone, Copy, PartialEq, Eq)]
pub struct Command<'a> {
    pub method: &'a str,
    pub path: Option<&'a str>,
}

/// `method` and `path` are the command of a trimmed line, where `argument`
/// is what follows `screenshot ` on the line, trimmed, if the line starts so:
/// with an argument the method is `screenshot` and the argument, unless
/// empty, its path; without one the line is the method.
pub open spec fn is_command_for(
    line: Seq<char>,
    argument: Option<Seq<char>>,
    method: Seq<char>,
    path: Option<Seq<char>>,
) -> bool {
    match argument {
        Some(rest) => {
            &&& method == "screenshot"@
            &&& path == if rest.len() == 0 {
                None
            } else {
                Some(rest)
            }
        },
        None => method == line && path.is_none(),
    }
}

/// `method` and `path` are what the command line `input` asks for:
/// `screenshot <path>` is the method `screenshot` with the trimmed path, or
/// without a path if nothing but whitespace follows; anything else is a
/// method by itself, trimmed.
pub open spec fn is_command(input: Seq<char>, method: Seq<char>, path: Option<Seq<char>>) -> bool {
    let line = trimmed(input);
    let argument = if "screenshot "@.is_prefix_of(line) {
        Some(trimmed(line.skip("screenshot "@.len() as int)))
    } else {
        None
    };
    is_command_for(line, argument, method, path)
}

/// The command of a trimmed line and of what follows `screenshot ` on it.
pub fn command_for<'a>(line: &'a str, argument: Option<&'a str>) -> (r: Command<'a>)
    ensures
        is_command_for(
            line@,
            match argument {
                Some(a) => Some(a@),
                None => None,
            },
            r.method@,
            match r.path {
                Some(p) => Some(p@),
                None => None,
            },
        ),
{
    match argument {
        Some(path) => {
            if path.is_empty() {
                Command { method: "screenshot", path: None }
            } else {
                Command { method: "screenshot", path: Some(path) }
            }
        },
        None => Command { method: line, path: None },
    }
}

/// Parses a command line into a method and its parameter.
pub fn parse_command<'a>(input: &'a str) -> (r: Command<'a>)
    ensures
        is_command(
            input@,
            r.method@,
            match r.path {
                Some(p) => Some(p@),
                None => None,
            },
        ),
{
    let line = trim(input);
    match strip_prefix(line, "screenshot ") {
        Some(rest) => {
            proof {
                let prefix = "screenshot "@;
                assert((prefix + rest@).subrange(0, prefix.len() as int) =~= prefix);
                assert(prefix.is_prefix_of(line@));
                assert(line@.skip(prefix.len() as int) =~= rest@);
            }
            command_for(line, Some(trim(rest)))
        },
        None => command_for(line, None),
    }
}

/// What the interactive client does with a line of input.
#[derive(Debug, Clone, Copy, PartialEq, Eq)]
pub enum ReplStep<'a> {
    /// The line is blank: ask for the next one.
    Skip,
    /// The line is `quit` or `exit`: stop.
    Quit,
    /// Send this command and print the answer.
    Send(Command<'a>),
}

/// What a trimmed line of input is to the interactive client.
#[derive(Debug, Clone, Copy, PartialEq, Eq, Structural)]
pub enum LineKind {
    /// Nothing.
    Blank,
    /// The word `quit` or the word `exit`.
    Quit,
    /// Anything else: a command to send.
    Command,
}

/// What the trimmed line `line` is.
pub open spec fn line_kind(line: Seq<char>) -> LineKind {
    if line.len() == 0 {
        LineKind::Blank
    } else if line == "quit"@ || line == "exit"@ {
        LineKind::Quit
    } else {
        LineKind::Command
    }
}

/// Tells what a trimmed line of input is.
pub fn classify_line(line: &str) -> (kind: LineKind)
    ensures
        kind == line_kind(line@),
{
    if line.is_empty() {
        LineKind::Blank
    } else if str_eq(line, "quit") || str_eq(line, "exit") {
        LineKind::Quit
    } else {
        LineKind::Command
    }
}

/// `step` is what the line `input` asks of the interactive client.
pub open spec fn is_repl_step(input: Seq<char>, step: ReplStep) -> bool {
    let line = trimmed(input);
    match line_kind(line) {
        LineKind::Blank => step == ReplStep::Skip,
        LineKind::Quit => step == ReplStep::Quit,
        LineKind::Command => step matches ReplStep::Send(command) && is_command(
            line,
            command.method@,
            match command.path {
                Some(p) => Some(p@),
                None => None,
            },
        ),
    }
}

/// Decides what the interactive client does with a line of input.
pub fn repl_step<'a>(input: &'a str) -> (step: ReplStep<'a>)
    ensures
        is_repl_step(input@, step),
{
    let line = trim(input);
    match classify_line(line) {
        LineKind::Blank => ReplStep::Skip,
        LineKind::Quit => ReplStep::Quit,
        LineKind::Command => ReplStep::Send(parse_command(line)),
    }
}

/// How the client shows a response.
#[derive(Debug, Clone, Copy, PartialEq, Eq, Structural)]
pub enum Presentation {
    /// The whole response as one line of JSON, on standard output.
    ResponseJson,
    /// The error's code and message, on standard error.
    ErrorText,
    /// The word `null`.
    Null,
    /// Nothing at all.
    Nothing,
    /// The result as indented JSON.
    PrettyJson,
    /// The scene statistics as a table.
    Stats,
    /// The quads as a table.
    Quads,
    /// The text runs as a table.
    TextRuns,
    /// The path and size of the screenshot.
    Screenshot,
}

/// How a response to `method` is shown: an error as JSON or as text; an
/// empty response as `null` or not at all; a result as indented JSON when
/// JSON was asked for or the method has no table of its own.
pub open spec fn presentation_of(
    method: Seq<char>,
    has_error: bool,
    has_result: bool,
    json: bool,
) -> Presentation {
    if has_error {
        if json {
            Presentation::ResponseJson
        } else {
            Presentation::ErrorText
        }
    } else if !has_result {
        if json {
            Presentation::Null
        } else {
            Presentation::Nothing
        }
    } else if json {
        Presentation::PrettyJson
    } else if method == "scene.stats"@ {
        Presentation::Stats
    } else if method == "scene.quads"@ {
        Presentation::Quads
    } else if method == "scene.text_runs"@ {
        Presentation::TextRuns
    } else if method == "screenshot"@ {
        Presentation::Screenshot
    } else {
        Presentation::PrettyJson
    }
}

/// Decides how the client shows a response.
pub fn presentation(method: &str, has_error: bool, has_result: bool, json: bool) -> (r:
    Presentation)
    ensures
        r == presentation_of(method@, has_error, has_result, json),
{
    if has_error {
        if json {
            Presentation::ResponseJson
        } else {
            Presentation::ErrorText
        }
    } else if !has_result {
        if json {
            Presentation::Null
        } else {
            Presentation::Nothing
        }
    } else if json {
        Presentation::PrettyJson
    } else if str_eq(method, "scene.stats") {
        Presentation::Stats
    } else if str_eq(method, "scene.quads") {
        Presentation::Quads
    } else if str_eq(method, "scene.text_runs") {
        Presentation::TextRuns
    } else if str_eq(method, "screenshot") {
        Presentation::Screenshot
    } else {
        Presentation::PrettyJson
    }
}

/// Whether a file name in the socket directory is the socket of a running
/// application: `motif-debug-*.sock`, but not one that a test made.
pub fn is_debug_socket_name(name: &str) -> (r: bool)
    ensures
        r == ("motif-debug-"@.is_prefix_of(name@) && ".sock"@.is_suffix_of(name@) && !(exists|
            i: int,
        |
            occurs_at(name@, "-test-"@, i))),
{
    starts_with(name, "motif-debug-") && ends_with(name, ".sock") && !contains(name, "-test-")
}

/// The options of a run of the client.
#[derive(Debug, Clone, PartialEq, Eq)]
pub struct Args {
    /// Print raw JSON.
    pub json: bool,
    /// The socket to connect to, where one was named.
    pub socket: Option<String>,
    /// The command to send; without one the client reads commands from its
    /// input.
    pub command: Option<String>,
}

/// What a command line asks for.
#[derive(Debug, Clone, PartialEq, Eq)]
pub enum Invocation {
    /// Run the client with these options.
    Run(Args),
    /// Print the usage and succeed.
    Help,
    /// `--socket` was the last argument: print an error and fail.
    MissingSocketPath,
    /// An argument starts with `-` and is no known flag: print an error that
    /// names it and fail.
    UnknownFlag(String),
}

/// What the arguments read so far have set.
pub struct Scan {
    pub json: bool,
    pub socket: Option<Seq<char>>,
    pub positional: Seq<Seq<char>>,
}

/// What a command line asks for, over the characters of its arguments.
pub enum Outcome {
    Run(Scan),
    Help,
    MissingSocketPath,
    UnknownFlag(Seq<char>),
}

/// Reads the arguments from `i` on, left to right. The first argument that
/// ends the reading decides: a request for help, a `--socket` without a path,
/// or an unknown flag.
pub open spec fn scan(args: Seq<Seq<char>>, i: int, so_far: Scan) -> Outcome
    decreases args.len() - i,
{
    if i < 0 || i >= args.len() {
        Outcome::Run(so_far)
    } else if args[i] == "--json"@ {
        scan(args, i + 1, Scan { json: true, ..so_far })
    } else if args[i] == "--socket"@ {
        if i + 1 >= args.len() {
            Outcome::MissingSocketPath
        } else {
            scan(args, i + 2, Scan { socket: Some(args[i + 1]), ..so_far })
        }
    } else if args[i] == "--help"@ || args[i] == "-h"@ {
        Outcome::Help
    } else if "-"@.is_prefix_of(args[i]) {
        Outcome::UnknownFlag(args[i])
    } else {
        scan(args, i + 1, Scan { positional: so_far.positional.push(args[i]), ..so_far })
    }
}

/// The words joined by single spaces.
pub open spec fn joined(words: Seq<Seq<char>>) -> Seq<char>
    decreases words.len(),
{
    if words.len() == 0 {
        Seq::empty()
    } else if words.len() == 1 {
        words[0]
    } else {
        joined(words.drop_last()) + " "@ + words.last()
    }
}

/// The command of a run: the positional arguments joined by spaces, so that
/// `screenshot /tmp/a.png` means the same quoted or not; none without
/// positional arguments.
pub open spec fn command_of(positional: Seq<Seq<char>>) -> Option<Seq<char>> {
    if positional.len() == 0 {
        None
    } else {
        Some(joined(positional))
    }
}

/// The characters of each argument.
pub open spec fn words(args: Seq<String>) -> Seq<Seq<char>> {
    args.map_values(|a: String| a@)
}

/// `invocation` is what `outcome` says, string by string.
pub open spec fn is_outcome(invocation: Invocation, outcome: Outcome) -> bool {
    match (invocation, outcome) {
        (Invocation::Run(args), Outcome::Run(scanned)) => {
            &&& args.json == scanned.json
            &&& match (args.socket, scanned.socket) {
                (Some(a), Some(b)) => a@ == b,
                (None, None) => true,
                _ => false,
            }
            &&& match (args.command, command_of(scanned.positional)) {
                (Some(a), Some(b)) => a@ == b,
                (None, None) => true,
                _ => false,
            }
        },
        (Invocation::Help, Outcome::Help) => true,
        (Invocation::MissingSocketPath, Outcome::MissingSocketPath) => true,
        (Invocation::UnknownFlag(a), Outcome::UnknownFlag(b)) => a@ == b,
        _ => false,
    }
}

/// Parses the arguments of the client, the program's name not among them.
pub fn parse_args(args: &[String]) -> (r: Invocation)
    ensures
        is_outcome(
            r,
            scan(words(args@), 0, Scan { json: false, socket: None, positional: Seq::empty() }),
        ),
{
    let mut json = false;
    let mut socket: Option<String> = None;
    let mut command: Option<String> = None;
    let ghost mut so_far = Scan { json: false, socket: None, positional: Seq::empty() };
    let ghost all = words(args@);
    let ghost start = so_far;
    let mut i: usize = 0;

    while i < args.len()
        invariant
            i <= args.len(),
            all == words(args@),
            start == (Scan { json: false, socket: None, positional: Seq::empty() }),
            scan(all, 0, start) == scan(all, i as int, so_far),
            json == so_far.json,
            match (socket, so_far.socket) {
                (Some(a), Some(b)) => a@ == b,
                (None, None) => true,
                _ => false,
            },
            match (command, command_of(so_far.positional)) {
                (Some(a), Some(b)) => a@ == b,
                (None, None) => true,
                _ => false,
            },
        decreases args.len() - i,
    {
        let arg = args[i].as_str();
        if str_eq(arg, "--json") {
            json = true;
            proof {
                so_far = Scan { json: true, ..so_far };
            }
        } else if str_eq(arg, "--socket") {
            i += 1;
            if i >= args.len() {
                return Invocation::MissingSocketPath;
            }
            socket = Some(args[i].clone());
            proof {
                so_far = Scan { socket: Some(all[i as int]), ..so_far };
            }
        } else if str_eq(arg, "--help") || str_eq(arg, "-h") {
            return Invocation::Help;
        } else if starts_with(arg, "-") {
            return Invocation::UnknownFlag(args[i].clone());
        } else {
            // Positional arguments are joined into one command string.
            let ghost before = so_far.positional;
            command = match command {
                Some(joined_so_far) => Some(joined_so_far.concat(" ").concat(arg)),
                None => Some(args[i].clone()),
            };
            proof {
                so_far = Scan { positional: before.push(arg@), ..so_far };
                assert(before.push(arg@).drop_last() =~= before);
            }
        }
        i += 1;
    }
    Invocation::Run(Args { json, socket, command })
}

} // verus!
