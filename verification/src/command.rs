//! The textual command grammar shared by keybindings and the inter-process
//! control input: newline-delimited command words, each resolving to one
//! structured command. A single input may carry several commands; a line
//! that matches no command word fails the whole input.

use vstd::prelude::*;
use vstd::string::StrSliceExecFns;
use vstd::string::StringExecFns;

verus! {

/// A resolved, executable action derived from a keybinding or from parsed
/// control-input text.
#[derive(Clone, Copy, PartialEq, Eq, Structural, Debug)]
pub enum Command {
    /// Leave the run loop; the only legitimate way the application exits.
    Quit,
    /// Skip to the next queue item (a user-forced skip).
    Next,
    /// Return to the previous queue item.
    Previous,
    /// Resume playback.
    Play,
    /// Pause playback.
    Pause,
    /// Toggle between playing and paused.
    PlayPause,
    /// Stop playback.
    Stop,
}

/// The error returned when control input does not parse. Malformed input is
/// logged and dropped; it never interrupts the run loop.
#[derive(Clone, Copy, PartialEq, Eq, Structural, Debug)]
pub struct ParseError {}

impl ParseError {
    /// A human-readable description of the failure, for the log.
    pub fn message(&self) -> (r: String)
        ensures
            r@ == "could not parse command input"@,
    {
        String::from_str("could not parse command input")
    }
}

/// The number of characters before the first line break (or before the end,
/// where no line break occurs).
pub open spec fn line_len(s: Seq<char>) -> nat
    decreases s.len(),
{
    if s.len() == 0 {
        0
    } else if s[0] == '\n' {
        0
    } else {
        (1 + line_len(s.skip(1))) as nat
    }
}

/// The command that a single line resolves to, if any.
pub open spec fn command_of_line(line: Seq<char>) -> Option<Command> {
    if line == "quit"@ {
        Some(Command::Quit)
    } else if line == "next"@ {
        Some(Command::Next)
    } else if line == "previous"@ {
        Some(Command::Previous)
    } else if line == "play"@ {
        Some(Command::Play)
    } else if line == "pause"@ {
        Some(Command::Pause)
    } else if line == "playpause"@ {
        Some(Command::PlayPause)
    } else if line == "stop"@ {
        Some(Command::Stop)
    } else {
        None
    }
}

/// What an input parses to: the commands of its lines in order, empty lines
/// skipped; `None` as soon as one line resolves to no command.
pub open spec fn spec_parse(s: Seq<char>) -> Option<Seq<Command>>
    decreases s.len(),
{
    if s.len() == 0 {
        Some(Seq::<Command>::empty())
    } else {
        let ll = line_len(s);
        let line = if ll < s.len() {
            s.take(ll as int)
        } else {
            s
        };
        let rest = if ll < s.len() {
            s.skip(ll + 1 as int)
        } else {
            Seq::<char>::empty()
        };
        if line.len() == 0 {
            spec_parse(rest)
        } else {
            match command_of_line(line) {
                Some(cmd) => match spec_parse(rest) {
                    Some(cmds) => Some(cmds.insert(0, cmd)),
                    None => None,
                },
                None => None,
            }
        }
    }
}

proof fn lemma_line_len_at(s: Seq<char>, j: int)
    requires
        0 <= j <= s.len(),
        forall|k: int| 0 <= k < j ==> s[k] != '\n',
        j == s.len() || s[j] == '\n',
    ensures
        line_len(s) == j,
    decreases j,
{
    if s.len() == 0 {
    } else if j == 0 {
    } else {
        assert(s[0] != '\n');
        assert forall|k: int| 0 <= k < j - 1 implies s.skip(1)[k] != '\n' by {
            assert(s.skip(1)[k] == s[k + 1]);
        }
        if j < s.len() {
            assert(s.skip(1)[j - 1] == s[j]);
        }
        lemma_line_len_at(s.skip(1), j - 1);
    }
}

/// The index of the first line break in `s`, or its length where none occurs.
fn find_line_end(s: &str) -> (j: usize)
    ensures
        j <= s@.len(),
        forall|k: int| 0 <= k < j ==> s@[k] != '\n',
        j < s@.len() ==> s@[j as int] == '\n',
        line_len(s@) == j,
{
    let len = s.unicode_len();
    let mut j: usize = 0;
    while j < len
        invariant
            j <= len,
            len == s@.len(),
            forall|k: int| 0 <= k < j ==> s@[k] != '\n',
        decreases len - j,
    {
        if s.get_char(j) == '\n' {
            proof {
                lemma_line_len_at(s@, j as int);
            }
            return j;
        }
        j += 1;
    }
    proof {
        lemma_line_len_at(s@, j as int);
    }
    j
}

/// Whether two string slices hold the same characters.
fn str_eq(a: &str, b: &str) -> (r: bool)
    ensures
        r == (a@ == b@),
{
    let alen = a.unicode_len();
    let blen = b.unicode_len();
    if alen != blen {
        return false;
    }
    let mut i: usize = 0;
    while i < alen
        invariant
            i <= alen,
            alen == a@.len(),
            alen == b@.len(),
            forall|k: int| 0 <= k < i ==> a@[k] == b@[k],
        decreases alen - i,
    {
        if a.get_char(i) != b.get_char(i) {
            return false;
        }
        i += 1;
    }
    proof {
        assert(a@ =~= b@);
    }
    true
}

/// Resolve one line to its command, exactly as [`command_of_line`] does.
fn command_of_line_exec(line: &str) -> (r: Option<Command>)
    ensures
        r == command_of_line(line@),
{
    if str_eq(line, "quit") {
        Some(Command::Quit)
    } else if str_eq(line, "next") {
        Some(Command::Next)
    } else if str_eq(line, "previous") {
        Some(Command::Previous)
    } else if str_eq(line, "play") {
        Some(Command::Play)
    } else if str_eq(line, "pause") {
        Some(Command::Pause)
    } else if str_eq(line, "playpause") {
        Some(Command::PlayPause)
    } else if str_eq(line, "stop") {
        Some(Command::Stop)
    } else {
        None
    }
}

/// Parse one input into the commands of its lines, in line order.
///
/// Succeeds exactly when every non-empty line is a command word; a single
/// unrecognised line fails the whole input and no commands are returned.
pub fn parse(input: &str) -> (r: Result<Vec<Command>, ParseError>)
    ensures
        (r matches Ok(cmds) ==> spec_parse(input@) == Some(cmds@)),
        (r is Err <==> spec_parse(input@) is None),
    decreases input@.len(),
{
    let len = input.unicode_len();
    if len == 0 {
        let empty: Vec<Command> = Vec::new();
        assert(empty@ =~= Seq::<Command>::empty());
        return Ok(empty);
    }
    let j = find_line_end(input);
    let line = input.substring_char(0, j);
    let rest: &str = if j < len {
        input.substring_char(j + 1, len)
    } else {
        input.substring_char(len, len)
    };
    proof {
        if j < len {
            assert(line@ =~= input@.take(j as int));
            assert(rest@ =~= input@.skip(j + 1));
        } else {
            assert(line@ =~= input@);
            assert(rest@ =~= Seq::<char>::empty());
        }
    }
    if j == 0 {
        assert(line@.len() == 0);
        parse(rest)
    } else {
        assert(line@.len() > 0);
        match command_of_line_exec(line) {
            Some(cmd) => match parse(rest) {
                Ok(mut cmds) => {
                    cmds.insert(0, cmd);
                    Ok(cmds)
                },
                Err(e) => Err(e),
            },
            None => Err(ParseError {}),
        }
    }
}

} // verus!
