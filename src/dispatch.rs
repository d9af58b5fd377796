//! The dispatcher's decisions: from an input line to a parsed command, from
//! a command name to what runs it, and from a builtin to the action it asks
//! of its surroundings.

use vstd::prelude::*;
use crate::builtins::{builtin_named, builtin_of, builtin_report, echo_text, joined, arguments, Builtin};
use crate::lexer::{tokenize, tokens_of};
use crate::redirect::{opt_view, split_spec, split_stdout_redirection};

verus! {

/// `s` without the line-end characters (`\n`, `\r`) at its end.
pub open spec fn strip_line_end(s: Seq<char>) -> Seq<char>
    decreases s.len(),
{
    if s.len() > 0 && (s.last() == '\n' || s.last() == '\r') {
        strip_line_end(s.drop_last())
    } else {
        s
    }
}

/// A parsed command: its argument vector, never empty, and the file its
/// standard output goes to, if redirected.
pub struct CommandLine {
    pub argv: Vec<String>,
    pub redirect: Option<String>,
}

/// The argument vector and redirection target of input line `line`.
pub open spec fn parsed(line: Seq<char>) -> (Seq<Seq<char>>, Option<Seq<char>>) {
    split_spec(tokens_of(strip_line_end(line)))
}

/// Parses one input line: drops its line end, tokenizes it and splits off
/// the redirection. `None` where no argument is left (a blank line).
pub fn parse_line(line: &str) -> (r: Option<CommandLine>)
    ensures
        match r {
            Some(c) => parsed(line@).0.len() > 0 && c.argv.deep_view() == parsed(line@).0
                && opt_view(c.redirect) == parsed(line@).1,
            None => parsed(line@).0.len() == 0,
        },
{
    let mut end = line.unicode_len();
    assert(line@.subrange(0, end as int) =~= line@);
    while end > 0 && (line.get_char(end - 1) == '\n' || line.get_char(end - 1) == '\r')
        invariant
            end <= line@.len(),
            strip_line_end(line@.subrange(0, end as int)) == strip_line_end(line@),
        decreases end,
    {
        let ghost t = line@.subrange(0, end as int);
        assert(t.drop_last() =~= line@.subrange(0, end - 1));
        end = end - 1;
    }
    let body = line.substring_char(0, end);
    assert(body@ == strip_line_end(line@)) by {
        let t = line@.subrange(0, end as int);
        if end > 0 {
            assert(t.last() == line@[end - 1]);
        }
    }
    let tokens = tokenize(body);
    let (argv, redirect) = split_stdout_redirection(tokens.as_slice());
    if argv.len() == 0 {
        None
    } else {
        Some(CommandLine { argv, redirect })
    }
}

/// What a command name resolves to.
pub enum Resolved {
    /// A builtin, run in-process.
    Builtin(Builtin),
    /// An executable file found on the search path.
    External(String),
    /// Neither: the name as typed.
    NotFound(String),
}

/// Resolves command name `name`, given `found`, the file the search path
/// offers for it, if any. A builtin wins over any file of the same name.
pub fn resolve_command(name: &str, found: Option<String>) -> (r: Resolved)
    ensures
        builtin_named(name@) is Some ==> r == Resolved::Builtin(builtin_named(name@)->0),
        builtin_named(name@) is None && found is Some ==> r == Resolved::External(found->0),
        builtin_named(name@) is None && found is None ==> r is NotFound && r->NotFound_0@
            == name@,
{
    match builtin_of(name) {
        Some(b) => Resolved::Builtin(b),
        None => match found {
            Some(p) => Resolved::External(p),
            None => Resolved::NotFound(String::from_str(name)),
        },
    }
}

/// What a builtin asks of its surroundings.
pub enum Action {
    /// End the interactive loop.
    Exit,
    /// Write this line to the command's output.
    Print(String),
    /// Write the current working directory to the command's output.
    PrintWorkingDir,
    /// Change the working directory to this target, as typed.
    ChangeDir(String),
    /// Nothing at all.
    Stay,
    /// Search this name on the search path and report the outcome.
    Describe(String),
}

/// The action of builtin `b` run with argument vector `argv`.
pub fn builtin_action(b: Builtin, argv: &[String]) -> (r: Action)
    ensures
        b == Builtin::Exit ==> r is Exit,
        b == Builtin::Echo ==> r is Print && r->Print_0@ == joined(
            arguments(argv.deep_view()),
        ),
        b == Builtin::Pwd ==> r is PrintWorkingDir,
        b == Builtin::Cd && argv.len() < 2 ==> r is Stay,
        b == Builtin::Cd && argv.len() >= 2 ==> r is ChangeDir && r->ChangeDir_0@ == argv[1]@,
        b == Builtin::Type && argv.len() < 2 ==> r is Print && r->Print_0@ == "type: not found"@,
        b == Builtin::Type && argv.len() >= 2 && builtin_named(argv[1]@) is Some ==> r is Print
            && r->Print_0@ == argv[1]@ + " is a shell builtin"@,
        b == Builtin::Type && argv.len() >= 2 && builtin_named(argv[1]@) is None ==> r is Describe
            && r->Describe_0@ == argv[1]@,
{
    match b {
        Builtin::Exit => Action::Exit,
        Builtin::Echo => Action::Print(echo_text(argv)),
        Builtin::Pwd => Action::PrintWorkingDir,
        Builtin::Cd => {
            if argv.len() < 2 {
                Action::Stay
            } else {
                Action::ChangeDir(argv[1].clone())
            }
        },
        Builtin::Type => {
            if argv.len() < 2 {
                Action::Print(String::from_str("type: not found"))
            } else if builtin_of(argv[1].as_str()).is_some() {
                Action::Print(builtin_report(argv[1].as_str()))
            } else {
                Action::Describe(argv[1].clone())
            }
        },
    }
}

/// The directory `cd` enters for target `raw`: `~` is the home directory and
/// `~/rest` is `rest` below it; any other target stands as typed. `None`
/// where the target needs the home directory and `home` holds none.
pub open spec fn home_expanded(raw: Seq<char>, home: Option<Seq<char>>) -> Option<Seq<char>> {
    if raw == seq!['~'] {
        home
    } else if raw.len() >= 2 && raw[0] == '~' && raw[1] == '/' {
        match home {
            Some(h) => Some(h + raw.skip(1)),
            None => None,
        }
    } else {
        Some(raw)
    }
}

/// The directory `cd` enters for target `raw`, given the home directory.
pub fn expand_home(raw: &str, home: Option<String>) -> (r: Option<String>)
    ensures
        opt_view(r) == home_expanded(raw@, opt_view(home)),
{
    let n = raw.unicode_len();
    if n == 0 || raw.get_char(0) != '~' {
        return Some(String::from_str(raw));
    }
    if n == 1 {
        assert(raw@ =~= seq!['~']);
        return home;
    }
    if raw.get_char(1) != '/' {
        assert(raw@ != seq!['~']);
        return Some(String::from_str(raw));
    }
    match home {
        Some(h) => {
            let mut r = h;
            r.append(raw.substring_char(1, n));
            assert(raw@.subrange(1, n as int) =~= raw@.skip(1));
            Some(r)
        },
        None => None,
    }
}

} // verus!
