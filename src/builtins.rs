//! The builtin commands and the text they print.

use vstd::prelude::*;
use crate::text::same_text;

verus! {

/// The closed set of commands run in-process.
#[derive(Clone, Copy, Debug, PartialEq, Eq, Structural)]
pub enum Builtin {
    Exit,
    Echo,
    Pwd,
    Cd,
    Type,
}

/// The builtin named `name`, if any.
pub open spec fn builtin_named(name: Seq<char>) -> Option<Builtin> {
    if name == "exit"@ {
        Some(Builtin::Exit)
    } else if name == "echo"@ {
        Some(Builtin::Echo)
    } else if name == "pwd"@ {
        Some(Builtin::Pwd)
    } else if name == "cd"@ {
        Some(Builtin::Cd)
    } else if name == "type"@ {
        Some(Builtin::Type)
    } else {
        None
    }
}

/// The builtin named `name`, if any.
pub fn builtin_of(name: &str) -> (r: Option<Builtin>)
    ensures
        r == builtin_named(name@),
{
    if same_text(name, "exit") {
        Some(Builtin::Exit)
    } else if same_text(name, "echo") {
        Some(Builtin::Echo)
    } else if same_text(name, "pwd") {
        Some(Builtin::Pwd)
    } else if same_text(name, "cd") {
        Some(Builtin::Cd)
    } else if same_text(name, "type") {
        Some(Builtin::Type)
    } else {
        None
    }
}

/// `words` joined by single spaces.
pub open spec fn joined(words: Seq<Seq<char>>) -> Seq<char>
    decreases words.len(),
{
    if words.len() == 0 {
        seq![]
    } else if words.len() == 1 {
        words[0]
    } else {
        joined(words.drop_last()) + seq![' '] + words.last()
    }
}

/// The arguments after the command name in argument vector `argv`.
pub open spec fn arguments(argv: Seq<Seq<char>>) -> Seq<Seq<char>> {
    if argv.len() == 0 {
        argv
    } else {
        argv.skip(1)
    }
}

/// What `echo` prints for argument vector `argv`: the arguments after the
/// command name, joined by single spaces (the newline is added on output).
pub fn echo_text(argv: &[String]) -> (r: String)
    ensures
        r@ == joined(arguments(argv.deep_view())),
{
    let ghost av = argv.deep_view();
    let mut out = String::new();
    let mut i: usize = 1;
    if argv.len() <= 1 {
        assert(arguments(av) =~= seq![]);
        return out;
    }
    while i < argv.len()
        invariant
            av == argv.deep_view(),
            1 <= i <= argv.len(),
            out@ == joined(av.subrange(1, i as int)),
        decreases argv.len() - i,
    {
        if i > 1 {
            out.append(" ");
        }
        out.append(argv[i].as_str());
        proof {
            reveal_strlit(" ");
            assert(" "@ =~= seq![' ']);
            let w = av.subrange(1, i + 1);
            assert(w.drop_last() =~= av.subrange(1, i as int));
            assert(out@ =~= joined(w));
        }
        i = i + 1;
    }
    assert(av.subrange(1, argv.len() as int) =~= av.skip(1));
    out
}

/// What `type` prints for a name that is a builtin.
pub fn builtin_report(name: &str) -> (r: String)
    ensures
        r@ == name@ + " is a shell builtin"@,
{
    let mut r = String::from_str(name);
    r.append(" is a shell builtin");
    r
}

/// What `type` prints for a name that is no builtin: its path on the search
/// path if `found` holds one, else that it was not found.
pub fn external_report(name: &str, found: Option<String>) -> (r: String)
    ensures
        r@ == match found {
            Some(p) => name@ + " is "@ + p@,
            None => name@ + ": not found"@,
        },
{
    let mut r = String::from_str(name);
    match found {
        Some(p) => {
            r.append(" is ");
            r.append(p.as_str());
        },
        None => {
            r.append(": not found");
        },
    }
    r
}

/// What is printed for a command that is neither a builtin nor found.
pub fn not_found_message(name: &str) -> (r: String)
    ensures
        r@ == name@ + ": command not found"@,
{
    let mut r = String::from_str(name);
    r.append(": command not found");
    r
}

/// What `cd` prints when its target is missing or cannot be entered.
pub fn cd_failure_message(target: &str) -> (r: String)
    ensures
        r@ == "cd: "@ + target@ + ": No such file or directory"@,
{
    let mut r = String::from_str("cd: ");
    r.append(target);
    r.append(": No such file or directory");
    r
}

} // verus!
