//! Splitting a raw input line into tokens, with shell quoting and escaping.
//!
//! The scan reads the line left to right in one of three modes. Outside
//! quotes, whitespace separates tokens, a backslash takes the next character
//! literally, quotes open a quoted region and `>` is a redirection operator
//! (folded with a directly preceding bare `1` into `1>`). Inside single
//! quotes every character is literal. Inside double quotes a backslash only
//! escapes `"` and `\`. An unterminated quote is closed at the end of the
//! line with what it collected.

use vstd::prelude::*;
use crate::text::push_char;

verus! {

/// The three modes of the scan.
#[derive(Clone, Copy, PartialEq, Eq, Structural)]
pub enum Mode {
    Normal,
    Single,
    Double,
}

/// The state of the scan between two steps.
pub struct Lexing {
    /// Tokens already emitted, in order.
    pub done: Seq<Seq<char>>,
    /// Characters of the token in progress.
    pub cur: Seq<char>,
    /// Whether a token is in progress (it may still be empty: `''`).
    pub started: bool,
    /// Whether every character of the token in progress was typed unquoted
    /// and unescaped, and no quoted region was opened in it.
    pub bare: bool,
    pub mode: Mode,
}

/// Unicode's White_Space characters.
pub open spec fn is_space(c: char) -> bool {
    let u = c as u32;
    (0x09 <= u <= 0x0D) || u == 0x20 || u == 0x85 || u == 0xA0 || u == 0x1680
        || (0x2000 <= u <= 0x200A) || u == 0x2028 || u == 0x2029 || u == 0x202F
        || u == 0x205F || u == 0x3000
}

pub open spec fn initial() -> Lexing {
    Lexing { done: seq![], cur: seq![], started: false, bare: true, mode: Mode::Normal }
}

/// The state after emitting the token in progress.
pub open spec fn flushed(st: Lexing) -> Lexing {
    Lexing { done: st.done.push(st.cur), cur: seq![], started: false, bare: true, ..st }
}

/// The state after appending `more` to the token in progress.
pub open spec fn appended(st: Lexing, more: Seq<char>, bare: bool) -> Lexing {
    Lexing { cur: st.cur + more, started: true, bare: st.bare && bare, ..st }
}

/// The state after entering `mode`; opening or closing a quote starts a token.
pub open spec fn entered(st: Lexing, mode: Mode) -> Lexing {
    Lexing { started: true, bare: false, mode, ..st }
}

/// One step of the scan at position `i`: the next state and the position
/// after the characters the step consumed (one, or two for an escape).
pub open spec fn step(s: Seq<char>, i: int, st: Lexing) -> (Lexing, int) {
    let c = s[i];
    let has_next = i + 1 < s.len();
    match st.mode {
        Mode::Single => {
            if c == '\'' {
                (entered(st, Mode::Normal), i + 1)
            } else {
                (appended(st, seq![c], false), i + 1)
            }
        },
        Mode::Double => {
            if c == '"' {
                (entered(st, Mode::Normal), i + 1)
            } else if c == '\\' && has_next {
                let e = s[i + 1];
                if e == '"' || e == '\\' {
                    (appended(st, seq![e], false), i + 2)
                } else {
                    (appended(st, seq!['\\', e], false), i + 2)
                }
            } else {
                (appended(st, seq![c], false), i + 1)
            }
        },
        Mode::Normal => {
            if c == '\\' {
                if has_next {
                    (appended(st, seq![s[i + 1]], false), i + 2)
                } else {
                    (appended(st, seq!['\\'], false), i + 1)
                }
            } else if c == '\'' {
                (entered(st, Mode::Single), i + 1)
            } else if c == '"' {
                (entered(st, Mode::Double), i + 1)
            } else if c == '>' {
                if st.started && st.bare && st.cur == seq!['1'] {
                    (Lexing { done: st.done.push(seq!['1', '>']), ..flushed(st) }, i + 1)
                } else if st.started {
                    let f = flushed(st);
                    (Lexing { done: f.done.push(seq!['>']), ..f }, i + 1)
                } else {
                    (Lexing { done: st.done.push(seq!['>']), ..st }, i + 1)
                }
            } else if is_space(c) {
                if st.started {
                    (flushed(st), i + 1)
                } else {
                    (st, i + 1)
                }
            } else {
                (appended(st, seq![c], true), i + 1)
            }
        },
    }
}

/// The state at the end of the line, scanning from position `i` in state `st`.
pub open spec fn run(s: Seq<char>, i: int, st: Lexing) -> Lexing
    decreases s.len() - i,
{
    if i < 0 || i >= s.len() {
        st
    } else {
        let (next, j) = step(s, i, st);
        run(s, j, next)
    }
}

/// The tokens of line `s`.
pub open spec fn tokens_of(s: Seq<char>) -> Seq<Seq<char>> {
    let last = run(s, 0, initial());
    if last.started {
        last.done.push(last.cur)
    } else {
        last.done
    }
}

/// Inside single quotes, a stretch of characters with no `'` is appended to
/// the token in progress as it stands.
proof fn lemma_single_quoted_run(s: Seq<char>, i: int, j: int, st: Lexing)
    requires
        0 <= i <= j <= s.len(),
        st.mode == Mode::Single,
        st.started,
        !st.bare,
        forall|k: int| i <= k < j ==> s[k] != '\'',
    ensures
        run(s, i, st) == run(s, j, Lexing { cur: st.cur + s.subrange(i, j), ..st }),
    decreases j - i,
{
    if i < j {
        let next = appended(st, seq![s[i]], false);
        assert(step(s, i, st) == (next, i + 1));
        lemma_single_quoted_run(s, i + 1, j, next);
        assert(next.cur + s.subrange(i + 1, j) =~= st.cur + s.subrange(i, j));
    } else {
        assert(st.cur + s.subrange(i, j) =~= st.cur);
    }
}

/// Text holding no single quote, wrapped in single quotes, is one token equal
/// to the text, whatever double quotes, backslashes, spaces or `>` it holds.
pub proof fn lemma_single_quoted(t: Seq<char>)
    requires
        !t.contains('\''),
    ensures
        tokens_of(seq!['\''] + t + seq!['\'']) == seq![t],
{
    let s = seq!['\''] + t + seq!['\''];
    let n = s.len() as int;
    let opened = entered(initial(), Mode::Single);
    assert(step(s, 0, initial()) == (opened, 1int));
    assert forall|k: int| 1 <= k < n - 1 implies s[k] != '\'' by {
        assert(s[k] == t[k - 1]);
    }
    lemma_single_quoted_run(s, 1, n - 1, opened);
    let filled = Lexing { cur: opened.cur + s.subrange(1, n - 1), ..opened };
    assert(s.subrange(1, n - 1) =~= t);
    let closed = entered(filled, Mode::Normal);
    assert(step(s, n - 1, filled) == (closed, n));
    assert(run(s, n, closed) == closed);
    assert(run(s, n - 1, filled) == closed);
    assert(seq![].push(t) =~= seq![t]);
}

/// Whether `c` is one of Unicode's White_Space characters.
pub fn is_space_char(c: char) -> (r: bool)
    ensures
        r == is_space(c),
{
    let u = c as u32;
    (0x09 <= u && u <= 0x0D) || u == 0x20 || u == 0x85 || u == 0xA0 || u == 0x1680
        || (0x2000 <= u && u <= 0x200A) || u == 0x2028 || u == 0x2029 || u == 0x202F
        || u == 0x205F || u == 0x3000
}

/// Appends `t` to `tokens`.
fn emit(tokens: &mut Vec<String>, t: String)
    ensures
        final(tokens).deep_view() == old(tokens).deep_view().push(t@),
{
    tokens.push(t);
    assert(final(tokens).deep_view() =~= old(tokens).deep_view().push(t@));
}

/// The operator token `1>` if `folded`, else `>`.
fn operator(folded: bool) -> (r: String)
    ensures
        r@ == (if folded { seq!['1', '>'] } else { seq!['>'] }),
{
    proof {
        reveal_strlit("1>");
        reveal_strlit(">");
    }
    if folded {
        String::from_str("1>")
    } else {
        String::from_str(">")
    }
}

/// Whether `cur` holds exactly the character `1`.
fn is_one(cur: &String) -> (r: bool)
    ensures
        r == (cur@ == seq!['1']),
{
    let t = cur.as_str();
    if t.unicode_len() == 1 && t.get_char(0) == '1' {
        assert(cur@ =~= seq!['1']);
        true
    } else {
        false
    }
}

/// Splits `input` into tokens under the quoting and escaping rules above.
/// Never fails: an unterminated quote ends with the line.
pub fn tokenize(input: &str) -> (r: Vec<String>)
    ensures
        r.deep_view() == tokens_of(input@),
{
    let ghost s = input@;
    let n = input.unicode_len();
    let mut tokens: Vec<String> = Vec::new();
    let mut cur = String::new();
    let mut started = false;
    let mut bare = true;
    let mut mode = Mode::Normal;
    let ghost mut st = initial();
    let mut i: usize = 0;
    assert(tokens.deep_view() =~= seq![]);
    while i < n
        invariant
            s == input@,
            n == s.len(),
            i <= n,
            st.done == tokens.deep_view(),
            st.cur == cur@,
            st.started == started,
            st.bare == bare,
            st.mode == mode,
            run(s, i as int, st) == run(s, 0, initial()),
        decreases n - i,
    {
        let ghost (next, j) = step(s, i as int, st);
        let c = input.get_char(i);
        let has_next = i + 1 < n;
        match mode {
            Mode::Single => {
                if c == '\'' {
                    mode = Mode::Normal;
                } else {
                    push_char(&mut cur, c);
                }
                started = true;
                bare = false;
                i = i + 1;
            },
            Mode::Double => {
                if c == '"' {
                    mode = Mode::Normal;
                    i = i + 1;
                } else if c == '\\' && has_next {
                    let e = input.get_char(i + 1);
                    if e == '"' || e == '\\' {
                        push_char(&mut cur, e);
                    } else {
                        push_char(&mut cur, '\\');
                        push_char(&mut cur, e);
                    }
                    i = i + 2;
                } else {
                    push_char(&mut cur, c);
                    i = i + 1;
                }
                started = true;
                bare = false;
            },
            Mode::Normal => {
                if c == '\\' {
                    if has_next {
                        push_char(&mut cur, input.get_char(i + 1));
                        i = i + 2;
                    } else {
                        push_char(&mut cur, '\\');
                        i = i + 1;
                    }
                    started = true;
                    bare = false;
                } else if c == '\'' || c == '"' {
                    mode = if c == '\'' { Mode::Single } else { Mode::Double };
                    started = true;
                    bare = false;
                    i = i + 1;
                } else if c == '>' {
                    let folded = started && bare && is_one(&cur);
                    if started {
                        if !folded {
                            emit(&mut tokens, cur);
                        }
                        cur = String::new();
                        started = false;
                        bare = true;
                    }
                    emit(&mut tokens, operator(folded));
                    i = i + 1;
                } else if is_space_char(c) {
                    if started {
                        emit(&mut tokens, cur);
                        cur = String::new();
                        started = false;
                        bare = true;
                    }
                    i = i + 1;
                } else {
                    push_char(&mut cur, c);
                    started = true;
                    i = i + 1;
                }
            },
        }
        proof {
            assert(cur@ =~= next.cur);
            st = next;
        }
    }
    if started {
        emit(&mut tokens, cur);
    }
    tokens
}

} // verus!
