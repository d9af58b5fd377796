//! Separating a token sequence into the argument vector and an optional
//! standard-output redirection target.

use vstd::prelude::*;
use crate::text::same_text;

verus! {

/// The operator `>`.
pub open spec fn gt() -> Seq<char> {
    seq!['>']
}

/// Whether `t` is a standalone redirection operator: `>` or `1>`.
pub open spec fn is_operator(t: Seq<char>) -> bool {
    t == gt() || t == seq!['1', '>']
}

/// The view of an optional string.
pub open spec fn opt_view(o: Option<String>) -> Option<Seq<char>> {
    match o {
        Some(s) => Some(s@),
        None => None,
    }
}

/// Splitting `ts` from position `i`, with the arguments `argv` and the
/// target `target` gathered from the positions before it. An operator
/// followed by a token takes that token as the target, replacing any earlier
/// one; an operator at the end is kept as an argument. The pair `1`, `>` acts
/// as one operator.
pub open spec fn split_from(
    ts: Seq<Seq<char>>,
    i: int,
    argv: Seq<Seq<char>>,
    target: Option<Seq<char>>,
) -> (Seq<Seq<char>>, Option<Seq<char>>)
    decreases ts.len() - i,
{
    if i < 0 || i >= ts.len() {
        (argv, target)
    } else if is_operator(ts[i]) {
        if i + 1 < ts.len() {
            split_from(ts, i + 2, argv, Some(ts[i + 1]))
        } else {
            split_from(ts, i + 1, argv.push(ts[i]), target)
        }
    } else if ts[i] == seq!['1'] && i + 1 < ts.len() && ts[i + 1] == gt() {
        if i + 2 < ts.len() {
            split_from(ts, i + 3, argv, Some(ts[i + 2]))
        } else {
            split_from(ts, i + 2, argv.push(ts[i]).push(ts[i + 1]), target)
        }
    } else {
        split_from(ts, i + 1, argv.push(ts[i]), target)
    }
}

/// The argument vector and redirection target of token sequence `ts`.
pub open spec fn split_spec(ts: Seq<Seq<char>>) -> (Seq<Seq<char>>, Option<Seq<char>>) {
    split_from(ts, 0, seq![], None)
}

fn is_gt(t: &String) -> (r: bool)
    ensures
        r == (t@ == gt()),
{
    proof {
        reveal_strlit(">");
        assert(">"@ =~= gt());
    }
    same_text(t.as_str(), ">")
}

fn is_one(t: &String) -> (r: bool)
    ensures
        r == (t@ == seq!['1']),
{
    proof {
        reveal_strlit("1");
        assert("1"@ =~= seq!['1']);
    }
    same_text(t.as_str(), "1")
}

fn is_operator_token(t: &String) -> (r: bool)
    ensures
        r == is_operator(t@),
{
    proof {
        reveal_strlit("1>");
        assert("1>"@ =~= seq!['1', '>']);
    }
    is_gt(t) || same_text(t.as_str(), "1>")
}

fn push_copy(argv: &mut Vec<String>, t: &String)
    ensures
        final(argv).deep_view() == old(argv).deep_view().push(t@),
{
    argv.push(t.clone());
    assert(final(argv).deep_view() =~= old(argv).deep_view().push(t@));
}

/// Splits `tokens` into the argument vector and the redirection target:
/// the operand of the last `>` or `1>` that has one.
pub fn split_stdout_redirection(tokens: &[String]) -> (r: (Vec<String>, Option<String>))
    ensures
        (r.0.deep_view(), opt_view(r.1)) == split_spec(tokens.deep_view()),
{
    let ghost ts = tokens.deep_view();
    let mut argv: Vec<String> = Vec::new();
    let mut redirect: Option<String> = None;
    let n = tokens.len();
    let mut i: usize = 0;
    assert(argv.deep_view() =~= seq![]);
    while i < n
        invariant
            ts == tokens.deep_view(),
            n == ts.len(),
            i <= n,
            split_from(ts, i as int, argv.deep_view(), opt_view(redirect)) == split_spec(ts),
        decreases n - i,
    {
        let t = &tokens[i];
        if is_operator_token(t) {
            if i + 1 < n {
                redirect = Some(tokens[i + 1].clone());
                i = i + 2;
            } else {
                push_copy(&mut argv, t);
                i = i + 1;
            }
        } else if is_one(t) && i + 1 < n && is_gt(&tokens[i + 1]) {
            if i + 2 < n {
                redirect = Some(tokens[i + 2].clone());
                i = i + 3;
            } else {
                push_copy(&mut argv, t);
                push_copy(&mut argv, &tokens[i + 1]);
                i = i + 2;
            }
        } else {
            push_copy(&mut argv, t);
            i = i + 1;
        }
    }
    (argv, redirect)
}

} // verus!
